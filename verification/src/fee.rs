use vstd::prelude::*;
use vstd::string::StringExecFns;

verus! {

/// Token a transaction fee is paid in.
#[derive(Debug, Clone, Copy)]
pub enum FeeToken {
    Eth,
    Strk,
}

/// Fee bounds as given on the command line, still unchecked. Fee amounts
/// are held as plain nonnegative integers.
#[derive(Debug, Clone, Copy)]
pub struct FeeArgs {
    /// Token that transaction fee will be paid in.
    pub fee_token: Option<FeeToken>,
    /// Max fee for the transaction. If not provided, will be automatically
    /// estimated.
    pub max_fee: Option<u128>,
    /// Max gas amount. If not provided, will be automatically estimated.
    /// (Only for STRK fee payment.)
    pub max_gas: Option<u64>,
    /// Max gas price in STRK. If not provided, will be automatically
    /// estimated. (Only for STRK fee payment.)
    pub max_gas_unit_price: Option<u128>,
}

#[derive(Debug, PartialEq)]
pub struct EthFeeSettings {
    pub max_fee: Option<u128>,
}

pub struct EthFee {
    pub max_fee: u128,
}

#[derive(Debug, PartialEq)]
pub struct StrkFeeSettings {
    pub max_fee: Option<u128>,
    pub max_gas: Option<u64>,
    pub max_gas_unit_price: Option<u128>,
}

pub struct StrkFee {
    pub max_gas: u64,
    pub max_gas_unit_price: u128,
}

#[derive(Debug, PartialEq)]
pub enum FeeSettings {
    Eth(EthFeeSettings),
    Strk(StrkFeeSettings),
}

/// Why fee arguments were rejected.
#[derive(Debug, PartialEq, Eq, Structural, Clone, Copy)]
pub enum FeeError {
    /// No fee token was given.
    FeeTokenNotProvided,
    /// A gas bound was given for ETH fee payment.
    EthMaxGasNotSupported,
    /// A gas unit price was given for ETH fee payment.
    EthMaxGasUnitPriceNotSupported,
    /// All three STRK bounds were given but do not agree.
    StrkFeeMismatch,
    /// The fee bound is under the gas bound.
    StrkFeeLessThanGas,
    /// The fee bound is under the gas unit price bound.
    StrkFeeLessThanGasUnitPrice,
    /// A derived gas amount does not fit in 64 bits.
    GasAmountOutOfRange,
}

impl FeeError {
    /// The reason in words.
    pub fn message(&self) -> (r: String)
        ensures
            *self == FeeError::FeeTokenNotProvided ==> r@ == "Fee token is not provided"@,
            *self == FeeError::EthMaxGasNotSupported ==> r@
                == "Max gas is not supported for ETH fee payment"@,
            *self == FeeError::EthMaxGasUnitPriceNotSupported ==> r@
                == "Max gas unit price is not supported for ETH fee payment"@,
            *self == FeeError::StrkFeeMismatch ==> r@
                == "Max fee should be equal to max gas amount multiplied by max gas unit price"@,
            *self == FeeError::StrkFeeLessThanGas ==> r@
                == "Max fee should be greater than or equal to max gas amount"@,
            *self == FeeError::StrkFeeLessThanGasUnitPrice ==> r@
                == "Max fee should be greater than or equal to max gas unit price"@,
            *self == FeeError::GasAmountOutOfRange ==> r@ == "max gas amount is out of range"@,
    {
        match self {
            FeeError::FeeTokenNotProvided => String::from_str("Fee token is not provided"),
            FeeError::EthMaxGasNotSupported => String::from_str(
                "Max gas is not supported for ETH fee payment",
            ),
            FeeError::EthMaxGasUnitPriceNotSupported => String::from_str(
                "Max gas unit price is not supported for ETH fee payment",
            ),
            FeeError::StrkFeeMismatch => String::from_str(
                "Max fee should be equal to max gas amount multiplied by max gas unit price",
            ),
            FeeError::StrkFeeLessThanGas => String::from_str(
                "Max fee should be greater than or equal to max gas amount",
            ),
            FeeError::StrkFeeLessThanGasUnitPrice => String::from_str(
                "Max fee should be greater than or equal to max gas unit price",
            ),
            FeeError::GasAmountOutOfRange => String::from_str("max gas amount is out of range"),
        }
    }
}

/// What checking the fee arguments yields: the settings of the chosen
/// token's kind, or the first objection, in the order the checks are made.
pub open spec fn spec_fee_settings(args: FeeArgs) -> Result<FeeSettings, FeeError> {
    match args.fee_token {
        None => Err(FeeError::FeeTokenNotProvided),
        Some(FeeToken::Eth) => {
            if args.max_gas is Some {
                Err(FeeError::EthMaxGasNotSupported)
            } else if args.max_gas_unit_price is Some {
                Err(FeeError::EthMaxGasUnitPriceNotSupported)
            } else {
                Ok(FeeSettings::Eth(EthFeeSettings { max_fee: args.max_fee }))
            }
        },
        Some(FeeToken::Strk) => {
            match (args.max_fee, args.max_gas, args.max_gas_unit_price) {
                (Some(max_fee), Some(max_gas), Some(max_gas_unit_price)) => {
                    if max_fee != max_gas * max_gas_unit_price {
                        Err(FeeError::StrkFeeMismatch)
                    } else {
                        Ok(
                            FeeSettings::Strk(
                                StrkFeeSettings {
                                    max_fee: args.max_fee,
                                    max_gas: args.max_gas,
                                    max_gas_unit_price: args.max_gas_unit_price,
                                },
                            ),
                        )
                    }
                },
                (Some(max_fee), Some(max_gas), None) => {
                    if max_fee < max_gas {
                        Err(FeeError::StrkFeeLessThanGas)
                    } else {
                        Ok(
                            FeeSettings::Strk(
                                StrkFeeSettings {
                                    max_fee: args.max_fee,
                                    max_gas: args.max_gas,
                                    max_gas_unit_price: None,
                                },
                            ),
                        )
                    }
                },
                (Some(max_fee), None, Some(max_gas_unit_price)) => {
                    if max_fee < max_gas_unit_price {
                        Err(FeeError::StrkFeeLessThanGasUnitPrice)
                    } else {
                        Ok(
                            FeeSettings::Strk(
                                StrkFeeSettings {
                                    max_fee: args.max_fee,
                                    max_gas: None,
                                    max_gas_unit_price: args.max_gas_unit_price,
                                },
                            ),
                        )
                    }
                },
                _ => Ok(
                    FeeSettings::Strk(
                        StrkFeeSettings {
                            max_fee: args.max_fee,
                            max_gas: args.max_gas,
                            max_gas_unit_price: args.max_gas_unit_price,
                        },
                    ),
                ),
            }
        },
    }
}

impl FeeSettings {
    /// Check fee arguments: an ETH fee takes no gas bounds, and STRK bounds
    /// given together must agree with one another.
    pub fn try_from(args: FeeArgs) -> (r: Result<FeeSettings, FeeError>)
        ensures
            r == spec_fee_settings(args),
    {
        match args.fee_token {
            None => Err(FeeError::FeeTokenNotProvided),
            Some(FeeToken::Eth) => {
                if args.max_gas.is_some() {
                    Err(FeeError::EthMaxGasNotSupported)
                } else if args.max_gas_unit_price.is_some() {
                    Err(FeeError::EthMaxGasUnitPriceNotSupported)
                } else {
                    Ok(FeeSettings::Eth(EthFeeSettings { max_fee: args.max_fee }))
                }
            },
            Some(FeeToken::Strk) => {
                match (args.max_fee, args.max_gas, args.max_gas_unit_price) {
                    (Some(max_fee), Some(max_gas), Some(max_gas_unit_price)) => {
                        let product: Option<u128> = (max_gas as u128).checked_mul(
                            max_gas_unit_price,
                        );
                        let mismatch: bool = match product {
                            Some(p) => max_fee != p,
                            None => true,
                        };
                        proof {
                            if product is None {
                                assert(max_gas * max_gas_unit_price > u128::MAX);
                            }
                        }
                        if mismatch {
                            Err(FeeError::StrkFeeMismatch)
                        } else {
                            Ok(
                                FeeSettings::Strk(
                                    StrkFeeSettings {
                                        max_fee: args.max_fee,
                                        max_gas: args.max_gas,
                                        max_gas_unit_price: args.max_gas_unit_price,
                                    },
                                ),
                            )
                        }
                    },
                    (Some(max_fee), Some(max_gas), None) => {
                        if max_fee < max_gas as u128 {
                            Err(FeeError::StrkFeeLessThanGas)
                        } else {
                            Ok(
                                FeeSettings::Strk(
                                    StrkFeeSettings {
                                        max_fee: args.max_fee,
                                        max_gas: args.max_gas,
                                        max_gas_unit_price: None,
                                    },
                                ),
                            )
                        }
                    },
                    (Some(max_fee), None, Some(max_gas_unit_price)) => {
                        if max_fee < max_gas_unit_price {
                            Err(FeeError::StrkFeeLessThanGasUnitPrice)
                        } else {
                            Ok(
                                FeeSettings::Strk(
                                    StrkFeeSettings {
                                        max_fee: args.max_fee,
                                        max_gas: None,
                                        max_gas_unit_price: args.max_gas_unit_price,
                                    },
                                ),
                            )
                        }
                    },
                    _ => Ok(
                        FeeSettings::Strk(
                            StrkFeeSettings {
                                max_fee: args.max_fee,
                                max_gas: args.max_gas,
                                max_gas_unit_price: args.max_gas_unit_price,
                            },
                        ),
                    ),
                }
            },
        }
    }
}

impl EthFeeSettings {
    /// The fee bound to use: the given one, or the estimate the caller
    /// obtained from the network.
    pub fn get_or_estimate(&self, estimated_fee: u128) -> (r: EthFee)
        ensures
            r.max_fee == (match self.max_fee {
                Some(f) => f,
                None => estimated_fee,
            }),
    {
        match self.max_fee {
            Some(max_fee) => EthFee { max_fee },
            None => EthFee { max_fee: estimated_fee },
        }
    }
}

/// The gas bounds a STRK deployment uses, given the settings and the
/// caller's network estimate: explicit bounds win, a lone fee bound is
/// divided by the effective unit price (or by the gas amount) to derive the
/// missing bound.
pub open spec fn spec_strk_fee(
    settings: StrkFeeSettings,
    estimated_gas: u64,
    estimated_unit_price: u128,
) -> Result<StrkFee, FeeError> {
    let max_gas = match settings.max_gas {
        Some(g) => g,
        None => estimated_gas,
    };
    let max_gas_unit_price = match settings.max_gas_unit_price {
        Some(p) => p,
        None => estimated_unit_price,
    };
    match (settings.max_fee, settings.max_gas, settings.max_gas_unit_price) {
        (Some(max_fee), None, _) => {
            if max_fee / max_gas_unit_price > u64::MAX {
                Err(FeeError::GasAmountOutOfRange)
            } else {
                Ok(StrkFee { max_gas: (max_fee / max_gas_unit_price) as u64, max_gas_unit_price })
            }
        },
        (Some(max_fee), Some(g), None) => Ok(
            StrkFee { max_gas, max_gas_unit_price: max_fee / (g as u128) },
        ),
        _ => Ok(StrkFee { max_gas, max_gas_unit_price }),
    }
}

impl StrkFeeSettings {
    /// Resolve the gas bounds from the settings and the caller's estimate.
    /// A fee bound is divided by the effective unit price or gas amount, so
    /// the divisor of the chosen branch must not be zero.
    pub fn get_or_estimate(&self, estimated_gas: u64, estimated_unit_price: u128) -> (r: Result<
        StrkFee,
        FeeError,
    >)
        requires
            self.max_fee is Some && self.max_gas is None ==> (match self.max_gas_unit_price {
                Some(p) => p != 0,
                None => estimated_unit_price != 0,
            }),
            self.max_fee is Some && self.max_gas is Some && self.max_gas_unit_price is None
                ==> (match self.max_gas {
                Some(g) => g != 0,
                None => true,
            }),
        ensures
            r == spec_strk_fee(*self, estimated_gas, estimated_unit_price),
    {
        let max_gas: u64 = match self.max_gas {
            Some(g) => g,
            None => estimated_gas,
        };
        let max_gas_unit_price: u128 = match self.max_gas_unit_price {
            Some(p) => p,
            None => estimated_unit_price,
        };
        match (self.max_fee, self.max_gas, self.max_gas_unit_price) {
            (Some(max_fee), None, _) => {
                let quotient: u128 = max_fee / max_gas_unit_price;
                if quotient > u64::MAX as u128 {
                    Err(FeeError::GasAmountOutOfRange)
                } else {
                    Ok(StrkFee { max_gas: quotient as u64, max_gas_unit_price })
                }
            },
            (Some(max_fee), Some(g), None) => Ok(
                StrkFee { max_gas, max_gas_unit_price: max_fee / (g as u128) },
            ),
            _ => Ok(StrkFee { max_gas, max_gas_unit_price }),
        }
    }
}

} // verus!
