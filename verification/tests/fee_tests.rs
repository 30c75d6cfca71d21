use forge_runner::fee::{EthFeeSettings, FeeArgs, FeeSettings, FeeToken, StrkFee, StrkFeeSettings};

#[test]
fn test_happy_case_eth() {
    let args = FeeArgs {
        fee_token: Some(FeeToken::Eth),
        max_fee: Some(100),
        max_gas: None,
        max_gas_unit_price: None,
    };

    let settings: FeeSettings = FeeSettings::try_from(args).unwrap();

    assert_eq!(
        settings,
        FeeSettings::Eth(EthFeeSettings {
            max_fee: Some(100)
        })
    );
}

#[test]
fn test_happy_case_strk() {
    let args = FeeArgs {
        fee_token: Some(FeeToken::Strk),
        max_fee: None,
        max_gas: Some(100),
        max_gas_unit_price: Some(100),
    };

    let settings: FeeSettings = FeeSettings::try_from(args).unwrap();

    assert_eq!(
        settings,
        FeeSettings::Strk(StrkFeeSettings {
            max_fee: None,
            max_gas: Some(100),
            max_gas_unit_price: Some(100),
        })
    );
}

#[test]
fn test_max_gas_eth() {
    let args = FeeArgs {
        fee_token: Some(FeeToken::Eth),
        max_fee: Some(100),
        max_gas: Some(100),
        max_gas_unit_price: None,
    };

    let error = FeeSettings::try_from(args).unwrap_err();

    assert!(error
        .message()
        .contains("Max gas is not supported for ETH fee payment"));
}

#[test]
fn test_max_gas_unit_price_eth() {
    let args = FeeArgs {
        fee_token: Some(FeeToken::Eth),
        max_fee: Some(100),
        max_gas: None,
        max_gas_unit_price: Some(100),
    };

    let error = FeeSettings::try_from(args).unwrap_err();

    assert!(error
        .message()
        .contains("Max gas unit price is not supported for ETH fee payment"));
}

#[test]
fn test_max_fee_strk() {
    let args = FeeArgs {
        fee_token: Some(FeeToken::Strk),
        max_fee: Some(10000),
        max_gas: Some(100),
        max_gas_unit_price: Some(100),
    };

    let settings: FeeSettings = FeeSettings::try_from(args).unwrap();

    assert_eq!(
        settings,
        FeeSettings::Strk(StrkFeeSettings {
            max_fee: Some(10000),
            max_gas: Some(100),
            max_gas_unit_price: Some(100),
        })
    );
}

#[test]
fn test_max_gas_unit_price_strk() {
    let args = FeeArgs {
        fee_token: Some(FeeToken::Strk),
        max_fee: None,
        max_gas: None,
        max_gas_unit_price: Some(100),
    };

    let settings: FeeSettings = FeeSettings::try_from(args).unwrap();

    assert_eq!(
        settings,
        FeeSettings::Strk(StrkFeeSettings {
            max_fee: None,
            max_gas: None,
            max_gas_unit_price: Some(100),
        })
    );
}

#[test]
fn test_max_gas_strk() {
    let args = FeeArgs {
        fee_token: Some(FeeToken::Strk),
        max_fee: None,
        max_gas: Some(100),
        max_gas_unit_price: None,
    };

    let settings: FeeSettings = FeeSettings::try_from(args).unwrap();

    assert_eq!(
        settings,
        FeeSettings::Strk(StrkFeeSettings {
            max_fee: None,
            max_gas: Some(100),
            max_gas_unit_price: None,
        })
    );
}

#[test]
fn test_no_fee_token() {
    let args = FeeArgs {
        fee_token: None,
        max_fee: Some(100),
        max_gas: Some(100),
        max_gas_unit_price: Some(100),
    };

    let error = FeeSettings::try_from(args).unwrap_err();

    assert!(error.message().contains("Fee token is not provided"));
}

#[test]
fn test_max_fee_not_eq_max_gas_and_max_gas_unit_price() {
    let args = FeeArgs {
        fee_token: Some(FeeToken::Strk),
        max_fee: Some(100),
        max_gas: Some(100),
        max_gas_unit_price: Some(100),
    };

    let error = FeeSettings::try_from(args).unwrap_err();

    assert!(error.message().contains(
        "Max fee should be equal to max gas amount multiplied by max gas unit price"
    ));
}

#[test]
fn test_max_fee_less_than_max_gas() {
    let args = FeeArgs {
        fee_token: Some(FeeToken::Strk),
        max_fee: Some(50),
        max_gas: Some(100),
        max_gas_unit_price: None,
    };

    let error = FeeSettings::try_from(args).unwrap_err();

    assert!(error
        .message()
        .contains("Max fee should be greater than or equal to max gas amount"));
}

#[test]
fn test_max_fee_less_than_max_gas_unit_price() {
    let args = FeeArgs {
        fee_token: Some(FeeToken::Strk),
        max_fee: Some(50),
        max_gas: None,
        max_gas_unit_price: Some(100),
    };

    let error = FeeSettings::try_from(args).unwrap_err();

    assert!(error
        .message()
        .contains("Max fee should be greater than or equal to max gas unit price"));
}

#[test]
fn test_eth_fee_get_or_estimate() {
    let given = EthFeeSettings { max_fee: Some(77) };
    assert_eq!(given.get_or_estimate(1000).max_fee, 77);

    let estimated = EthFeeSettings { max_fee: None };
    assert_eq!(estimated.get_or_estimate(1000).max_fee, 1000);
}

#[test]
fn test_strk_fee_get_or_estimate_explicit_bounds() {
    let settings = StrkFeeSettings {
        max_fee: None,
        max_gas: Some(100),
        max_gas_unit_price: Some(3),
    };
    let fee: StrkFee = settings.get_or_estimate(999, 999).unwrap();
    assert_eq!(fee.max_gas, 100);
    assert_eq!(fee.max_gas_unit_price, 3);
}

#[test]
fn test_strk_fee_get_or_estimate_from_fee_bound() {
    let settings = StrkFeeSettings {
        max_fee: Some(1000),
        max_gas: None,
        max_gas_unit_price: Some(3),
    };
    let fee: StrkFee = settings.get_or_estimate(50, 2).unwrap();
    assert_eq!(fee.max_gas, 333);
    assert_eq!(fee.max_gas_unit_price, 3);
}

#[test]
fn test_strk_fee_get_or_estimate_price_from_fee_and_gas() {
    let settings = StrkFeeSettings {
        max_fee: Some(1000),
        max_gas: Some(40),
        max_gas_unit_price: None,
    };
    let fee: StrkFee = settings.get_or_estimate(50, 2).unwrap();
    assert_eq!(fee.max_gas, 40);
    assert_eq!(fee.max_gas_unit_price, 25);
}
