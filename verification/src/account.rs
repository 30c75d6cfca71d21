use vstd::prelude::*;
use vstd::string::StringExecFns;
use crate::fee::{spec_fee_settings, FeeArgs, FeeError, FeeSettings, FeeToken};

verus! {

/// Version of the account deployment (can be inferred from fee token).
#[derive(Debug, Clone, Copy)]
pub enum AccountDeployVersion {
    V1,
    V3,
}

/// The flavors of account contract the deployment knows how to address.
#[derive(Debug, PartialEq, Eq, Structural, Clone, Copy)]
pub enum AccountType {
    Argent,
    Oz,
    Braavos,
}

/// What an account file holds about one account, before deployment. Field
/// elements are abstracted to plain nonnegative integers.
#[derive(Debug)]
pub struct AccountData {
    pub private_key: u128,
    pub public_key: u128,
    pub salt: Option<u128>,
    pub deployed: Option<bool>,
    pub class_hash: Option<u128>,
    pub account_type: Option<AccountType>,
}

/// Why an account deployment was rejected before any network work.
#[derive(Debug, PartialEq, Eq, Structural, Clone, Copy)]
pub enum DeployError {
    /// An ETH fee was asked for a v3 deployment.
    EthNotSupportedForV3,
    /// A STRK fee was asked for a v1 deployment.
    StrkNotSupportedForV1,
    /// Neither a fee token nor a version was given.
    FeeTokenOrVersionMissing,
    /// The account file has no deployment status.
    StatusMissing,
    /// The account is already deployed.
    AlreadyDeployed,
    /// The stored public key does not belong to the keystore's private key.
    KeyMismatch,
    /// The account file has no salt.
    SaltMissing,
    /// The account file has no account type.
    AccountTypeMissing,
    /// The account file has no class hash.
    ClassHashMissing,
    /// No keystore was given and the command does not name the account.
    AccountNameMissing,
}

/// The text of the fee-token/version objection, around the two names.
pub open spec fn spec_token_msg(fee_token: Seq<char>, deployment: Seq<char>) -> Seq<char> {
    fee_token + " fee token is not supported for "@ + deployment
        + " deployment.\n\nPossible values:\n+---------+----------+\n| Version | FeeToken |\n+---------+----------+\n| v1      | eth      |\n| v3      | strk     |\n+---------+----------+\n"@
}

/// The objection raised when a fee token does not fit a deployment version,
/// with the table of accepted pairs.
pub fn token_not_supported_error_msg(fee_token: &str, deployment: &str) -> (r: String)
    ensures
        r@ == spec_token_msg(fee_token@, deployment@),
{
    let mut s = String::from_str(fee_token);
    s.append(" fee token is not supported for ");
    s.append(deployment);
    s.append(
        " deployment.\n\nPossible values:\n+---------+----------+\n| Version | FeeToken |\n+---------+----------+\n| v1      | eth      |\n| v3      | strk     |\n+---------+----------+\n",
    );
    proof {
        assert(s@ =~= spec_token_msg(fee_token@, deployment@));
    }
    s
}

impl DeployError {
    /// The objection in words.
    pub fn message(&self) -> (r: String)
        ensures
            *self == DeployError::EthNotSupportedForV3 ==> r@ == spec_token_msg("eth"@, "v3"@),
            *self == DeployError::StrkNotSupportedForV1 ==> r@ == spec_token_msg("strk"@, "v1"@),
            *self == DeployError::FeeTokenOrVersionMissing ==> r@
                == "--fee-token or --version must be provided"@,
            *self == DeployError::StatusMissing ==> r@
                == "Failed to get status key from account JSON file"@,
            *self == DeployError::AlreadyDeployed ==> r@ == "Account already deployed"@,
            *self == DeployError::KeyMismatch ==> r@
                == "Public key and private key from keystore do not match"@,
            *self == DeployError::SaltMissing ==> r@ == "Failed to get salt from keystore"@,
            *self == DeployError::AccountTypeMissing ==> r@
                == "Failed to get account type from keystore"@,
            *self == DeployError::ClassHashMissing ==> r@
                == "Failed to get class hash from keystore"@,
            *self == DeployError::AccountNameMissing ==> r@
                == "Required argument `--name` not provided"@,
    {
        match self {
            DeployError::EthNotSupportedForV3 => token_not_supported_error_msg("eth", "v3"),
            DeployError::StrkNotSupportedForV1 => token_not_supported_error_msg("strk", "v1"),
            DeployError::FeeTokenOrVersionMissing => String::from_str(
                "--fee-token or --version must be provided",
            ),
            DeployError::StatusMissing => String::from_str(
                "Failed to get status key from account JSON file",
            ),
            DeployError::AlreadyDeployed => String::from_str("Account already deployed"),
            DeployError::KeyMismatch => String::from_str(
                "Public key and private key from keystore do not match",
            ),
            DeployError::SaltMissing => String::from_str("Failed to get salt from keystore"),
            DeployError::AccountTypeMissing => String::from_str(
                "Failed to get account type from keystore",
            ),
            DeployError::ClassHashMissing => String::from_str(
                "Failed to get class hash from keystore",
            ),
            DeployError::AccountNameMissing => String::from_str(
                "Required argument `--name` not provided",
            ),
        }
    }
}

/// The account-deployment command: the account to deploy, the fee bounds,
/// and an optional explicit version.
#[derive(Debug)]
pub struct Deploy {
    /// Name of the account to be deployed.
    pub name: Option<String>,
    pub fee_args: FeeArgs,
    pub version: Option<AccountDeployVersion>,
}

/// What validating the command yields: v3 cannot be paid in ETH, v1 cannot
/// be paid in STRK, and one of version and fee token must be given.
pub open spec fn spec_validate_deploy(
    version: Option<AccountDeployVersion>,
    fee_token: Option<FeeToken>,
) -> Result<(), DeployError> {
    match (version, fee_token) {
        (Some(AccountDeployVersion::V3), Some(FeeToken::Eth)) => Err(
            DeployError::EthNotSupportedForV3,
        ),
        (Some(AccountDeployVersion::V1), Some(FeeToken::Strk)) => Err(
            DeployError::StrkNotSupportedForV1,
        ),
        (None, None) => Err(DeployError::FeeTokenOrVersionMissing),
        _ => Ok(()),
    }
}

impl Deploy {
    /// Reject version/fee-token pairs that cannot be deployed.
    pub fn validate(&self) -> (r: Result<(), DeployError>)
        ensures
            r == spec_validate_deploy(self.version, self.fee_args.fee_token),
    {
        match (&self.version, &self.fee_args.fee_token) {
            (Some(AccountDeployVersion::V3), Some(FeeToken::Eth)) => Err(
                DeployError::EthNotSupportedForV3,
            ),
            (Some(AccountDeployVersion::V1), Some(FeeToken::Strk)) => Err(
                DeployError::StrkNotSupportedForV1,
            ),
            (None, None) => Err(DeployError::FeeTokenOrVersionMissing),
            _ => Ok(()),
        }
    }
}

/// The fee token a deployment runs under: the one the version dictates when
/// a version was given, else the one asked for.
pub open spec fn spec_effective_fee_token(
    version: Option<AccountDeployVersion>,
    fee_token: Option<FeeToken>,
) -> Option<FeeToken> {
    match version {
        Some(AccountDeployVersion::V1) => Some(FeeToken::Eth),
        Some(AccountDeployVersion::V3) => Some(FeeToken::Strk),
        None => fee_token,
    }
}

/// Overlay the fee token the version dictates on the one asked for.
pub fn effective_fee_token(
    version: &Option<AccountDeployVersion>,
    fee_token: &Option<FeeToken>,
) -> (r: Option<FeeToken>)
    ensures
        r == spec_effective_fee_token(*version, *fee_token),
{
    match version {
        Some(AccountDeployVersion::V1) => Some(FeeToken::Eth),
        Some(AccountDeployVersion::V3) => Some(FeeToken::Strk),
        None => match fee_token {
            Some(t) => Some(*t),
            None => None,
        },
    }
}

/// The fee settings a deployment command runs under: the version's fee
/// token is laid over the one asked for, then the fee arguments are
/// checked as usual.
pub fn deploy_fee_settings(d: &Deploy) -> (r: Result<FeeSettings, FeeError>)
    ensures
        r == spec_fee_settings(
            FeeArgs {
                fee_token: spec_effective_fee_token(d.version, d.fee_args.fee_token),
                ..d.fee_args
            },
        ),
{
    let fee_token = effective_fee_token(&d.version, &d.fee_args.fee_token);
    FeeSettings::try_from(FeeArgs { fee_token, ..d.fee_args })
}

/// Without a keystore the command must name the account to deploy.
pub fn account_name_required(name: &Option<String>, has_keystore: bool) -> (r: Result<
    (),
    DeployError,
>)
    ensures
        r is Ok <==> (has_keystore || name is Some),
        r is Err ==> r == Err::<(), DeployError>(DeployError::AccountNameMissing),
{
    if has_keystore || name.is_some() {
        Ok(())
    } else {
        Err(DeployError::AccountNameMissing)
    }
}

/// Everything a keystore deployment needs before it can talk to the
/// network: the account flavor, the class to declare, and the inputs of the
/// counterfactual address computation.
#[derive(Debug)]
pub struct KeystoreDeployPlan {
    pub account_type: AccountType,
    pub class_hash: u128,
    pub salt: u128,
    pub address_class_hash: u128,
    pub address_calldata: Vec<u128>,
    pub address_deployer: u128,
}

/// The plan a keystore account resolves to, or the first objection: the
/// account must carry a status and not be deployed yet, the stored public
/// key must match the one derived from the keystore's private key, and
/// salt, account type and class hash must all be present. A Braavos account
/// is addressed through the base account class.
pub open spec fn spec_keystore_deploy_plan(
    data: AccountData,
    derived_public_key: u128,
    chain_id: u128,
    braavos_base_class_hash: u128,
) -> Result<(AccountType, u128, u128, u128, Seq<u128>, u128), DeployError> {
    match data.deployed {
        None => Err(DeployError::StatusMissing),
        Some(true) => Err(DeployError::AlreadyDeployed),
        Some(false) => {
            if data.public_key != derived_public_key {
                Err(DeployError::KeyMismatch)
            } else {
                match data.salt {
                    None => Err(DeployError::SaltMissing),
                    Some(salt) => match data.account_type {
                        None => Err(DeployError::AccountTypeMissing),
                        Some(account_type) => match data.class_hash {
                            None => Err(DeployError::ClassHashMissing),
                            Some(class_hash) => Ok(
                                match account_type {
                                    AccountType::Argent => (
                                        account_type,
                                        class_hash,
                                        salt,
                                        class_hash,
                                        seq![derived_public_key, 0u128],
                                        0u128,
                                    ),
                                    AccountType::Oz => (
                                        account_type,
                                        class_hash,
                                        salt,
                                        class_hash,
                                        seq![derived_public_key],
                                        chain_id,
                                    ),
                                    AccountType::Braavos => (
                                        account_type,
                                        class_hash,
                                        salt,
                                        braavos_base_class_hash,
                                        seq![derived_public_key],
                                        chain_id,
                                    ),
                                },
                            ),
                        },
                    },
                }
            }
        },
    }
}

/// Check a keystore account and lay out its deployment.
pub fn keystore_deploy_plan(
    data: &AccountData,
    derived_public_key: u128,
    chain_id: u128,
    braavos_base_class_hash: u128,
) -> (r: Result<KeystoreDeployPlan, DeployError>)
    ensures
        r matches Ok(p) ==> spec_keystore_deploy_plan(
            *data,
            derived_public_key,
            chain_id,
            braavos_base_class_hash,
        ) == Ok::<_, DeployError>(
            (
                p.account_type,
                p.class_hash,
                p.salt,
                p.address_class_hash,
                p.address_calldata@,
                p.address_deployer,
            ),
        ),
        r matches Err(e) ==> spec_keystore_deploy_plan(
            *data,
            derived_public_key,
            chain_id,
            braavos_base_class_hash,
        ) == Err::<(AccountType, u128, u128, u128, Seq<u128>, u128), _>(e),
{
    let deployed: bool = match data.deployed {
        None => {
            return Err(DeployError::StatusMissing);
        },
        Some(d) => d,
    };
    if deployed {
        return Err(DeployError::AlreadyDeployed);
    }
    if data.public_key != derived_public_key {
        return Err(DeployError::KeyMismatch);
    }
    let salt: u128 = match data.salt {
        None => {
            return Err(DeployError::SaltMissing);
        },
        Some(s) => s,
    };
    let account_type: AccountType = match data.account_type {
        None => {
            return Err(DeployError::AccountTypeMissing);
        },
        Some(t) => t,
    };
    let class_hash: u128 = match data.class_hash {
        None => {
            return Err(DeployError::ClassHashMissing);
        },
        Some(h) => h,
    };
    let mut address_calldata: Vec<u128> = Vec::new();
    address_calldata.push(derived_public_key);
    let plan: KeystoreDeployPlan = match account_type {
        AccountType::Argent => {
            address_calldata.push(0u128);
            proof {
                assert(address_calldata@ =~= seq![derived_public_key, 0u128]);
            }
            KeystoreDeployPlan {
                account_type,
                class_hash,
                salt,
                address_class_hash: class_hash,
                address_calldata,
                address_deployer: 0u128,
            }
        },
        AccountType::Oz => {
            proof {
                assert(address_calldata@ =~= seq![derived_public_key]);
            }
            KeystoreDeployPlan {
                account_type,
                class_hash,
                salt,
                address_class_hash: class_hash,
                address_calldata,
                address_deployer: chain_id,
            }
        },
        AccountType::Braavos => {
            proof {
                assert(address_calldata@ =~= seq![derived_public_key]);
            }
            KeystoreDeployPlan {
                account_type,
                class_hash,
                salt,
                address_class_hash: braavos_base_class_hash,
                address_calldata,
                address_deployer: chain_id,
            }
        },
    };
    Ok(plan)
}

} // verus!
