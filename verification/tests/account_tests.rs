use forge_runner::account::{
    account_name_required, deploy_fee_settings, effective_fee_token, keystore_deploy_plan,
    token_not_supported_error_msg, AccountData, AccountDeployVersion, AccountType, Deploy,
    DeployError,
};
use forge_runner::fee::{EthFeeSettings, FeeArgs, FeeSettings, FeeToken};

fn fee_args(token: Option<FeeToken>) -> FeeArgs {
    FeeArgs {
        fee_token: token,
        max_fee: None,
        max_gas: None,
        max_gas_unit_price: None,
    }
}

fn account_data() -> AccountData {
    AccountData {
        private_key: 11,
        public_key: 22,
        salt: Some(33),
        deployed: Some(false),
        class_hash: Some(44),
        account_type: Some(AccountType::Oz),
    }
}

#[test]
fn validate_rejects_eth_for_v3() {
    let d = Deploy {
        name: None,
        fee_args: fee_args(Some(FeeToken::Eth)),
        version: Some(AccountDeployVersion::V3),
    };
    let err = d.validate().unwrap_err();
    assert_eq!(err, DeployError::EthNotSupportedForV3);
    assert!(err.message().contains("eth fee token is not supported for v3 deployment"));
}

#[test]
fn validate_rejects_strk_for_v1() {
    let d = Deploy {
        name: None,
        fee_args: fee_args(Some(FeeToken::Strk)),
        version: Some(AccountDeployVersion::V1),
    };
    let err = d.validate().unwrap_err();
    assert_eq!(err, DeployError::StrkNotSupportedForV1);
    assert!(err.message().contains("strk fee token is not supported for v1 deployment"));
}

#[test]
fn validate_requires_a_token_or_a_version() {
    let d = Deploy {
        name: None,
        fee_args: fee_args(None),
        version: None,
    };
    let err = d.validate().unwrap_err();
    assert_eq!(err, DeployError::FeeTokenOrVersionMissing);
    assert!(err.message().contains("--fee-token or --version must be provided"));
}

#[test]
fn validate_accepts_matching_pairs() {
    let d = Deploy {
        name: None,
        fee_args: fee_args(Some(FeeToken::Eth)),
        version: Some(AccountDeployVersion::V1),
    };
    assert!(d.validate().is_ok());
}

#[test]
fn version_dictates_the_fee_token() {
    assert!(matches!(
        effective_fee_token(&Some(AccountDeployVersion::V1), &Some(FeeToken::Strk)),
        Some(FeeToken::Eth)
    ));
    assert!(matches!(
        effective_fee_token(&Some(AccountDeployVersion::V3), &None),
        Some(FeeToken::Strk)
    ));
    assert!(matches!(
        effective_fee_token(&None, &Some(FeeToken::Eth)),
        Some(FeeToken::Eth)
    ));
    assert!(effective_fee_token(&None, &None).is_none());
}

#[test]
fn deploy_fee_settings_follow_the_version() {
    let d = Deploy {
        name: None,
        fee_args: FeeArgs {
            fee_token: None,
            max_fee: Some(100),
            max_gas: None,
            max_gas_unit_price: None,
        },
        version: Some(AccountDeployVersion::V1),
    };
    let settings = deploy_fee_settings(&d).unwrap();
    assert_eq!(
        settings,
        FeeSettings::Eth(EthFeeSettings {
            max_fee: Some(100)
        })
    );
}

#[test]
fn deploy_without_keystore_needs_a_name() {
    assert!(account_name_required(&None, true).is_ok());
    assert!(account_name_required(&Some(String::from("acc")), false).is_ok());
    let err = account_name_required(&None, false).unwrap_err();
    assert_eq!(err, DeployError::AccountNameMissing);
    assert!(err.message().contains("Required argument `--name` not provided"));
}

#[test]
fn error_message_holds_the_table() {
    let msg = token_not_supported_error_msg("eth", "v3");
    assert!(msg.starts_with("eth fee token is not supported for v3 deployment."));
    assert!(msg.contains("| Version | FeeToken |"));
    assert!(msg.contains("| v1      | eth      |"));
    assert!(msg.contains("| v3      | strk     |"));
}

#[test]
fn keystore_plan_for_an_oz_account() {
    let plan = keystore_deploy_plan(&account_data(), 22, 5, 99).unwrap();
    assert_eq!(plan.account_type, AccountType::Oz);
    assert_eq!(plan.class_hash, 44);
    assert_eq!(plan.salt, 33);
    assert_eq!(plan.address_class_hash, 44);
    assert_eq!(plan.address_calldata, vec![22]);
    assert_eq!(plan.address_deployer, 5);
}

#[test]
fn keystore_plan_for_an_argent_account() {
    let mut data = account_data();
    data.account_type = Some(AccountType::Argent);
    let plan = keystore_deploy_plan(&data, 22, 5, 99).unwrap();
    assert_eq!(plan.address_class_hash, 44);
    assert_eq!(plan.address_calldata, vec![22, 0]);
    assert_eq!(plan.address_deployer, 0);
}

#[test]
fn keystore_plan_for_a_braavos_account_uses_the_base_class() {
    let mut data = account_data();
    data.account_type = Some(AccountType::Braavos);
    let plan = keystore_deploy_plan(&data, 22, 5, 99).unwrap();
    assert_eq!(plan.class_hash, 44);
    assert_eq!(plan.address_class_hash, 99);
    assert_eq!(plan.address_calldata, vec![22]);
}

#[test]
fn keystore_plan_objects_in_order() {
    let mut data = account_data();
    data.deployed = None;
    assert_eq!(keystore_deploy_plan(&data, 22, 5, 99).unwrap_err(), DeployError::StatusMissing);

    let mut data = account_data();
    data.deployed = Some(true);
    assert_eq!(keystore_deploy_plan(&data, 22, 5, 99).unwrap_err(), DeployError::AlreadyDeployed);

    let data = account_data();
    assert_eq!(keystore_deploy_plan(&data, 23, 5, 99).unwrap_err(), DeployError::KeyMismatch);

    let mut data = account_data();
    data.salt = None;
    assert_eq!(keystore_deploy_plan(&data, 22, 5, 99).unwrap_err(), DeployError::SaltMissing);

    let mut data = account_data();
    data.account_type = None;
    assert_eq!(
        keystore_deploy_plan(&data, 22, 5, 99).unwrap_err(),
        DeployError::AccountTypeMissing
    );

    let mut data = account_data();
    data.class_hash = None;
    assert_eq!(
        keystore_deploy_plan(&data, 22, 5, 99).unwrap_err(),
        DeployError::ClassHashMissing
    );
}
