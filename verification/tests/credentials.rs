use nico::addresses::MacAddress;
use nico::credentials::{
    get_bmc_nvos_admin_credential_key, get_bmc_root_credential_key, BmcCredentialType,
    CredentialClient, CredentialKey, CredentialType, Credentials, DpuModel,
    EndpointExplorationError, FactoryLookup, FactoryStep, PreconditionStep,
};
use nico::exploration_metrics::SiteExplorationMetrics;

fn credentials(password: &str) -> Credentials {
    Credentials::UsernamePassword {
        username: "root".to_string(),
        password: password.to_string(),
    }
}

fn password_of(credentials: &Credentials) -> &str {
    match credentials {
        Credentials::UsernamePassword { password, .. } => password,
    }
}

fn client() -> CredentialClient {
    CredentialClient::new(vec![
        "site/bmc".to_string(),
        "site/dpu-uefi".to_string(),
        "site/host-uefi".to_string(),
    ])
}

#[test]
fn check_preconditions_should_not_count_missing_credentials_as_endpoint_failures() {
    let credential_client = client();
    let mut metrics = SiteExplorationMetrics::new();

    let mut step = credential_client.check_preconditions(&mut metrics, 0);
    let error = loop {
        match step {
            PreconditionStep::LookUp { position } => {
                let key = credential_client.required_keys[position].clone();
                let failure = match CredentialClient::get_credentials(&key, Ok(None)) {
                    Ok(_) => None,
                    Err(error) => Some(format!("{error:?}")),
                };
                step = credential_client.check_lookup(&mut metrics, position, failure);
            }
            PreconditionStep::Satisfied => panic!("missing site credentials should fail"),
            PreconditionStep::Failed { error } => break error,
        }
    };

    assert!(matches!(error, EndpointExplorationError::MissingCredentials { .. }));
    assert_eq!(metrics.endpoint_explorations, 0);
    assert_eq!(metrics.endpoint_explorations_success, 0);
    assert!(metrics.endpoint_explorations_failures_by_type.is_empty());
}

#[test]
fn preconditions_hold_when_every_entry_is_found() {
    let client = client();
    let mut metrics = SiteExplorationMetrics::new();
    let mut looked_up = Vec::new();
    let mut step = client.check_preconditions(&mut metrics, 0);
    while let PreconditionStep::LookUp { position } = step {
        looked_up.push(position);
        step = client.check_lookup(&mut metrics, position, None);
    }
    assert_eq!(looked_up, vec![0, 1, 2]);
    assert!(matches!(step, PreconditionStep::Satisfied));
    match client.check_lookup(&mut metrics, 1, Some("why".to_string())) {
        PreconditionStep::Failed {
            error: EndpointExplorationError::MissingCredentials { key, cause },
        } => {
            assert_eq!(key, "site/dpu-uefi");
            assert_eq!(cause, "why");
        }
        _ => panic!("a failed lookup ends the check"),
    }
}

#[test]
fn vault_answers_are_classified() {
    assert!(CredentialClient::valid_password(&credentials("secret")));
    assert!(!CredentialClient::valid_password(&credentials("")));
    let found = CredentialClient::get_credentials("key", Ok(Some(credentials("secret")))).unwrap();
    assert_eq!(password_of(&found), "secret");
    match CredentialClient::get_credentials("key", Ok(Some(credentials("")))) {
        Err(EndpointExplorationError::Other { details }) => {
            assert_eq!(details, "vault does not have a valid password entry at key")
        }
        _ => panic!("an empty password is not valid"),
    }
    match CredentialClient::get_credentials("key", Ok(None)) {
        Err(EndpointExplorationError::MissingCredentials { key, cause }) => {
            assert_eq!(key, "key");
            assert_eq!(cause, "No credentials exists");
        }
        _ => panic!("nothing is there"),
    }
    match CredentialClient::get_credentials("key", Err("sealed".to_string())) {
        Err(EndpointExplorationError::SecretsEngineError { cause }) => assert_eq!(cause, "sealed"),
        _ => panic!("the vault failed"),
    }
    assert!(CredentialClient::set_credentials("key", Ok(())).is_ok());
    match CredentialClient::set_credentials("key", Err("sealed".to_string())) {
        Err(EndpointExplorationError::SetCredentials { key, cause }) => {
            assert_eq!(key, "key");
            assert_eq!(cause, "sealed");
        }
        _ => panic!("the vault failed"),
    }
}

#[test]
fn entries_are_chosen_by_what_is_meant() {
    let mac = MacAddress::new([2, 0, 0, 0, 0, 1]);
    let is_root = |key: &CredentialKey| match key {
        CredentialKey::BmcCredentials {
            credential_type: BmcCredentialType::BmcRoot { bmc_mac_address },
        } => *bmc_mac_address == mac,
        _ => false,
    };
    let is_admin = |key: &CredentialKey| match key {
        CredentialKey::SwitchNvosAdmin { bmc_mac_address } => *bmc_mac_address == mac,
        _ => false,
    };
    assert!(is_root(&get_bmc_root_credential_key(mac)));
    assert!(is_admin(&get_bmc_nvos_admin_credential_key(mac)));
    let client = client();
    assert!(is_root(&client.get_bmc_root_credentials(mac)));
    assert!(is_admin(&client.get_switch_nvos_admin_credentials(mac)));
    let write = client.set_bmc_root_credentials(mac, credentials("new"));
    assert!(is_root(&write.key));
    assert_eq!(password_of(&write.credentials), "new");
    let write = client.set_bmc_nvos_admin_credentials(mac, credentials("new"));
    assert!(is_admin(&write.key));
    assert!(matches!(
        client.get_sitewide_bmc_root_credentials(7),
        CredentialKey::BmcCredentials {
            credential_type: BmcCredentialType::SiteWideRoot { version: 7 }
        }
    ));
}

#[test]
fn factory_credentials_fall_back_to_the_documented_default() {
    let missing = || Err(EndpointExplorationError::Other { details: String::new() });
    let named = DpuModel::Named("bf3".to_string());
    assert!(matches!(
        client().get_dpu_factory_default_credentials(&named),
        CredentialKey::DpuRedfish {
            credential_type: CredentialType::DpuHardwareDefault { model: DpuModel::Named(_) }
        }
    ));
    let next = |model: &DpuModel, looked_up, found| {
        CredentialClient::after_factory_lookup(model, looked_up, found, credentials("default"))
    };
    match next(&named, FactoryLookup::Model, Ok(credentials("vault"))) {
        FactoryStep::Take { credentials } => assert_eq!(password_of(&credentials), "vault"),
        _ => panic!("the model's entry is taken"),
    }
    assert!(matches!(
        next(&named, FactoryLookup::Model, missing()),
        FactoryStep::LookUpCatchAll {
            key: CredentialKey::DpuRedfish {
                credential_type: CredentialType::DpuHardwareDefault { model: DpuModel::Unknown }
            }
        }
    ));
    for (model, looked_up) in
        [(&named, FactoryLookup::CatchAll), (&DpuModel::Unknown, FactoryLookup::Model)]
    {
        match next(model, looked_up, missing()) {
            FactoryStep::Take { credentials } => assert_eq!(password_of(&credentials), "default"),
            _ => panic!("the documented default is taken"),
        }
    }
}
