use nico::addresses::MacAddress;
use nico::configuring::{
    handle_configuring, ConfigureCertificateState, ConfigureSwitchCertificateMode,
    ConfigureSwitchCertificatePollOutcome, ConfiguringProgress, ConfiguringReply, ConfiguringRequest, ConfiguringState, ConfiguringStep,
    ExpectedSwitch, StartConfigureSwitchCertificateResult, StateHandlerError,
    StateHandlerOutcome, Switch, SwitchControllerState,
};

fn mac() -> MacAddress {
    MacAddress::new([2, 0, 0, 0, 0, 0x2a])
}

fn switch(config_state: ConfiguringState, bmc_mac_address: Option<MacAddress>) -> Switch {
    Switch {
        controller_state: SwitchControllerState::Configuring { config_state },
        bmc_mac_address,
    }
}

fn certificate(state: ConfigureCertificateState) -> ConfiguringState {
    ConfiguringState::ConfigureCertificate { configure_certificate: state }
}

fn asked(progress: ConfiguringProgress) -> (ConfiguringStep, ConfiguringRequest) {
    match progress {
        ConfiguringProgress::Ask(step, request) => (step, request),
        other => panic!("expected a request, got {other:?}"),
    }
}

fn transition(progress: ConfiguringProgress) -> SwitchControllerState {
    match progress {
        ConfiguringProgress::Finished(StateHandlerOutcome::Transition { next_state }) => next_state,
        other => panic!("expected a transition, got {other:?}"),
    }
}

#[test]
fn certificates_are_started_and_waited_for() {
    let start = switch(certificate(ConfigureCertificateState::Start), None);
    let (step, request) = asked(handle_configuring(&start));
    assert!(matches!(
        request,
        ConfiguringRequest::StartCertificateJob { mode: ConfigureSwitchCertificateMode::BringUp }
    ));
    let started = StartConfigureSwitchCertificateResult::JobStarted("job-1".to_string());
    match transition(step.resume("sw", ConfiguringReply::CertificateStart(started))) {
        SwitchControllerState::Configuring {
            config_state:
                ConfiguringState::ConfigureCertificate {
                    configure_certificate: ConfigureCertificateState::WaitForComplete { job_id },
                },
        } => assert_eq!(job_id, "job-1"),
        other => panic!("expected to wait for the job, got {other:?}"),
    }

    let (step, _) = asked(handle_configuring(&start));
    let early = StartConfigureSwitchCertificateResult::EarlyTransition(
        StateHandlerOutcome::Transition { next_state: SwitchControllerState::FetchInfo },
    );
    assert!(matches!(
        transition(step.resume("sw", ConfiguringReply::CertificateStart(early))),
        SwitchControllerState::FetchInfo
    ));
}

#[test]
fn certificate_jobs_are_polled() {
    let poll = |outcome| {
        let waiting = switch(
            certificate(ConfigureCertificateState::WaitForComplete { job_id: "job-1".to_string() }),
            None,
        );
        let (step, request) = asked(handle_configuring(&waiting));
        match request {
            ConfiguringRequest::PollCertificateJob { job_id } => assert_eq!(job_id, "job-1"),
            other => panic!("expected a poll, got {other:?}"),
        }
        step.resume("sw", ConfiguringReply::CertificatePoll(outcome))
    };
    assert!(matches!(
        transition(poll(ConfigureSwitchCertificatePollOutcome::Completed)),
        SwitchControllerState::Configuring { config_state: ConfiguringState::RotateOsPassword }
    ));
    match transition(poll(ConfigureSwitchCertificatePollOutcome::Failed("bad".to_string()))) {
        SwitchControllerState::Error { cause } => assert_eq!(cause, "bad"),
        other => panic!("expected an error, got {other:?}"),
    }
    match poll(ConfigureSwitchCertificatePollOutcome::InProgress) {
        ConfiguringProgress::Finished(StateHandlerOutcome::Wait { reason }) => {
            assert_eq!(reason, "switch certificate job job-1 in progress")
        }
        other => panic!("expected to wait, got {other:?}"),
    }
}

fn rotation() -> (ConfiguringStep, ConfiguringRequest) {
    asked(handle_configuring(&switch(ConfiguringState::RotateOsPassword, Some(mac()))))
}

/// Settling the password up to the answer about the declared switch.
fn with_expected(expected: Option<ExpectedSwitch>) -> ConfiguringProgress {
    let (step, _) = rotation();
    let (step, request) = asked(step.resume("sw", ConfiguringReply::Credentials(false)));
    assert!(matches!(request, ConfiguringRequest::BeginTransaction));
    let (step, request) = asked(step.resume("sw", ConfiguringReply::Done));
    assert!(matches!(request, ConfiguringRequest::FindExpectedSwitch { .. }));
    let (step, request) = asked(step.resume("sw", ConfiguringReply::ExpectedSwitch(expected)));
    assert!(matches!(request, ConfiguringRequest::Commit));
    step.resume("sw", ConfiguringReply::Done)
}

#[test]
fn stored_passwords_are_left_alone() {
    let (step, request) = rotation();
    match request {
        ConfiguringRequest::GetNvosCredentials { bmc_mac_address } => {
            assert_eq!(bmc_mac_address, mac())
        }
        other => panic!("expected a lookup, got {other:?}"),
    }
    assert!(matches!(
        transition(step.resume("sw", ConfiguringReply::Credentials(true))),
        SwitchControllerState::FetchInfo
    ));
}

#[test]
fn switches_without_bmc_mac_go_to_error() {
    let progress = handle_configuring(&switch(ConfiguringState::RotateOsPassword, None));
    match transition(progress) {
        SwitchControllerState::Error { cause } => {
            assert_eq!(cause, "No BMC MAC address on switch")
        }
        other => panic!("expected an error, got {other:?}"),
    }
}

#[test]
fn declared_passwords_are_stored() {
    let declared = |username: Option<&str>, password: Option<&str>| {
        Some(ExpectedSwitch {
            nvos_username: username.map(|text| text.to_string()),
            nvos_password: password.map(|text| text.to_string()),
        })
    };
    let (step, request) = asked(with_expected(declared(Some("admin"), Some("secret"))));
    match request {
        ConfiguringRequest::StoreNvosCredentials { bmc_mac_address, username, password } => {
            assert_eq!(bmc_mac_address, mac());
            assert_eq!(username, "admin");
            assert_eq!(password, "secret");
        }
        other => panic!("expected a write, got {other:?}"),
    }
    assert!(matches!(
        transition(step.resume("sw", ConfiguringReply::Done)),
        SwitchControllerState::FetchInfo
    ));
    let (step, _) = asked(with_expected(declared(Some("admin"), Some("secret"))));
    match step.resume("sw", ConfiguringReply::Failed("sealed".to_string())) {
        ConfiguringProgress::Failed(StateHandlerError::GenericError(text)) => assert_eq!(
            text,
            "switch sw: failed to store NVOS credentials in vault: sealed"
        ),
        other => panic!("expected a failure, got {other:?}"),
    }
    for incomplete in [declared(Some("admin"), None), declared(None, Some("secret"))] {
        assert!(matches!(
            transition(with_expected(incomplete)),
            SwitchControllerState::FetchInfo
        ));
    }
    match transition(with_expected(None)) {
        SwitchControllerState::Error { cause } => {
            assert_eq!(cause, "No expected switch found for BMC MAC 02:00:00:00:00:2A")
        }
        other => panic!("expected an error, got {other:?}"),
    }
}

#[test]
fn failed_lookups_count_as_no_password() {
    let (step, _) = rotation();
    let (step, request) =
        asked(step.resume("sw", ConfiguringReply::Failed("sealed".to_string())));
    assert!(matches!(request, ConfiguringRequest::BeginTransaction));
    match step.resume("sw", ConfiguringReply::Failed("down".to_string())) {
        ConfiguringProgress::Failed(StateHandlerError::Backend(text)) => assert_eq!(text, "down"),
        other => panic!("expected a failure, got {other:?}"),
    }
    let (step, _) = rotation();
    assert!(matches!(
        step.resume("sw", ConfiguringReply::Done),
        ConfiguringProgress::Failed(StateHandlerError::UnexpectedReply)
    ));
}
