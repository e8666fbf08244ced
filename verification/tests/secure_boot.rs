use nico::secure_boot::{dpu_machine_id, handler, StateHandlerError};

#[test]
fn unreported_secure_boot_reads_as_disabled_when_reporting_is_optional() {
    let disabled = handler(false, true)
        .is_secure_boot_disabled(&dpu_machine_id(), None)
        .expect("an unreported secure boot state must not error");
    assert!(disabled);
}

#[test]
fn unreported_secure_boot_is_missing_data_by_default() {
    let error = handler(false, false)
        .is_secure_boot_disabled(&dpu_machine_id(), None)
        .expect_err("an unreported secure boot state must stay an error by default");
    assert!(matches!(error, StateHandlerError::MissingData { .. }));
}

#[test]
fn unreported_secure_boot_still_errors_on_the_enable_path() {
    let error = handler(true, true)
        .is_secure_boot_disabled(&dpu_machine_id(), None)
        .expect_err("the enable path must not accept an unreported secure boot state");
    assert!(matches!(error, StateHandlerError::MissingData { .. }));
}

#[test]
fn reported_secure_boot_state_is_unchanged_by_the_flag() {
    let disabled = handler(false, true)
        .is_secure_boot_disabled(&dpu_machine_id(), Some(false))
        .expect("a reported secure boot state must be read");
    assert!(disabled);
    for enable in [false, true] {
        for optional in [false, true] {
            let subject = handler(enable, optional);
            let id = dpu_machine_id();
            assert!(matches!(subject.is_secure_boot_disabled(&id, Some(true)), Ok(false)));
            assert!(matches!(subject.is_secure_boot_disabled(&id, Some(false)), Ok(true)));
        }
    }
}

#[test]
fn missing_data_names_the_machine() {
    match handler(true, false).is_secure_boot_disabled(&dpu_machine_id(), None) {
        Err(StateHandlerError::MissingData { machine_id }) => assert_eq!(
            machine_id.text,
            "fm100dtes3rn1npvbtm5qd57dkilaag7ljugl1llmm7rfuq1ov50i0rpl30"
        ),
        Ok(_) => panic!("unknown state must not be read"),
    }
}
