use nico::fabric_manager::{
    build_scale_up_fabric_services_status_request, choose_rms_client,
    fabric_manager_status_from_entry, observed_primary_switch, persist_fabric_manager_statuses,
    persist_primary_switch, primary_switch_write_failure, select_primary_switch,
    service_status_failure, status_write_failure, validate_switch_inventory_for_nmx_cluster,
    BatchGetNodeDeviceInfoResponse, BatchGetScaleUpFabricServiceStatusResponse,
    FabricManagerState, FirmwareUpgradeDeviceInfo, GetScaleUpFabricStatusResponse,
    NodeDeviceInfo, ObservedPrimarySwitchError, ReturnCode, ReturnStatus, RmsClientChoice,
    RmsFabricManagerStatusPayload, ScaleUpFabricServiceStatusEntry, ScaleUpFabricSwitchStatus,
    StatusStep, SwitchId,
};
use nico::rms_node_type::{
    switch_node_identity_for_profile, NodeInfo, RackProductFamily, RackProfile,
};

fn success() -> ReturnStatus {
    ReturnStatus { number: 1, code: Some(ReturnCode::Success) }
}

fn failure() -> ReturnStatus {
    ReturnStatus { number: 2, code: Some(ReturnCode::Failure) }
}

fn switch(node_id: &str) -> FirmwareUpgradeDeviceInfo {
    FirmwareUpgradeDeviceInfo {
        node_id: node_id.to_string(),
        switch_id: if node_id == "invalid-switch-id" {
            Err("invalid id".to_string())
        } else {
            Ok(SwitchId { text: node_id.to_string() })
        },
        mac: "00:11:22:33:44:55".to_string(),
        bmc_ip: "192.0.2.10".to_string(),
        bmc_username: "admin".to_string(),
        bmc_password: "password".to_string(),
        os_mac: Some("aa:bb:cc:dd:ee:ff".to_string()),
        os_ip: Some("198.51.100.10".to_string()),
        os_username: Some("nvos".to_string()),
        os_password: Some("password".to_string()),
        os_hostname: None,
    }
}

fn node(node_id: &str, rack_id: &str) -> NodeInfo {
    NodeInfo {
        node_id: node_id.to_string(),
        rack_id: rack_id.to_string(),
        node_type: None,
        node_descriptor: None,
        bmc_endpoint: None,
    }
}

#[test]
fn fabric_status_request_uses_descriptor_without_node_type() {
    let profile = RackProfile {
        product_family: Some(RackProductFamily::Gb300),
        switch_vendor: Some("test-switch-vendor".to_string()),
        ..Default::default()
    };
    let node_identity = switch_node_identity_for_profile(&profile).unwrap();
    let switches = vec![(switch("switch-1"), node("switch-1", "rack-1"))];

    let request = build_scale_up_fabric_services_status_request(switches, &node_identity);

    assert_eq!(request.nodes.len(), 1);
    let node = &request.nodes[0];
    assert_eq!(node.node_id, "switch-1");
    assert_eq!(node.rack_id, "rack-1");
    assert_eq!(node.node_type, None);
    let descriptor = node.node_descriptor.as_ref().expect("node descriptor");
    assert_eq!(descriptor.get("role").as_deref(), Some("switch"));
}

#[test]
fn fabric_status_request_has_one_node_for_each_switch() {
    let profile = RackProfile {
        product_family: Some(RackProductFamily::Gb300),
        switch_vendor: Some("test-switch-vendor".to_string()),
        ..Default::default()
    };
    let node_identity = switch_node_identity_for_profile(&profile).unwrap();
    let switches = vec![
        (switch("sw-2"), node("", "rack-1")),
        (switch("sw-1"), node("", "rack-2")),
        (switch("sw-3"), node("", "rack-1")),
    ];

    let request = build_scale_up_fabric_services_status_request(switches, &node_identity);

    let nodes: Vec<(&str, &str)> = request
        .nodes
        .iter()
        .map(|node| (node.node_id.as_str(), node.rack_id.as_str()))
        .collect();
    assert_eq!(nodes, vec![("sw-2", "rack-1"), ("sw-1", "rack-2"), ("sw-3", "rack-1")]);

    let request = build_scale_up_fabric_services_status_request(Vec::new(), &node_identity);
    assert!(request.nodes.is_empty());
}

fn node_device_details(
    node_id: &str,
    tray_index: u32,
    slot_number: Option<u32>,
) -> NodeDeviceInfo {
    NodeDeviceInfo { node_id: node_id.to_string(), tray_index: Some(tray_index), slot_number }
}

fn device_info(details: Vec<NodeDeviceInfo>) -> BatchGetNodeDeviceInfoResponse {
    BatchGetNodeDeviceInfoResponse {
        status: success(),
        message: String::new(),
        node_device_details: details,
    }
}

#[test]
fn select_primary_switch_picks_lowest_tray_index() {
    let switches = vec![switch("sw-1"), switch("sw-2"), switch("sw-3")];
    let response = device_info(vec![
        node_device_details("sw-1", 3, Some(3)),
        node_device_details("sw-2", 1, Some(1)),
        node_device_details("sw-3", 2, Some(2)),
    ]);

    let primary = select_primary_switch(&switches, &response).unwrap();

    assert_eq!(primary.device.node_id, "sw-2");
    assert_eq!(primary.tray_index, 1);
    assert_eq!(primary.slot_number, Some(1));
}

#[test]
fn select_primary_switch_errors_on_duplicate_tray_index() {
    let switches = vec![switch("sw-1"), switch("sw-2")];
    let response = device_info(vec![
        node_device_details("sw-1", 1, Some(1)),
        node_device_details("sw-2", 1, Some(2)),
    ]);

    let error = select_primary_switch(&switches, &response).unwrap_err();

    assert!(error.contains("duplicate tray_index 1"));
    assert!(error.contains("sw-1"));
    assert!(error.contains("sw-2"));
}

#[derive(Debug, Eq, PartialEq)]
enum PrimaryObservation {
    Primary(String),
    Retryable,
    Terminal,
}

#[derive(Clone, Copy, Debug)]
enum PrimaryResponseCase {
    Selected,
    RmsFailure,
    InvalidStatus,
    MissingFabricStatus,
    UnexpectedSwitch,
    DuplicateSwitch,
    InspectionFailure,
    OmittedSwitch,
    NoPrimary,
    MultiplePrimaries,
    InvalidPrimaryId,
}

const FIRST_ID: &str = "sw100nt-first";
const SECOND_ID: &str = "sw100nt-second";

fn status(node_id: &str, enabled: bool) -> ScaleUpFabricSwitchStatus {
    ScaleUpFabricSwitchStatus {
        node_id: node_id.to_string(),
        enabled,
        error_message: String::new(),
    }
}

fn observe_primary_case(case: PrimaryResponseCase) -> PrimaryObservation {
    let mut expected_ids = vec![FIRST_ID];
    let mut observed = vec![status(FIRST_ID, false)];
    let mut return_status = success();
    let mut include_fabric_status = true;

    match case {
        PrimaryResponseCase::Selected => {
            observed.push(status(SECOND_ID, true));
            expected_ids.push(SECOND_ID);
        }
        PrimaryResponseCase::RmsFailure => return_status = failure(),
        PrimaryResponseCase::InvalidStatus => {
            return_status = ReturnStatus { number: 0, code: Some(ReturnCode::Unspecified) }
        }
        PrimaryResponseCase::MissingFabricStatus => include_fabric_status = false,
        PrimaryResponseCase::UnexpectedSwitch => observed[0] = status(SECOND_ID, true),
        PrimaryResponseCase::DuplicateSwitch => observed.push(status(FIRST_ID, true)),
        PrimaryResponseCase::InspectionFailure => {
            observed[0].error_message = "read failed".to_string();
        }
        PrimaryResponseCase::OmittedSwitch => {
            expected_ids.push(SECOND_ID);
            observed[0].enabled = true;
        }
        PrimaryResponseCase::NoPrimary => {}
        PrimaryResponseCase::MultiplePrimaries => {
            observed[0].enabled = true;
            observed.push(status(SECOND_ID, true));
            expected_ids.push(SECOND_ID);
        }
        PrimaryResponseCase::InvalidPrimaryId => {
            expected_ids[0] = "invalid-switch-id";
            observed[0] = status("invalid-switch-id", true);
        }
    }

    let switches: Vec<FirmwareUpgradeDeviceInfo> =
        expected_ids.iter().map(|node_id| switch(node_id)).collect();
    let response = GetScaleUpFabricStatusResponse {
        status: return_status,
        fabric_status: if include_fabric_status { Some(observed) } else { None },
        error_message: if return_status.code == Some(ReturnCode::Failure) {
            "not ready".to_string()
        } else {
            String::new()
        },
    };

    match observed_primary_switch(&switches, &response) {
        Ok(primary) => PrimaryObservation::Primary(primary.text),
        Err(ObservedPrimarySwitchError::Retryable(_)) => PrimaryObservation::Retryable,
        Err(ObservedPrimarySwitchError::Terminal(_)) => PrimaryObservation::Terminal,
    }
}

#[test]
fn observed_primary_switch_classifies_status_responses() {
    for (scenario, input, expect) in [
        (
            "one enabled switch is the observed primary",
            PrimaryResponseCase::Selected,
            PrimaryObservation::Primary(SECOND_ID.to_string()),
        ),
        (
            "RMS failure can converge",
            PrimaryResponseCase::RmsFailure,
            PrimaryObservation::Retryable,
        ),
        (
            "invalid RMS status violates the contract",
            PrimaryResponseCase::InvalidStatus,
            PrimaryObservation::Terminal,
        ),
        (
            "missing fabric status violates the contract",
            PrimaryResponseCase::MissingFabricStatus,
            PrimaryObservation::Terminal,
        ),
        (
            "unexpected switch violates the contract",
            PrimaryResponseCase::UnexpectedSwitch,
            PrimaryObservation::Terminal,
        ),
        (
            "duplicate switch violates the contract",
            PrimaryResponseCase::DuplicateSwitch,
            PrimaryObservation::Terminal,
        ),
        (
            "per-switch inspection failure can recover",
            PrimaryResponseCase::InspectionFailure,
            PrimaryObservation::Retryable,
        ),
        (
            "omitted switch violates the contract",
            PrimaryResponseCase::OmittedSwitch,
            PrimaryObservation::Terminal,
        ),
        (
            "no enabled switch can converge",
            PrimaryResponseCase::NoPrimary,
            PrimaryObservation::Retryable,
        ),
        (
            "multiple enabled switches can converge",
            PrimaryResponseCase::MultiplePrimaries,
            PrimaryObservation::Retryable,
        ),
        (
            "invalid primary ID violates the contract",
            PrimaryResponseCase::InvalidPrimaryId,
            PrimaryObservation::Terminal,
        ),
    ] {
        assert_eq!(observe_primary_case(input), expect, "{scenario}");
    }
}

fn entry(status_json: &str, error_message: &str) -> ScaleUpFabricServiceStatusEntry {
    let text = |value: &serde_json::Value, name: &str| {
        value.get(name).and_then(|v| v.as_str()).map(|v| v.to_string())
    };
    ScaleUpFabricServiceStatusEntry {
        status_json: status_json.to_string(),
        error_message: error_message.to_string(),
        payload: serde_json::from_str::<serde_json::Value>(status_json).ok().map(|value| {
            RmsFabricManagerStatusPayload {
                status: text(&value, "status"),
                addition_info: text(&value, "addition-info"),
                reason: text(&value, "reason"),
            }
        }),
    }
}

#[test]
fn test_fabric_manager_status_from_entry() {
    let s = |text: &str| Some(text.to_string());
    for (input, state, addition_info, reason, error_message, display) in [
        (
            entry(
                r#"{"addition-info":"CONTROL_PLANE_STATE_CONFIGURED","reason":"","status":"ok"}"#,
                "",
            ),
            FabricManagerState::StatusOk,
            s("CONTROL_PLANE_STATE_CONFIGURED"),
            s(""),
            None,
            "running",
        ),
        (
            entry(r#"{"addition-info":"","reason":"stopped by user","status":"not ok"}"#, ""),
            FabricManagerState::NotOk,
            s(""),
            s("stopped by user"),
            None,
            "not_running",
        ),
        (entry("", ""), FabricManagerState::Unknown, None, None, None, "not_running"),
        (
            entry(
                r#"{"addition-info":"CONTROL_PLANE_STATE_CONFIGURED","status":"ok"}"#,
                "nmx-controller not started",
            ),
            FabricManagerState::Unknown,
            None,
            None,
            s("nmx-controller not started"),
            "not_running",
        ),
        (entry("{not-json", ""), FabricManagerState::Unknown, None, None, None, "not_running"),
    ] {
        let status = fabric_manager_status_from_entry(&input);
        assert_eq!(status.fabric_manager_state, state);
        assert_eq!(status.addition_info, addition_info);
        assert_eq!(status.reason, reason);
        assert_eq!(status.error_message, error_message);
        assert_eq!(status.display_status(), display);
    }
}

#[test]
fn failed_or_incomplete_placements_select_nothing() {
    let switches = vec![switch("sw-1"), switch("sw-2")];
    let failed = BatchGetNodeDeviceInfoResponse {
        status: failure(),
        message: " ".to_string(),
        node_device_details: Vec::new(),
    };
    assert_eq!(
        select_primary_switch(&switches, &failed).unwrap_err(),
        "RMS BatchGetNodeDeviceInfo failed: no error details provided"
    );
    let explained = BatchGetNodeDeviceInfoResponse { message: "timeout".to_string(), ..failed };
    assert_eq!(
        select_primary_switch(&switches, &explained).unwrap_err(),
        "RMS BatchGetNodeDeviceInfo failed: timeout"
    );
    let partial = device_info(vec![node_device_details("sw-1", 1, None)]);
    assert!(select_primary_switch(&switches, &partial).is_err());
    let unplaced = device_info(vec![
        node_device_details("sw-1", 1, None),
        NodeDeviceInfo { node_id: "sw-2".to_string(), tray_index: None, slot_number: None },
    ]);
    assert!(select_primary_switch(&switches, &unplaced).is_err());
    assert!(select_primary_switch(&Vec::new(), &device_info(Vec::new())).is_err());
}

#[test]
fn inventory_needs_every_way_to_reach_a_switch() {
    assert!(validate_switch_inventory_for_nmx_cluster(&vec![switch("sw-1")]).is_ok());
    assert!(validate_switch_inventory_for_nmx_cluster(&Vec::new()).is_ok());
    let without_os_ip = FirmwareUpgradeDeviceInfo { os_ip: None, ..switch("sw-2") };
    let text =
        validate_switch_inventory_for_nmx_cluster(&vec![switch("sw-1"), without_os_ip]).unwrap_err();
    assert!(text.contains("sw-2"));
}

#[test]
fn statuses_are_written_one_by_one() {
    let response = |status| BatchGetScaleUpFabricServiceStatusResponse {
        status,
        service_statuses: vec![(
            "sw-1".to_string(),
            entry(r#"{"status":"ok"}"#, ""),
        )],
    };
    let switches = vec![switch("sw-1"), switch("sw-2")];
    match persist_fabric_manager_statuses(&switches, &response(success()), 0) {
        StatusStep::Write(id, status) => {
            assert_eq!(id.text, "sw-1");
            assert_eq!(status.fabric_manager_state, FabricManagerState::StatusOk);
        }
        _ => panic!("the first status is to be written"),
    }
    match persist_fabric_manager_statuses(&switches, &response(success()), 1) {
        StatusStep::Failed(text) => assert!(text.contains("sw-2")),
        _ => panic!("the second switch has no entry"),
    }
    assert!(matches!(
        persist_fabric_manager_statuses(&switches, &response(success()), 2),
        StatusStep::Finished
    ));
    match persist_fabric_manager_statuses(&switches, &response(failure()), 0) {
        StatusStep::Failed(text) => assert_eq!(
            text,
            "RMS BatchGetScaleUpFabricServiceStatus returned failure for ConfigureNmxCluster"
        ),
        _ => panic!("a failure has nothing written"),
    }
}

#[test]
fn rack_manager_is_reached_by_client_or_address() {
    let url = Some("https://rms".to_string());
    assert!(matches!(choose_rms_client(true, &None), Ok(RmsClientChoice::Provided)));
    assert!(matches!(choose_rms_client(false, &url), Ok(RmsClientChoice::Configured)));
    assert_eq!(choose_rms_client(false, &None).unwrap_err(), "RMS client not configured");
    assert_eq!(
        choose_rms_client(false, &Some(String::new())).unwrap_err(),
        "RMS client not configured"
    );
}

#[test]
fn failures_name_what_failed() {
    assert_eq!(
        service_status_failure("down"),
        "RMS BatchGetScaleUpFabricServiceStatus failed: down"
    );
    assert_eq!(
        status_write_failure("sw-1", "gone"),
        "failed to persist fabric-manager status for switch sw-1: gone"
    );
    assert_eq!(
        primary_switch_write_failure("sw-1", "rack-1", "gone"),
        "failed to persist primary switch 'sw-1' for rack rack-1: gone"
    );
    assert_eq!(
        persist_primary_switch("sw-1", Err("bad".to_string())).unwrap_err(),
        "selected primary switch 'sw-1' is not a valid SwitchId: bad"
    );
    assert_eq!(
        persist_primary_switch("sw-1", Ok(SwitchId { text: "sw-1".to_string() })).unwrap().text,
        "sw-1"
    );
}
