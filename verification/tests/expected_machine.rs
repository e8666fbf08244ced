use nico::addresses::{Address, IpAddr, MachineId, MacAddress, Uuid};
use nico::expected_machine::{
    expected_interface_ip_allocation_to_rpc, host_dpu_policy_from_rpc, host_dpu_policy_to_rpc,
    BmcIpAllocationType, ExpectedInterfaceIpAllocation, ExpectedInterfaceRole,
    HostDpuPolicy, HostLifecycleProfile, Metadata, NetworkSegmentType,
};
use nico::expected_machine_data::{
    metadata_from_request, ExpectedHostNic, ExpectedMachine, ExpectedMachineData,
    ExpectedMachineRequest, LinkedExpectedMachine, UnexpectedMachine,
};
use nico::forge;
use nico::forge::{
    Discriminant, ReceivedMetadata, RpcDataConversionError, WireAddress, WireSegmentType,
};

fn mac(text: &str) -> MacAddress {
    MacAddress::parse(text).expect("a MAC address")
}

/// The addresses that these tests write as texts.
fn address(text: &str) -> Option<Address> {
    let ip = match text {
        "192.0.2.10" => IpAddr::V4(0xC000020A),
        "2001:db8::66" => IpAddr::V6(0x20010DB8_00000000_00000000_00000066),
        "2001:db8::1" => IpAddr::V6(0x20010DB8_00000000_00000000_00000001),
        _ => return None,
    };
    Some(Address { ip, text: text.to_string() })
}

fn wire_address(text: &str) -> WireAddress {
    WireAddress { text: text.to_string(), parsed: address(text) }
}

fn wire_nic(mac_address: &str) -> forge::ExpectedHostNic {
    forge::ExpectedHostNic {
        mac_address: mac_address.to_string(),
        nic_type: None,
        fixed_ip: None,
        fixed_mask: None,
        fixed_gateway: None,
        primary: None,
        network_segment_type: None,
        role: None,
        ip_allocation: None,
    }
}

fn make_rpc_expected_machine(
    disable_lockdown: Option<bool>,
) -> forge::ExpectedMachine<ReceivedMetadata> {
    forge::ExpectedMachine {
        id: None,
        bmc_mac_address: "AA:BB:CC:DD:EE:FF".to_string(),
        bmc_username: "root".to_string(),
        bmc_password: "pass".to_string(),
        chassis_serial_number: "SN-1".to_string(),
        fallback_dpu_serial_numbers: Vec::new(),
        metadata: None,
        sku_id: None,
        rack_id: None,
        host_nics: Vec::new(),
        default_pause_ingestion_and_poweron: None,
        dpf_enabled: false,
        is_dpf_enabled: None,
        bmc_ip_address: None,
        bmc_retain_credentials: None,
        dpu_mode: None,
        bmc_ip_allocation: None,
        host_lifecycle_profile: disable_lockdown
            .map(|dl| forge::HostLifecycleProfile { disable_lockdown: Some(dl) }),
    }
}

#[test]
fn rpc_dpu_mode_maps_to_model() {
    for (mode, policy) in [
        (forge::DpuMode::Unspecified, HostDpuPolicy::default()),
        (forge::DpuMode::DpuMode, HostDpuPolicy::Manage),
        (forge::DpuMode::NicMode, HostDpuPolicy::Nic),
        (forge::DpuMode::NoDpu, HostDpuPolicy::Ignore),
    ] {
        assert_eq!(HostDpuPolicy::from(mode), policy);
    }
}

#[test]
fn host_dpu_policy_default_is_manage() {
    assert_eq!(HostDpuPolicy::default(), HostDpuPolicy::Manage);
}

#[test]
fn dpu_modes_keep_their_numbers() {
    for (mode, number) in [
        (forge::DpuMode::Unspecified, 0),
        (forge::DpuMode::DpuMode, 1),
        (forge::DpuMode::NicMode, 2),
        (forge::DpuMode::NoDpu, 3),
    ] {
        assert_eq!(mode.wire_value(), number);
        assert_eq!(forge::DpuMode::from_wire_value(number), Some(mode));
    }
    assert_eq!(forge::DpuMode::from_wire_value(4), None);
    assert_eq!(forge::DpuMode::from_wire_value(-1), None);
}

#[test]
fn expected_machine_translates_rpc_dpu_mode_to_policy() {
    for (dpu_mode, policy) in [
        (None, HostDpuPolicy::Manage),
        (Some(forge::DpuMode::Unspecified.wire_value()), HostDpuPolicy::Manage),
        (Some(forge::DpuMode::DpuMode.wire_value()), HostDpuPolicy::Manage),
        (Some(forge::DpuMode::NicMode.wire_value()), HostDpuPolicy::Nic),
        (Some(forge::DpuMode::NoDpu.wire_value()), HostDpuPolicy::Ignore),
        (Some(i32::MAX), HostDpuPolicy::Manage),
    ] {
        assert_eq!(host_dpu_policy_from_rpc(dpu_mode), policy);
    }
}

#[test]
fn expected_machine_emits_policy_through_compatibility_field() {
    for (policy, expected) in [
        (HostDpuPolicy::Manage, None),
        (HostDpuPolicy::Nic, Some(forge::DpuMode::NicMode.wire_value())),
        (HostDpuPolicy::Ignore, Some(forge::DpuMode::NoDpu.wire_value())),
    ] {
        let machine = ExpectedMachine {
            id: None,
            bmc_mac_address: mac("AA:BB:CC:DD:EE:FF"),
            data: ExpectedMachineData { dpu_policy: policy, ..Default::default() },
        };
        assert_eq!(forge::ExpectedMachine::<Metadata>::from(machine).dpu_mode, expected);
        assert_eq!(host_dpu_policy_to_rpc(policy), expected);
    }
}

#[test]
fn rpc_bmc_ip_allocation_maps_to_model() {
    for (wire, model) in [
        (forge::BmcIpAllocationType::Unspecified, BmcIpAllocationType::default()),
        (forge::BmcIpAllocationType::Auto, BmcIpAllocationType::Auto),
        (forge::BmcIpAllocationType::Dynamic, BmcIpAllocationType::Dynamic),
        (forge::BmcIpAllocationType::Fixed, BmcIpAllocationType::Fixed),
        (forge::BmcIpAllocationType::Retained, BmcIpAllocationType::Retained),
    ] {
        assert_eq!(BmcIpAllocationType::from(wire), model);
    }
}

#[derive(Debug, PartialEq)]
enum ExpectedHostNicConversion {
    Converted { fixed_ip: Option<IpAddr>, fixed_gateway: Option<IpAddr> },
    InvalidMac(String),
    InvalidArgument(String),
}

#[test]
fn expected_host_nic_converts_wire_addresses() {
    for (mac_address, fixed_ip, fixed_gateway, expect) in [
        (
            "not-a-mac",
            None,
            None,
            ExpectedHostNicConversion::InvalidMac("not-a-mac".to_string()),
        ),
        (
            "5A:5B:5C:5D:5E:66",
            Some("2001:db8::66"),
            None,
            ExpectedHostNicConversion::Converted {
                fixed_ip: address("2001:db8::66").map(|a| a.ip),
                fixed_gateway: None,
            },
        ),
        (
            "5A:5B:5C:5D:5E:66",
            Some("not-a-valid-ip"),
            None,
            ExpectedHostNicConversion::InvalidArgument(
                "Invalid fixed IP: not-a-valid-ip".to_string(),
            ),
        ),
        (
            "5A:5B:5C:5D:5E:66",
            None,
            Some("2001:db8::1"),
            ExpectedHostNicConversion::Converted {
                fixed_ip: None,
                fixed_gateway: address("2001:db8::1").map(|a| a.ip),
            },
        ),
        (
            "5A:5B:5C:5D:5E:66",
            None,
            Some("not-a-valid-ip"),
            ExpectedHostNicConversion::InvalidArgument(
                "Invalid fixed gateway: not-a-valid-ip".to_string(),
            ),
        ),
        (
            "5A:5B:5C:5D:5E:66",
            Some(""),
            Some(""),
            ExpectedHostNicConversion::Converted { fixed_ip: None, fixed_gateway: None },
        ),
    ] {
        let message = forge::ExpectedHostNic {
            fixed_ip: fixed_ip.map(wire_address),
            fixed_gateway: fixed_gateway.map(wire_address),
            ..wire_nic(mac_address)
        };
        let observed = match ExpectedHostNic::try_from(message) {
            Ok(nic) => ExpectedHostNicConversion::Converted {
                fixed_ip: nic.fixed_ip.map(|a| a.ip),
                fixed_gateway: nic.fixed_gateway.map(|a| a.ip),
            },
            Err(RpcDataConversionError::InvalidMacAddress(mac)) => {
                ExpectedHostNicConversion::InvalidMac(mac)
            }
            Err(RpcDataConversionError::InvalidArgument(argument)) => {
                ExpectedHostNicConversion::InvalidArgument(argument)
            }
            Err(error) => panic!("unexpected conversion error: {error:?}"),
        };
        assert_eq!(observed, expect);
    }
}

#[test]
fn rpc_expected_interface_role_maps_to_model() {
    for (wire, model) in [
        (forge::ExpectedInterfaceRole::Unspecified, ExpectedInterfaceRole::Host),
        (forge::ExpectedInterfaceRole::Host, ExpectedInterfaceRole::Host),
        (forge::ExpectedInterfaceRole::DpuOs, ExpectedInterfaceRole::DpuOs),
        (forge::ExpectedInterfaceRole::DpuBmc, ExpectedInterfaceRole::DpuBmc),
    ] {
        assert_eq!(ExpectedInterfaceRole::from(wire), model);
    }
}

#[test]
fn expected_interface_ip_allocation_uses_optional_wire_field() {
    for (policy, fixed_ip, model_policy, resolved, emitted) in [
        (None, None, None, ExpectedInterfaceIpAllocation::Dynamic, None),
        (None, Some("192.0.2.10"), None, ExpectedInterfaceIpAllocation::Fixed, None),
        (
            Some(forge::ExpectedInterfaceIpAllocation::Unspecified),
            None,
            None,
            ExpectedInterfaceIpAllocation::Dynamic,
            None,
        ),
        (
            Some(forge::ExpectedInterfaceIpAllocation::Dynamic),
            None,
            Some(ExpectedInterfaceIpAllocation::Dynamic),
            ExpectedInterfaceIpAllocation::Dynamic,
            Some(forge::ExpectedInterfaceIpAllocation::Dynamic),
        ),
        (
            Some(forge::ExpectedInterfaceIpAllocation::Fixed),
            Some("192.0.2.10"),
            Some(ExpectedInterfaceIpAllocation::Fixed),
            ExpectedInterfaceIpAllocation::Fixed,
            Some(forge::ExpectedInterfaceIpAllocation::Fixed),
        ),
        (
            Some(forge::ExpectedInterfaceIpAllocation::Retained),
            None,
            Some(ExpectedInterfaceIpAllocation::Retained),
            ExpectedInterfaceIpAllocation::Retained,
            Some(forge::ExpectedInterfaceIpAllocation::Retained),
        ),
    ] {
        let model = ExpectedHostNic::try_from(forge::ExpectedHostNic {
            fixed_ip: fixed_ip.map(wire_address),
            ip_allocation: policy.map(Discriminant::Known),
            ..wire_nic("AA:BB:CC:DD:EE:FF")
        })
        .unwrap();
        assert_eq!(model.ip_allocation, model_policy);
        assert_eq!(model.resolved_ip_allocation(), resolved);
        let observed = match forge::ExpectedHostNic::from(model.clone()).ip_allocation {
            None => None,
            Some(Discriminant::Known(policy)) => Some(policy),
            Some(Discriminant::Unknown(number)) => panic!("unnamed number {number}"),
        };
        assert_eq!(observed, emitted);
    }
    assert!(expected_interface_ip_allocation_to_rpc(None).is_none());
}

#[test]
fn expected_interface_ip_allocation_rejects_unknown_rpc_value() {
    let error = ExpectedHostNic::try_from(forge::ExpectedHostNic {
        ip_allocation: Some(Discriminant::Unknown(i32::MAX)),
        ..wire_nic("AA:BB:CC:DD:EE:FF")
    })
    .unwrap_err();
    assert!(matches!(error, RpcDataConversionError::InvalidArgument(_)));
}

#[test]
fn expected_interface_role_uses_optional_wire_field() {
    for (role, model_role, emitted) in [
        (None, ExpectedInterfaceRole::Host, None),
        (
            Some(forge::ExpectedInterfaceRole::Unspecified),
            ExpectedInterfaceRole::Host,
            None,
        ),
        (Some(forge::ExpectedInterfaceRole::Host), ExpectedInterfaceRole::Host, None),
        (
            Some(forge::ExpectedInterfaceRole::DpuOs),
            ExpectedInterfaceRole::DpuOs,
            Some(forge::ExpectedInterfaceRole::DpuOs),
        ),
        (
            Some(forge::ExpectedInterfaceRole::DpuBmc),
            ExpectedInterfaceRole::DpuBmc,
            Some(forge::ExpectedInterfaceRole::DpuBmc),
        ),
    ] {
        let model = ExpectedHostNic::try_from(forge::ExpectedHostNic {
            role: role.map(Discriminant::Known),
            ..wire_nic("AA:BB:CC:DD:EE:FF")
        })
        .unwrap();
        assert_eq!(model.role, model_role);
        let observed = match forge::ExpectedHostNic::from(model.clone()).role {
            None => None,
            Some(Discriminant::Known(role)) => Some(role),
            Some(Discriminant::Unknown(number)) => panic!("unnamed number {number}"),
        };
        assert_eq!(observed, emitted);
    }
}

#[test]
fn expected_interface_role_rejects_unknown_rpc_value() {
    let error = ExpectedHostNic::try_from(forge::ExpectedHostNic {
        role: Some(Discriminant::Unknown(i32::MAX)),
        ..wire_nic("AA:BB:CC:DD:EE:FF")
    })
    .unwrap_err();
    match error {
        RpcDataConversionError::InvalidArgument(text) => assert!(text.contains("2147483647")),
        _ => panic!("an unnamed number is an invalid argument"),
    }
}

#[test]
fn expected_machine_data_rejects_invalid_host_nic_mac_address() {
    let mut message = make_rpc_expected_machine(None);
    message.host_nics.push(wire_nic("not-a-mac"));
    match ExpectedMachineData::try_from(message) {
        Err(RpcDataConversionError::InvalidMacAddress(mac)) => assert_eq!(mac, "not-a-mac"),
        _ => panic!("expected invalid host NIC MAC address"),
    }
}

#[test]
fn disable_lockdown_round_trips_through_proto() {
    for (disable_lockdown, data_side, back_side) in [
        (Some(true), Some(true), Some(Some(true))),
        (Some(false), Some(false), Some(Some(false))),
        (None, None, None),
    ] {
        let data =
            ExpectedMachineData::try_from(make_rpc_expected_machine(disable_lockdown)).unwrap();
        assert_eq!(data.host_lifecycle_profile.disable_lockdown, data_side);
        let machine =
            ExpectedMachine { id: None, bmc_mac_address: mac("AA:BB:CC:DD:EE:FF"), data };
        let back = forge::ExpectedMachine::<Metadata>::from(machine);
        assert_eq!(back.host_lifecycle_profile.map(|p| p.disable_lockdown), back_side);
    }
}

#[test]
fn lifecycle_profiles_are_empty_without_settings() {
    assert!(HostLifecycleProfile::default().is_empty());
    assert!(!HostLifecycleProfile { disable_lockdown: Some(false) }.is_empty());
}

#[test]
fn mac_addresses_are_read_and_written_like_the_outside_crate_does() {
    let read = mac("aa-bb-cc-dd-ee-0f");
    assert_eq!(read, MacAddress(0xaa, 0xbb, 0xcc, 0xdd, 0xee, 0x0f));
    assert_eq!(read.to_text(), "AA:BB:CC:DD:EE:0F");
    assert_eq!(MacAddress::parse(&read.to_text()), Some(read));
    assert_eq!(MacAddress::parse("AA:BB:CC:DD:EE"), None);
    assert_eq!(MacAddress::new([1, 2, 3, 4, 5, 6]), MacAddress(1, 2, 3, 4, 5, 6));
}

#[test]
fn uuids_are_read_and_written_like_the_outside_crate_does() {
    let text = "60CEF902-9779-4666-8362-C9BB4B37185F";
    let read = Uuid::parse(text).expect("a UUID");
    assert_eq!(read.value, 0x60cef902_9779_4666_8362_c9bb4b37185f);
    assert_eq!(read.to_text(), "60cef902-9779-4666-8362-c9bb4b37185f");
    assert!(Uuid::parse("not-a-uuid").is_none());
}

#[test]
fn requests_name_a_machine_by_id_or_mac() {
    let request = |id: Option<&str>, mac: &str| {
        ExpectedMachineRequest::try_from(forge::ExpectedMachineRequest {
            id: id.map(|id| id.to_string()),
            bmc_mac_address: mac.to_string(),
        })
    };
    let by_mac = request(None, "AA:BB:CC:DD:EE:FF").unwrap();
    assert!(by_mac.id.is_none());
    assert_eq!(by_mac.bmc_mac_address, Some(mac("AA:BB:CC:DD:EE:FF")));
    let by_id = request(Some("60cef902-9779-4666-8362-c9bb4b37185f"), "").unwrap();
    assert_eq!(by_id.id.map(|id| id.value), Some(0x60cef902_9779_4666_8362_c9bb4b37185f));
    assert_eq!(by_id.bmc_mac_address, None);
    match request(Some("nonsense"), "also-nonsense") {
        Err(RpcDataConversionError::InvalidArgument(text)) => assert_eq!(text, "nonsense"),
        _ => panic!("the id is refused first"),
    }
    match request(None, "nonsense") {
        Err(RpcDataConversionError::InvalidMacAddress(text)) => assert_eq!(text, "nonsense"),
        _ => panic!("the MAC address is refused"),
    }
}

#[test]
fn metadata_is_converted_and_validated() {
    let received = |converted, validation| Some(ReceivedMetadata { converted, validation });
    let some = || Metadata {
        name: "host".to_string(),
        description: String::new(),
        labels: Vec::new(),
    };
    assert_eq!(metadata_from_request(None).unwrap().name, "");
    assert_eq!(metadata_from_request(received(Ok(some()), Ok(()))).unwrap().name, "host");
    match metadata_from_request(received(Ok(some()), Err("bad name".to_string()))) {
        Err(RpcDataConversionError::InvalidArgument(text)) => assert_eq!(text, "bad name"),
        _ => panic!("validation failures are invalid arguments"),
    }
    let unread = Err(RpcDataConversionError::Other("unreadable".to_string()));
    assert!(matches!(
        metadata_from_request(received(unread, Ok(()))),
        Err(RpcDataConversionError::Other(_))
    ));
}

#[test]
fn host_nics_survive_a_round_trip() {
    let nic = ExpectedHostNic {
        nic_type: Some("onboard".to_string()),
        fixed_ip: address("192.0.2.10"),
        fixed_mask: Some("255.255.255.0".to_string()),
        fixed_gateway: address("2001:db8::1"),
        primary: Some(true),
        network_segment_type: Some(NetworkSegmentType(3)),
        ip_allocation: Some(ExpectedInterfaceIpAllocation::Retained),
        ..ExpectedHostNic::new(mac("02:00:00:00:00:01"), ExpectedInterfaceRole::DpuBmc)
    };
    let message = forge::ExpectedHostNic::from(nic.clone());
    assert_eq!(message.mac_address, "02:00:00:00:00:01");
    assert_eq!(message.fixed_ip.as_ref().map(|a| a.text.as_str()), Some("192.0.2.10"));
    let back = ExpectedHostNic::try_from(message).unwrap();
    assert_eq!(back.mac_address, nic.mac_address);
    assert_eq!(back.nic_type, nic.nic_type);
    assert_eq!(back.fixed_ip.map(|a| a.ip), nic.fixed_ip.map(|a| a.ip));
    assert_eq!(back.fixed_gateway.map(|a| a.ip), nic.fixed_gateway.map(|a| a.ip));
    assert_eq!(back.primary, nic.primary);
    assert_eq!(back.network_segment_type, nic.network_segment_type);
    assert_eq!(back.role, nic.role);
    assert_eq!(back.ip_allocation, nic.ip_allocation);
}

#[test]
fn unreadable_segment_types_are_refused() {
    let message = forge::ExpectedHostNic {
        network_segment_type: Some(WireSegmentType {
            number: 99,
            decoded: Err(RpcDataConversionError::InvalidArgument("99".to_string())),
        }),
        ..wire_nic("AA:BB:CC:DD:EE:FF")
    };
    assert!(matches!(
        ExpectedHostNic::try_from(message),
        Err(RpcDataConversionError::InvalidArgument(_))
    ));
}

#[test]
fn expected_machines_survive_a_round_trip() {
    let mut message = make_rpc_expected_machine(Some(true));
    message.rack_id = Some("rack-1".to_string());
    message.is_dpf_enabled = Some(false);
    message.dpf_enabled = true;
    message.bmc_ip_address = Some(wire_address("192.0.2.10"));
    message.bmc_retain_credentials = Some(true);
    message.dpu_mode = Some(3);
    message.bmc_ip_allocation = Some(Discriminant::Known(forge::BmcIpAllocationType::Fixed));
    message.host_nics.push(wire_nic("02:00:00:00:00:01"));
    let data = ExpectedMachineData::try_from(message).unwrap();
    assert_eq!(data.dpu_policy, HostDpuPolicy::Ignore);
    assert_eq!(data.bmc_ip_allocation, BmcIpAllocationType::Fixed);
    assert_eq!(data.rack_id.as_deref(), Some("rack-1"));
    assert_eq!(data.host_nics.len(), 1);
    let machine = ExpectedMachine {
        id: Uuid::parse("60cef902-9779-4666-8362-c9bb4b37185f"),
        bmc_mac_address: mac("AA:BB:CC:DD:EE:FF"),
        data,
    };
    let back = forge::ExpectedMachine::<Metadata>::from(machine);
    assert_eq!(back.id.as_deref(), Some("60cef902-9779-4666-8362-c9bb4b37185f"));
    assert_eq!(back.bmc_mac_address, "AA:BB:CC:DD:EE:FF");
    assert_eq!(back.bmc_username, "root");
    assert_eq!(back.dpu_mode, Some(3));
    assert_eq!(back.bmc_retain_credentials, Some(true));
    assert_eq!(back.bmc_ip_address.map(|a| a.text).as_deref(), Some("192.0.2.10"));
    assert_eq!(back.host_nics.len(), 1);
}

#[test]
fn invalid_bmc_addresses_are_refused() {
    let mut message = make_rpc_expected_machine(None);
    message.bmc_ip_address = Some(wire_address("nowhere"));
    assert!(matches!(
        ExpectedMachineData::try_from(message),
        Err(RpcDataConversionError::InvalidArgument(_))
    ));
}

#[test]
fn linked_and_unexpected_machines_are_written() {
    let machine_id = || Some(MachineId { text: "machine".to_string() });
    let linked = forge::LinkedExpectedMachine::from(LinkedExpectedMachine {
        serial_number: "SN-1".to_string(),
        bmc_mac_address: mac("AA:BB:CC:DD:EE:FF"),
        interface_id: None,
        address: address("192.0.2.10"),
        machine_id: machine_id(),
        expected_machine_id: None,
    });
    assert_eq!(linked.chassis_serial_number, "SN-1");
    assert_eq!(linked.explored_endpoint_address.as_deref(), Some("192.0.2.10"));
    let unexpected = forge::UnexpectedMachine::from(UnexpectedMachine {
        address: address("192.0.2.10").unwrap(),
        bmc_mac_address: mac("AA:BB:CC:DD:EE:FF"),
        machine_id: machine_id(),
    });
    assert_eq!(unexpected.address, "192.0.2.10");
    assert_eq!(unexpected.bmc_mac_address, "AA:BB:CC:DD:EE:FF");
    assert_eq!(unexpected.machine_id.map(|id| id.text).as_deref(), Some("machine"));
}

#[test]
fn parsed_parts_decide_what_is_read() {
    let message = || forge::ExpectedMachineRequest {
        id: Some("an id".to_string()),
        bmc_mac_address: "a MAC address".to_string(),
    };
    let id = Some(Uuid { value: 7 });
    let address = Some(mac("AA:BB:CC:DD:EE:FF"));
    let read = ExpectedMachineRequest::with_parsed(message(), id, address).unwrap();
    assert_eq!(read.id, id);
    assert_eq!(read.bmc_mac_address, address);
    assert!(matches!(
        ExpectedMachineRequest::with_parsed(message(), None, None),
        Err(RpcDataConversionError::InvalidArgument(text)) if text == "an id"
    ));
    assert!(matches!(
        ExpectedMachineRequest::with_parsed(message(), id, None),
        Err(RpcDataConversionError::InvalidMacAddress(text)) if text == "a MAC address"
    ));
    let nic = ExpectedHostNic::with_mac_address(wire_nic("whatever"), address).unwrap();
    assert_eq!(Some(nic.mac_address), address);
    assert!(matches!(
        ExpectedHostNic::with_mac_address(wire_nic("whatever"), None),
        Err(RpcDataConversionError::InvalidMacAddress(text)) if text == "whatever"
    ));
}
