use nico::addresses::{
    Address, FixedAllocation, IpAddr, MacAddress, MachineId, MachineInterfaceId, NetworkSegmentId,
    Uuid,
};
use nico::expected_machine::{ExpectedInterfaceRole, HostLifecycleProfile};
use nico::expected_machine_data::{ExpectedHostNic, ExpectedMachine, ExpectedMachineData};
use nico::exploration::{
    dpu_oob_mac_address, ComputerSystem, DpuHardwareInfo, EndpointExplorationReport,
    EthernetInterface, ExploredDpu, ExploredManagedHost,
};
use nico::exploration_metrics::SiteExplorationMetrics;
use nico::machine_creator::dpu::attach_dpu_to_host;
use nico::machine_creator::ingestion::{Ingestion, MachineCreator, RequestList};
use nico::machine_creator::locks::{
    bmc_interface_owner_matches, host_bmc_owner_matches_expected_machine,
    host_mac_addresses_for_predicted_machine, managed_host_ingestion_interface_macs,
    merge_managed_host_ingestion_lock_inputs, BmcInterfaceOwner, BmcOwnerPreview,
    ExpectedInterfaceDiscoveryLockInputs, ExpectedMachineIngestionIdentity,
};
use nico::machine_creator::requests::{
    DeclaredMachine, DpuDiscoveringState, FoundKind, IngestionError, InterfaceRow, NetworkConfig,
    Progress, Reply, Request, SiteExplorerError, VersionedConfig,
};
use nico::rms_node_type::{
    NodeDescriptorError, RackProductFamily, RackProfile, UsernamePassword,
};

fn mac(last: u8) -> MacAddress {
    MacAddress::new([0x02, 0x00, 0x00, 0x00, 0x00, last])
}

fn address(last: u8) -> Address {
    Address {
        ip: IpAddr::V4(0xC0000200 + u32::from(last)),
        text: format!("192.0.2.{last}"),
    }
}

fn id(text: &str) -> MachineId {
    MachineId { text: text.to_string() }
}

fn host_report(mac_addresses: Vec<MacAddress>) -> EndpointExplorationReport {
    EndpointExplorationReport {
        interface_ids: mac_addresses
            .iter()
            .map(|mac| (*mac, format!("interface-{}", mac.5)))
            .collect(),
        all_mac_addresses: mac_addresses,
        is_dpu: false,
        is_switch: false,
        is_power_shelf: false,
    }
}

fn host_nic(mac_address: MacAddress) -> ExpectedHostNic {
    ExpectedHostNic::new(mac_address, ExpectedInterfaceRole::Host)
}

fn oob(mac_address: MacAddress) -> EthernetInterface {
    EthernetInterface { id: Some("OOB_NET0".to_string()), mac_address: Some(mac_address) }
}

#[test]
fn zero_dpu_fallback_uses_only_host_interface_declarations() {
    let machine_data = ExpectedMachineData {
        host_nics: vec![
            ExpectedHostNic::new(mac(1), ExpectedInterfaceRole::Host),
            ExpectedHostNic::new(mac(2), ExpectedInterfaceRole::DpuOs),
            ExpectedHostNic::new(mac(3), ExpectedInterfaceRole::DpuBmc),
        ],
        ..Default::default()
    };

    let mac_addresses =
        host_mac_addresses_for_predicted_machine(&host_report(Vec::new()), Some(&machine_data));

    assert_eq!(mac_addresses, vec![mac(1)]);
}

#[test]
fn predicted_macs_come_from_the_report_first() {
    let data = ExpectedMachineData {
        host_nics: vec![host_nic(mac(2)), host_nic(mac(2)), host_nic(mac(1)), host_nic(mac(2))],
        ..Default::default()
    };
    let reported = host_report(vec![mac(9), mac(8)]);
    assert_eq!(
        host_mac_addresses_for_predicted_machine(&reported, Some(&data)),
        vec![mac(9), mac(8)]
    );
    let silent = host_report(Vec::new());
    assert_eq!(
        host_mac_addresses_for_predicted_machine(&silent, Some(&data)),
        vec![mac(2), mac(1), mac(2)],
        "only neighbours are merged"
    );
    assert!(host_mac_addresses_for_predicted_machine(&silent, None).is_empty());
    let switch = EndpointExplorationReport { is_switch: true, ..host_report(Vec::new()) };
    assert!(host_mac_addresses_for_predicted_machine(&switch, Some(&data)).is_empty());
}

#[test]
fn ingestion_mac_locks_cover_config_report_and_dpu_interfaces() {
    let configured_mac = mac(1);
    let report_host_mac = mac(2);
    let dpu_oob_mac = mac(3);
    let dpu_host_mac = mac(4);
    let unrelated_dpu_mac = mac(5);
    let dpu_bmc_mac = mac(6);
    let resolved_bmc_owner_mac = mac(7);
    let host_bmc_mac = mac(0x10);
    let expected_machine = ExpectedMachine {
        id: None,
        bmc_mac_address: host_bmc_mac,
        data: ExpectedMachineData {
            host_nics: vec![host_nic(configured_mac), host_nic(report_host_mac)],
            ..Default::default()
        },
    };
    let explored_host = ExploredManagedHost {
        host_bmc_ip: address(10),
        dpus: vec![ExploredDpu {
            bmc_ip: address(11),
            bmc_mac_address: Some(dpu_bmc_mac),
            host_pf_mac_address: Some(dpu_host_mac),
            machine_id: Ok(id("dpu")),
            hardware_info: Err("none".to_string()),
            systems: vec![ComputerSystem {
                ethernet_interfaces: vec![
                    oob(dpu_oob_mac),
                    EthernetInterface {
                        id: Some("tmfifo_net0".to_string()),
                        mac_address: Some(unrelated_dpu_mac),
                    },
                ],
            }],
        }],
    };

    let mac_addresses = managed_host_ingestion_interface_macs(
        &expected_machine,
        &explored_host,
        &host_report(vec![report_host_mac]),
        &vec![resolved_bmc_owner_mac],
    );

    assert_eq!(
        mac_addresses,
        vec![
            configured_mac,
            report_host_mac,
            dpu_oob_mac,
            dpu_host_mac,
            dpu_bmc_mac,
            resolved_bmc_owner_mac,
            host_bmc_mac,
        ]
    );
    assert!(!mac_addresses.contains(&unrelated_dpu_mac));
}

#[test]
fn bmc_owner_revalidation_checks_row_mac_segment_and_presence() {
    let preview = BmcInterfaceOwner {
        interface_id: MachineInterfaceId(1),
        mac_address: mac(1),
        segment_id: NetworkSegmentId(2),
    };

    assert!(bmc_interface_owner_matches(Some(preview), Some(preview)));
    assert!(bmc_interface_owner_matches(None, None));
    assert!(!bmc_interface_owner_matches(Some(preview), None));
    assert!(!bmc_interface_owner_matches(None, Some(preview)));

    let changed_id = BmcInterfaceOwner { interface_id: MachineInterfaceId(3), ..preview };
    assert!(!bmc_interface_owner_matches(Some(preview), Some(changed_id)));
    let changed_mac = BmcInterfaceOwner { mac_address: mac(4), ..preview };
    assert!(!bmc_interface_owner_matches(Some(preview), Some(changed_mac)));
    let changed_segment = BmcInterfaceOwner { segment_id: NetworkSegmentId(5), ..preview };
    assert!(!bmc_interface_owner_matches(Some(preview), Some(changed_segment)));
}

#[test]
fn host_bmc_owner_must_match_expected_machine_bmc_mac() {
    let host_bmc_ip = address(10).ip;
    let expected_bmc_mac = mac(1);
    let owner = BmcInterfaceOwner {
        interface_id: MachineInterfaceId(1),
        mac_address: expected_bmc_mac,
        segment_id: NetworkSegmentId(2),
    };
    let matching = vec![BmcOwnerPreview { address: host_bmc_ip, owner: Some(owner) }];
    assert!(host_bmc_owner_matches_expected_machine(&matching, host_bmc_ip, expected_bmc_mac));

    let absent = vec![BmcOwnerPreview { address: host_bmc_ip, owner: None }];
    assert!(host_bmc_owner_matches_expected_machine(&absent, host_bmc_ip, expected_bmc_mac));

    let mismatched = vec![BmcOwnerPreview {
        address: host_bmc_ip,
        owner: Some(BmcInterfaceOwner { mac_address: mac(3), ..owner }),
    }];
    assert!(!host_bmc_owner_matches_expected_machine(&mismatched, host_bmc_ip, expected_bmc_mac));
    assert!(!host_bmc_owner_matches_expected_machine(&Vec::new(), host_bmc_ip, expected_bmc_mac));
}

fn machine_in_rack(uuid: u128, bmc: u8, rack_id: Option<&str>) -> ExpectedMachine {
    ExpectedMachine {
        id: Some(Uuid { value: uuid }),
        bmc_mac_address: mac(bmc),
        data: ExpectedMachineData {
            rack_id: rack_id.map(|rack_id| rack_id.to_string()),
            ..Default::default()
        },
    }
}

#[test]
fn expected_machine_ingestion_identity_covers_credentials_lookup_inputs() {
    let expected_machine = machine_in_rack(1, 1, Some("rack-a"));
    let identity = ExpectedMachineIngestionIdentity::from(&expected_machine);
    assert!(identity.matches(&expected_machine));
    assert!(!identity.matches(&machine_in_rack(3, 1, Some("rack-a"))));
    assert!(!identity.matches(&machine_in_rack(1, 4, Some("rack-a"))));
    assert!(!identity.matches(&machine_in_rack(1, 1, None)));
    assert!(identity.matches(&machine_in_rack(1, 1, Some("rack-b"))));
}

#[test]
fn ingestion_lock_input_union_includes_existing_and_fixed_segments() {
    let legacy_segment = NetworkSegmentId(1);
    let fixed_segment = NetworkSegmentId(2);
    let owner_segment = NetworkSegmentId(3);
    let existing_segment = NetworkSegmentId(4);
    let admin_segment = NetworkSegmentId(5);
    let fixed = FixedAllocation { segment_id: fixed_segment, address: address(10).ip };
    let legacy = FixedAllocation { segment_id: legacy_segment, address: address(11).ip };
    let interface_lock_inputs = vec![
        ExpectedInterfaceDiscoveryLockInputs {
            existing_segment_id: Some(existing_segment),
            fixed_allocations: vec![fixed, fixed],
        },
        ExpectedInterfaceDiscoveryLockInputs {
            existing_segment_id: Some(admin_segment),
            fixed_allocations: Vec::new(),
        },
    ];

    let lock_inputs = merge_managed_host_ingestion_lock_inputs(
        &vec![admin_segment, admin_segment],
        &vec![owner_segment],
        &interface_lock_inputs,
        &vec![legacy],
    );

    assert_eq!(lock_inputs.admin_segment_ids, vec![admin_segment]);
    assert_eq!(
        lock_inputs.segment_ids,
        vec![legacy_segment, fixed_segment, owner_segment, existing_segment, admin_segment]
    );
    assert_eq!(lock_inputs.fixed_allocations, vec![legacy, fixed]);
}

#[test]
fn out_of_band_interfaces_are_found_by_name() {
    let dpu = |interfaces: Vec<Vec<EthernetInterface>>| ExploredDpu {
        bmc_ip: address(11),
        bmc_mac_address: None,
        host_pf_mac_address: None,
        machine_id: Ok(id("dpu")),
        hardware_info: Err("none".to_string()),
        systems: interfaces
            .into_iter()
            .map(|ethernet_interfaces| ComputerSystem { ethernet_interfaces })
            .collect(),
    };
    let named = |name: &str, mac_address| EthernetInterface {
        id: Some(name.to_string()),
        mac_address,
    };
    assert_eq!(dpu_oob_mac_address(&dpu(vec![vec![oob(mac(1))]])), Some(mac(1)));
    assert_eq!(
        dpu_oob_mac_address(&dpu(vec![
            vec![named("eth0", Some(mac(1))), named("oob", None)],
            vec![named("the-OoB-port", Some(mac(2))), named("oob", Some(mac(3)))],
        ])),
        Some(mac(2))
    );
    assert_eq!(dpu_oob_mac_address(&dpu(vec![vec![named("eth0", Some(mac(1)))]])), None);
}

/// A list as the text of its entries.
fn shown(list: &RequestList<'_>) -> String {
    let entries: Vec<String> = match list {
        RequestList::Nothing => Vec::new(),
        RequestList::Macs(macs) => macs.iter().map(|mac| mac.to_text()).collect(),
        RequestList::Segments(ids) => ids.iter().map(|id| id.0.to_string()).collect(),
        RequestList::FixedAddresses(allocations) => {
            allocations.iter().map(|allocation| format!("{:?}", allocation.address)).collect()
        }
        RequestList::Machines(ids) => ids.iter().map(|id| id.text.clone()).collect(),
        RequestList::DiscoveringStates(states) => {
            states.iter().map(|(id, state)| format!("{} {state:?}", id.text)).collect()
        }
    };
    entries.join(", ")
}

/// A database and services that answer an ingestion.
struct Site {
    rack_id: Option<String>,
    bmc_owner: Option<BmcInterfaceOwner>,
    bmc_owner_when_locked: Option<BmcInterfaceOwner>,
    declared_primary: Option<MacAddress>,
    host_nics: Vec<ExpectedHostNic>,
    machine_exists: bool,
    hosts_by_dpu: Vec<(MachineId, MachineId)>,
    rack_profile_id: Option<String>,
    rack_profile: Option<RackProfile>,
    interface_row: Option<InterfaceRow>,
    addresses_change: bool,
    fails_at: Option<&'static str>,
    asked: Vec<String>,
    /// The machines put into discovery, with the states of their DPUs.
    discoveries: Vec<(String, Vec<(String, DpuDiscoveringState)>)>,
    /// The requests that go with a list, and the list.
    lists: Vec<(String, String)>,
}

impl Site {
    fn new() -> Self {
        Site {
            rack_id: None,
            bmc_owner: None,
            bmc_owner_when_locked: None,
            declared_primary: None,
            host_nics: Vec::new(),
            machine_exists: false,
            hosts_by_dpu: Vec::new(),
            rack_profile_id: None,
            rack_profile: None,
            interface_row: None,
            addresses_change: false,
            fails_at: None,
            asked: Vec::new(),
            discoveries: Vec::new(),
            lists: Vec::new(),
        }
    }

    fn declared(&self) -> ExpectedMachine {
        ExpectedMachine {
            id: Some(Uuid { value: 1 }),
            bmc_mac_address: mac(0x10),
            data: ExpectedMachineData {
                rack_id: self.rack_id.clone(),
                host_nics: self.host_nics.clone(),
                host_lifecycle_profile: HostLifecycleProfile::default(),
                ..Default::default()
            },
        }
    }

    fn config() -> VersionedConfig {
        VersionedConfig {
            config: NetworkConfig {
                loopback_ip: None,
                secondary_overlay_vtep_ip: None,
                remainder: "rest".to_string(),
            },
            version: "v1".to_string(),
        }
    }

    fn answer(&mut self, request: &Request) -> Reply {
        let shown = format!("{request:?}");
        let name: String = shown.chars().take_while(|c| c.is_alphanumeric()).collect();
        if self.fails_at == Some(name.as_str()) {
            self.asked.push(name);
            return Reply::Failed("no".to_string());
        }
        self.asked.push(name);
        match request {
            Request::GetBmcCredentials { .. } => Reply::Credentials(Some(UsernamePassword {
                username: "root".to_string(),
                password: "pass".to_string(),
            })),
            Request::FindExpectedMachineForUpdate { .. } => {
                Reply::ExpectedMachine(Some(DeclaredMachine {
                    machine: self.declared(),
                    declared_primary: self.declared_primary,
                }))
            }
            Request::FindBmcOwner { .. } => Reply::BmcOwner(self.bmc_owner),
            Request::FindBmcOwnerForUpdate { .. } => Reply::BmcOwner(self.bmc_owner_when_locked),
            Request::FindDiscoveryLockInputs { .. } => {
                Reply::LockInputs(ExpectedInterfaceDiscoveryLockInputs {
                    existing_segment_id: None,
                    fixed_allocations: Vec::new(),
                })
            }
            Request::ListAdminSegments => Reply::Segments(vec![NetworkSegmentId(5)]),
            Request::FindSegmentForAddress { .. } => Reply::Segment(NetworkSegmentId(7)),
            Request::FindMachineByMac { .. }
            | Request::FindPredictedInterfaces { .. }
            | Request::FindRetainedBootInterface { .. } => Reply::Found(false),
            Request::GenerateMachineId => Reply::Machine(id("predicted")),
            Request::FindMachine { .. } => Reply::Found(self.machine_exists),
            Request::CreateMachine { .. } | Request::ReadNetworkConfig { .. } => {
                Reply::Config(Site::config())
            }
            Request::EnrichBmcMac { .. } => Reply::Mac(Some(mac(0x10))),
            Request::FindInterface { .. } => Reply::Interface(self.interface_row.clone()),
            Request::FindPrediction { .. } => Reply::PredictedFor(None),
            Request::LookUpHostsByDpus => Reply::HostsByDpu(self.hosts_by_dpu.clone()),
            Request::FindOrCreateHostInterface { mac_address, .. } => {
                Reply::Interface(Some(InterfaceRow {
                    id: MachineInterfaceId(u128::from(mac_address.5)),
                    mac_address: *mac_address,
                    machine_id: None,
                    primary_interface: true,
                    is_bmc: false,
                }))
            }
            Request::ReloadInterface { interface_id } => Reply::Interface(Some(InterfaceRow {
                id: *interface_id,
                mac_address: mac(interface_id.0 as u8),
                machine_id: None,
                primary_interface: true,
                is_bmc: false,
            })),
            Request::AllocateLoopbackIp { .. } => Reply::Ip(IpAddr::V4(1)),
            Request::AllocateSecondaryVtepIp { .. } => Reply::Ip(IpAddr::V4(2)),
            Request::ReconcileAdminAddresses { .. } => Reply::Changed(self.addresses_change),
            Request::EnsureRackExists { .. } => Reply::Rack(self.rack_profile_id.clone()),
            Request::FindRackProfile { .. } => Reply::RackProfile(self.rack_profile.take()),
            Request::FetchSlotAndTray { .. } => {
                Reply::SlotAndTray { slot_number: Some(3), tray_index: Some(4) }
            }
            _ => Reply::Done,
        }
    }

    fn run(
        &mut self,
        creator: &MachineCreator,
        host: ExploredManagedHost,
        report: EndpointExplorationReport,
    ) -> (Result<bool, IngestionError>, Vec<Request>) {
        let declared = self.declared();
        let mut progress: Progress<Ingestion, bool> =
            creator.create_managed_host(host, report, Some(&declared));
        let mut requests = Vec::new();
        loop {
            match progress {
                Progress::Finished(created) => return (Ok(created), requests),
                Progress::Failed(error) => return (Err(error), requests),
                Progress::Ask(ingestion, request) => {
                    let reply = self.answer(&request);
                    let list = ingestion.list_for(&request);
                    if !matches!(list, RequestList::Nothing) {
                        self.lists.push((self.asked[self.asked.len() - 1].clone(), shown(&list)));
                    }
                    if let (
                        RequestList::DiscoveringStates(states),
                        Request::WriteDiscoveringState { machine_id },
                    ) = (list, &request)
                    {
                        self.discoveries.push((
                            machine_id.text.clone(),
                            states.into_iter().map(|(dpu, state)| (dpu.text, state)).collect(),
                        ));
                    }
                    requests.push(request);
                    progress = ingestion.resume(reply);
                }
            }
        }
    }

    fn count(&self, name: &str) -> usize {
        self.asked.iter().filter(|asked| asked.as_str() == name).count()
    }

    fn position(&self, name: &str) -> usize {
        self.asked.iter().position(|asked| asked == name).expect("the request was made")
    }
}

fn explored_dpu(n: u8) -> ExploredDpu {
    ExploredDpu {
        bmc_ip: address(20 + n),
        bmc_mac_address: Some(mac(0x20 + n)),
        host_pf_mac_address: Some(mac(0x30 + n)),
        machine_id: Ok(id(&format!("dpu-{n}"))),
        hardware_info: Ok(DpuHardwareInfo {
            factory_mac_address: Ok(mac(0x30 + n)),
            host_machine_id: Ok(id("host")),
        }),
        systems: vec![ComputerSystem { ethernet_interfaces: vec![oob(mac(0x40 + n))] }],
    }
}

fn explored_host(dpus: Vec<ExploredDpu>) -> ExploredManagedHost {
    ExploredManagedHost { host_bmc_ip: address(10), dpus }
}

#[test]
fn undeclared_hosts_create_nothing() {
    let creator = MachineCreator::new(false, false, 1);
    let progress =
        creator.create_managed_host(explored_host(Vec::new()), host_report(Vec::new()), None);
    assert!(matches!(progress, Progress::Finished(false)));
}

#[test]
fn host_without_dpus_gets_its_machine() {
    let mut site = Site::new();
    site.declared_primary = Some(mac(2));
    site.host_nics = vec![host_nic(mac(2))];
    let (result, requests) = site.run(
        &MachineCreator::new(false, false, 1),
        explored_host(Vec::new()),
        host_report(vec![mac(1), mac(2)]),
    );
    assert!(matches!(result, Ok(true)));
    assert!(site.position("LockInterfaceMacs") < site.position("LockSegments"));
    assert!(site.position("LockSegments") < site.position("LockFixedAddresses"));
    assert!(site.position("LockFixedAddresses") < site.position("FindBmcOwnerForUpdate"));
    assert!(site.position("FindBmcOwnerForUpdate") < site.position("CreateMachine"));
    assert_eq!(site.count("CreateMachine"), 1);
    assert_eq!(site.discoveries, vec![("predicted".to_string(), Vec::new())]);
    assert_eq!(site.count("FindRetainedBootInterface"), 0, "a primary is declared");
    assert_eq!(site.count("GetBmcCredentials"), 0, "there is no rack manager");
    assert_eq!(site.asked.last().map(|asked| asked.as_str()), Some("Commit"));
    let mut predictions = Vec::new();
    for request in &requests {
        if let Request::CreatePrediction { prediction } = request {
            predictions.push(prediction);
        }
    }
    assert_eq!(predictions.len(), 2);
    assert_eq!(predictions[0].mac_address, mac(1));
    assert!(!predictions[0].primary_interface);
    assert!(predictions[0].expected_interface.is_none());
    assert_eq!(predictions[1].boot_interface_id.as_deref(), Some("interface-2"));
    assert!(predictions[1].primary_interface);
    let declared = predictions[1].expected_interface.as_ref().expect("a declaration");
    assert_eq!(declared.primary, Some(true));
}

#[test]
fn host_with_an_existing_machine_is_left_alone() {
    let mut site = Site::new();
    site.machine_exists = true;
    let (result, _) = site.run(
        &MachineCreator::new(false, false, 1),
        explored_host(Vec::new()),
        host_report(vec![mac(1)]),
    );
    assert!(matches!(result, Ok(false)));
    assert_eq!(site.count("CreateMachine"), 0);
    assert!(site.discoveries.is_empty());
    assert_eq!(site.count("Commit"), 0);
}

#[test]
fn first_dpu_makes_the_host_and_its_primary_interface() {
    let mut site = Site::new();
    site.rack_id = Some("rack".to_string());
    site.rack_profile_id = Some("profile".to_string());
    site.rack_profile = Some(RackProfile {
        product_family: Some(RackProductFamily::Gb200),
        compute_vendor: Some("NVIDIA".to_string()),
        ..Default::default()
    });
    let (result, requests) = site.run(
        &MachineCreator::new(true, true, 1),
        explored_host(vec![explored_dpu(1), explored_dpu(2)]),
        host_report(vec![mac(1)]),
    );
    assert!(matches!(result, Ok(true)));
    assert_eq!(site.count("GetBmcCredentials"), 1);
    let created: Vec<&str> = requests
        .iter()
        .filter_map(|request| match request {
            Request::CreateMachine { machine_id, .. } => Some(machine_id.text.as_str()),
            _ => None,
        })
        .collect();
    assert_eq!(created, vec!["dpu-1", "host", "dpu-2"]);
    assert_eq!(
        site.discoveries,
        vec![(
            "host".to_string(),
            vec![
                ("dpu-1".to_string(), DpuDiscoveringState::Initializing),
                ("dpu-2".to_string(), DpuDiscoveringState::Initializing),
            ]
        )]
    );
    let flags: Vec<(u128, bool)> = requests
        .iter()
        .filter_map(|request| match request {
            Request::SetPrimaryInterface { interface_id, primary } => {
                Some((interface_id.0, *primary))
            }
            _ => None,
        })
        .collect();
    assert_eq!(flags, vec![(0x31, true), (0x32, false)]);
    let configs: Vec<&VersionedConfig> = requests
        .iter()
        .filter_map(|request| match request {
            Request::WriteNetworkConfig { versioned, .. } => Some(versioned),
            _ => None,
        })
        .collect();
    assert_eq!(configs.len(), 2);
    assert_eq!(configs[0].config.loopback_ip, Some(IpAddr::V4(1)));
    assert_eq!(configs[0].config.secondary_overlay_vtep_ip, Some(IpAddr::V4(2)));
    assert_eq!(configs[0].config.remainder, "rest");
    assert_eq!(configs[0].version, "v1");
    let node = requests
        .iter()
        .find_map(|request| match request {
            Request::FetchSlotAndTray { node } => Some(node),
            _ => None,
        })
        .expect("the rack manager is asked");
    assert_eq!(node.node_id, "host");
    assert_eq!(node.rack_id, "rack");
    let endpoint = node.bmc_endpoint.as_ref().expect("an endpoint");
    assert_eq!(endpoint.ip_address, "192.0.2.10");
    assert_eq!(endpoint.mac_address, "02:00:00:00:00:10");
    assert_eq!(endpoint.port, 443);
    assert_eq!(endpoint.credentials.as_ref().map(|c| c.username.as_str()), Some("root"));
    assert!(matches!(
        requests[requests.len() - 2],
        Request::WriteSlotAndTray { slot_number: Some(3), tray_index: Some(4), .. }
    ));
    assert_eq!(site.count("Commit"), 2);
}

#[test]
fn existing_dpus_only_have_their_addresses_settled() {
    let mut site = Site::new();
    site.hosts_by_dpu = vec![(id("dpu-2"), id("host")), (id("dpu-1"), id("host"))];
    site.addresses_change = true;
    let (result, _) = site.run(
        &MachineCreator::new(false, false, 1),
        explored_host(vec![explored_dpu(1), explored_dpu(2)]),
        host_report(Vec::new()),
    );
    assert!(matches!(result, Ok(false)));
    assert_eq!(site.count("CreateMachine"), 0);
    assert!(site.discoveries.is_empty());
    assert_eq!(site.count("WriteNetworkConfig"), 1);
    assert_eq!(site.count("Commit"), 1);
}

fn failure_with(site: &mut Site, dpus: Vec<ExploredDpu>) -> IngestionError {
    let creator = MachineCreator::new(true, false, 1);
    match site.run(&creator, explored_host(dpus), host_report(vec![mac(1)])).0 {
        Err(error) => error,
        Ok(_) => panic!("the ingestion must fail"),
    }
}

fn text_of(error: &IngestionError) -> String {
    match error.report("192.0.2.10", "the subject") {
        SiteExplorerError::Backend(text)
        | SiteExplorerError::FailedPrecondition(text)
        | SiteExplorerError::Internal(text)
        | SiteExplorerError::InvalidArgument(text) => text,
        SiteExplorerError::AlreadyFoundError { kind, id } => format!("{kind} {id}"),
    }
}

#[test]
fn missing_bmc_owner_inserted_while_waiting_rejects() {
    let mut site = Site::new();
    site.bmc_owner_when_locked = Some(BmcInterfaceOwner {
        interface_id: MachineInterfaceId(1),
        mac_address: mac(0x10),
        segment_id: NetworkSegmentId(7),
    });
    let error = failure_with(&mut site, Vec::new());
    assert!(matches!(error, IngestionError::BmcOwnerChanged { .. }));
    assert_eq!(
        text_of(&error),
        "BMC interface ownership for 192.0.2.10 changed while managed-host ingestion was \
         waiting for network locks; retry ingestion"
    );
    for asked in &site.asked {
        assert!(!asked.starts_with("Create") && !asked.starts_with("Write"));
        assert_ne!(asked, "Commit");
    }
}

#[test]
fn foreign_bmc_owners_reject() {
    let owner = Some(BmcInterfaceOwner {
        interface_id: MachineInterfaceId(1),
        mac_address: mac(0x77),
        segment_id: NetworkSegmentId(7),
    });
    let mut site = Site::new();
    site.bmc_owner = owner;
    site.bmc_owner_when_locked = owner;
    let error = failure_with(&mut site, Vec::new());
    assert!(matches!(error, IngestionError::BmcOwnerMismatch { .. }));
    assert_eq!(
        text_of(&error),
        "BMC interface ownership for 192.0.2.10 does not match the locked ExpectedMachine BMC \
         MAC 02:00:00:00:00:10; retry ingestion"
    );
}

#[test]
fn inconsistent_dpus_reject() {
    let mut partial = Site::new();
    partial.hosts_by_dpu = vec![(id("dpu-1"), id("host"))];
    let error = failure_with(&mut partial, vec![explored_dpu(1), explored_dpu(2)]);
    assert!(matches!(error, IngestionError::PartialDpus));

    let mut split = Site::new();
    split.hosts_by_dpu = vec![(id("dpu-1"), id("host")), (id("dpu-2"), id("other"))];
    let error = failure_with(&mut split, vec![explored_dpu(1), explored_dpu(2)]);
    assert!(matches!(error, IngestionError::DpusOfDifferentHosts));

    let mut found = Site::new();
    found.machine_exists = true;
    let error = failure_with(&mut found, vec![explored_dpu(1)]);
    assert!(matches!(error, IngestionError::DpuAlreadyFound { .. }));
    assert!(text_of(&error).contains("dpu-1"));

    let invalid = ExploredDpu { machine_id: Err("no id".to_string()), ..explored_dpu(1) };
    let error = failure_with(&mut Site::new(), vec![invalid]);
    assert!(matches!(error, IngestionError::InvalidReport(_)));
}

#[test]
fn incomplete_hardware_rejects() {
    let hardware = |factory_mac_address, host_machine_id| ExploredDpu {
        hardware_info: Ok(DpuHardwareInfo { factory_mac_address, host_machine_id }),
        ..explored_dpu(1)
    };
    let error = failure_with(
        &mut Site::new(),
        vec![hardware(Err("no factory MAC".to_string()), Ok(id("host")))],
    );
    assert_eq!(
        text_of(&error),
        "DPU hardware info is missing its host factory MAC address: no factory MAC"
    );
    let error = failure_with(
        &mut Site::new(),
        vec![hardware(Ok(mac(0x31)), Err("no serial".to_string()))],
    );
    assert_eq!(text_of(&error), "hardware info missing: no serial");
    let none = ExploredDpu { hardware_info: Err("nothing".to_string()), ..explored_dpu(1) };
    assert!(matches!(
        failure_with(&mut Site::new(), vec![none]),
        IngestionError::InvalidReport(_)
    ));
}

#[test]
fn racks_without_a_usable_profile_reject() {
    let site = || {
        let mut site = Site::new();
        site.rack_id = Some("rack".to_string());
        site
    };
    let error = failure_with(&mut site(), vec![explored_dpu(1)]);
    assert_eq!(
        text_of(&error),
        "rack rack has no rack_profile_id for RMS slot and tray lookup for host machine host"
    );
    let mut unknown = site();
    unknown.rack_profile_id = Some("profile".to_string());
    let error = failure_with(&mut unknown, vec![explored_dpu(1)]);
    assert_eq!(
        text_of(&error),
        "rack profile profile is not configured for RMS slot and tray lookup for host machine host"
    );
    let mut blank = site();
    blank.rack_profile_id = Some("profile".to_string());
    blank.rack_profile = Some(RackProfile::default());
    let error = failure_with(&mut blank, vec![explored_dpu(1)]);
    assert!(matches!(
        error,
        IngestionError::NodeDescriptor(NodeDescriptorError::MissingProductFamily)
    ));
    assert_eq!(blank.count("Commit"), 0);
}

#[test]
fn owned_interfaces_reject() {
    let mut site = Site::new();
    site.declared_primary = Some(mac(1));
    site.interface_row = Some(InterfaceRow {
        id: MachineInterfaceId(1),
        mac_address: mac(1),
        machine_id: Some(id("somebody-else")),
        primary_interface: false,
        is_bmc: false,
    });
    for dpus in [Vec::new(), vec![explored_dpu(1)]] {
        let error = failure_with(&mut site, dpus);
        assert!(matches!(
            error,
            IngestionError::AlreadyFound { kind: FoundKind::MachineInterface, .. }
        ));
        assert_eq!(text_of(&error), "MachineInterface 02:00:00:00:00:01");
    }
}

#[test]
fn leased_boot_interfaces_are_adopted_as_primary() {
    let mut site = Site::new();
    site.declared_primary = Some(mac(1));
    site.interface_row = Some(InterfaceRow {
        id: MachineInterfaceId(1),
        mac_address: mac(1),
        machine_id: None,
        primary_interface: false,
        is_bmc: false,
    });
    let (result, requests) = site.run(
        &MachineCreator::new(false, false, 1),
        explored_host(vec![explored_dpu(1)]),
        host_report(vec![mac(1)]),
    );
    assert!(matches!(result, Ok(true)));
    let demoted = site.position("DemotePrimaryInterfaces");
    assert!(matches!(
        requests[demoted + 1],
        Request::SetPrimaryInterface { interface_id: MachineInterfaceId(1), primary: true }
    ));
    assert!(matches!(
        requests[demoted + 2],
        Request::AssociateWithMachine { interface_id: MachineInterfaceId(1), .. }
    ));
}

#[test]
fn failed_requests_end_an_ingestion() {
    for name in ["BeginTransaction", "LockSegments", "CreateMachine", "Commit"] {
        let mut site = Site::new();
        site.fails_at = Some(name);
        let (result, _) = site.run(
            &MachineCreator::new(false, false, 1),
            explored_host(vec![explored_dpu(1)]),
            host_report(vec![mac(1)]),
        );
        assert!(matches!(result, Err(IngestionError::Backend(_))));
        assert_eq!(site.asked.last().map(|asked| asked.as_str()), Some(name));
    }
}

#[test]
fn changed_declarations_reject() {
    let creator = MachineCreator::new(false, false, 1);
    let declared = machine_in_rack(1, 1, None);
    let begin = |declared: &ExpectedMachine| {
        match creator.create_managed_host(
            explored_host(Vec::new()),
            host_report(Vec::new()),
            Some(declared),
        ) {
            Progress::Ask(ingestion, Request::BeginTransaction) => match ingestion.resume(Reply::Done) {
                Progress::Ask(ingestion, Request::FindExpectedMachineForUpdate { .. }) => ingestion,
                _ => panic!("the declaration is read again"),
            },
            _ => panic!("a transaction is begun"),
        }
    };
    let gone = begin(&declared).resume(Reply::ExpectedMachine(None));
    assert!(matches!(gone, Progress::Failed(IngestionError::ExpectedMachineChanged)));
    let other = DeclaredMachine { machine: machine_in_rack(2, 1, None), declared_primary: None };
    let changed = begin(&declared).resume(Reply::ExpectedMachine(Some(other)));
    assert!(matches!(changed, Progress::Failed(IngestionError::ExpectedMachineIdentityChanged)));
    let odd = begin(&declared).resume(Reply::Found(true));
    assert!(matches!(odd, Progress::Failed(IngestionError::UnexpectedReply)));
}

#[test]
fn runs_end_at_their_limit() {
    let creator = MachineCreator::new(false, false, 2);
    let mut metrics = SiteExplorationMetrics::new();
    assert!(!creator.create_machines(&mut metrics, Some(true)));
    assert!(!creator.create_machines(&mut metrics, Some(false)));
    assert!(!creator.create_machines(&mut metrics, None));
    assert!(creator.create_machines(&mut metrics, Some(true)));
    assert_eq!(metrics.created_machines, 2);
    assert_eq!(metrics.endpoint_explorations, 0);
}

#[test]
fn full_counts_stay_where_nothing_is_created() {
    let creator = MachineCreator::new(false, false, 2);
    let mut metrics = SiteExplorationMetrics::new();
    metrics.created_machines = usize::MAX;
    assert!(!creator.create_machines(&mut metrics, Some(false)));
    assert!(!creator.create_machines(&mut metrics, None));
    assert_eq!(metrics.created_machines, usize::MAX);
}

#[test]
fn interfaces_of_another_machine_are_not_attached() {
    let dpu = explored_dpu(1);
    let step = match attach_dpu_to_host(&dpu, &id("dpu-1")) {
        Progress::Ask(step, Request::FindOrCreateHostInterface { mac_address, .. }) => {
            assert_eq!(mac_address, mac(0x31));
            step
        }
        _ => panic!("the host's interface is looked up"),
    };
    let row = InterfaceRow {
        id: MachineInterfaceId(1),
        mac_address: mac(0x31),
        machine_id: Some(id("host")),
        primary_interface: true,
        is_bmc: false,
    };
    match step.resume(&dpu, &id("dpu-1"), &None, Reply::Interface(Some(row))) {
        Progress::Failed(error) => assert_eq!(
            text_of(&error),
            "The host's machine interface for DPU dpu-1 already has the machine ID \
             set--something is wrong: the subject"
        ),
        _ => panic!("an owned interface is not attached"),
    }
    assert_eq!(
        text_of(&IngestionError::HostIdMissing),
        "Failed to get machine ID for host: the subject"
    );
}

#[test]
fn requests_go_with_their_lists() {
    let mut site = Site::new();
    let (result, _) = site.run(
        &MachineCreator::new(false, false, 1),
        explored_host(vec![explored_dpu(1), explored_dpu(2)]),
        host_report(vec![mac(1)]),
    );
    assert!(matches!(result, Ok(true)));
    let macs: Vec<String> = [0x01, 0x10, 0x21, 0x22, 0x31, 0x32, 0x41, 0x42]
        .iter()
        .map(|last| mac(*last).to_text())
        .collect();
    let macs = macs.join(", ");
    let expected = [
        ("LockInterfaceMacs", macs.as_str()),
        ("LockSegments", "5, 7"),
        ("LockFixedAddresses", ""),
        ("LookUpHostsByDpus", "dpu-1, dpu-2"),
        ("WriteDiscoveringState", "dpu-1 Initializing, dpu-2 Initializing"),
        ("ReconcileAdminAddresses", "5"),
    ];
    let expected: Vec<(String, String)> =
        expected.iter().map(|(name, list)| (name.to_string(), list.to_string())).collect();
    assert_eq!(site.lists, expected);
}
