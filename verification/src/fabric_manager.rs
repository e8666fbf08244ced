//! Decisions about a rack's scale-up fabric: whether its switches can be configured, what
//! their fabric managers report, and which switch is the primary one.
use vstd::prelude::*;

use crate::rms_node_type::{NodeInfo, RmsNodeIdentity};
use crate::text::{
    blank, concat2, concat3, decimal, decimal_text, join, joined, signed_decimal,
    signed_decimal_text, text_eq, text_views, trim, trimmed_is_empty_iff_blank,
};

verus! {

/// The identity of a switch, by its text.
#[derive(Debug)]
pub struct SwitchId {
    pub text: String,
}

impl Clone for SwitchId {
    fn clone(&self) -> (r: Self)
        ensures
            r == *self,
    {
        SwitchId { text: self.text.clone() }
    }
}

/// A switch of a rack with the ways to reach it.
#[derive(Debug)]
pub struct FirmwareUpgradeDeviceInfo {
    pub node_id: String,
    /// The switch that the node id names, or why it names none.
    pub switch_id: Result<SwitchId, String>,
    pub mac: String,
    pub bmc_ip: String,
    pub bmc_username: String,
    pub bmc_password: String,
    pub os_mac: Option<String>,
    pub os_ip: Option<String>,
    pub os_username: Option<String>,
    pub os_password: Option<String>,
    pub os_hostname: Option<String>,
}

impl Clone for FirmwareUpgradeDeviceInfo {
    fn clone(&self) -> (r: Self)
        ensures
            r == *self,
    {
        FirmwareUpgradeDeviceInfo {
            node_id: self.node_id.clone(),
            switch_id: match &self.switch_id {
                Ok(id) => Ok(id.clone()),
                Err(text) => Err(text.clone()),
            },
            mac: self.mac.clone(),
            bmc_ip: self.bmc_ip.clone(),
            bmc_username: self.bmc_username.clone(),
            bmc_password: self.bmc_password.clone(),
            os_mac: self.os_mac.clone(),
            os_ip: self.os_ip.clone(),
            os_username: self.os_username.clone(),
            os_password: self.os_password.clone(),
            os_hostname: self.os_hostname.clone(),
        }
    }
}

/// Whether a value is absent or empty.
pub open spec fn missing(value: Option<String>) -> bool {
    value is None || value->0@.len() == 0
}

fn is_missing(value: &Option<String>) -> (r: bool)
    ensures
        r == missing(*value),
{
    match value {
        None => true,
        Some(text) => text.as_str().is_empty(),
    }
}

/// What a switch lacks for the configuration of its cluster: first an address, then
/// credentials.
pub open spec fn inventory_failure(switch: FirmwareUpgradeDeviceInfo) -> Option<Seq<char>> {
    if missing(switch.os_ip) {
        Some(
            "switch "@ + switch.node_id@
                + " is missing an NVOS IP address for ConfigureNmxCluster"@,
        )
    } else if missing(switch.os_username) || missing(switch.os_password) {
        Some("switch "@ + switch.node_id@ + " is missing NVOS credentials for ConfigureNmxCluster"@)
    } else {
        None
    }
}

/// What the first switch that lacks something lacks.
pub open spec fn first_inventory_failure(switches: Seq<FirmwareUpgradeDeviceInfo>) -> Option<
    Seq<char>,
>
    decreases switches.len(),
{
    if switches.len() == 0 {
        None
    } else if inventory_failure(switches[0]) is Some {
        inventory_failure(switches[0])
    } else {
        first_inventory_failure(switches.drop_first())
    }
}

/// Whether every switch has the address and credentials that the configuration of its cluster
/// needs.
pub fn validate_switch_inventory_for_nmx_cluster(switches: &Vec<FirmwareUpgradeDeviceInfo>) -> (r:
    Result<(), String>)
    ensures
        first_inventory_failure(switches@) == (match r {
            Ok(_) => None,
            Err(text) => Some(text@),
        }),
{
    let mut i: usize = 0;
    assert(switches@.subrange(0, switches@.len() as int) =~= switches@);
    while i < switches.len()
        invariant
            i <= switches.len(),
            first_inventory_failure(switches@) == first_inventory_failure(
                switches@.subrange(i as int, switches@.len() as int),
            ),
        decreases switches.len() - i,
    {
        let ghost rest = switches@.subrange(i as int, switches@.len() as int);
        assert(rest.drop_first() =~= switches@.subrange(i + 1, switches@.len() as int));
        let switch = &switches[i];
        if is_missing(&switch.os_ip) {
            return Err(
                concat3(
                    "switch ",
                    switch.node_id.as_str(),
                    " is missing an NVOS IP address for ConfigureNmxCluster",
                ),
            );
        }
        if is_missing(&switch.os_username) || is_missing(&switch.os_password) {
            return Err(
                concat3(
                    "switch ",
                    switch.node_id.as_str(),
                    " is missing NVOS credentials for ConfigureNmxCluster",
                ),
            );
        }
        i += 1;
    }
    Ok(())
}

/// A request for the status of the fabric services of nodes.
#[derive(Debug)]
pub struct BatchGetScaleUpFabricServiceStatusRequest {
    pub nodes: Vec<NodeInfo>,
}

/// The node of a switch in a request: it goes by the switch's node id and has the identity;
/// everything else is as it was.
pub open spec fn switch_node(
    switch: FirmwareUpgradeDeviceInfo,
    node: NodeInfo,
    identity: RmsNodeIdentity,
    r: NodeInfo,
) -> bool {
    &&& r.node_id == switch.node_id
    &&& r.rack_id == node.rack_id
    &&& r.bmc_endpoint == node.bmc_endpoint
    &&& r.node_type == identity.legacy_node_type
    &&& r.node_descriptor is Some
    &&& r.node_descriptor->0.entries() == identity.node_descriptor.entries()
}

/// Builds the request for the status of the fabric services of a rack's switches: one node
/// for each switch, in order, under the switch's node id and with the switches' identity. Each
/// switch comes with the node that says in which rack it is and how it is reached.
pub fn build_scale_up_fabric_services_status_request(
    switches: Vec<(FirmwareUpgradeDeviceInfo, NodeInfo)>,
    node_identity: &RmsNodeIdentity,
) -> (r: BatchGetScaleUpFabricServiceStatusRequest)
    ensures
        r.nodes@.len() == switches@.len(),
        forall|i: int|
            0 <= i < switches@.len() ==> switch_node(
                switches@[i].0,
                switches@[i].1,
                *node_identity,
                #[trigger] r.nodes@[i],
            ),
{
    let ghost all = switches@;
    let count: usize = switches.len();
    let mut rest = switches;
    let mut identified: Vec<NodeInfo> = Vec::new();
    let mut i: usize = 0;
    assert(all.subrange(0, count as int) =~= all);
    while i < count
        invariant
            i <= count,
            count == all.len(),
            all == switches@,
            rest@ == all.subrange(i as int, count as int),
            identified@.len() == i,
            forall|k: int|
                0 <= k < i ==> switch_node(
                    all[k].0,
                    all[k].1,
                    *node_identity,
                    #[trigger] identified@[k],
                ),
        decreases count - i,
    {
        let (switch, mut node) = rest.remove(0);
        assert(rest@ =~= all.subrange(i + 1, count as int));
        node.node_id = switch.node_id;
        node_identity.apply_to_node_info(&mut node);
        identified.push(node);
        i += 1;
    }
    BatchGetScaleUpFabricServiceStatusRequest { nodes: identified }
}

/// How the rack manager is reached.
#[derive(Clone, Copy, Debug, PartialEq, Eq, Structural)]
pub enum RmsClientChoice {
    /// By the client that was provided.
    Provided,
    /// By a client made from the configured address.
    Configured,
}

/// Chooses how the rack manager is reached: by the provided client, otherwise by the
/// configured address, which must not be empty.
pub fn choose_rms_client(client_provided: bool, api_url: &Option<String>) -> (r: Result<
    RmsClientChoice,
    String,
>)
    ensures
        if client_provided {
            r == Ok::<RmsClientChoice, String>(RmsClientChoice::Provided)
        } else if missing(*api_url) {
            r is Err && r->Err_0@ == "RMS client not configured"@
        } else {
            r == Ok::<RmsClientChoice, String>(RmsClientChoice::Configured)
        },
{
    if client_provided {
        Ok(RmsClientChoice::Provided)
    } else if is_missing(api_url) {
        Err("RMS client not configured".to_owned())
    } else {
        Ok(RmsClientChoice::Configured)
    }
}

/// The failure of a request for the status of fabric services.
pub fn service_status_failure(error: &str) -> (r: String)
    ensures
        r@ == "RMS BatchGetScaleUpFabricServiceStatus failed: "@ + error@,
{
    concat2("RMS BatchGetScaleUpFabricServiceStatus failed: ", error)
}

/// What a fabric manager reports of itself.
#[derive(Debug)]
pub struct RmsFabricManagerStatusPayload {
    pub status: Option<String>,
    pub addition_info: Option<String>,
    pub reason: Option<String>,
}

/// The status of a switch's fabric service, as the rack manager returns it.
#[derive(Debug)]
pub struct ScaleUpFabricServiceStatusEntry {
    pub status_json: String,
    pub error_message: String,
    /// What the JSON text was read as; absent where it could not be read.
    pub payload: Option<RmsFabricManagerStatusPayload>,
}

/// The state of a fabric manager.
#[derive(Clone, Copy, Debug, PartialEq, Eq, Structural)]
pub enum FabricManagerState {
    StatusOk,
    NotOk,
    Unknown,
}

/// The status of a fabric manager.
#[derive(Debug)]
pub struct FabricManagerStatus {
    pub fabric_manager_state: FabricManagerState,
    pub addition_info: Option<String>,
    pub reason: Option<String>,
    pub error_message: Option<String>,
}

impl FabricManagerStatus {
    /// The status as it is shown to people.
    pub fn display_status(&self) -> (r: &'static str)
        ensures
            r@ == (if self.fabric_manager_state == FabricManagerState::StatusOk {
                "running"@
            } else {
                "not_running"@
            }),
    {
        match self.fabric_manager_state {
            FabricManagerState::StatusOk => "running",
            _ => "not_running",
        }
    }
}

fn is_blank(s: &str) -> (r: bool)
    ensures
        r == blank(s@),
{
    proof {
        trimmed_is_empty_iff_blank(s@);
    }
    let inner = trim(s);
    inner.as_str().is_empty()
}

/// The state that a reported status stands for.
pub open spec fn state_of(status: Option<String>) -> FabricManagerState {
    if status is Some && status->0@ == "ok"@ {
        FabricManagerState::StatusOk
    } else if status is Some && status->0@ == "not ok"@ {
        FabricManagerState::NotOk
    } else {
        FabricManagerState::Unknown
    }
}

/// The status that an entry stands for: an error of the rack manager wins over what it
/// reports, and what is blank or cannot be read leaves the state unknown.
pub open spec fn entry_status(entry: ScaleUpFabricServiceStatusEntry) -> FabricManagerStatus {
    let unknown = FabricManagerStatus {
        fabric_manager_state: FabricManagerState::Unknown,
        addition_info: None,
        reason: None,
        error_message: None,
    };
    if !blank(entry.error_message@) {
        FabricManagerStatus { error_message: Some(entry.error_message), ..unknown }
    } else if blank(entry.status_json@) {
        unknown
    } else {
        match entry.payload {
            None => unknown,
            Some(payload) => FabricManagerStatus {
                fabric_manager_state: state_of(payload.status),
                addition_info: payload.addition_info,
                reason: payload.reason,
                error_message: None,
            },
        }
    }
}

/// The status that an entry stands for.
pub fn fabric_manager_status_from_entry(entry: &ScaleUpFabricServiceStatusEntry) -> (r:
    FabricManagerStatus)
    ensures
        r == entry_status(*entry),
{
    if !is_blank(entry.error_message.as_str()) {
        return FabricManagerStatus {
            fabric_manager_state: FabricManagerState::Unknown,
            addition_info: None,
            reason: None,
            error_message: Some(entry.error_message.clone()),
        };
    }
    let unknown = FabricManagerStatus {
        fabric_manager_state: FabricManagerState::Unknown,
        addition_info: None,
        reason: None,
        error_message: None,
    };
    if is_blank(entry.status_json.as_str()) {
        return unknown;
    }
    match &entry.payload {
        None => unknown,
        Some(payload) => {
            let fabric_manager_state = match &payload.status {
                None => FabricManagerState::Unknown,
                Some(status) => {
                    if text_eq(status.as_str(), "ok") {
                        FabricManagerState::StatusOk
                    } else if text_eq(status.as_str(), "not ok") {
                        FabricManagerState::NotOk
                    } else {
                        FabricManagerState::Unknown
                    }
                },
            };
            FabricManagerStatus {
                fabric_manager_state,
                addition_info: payload.addition_info.clone(),
                reason: payload.reason.clone(),
                error_message: None,
            }
        },
    }
}

/// How a call to the rack manager ended.
#[derive(Clone, Copy, Debug, PartialEq, Eq, Structural)]
pub enum ReturnCode {
    Unspecified,
    Success,
    Failure,
}

/// A return code in a response: its number, and the code that has this number, where one has.
#[derive(Clone, Copy, Debug)]
pub struct ReturnStatus {
    pub number: i32,
    pub code: Option<ReturnCode>,
}

impl ReturnStatus {
    /// Whether the call succeeded.
    pub open spec fn succeeded(self) -> bool {
        self.code == Some(ReturnCode::Success)
    }

    fn is_success(&self) -> (r: bool)
        ensures
            r == self.succeeded(),
    {
        match self.code {
            Some(ReturnCode::Success) => true,
            _ => false,
        }
    }
}

/// The status of the fabric services of nodes, by node id.
#[derive(Debug)]
pub struct BatchGetScaleUpFabricServiceStatusResponse {
    pub status: ReturnStatus,
    pub service_statuses: Vec<(String, ScaleUpFabricServiceStatusEntry)>,
}

/// The entry of a node: the first with its id.
pub open spec fn entry_of(
    entries: Seq<(String, ScaleUpFabricServiceStatusEntry)>,
    node_id: Seq<char>,
) -> Option<ScaleUpFabricServiceStatusEntry>
    decreases entries.len(),
{
    if entries.len() == 0 {
        None
    } else if entries[0].0@ == node_id {
        Some(entries[0].1)
    } else {
        entry_of(entries.drop_first(), node_id)
    }
}

/// What is to be written of the status of a switch, or why nothing can be.
pub open spec fn status_write(
    switch: FirmwareUpgradeDeviceInfo,
    response: BatchGetScaleUpFabricServiceStatusResponse,
) -> Result<(SwitchId, FabricManagerStatus), Seq<char>> {
    match entry_of(response.service_statuses@, switch.node_id@) {
        None => Err(
            "RMS did not return fabric-manager status for switch "@ + switch.node_id@,
        ),
        Some(entry) => match switch.switch_id {
            Err(error) => Err(
                "invalid switch id "@ + switch.node_id@
                    + " while persisting fabric-manager status: "@ + error@,
            ),
            Ok(id) => Ok((id, entry_status(entry))),
        },
    }
}

/// What comes next in writing the status of a rack's switches.
#[derive(Debug)]
pub enum StatusStep {
    /// The status of the switch at the current position is written.
    Write(SwitchId, FabricManagerStatus),
    /// Every status is written.
    Finished,
    Failed(String),
}

/// What comes next in writing the status of a rack's switches, when those before `position`
/// are written. A response that reports failure has nothing written; a switch without entry
/// or without valid id ends the writing.
pub fn persist_fabric_manager_statuses(
    switches: &Vec<FirmwareUpgradeDeviceInfo>,
    response: &BatchGetScaleUpFabricServiceStatusResponse,
    position: usize,
) -> (r: StatusStep)
    ensures
        if !response.status.succeeded() {
            r matches StatusStep::Failed(text) && text@
                == "RMS BatchGetScaleUpFabricServiceStatus returned failure for ConfigureNmxCluster"@
        } else if position >= switches@.len() {
            r is Finished
        } else {
            match status_write(switches@[position as int], *response) {
                Err(failure) => r matches StatusStep::Failed(text) && text@ == failure,
                Ok((id, status)) => r == StatusStep::Write(id, status),
            }
        },
{
    if !response.status.is_success() {
        return StatusStep::Failed(
            "RMS BatchGetScaleUpFabricServiceStatus returned failure for ConfigureNmxCluster".to_owned(),
        );
    }
    if position >= switches.len() {
        return StatusStep::Finished;
    }
    let switch = &switches[position];
    let entries = &response.service_statuses;
    let mut i: usize = 0;
    assert(entries@.subrange(0, entries@.len() as int) =~= entries@);
    while i < entries.len()
        invariant
            i <= entries.len(),
            entries@ == response.service_statuses@,
            position < switches@.len(),
            *switch == switches@[position as int],
            response.status.succeeded(),
            entry_of(entries@, switch.node_id@) == entry_of(
                entries@.subrange(i as int, entries@.len() as int),
                switch.node_id@,
            ),
        decreases entries.len() - i,
    {
        let ghost rest = entries@.subrange(i as int, entries@.len() as int);
        assert(rest.drop_first() =~= entries@.subrange(i + 1, entries@.len() as int));
        if text_eq(entries[i].0.as_str(), switch.node_id.as_str()) {
            return match &switch.switch_id {
                Err(error) => {
                    let head = concat3(
                        "invalid switch id ",
                        switch.node_id.as_str(),
                        " while persisting fabric-manager status: ",
                    );
                    StatusStep::Failed(concat2(head.as_str(), error.as_str()))
                },
                Ok(id) => StatusStep::Write(
                    id.clone(),
                    fabric_manager_status_from_entry(&entries[i].1),
                ),
            };
        }
        i += 1;
    }
    StatusStep::Failed(
        concat2("RMS did not return fabric-manager status for switch ", switch.node_id.as_str()),
    )
}

/// The failure of writing the status of a switch.
pub fn status_write_failure(node_id: &str, error: &str) -> (r: String)
    ensures
        r@ == "failed to persist fabric-manager status for switch "@ + node_id@ + ": "@ + error@,
{
    let head = concat3("failed to persist fabric-manager status for switch ", node_id, ": ");
    concat2(head.as_str(), error)
}

/// Where a switch stands in its rack.
#[derive(Debug)]
pub struct SwitchPlacement {
    pub device: FirmwareUpgradeDeviceInfo,
    pub tray_index: u32,
    pub slot_number: Option<u32>,
}

impl Clone for SwitchPlacement {
    fn clone(&self) -> (r: Self)
        ensures
            r == *self,
    {
        SwitchPlacement {
            device: self.device.clone(),
            tray_index: self.tray_index,
            slot_number: self.slot_number,
        }
    }
}

/// What the rack manager knows of a node's place.
#[derive(Debug)]
pub struct NodeDeviceInfo {
    pub node_id: String,
    pub tray_index: Option<u32>,
    pub slot_number: Option<u32>,
}

/// What the rack manager knows of the places of nodes.
#[derive(Debug)]
pub struct BatchGetNodeDeviceInfoResponse {
    pub status: ReturnStatus,
    pub message: String,
    pub node_device_details: Vec<NodeDeviceInfo>,
}

/// The device with a node id: the last of those that have it.
pub open spec fn device_of(
    switches: Seq<FirmwareUpgradeDeviceInfo>,
    node_id: Seq<char>,
) -> Option<FirmwareUpgradeDeviceInfo>
    decreases switches.len(),
{
    if switches.len() == 0 {
        None
    } else if switches.last().node_id@ == node_id {
        Some(switches.last())
    } else {
        device_of(switches.drop_last(), node_id)
    }
}

fn find_device(switches: &Vec<FirmwareUpgradeDeviceInfo>, node_id: &str) -> (r: Option<
    FirmwareUpgradeDeviceInfo,
>)
    ensures
        r == device_of(switches@, node_id@),
{
    let mut i: usize = switches.len();
    assert(switches@.subrange(0, switches@.len() as int) =~= switches@);
    while i > 0
        invariant
            i <= switches.len(),
            device_of(switches@, node_id@) == device_of(
                switches@.subrange(0, i as int),
                node_id@,
            ),
        decreases i,
    {
        let ghost before = switches@.subrange(0, i as int);
        assert(before.drop_last() =~= switches@.subrange(0, i - 1));
        if text_eq(switches[i - 1].node_id.as_str(), node_id) {
            return Some(switches[i - 1].clone());
        }
        i -= 1;
    }
    None
}

/// Where the switches stand, one place for each node in the response's order; or the failure
/// of the first node that is no switch of the rack or has no tray.
pub open spec fn placements_of(
    switches: Seq<FirmwareUpgradeDeviceInfo>,
    details: Seq<NodeDeviceInfo>,
) -> Result<Seq<SwitchPlacement>, Seq<char>>
    decreases details.len(),
{
    if details.len() == 0 {
        Ok(seq![])
    } else {
        match placements_of(switches, details.drop_last()) {
            Err(failure) => Err(failure),
            Ok(placements) => {
                let node = details.last();
                match device_of(switches, node.node_id@) {
                    None => Err(
                        "RMS returned device info for unexpected switch "@ + node.node_id@,
                    ),
                    Some(device) => match node.tray_index {
                        None => Err(
                            "RMS did not return tray_index for switch "@ + node.node_id@,
                        ),
                        Some(tray_index) => Ok(
                            placements.push(
                                SwitchPlacement {
                                    device,
                                    tray_index,
                                    slot_number: node.slot_number,
                                },
                            ),
                        ),
                    },
                }
            },
        }
    }
}

proof fn placement_failure_stays(
    switches: Seq<FirmwareUpgradeDeviceInfo>,
    details: Seq<NodeDeviceInfo>,
    n: int,
)
    requires
        0 <= n <= details.len(),
        placements_of(switches, details.subrange(0, n)) is Err,
    ensures
        placements_of(switches, details) == placements_of(switches, details.subrange(0, n)),
    decreases details.len(),
{
    if n == details.len() {
        assert(details.subrange(0, n) =~= details);
    } else {
        assert(details.drop_last().subrange(0, n) =~= details.subrange(0, n));
        placement_failure_stays(switches, details.drop_last(), n);
    }
}

fn place_switches(
    switches: &Vec<FirmwareUpgradeDeviceInfo>,
    details: &Vec<NodeDeviceInfo>,
) -> (r: Result<Vec<SwitchPlacement>, String>)
    ensures
        placements_of(switches@, details@) == (match r {
            Ok(placements) => Ok(placements@),
            Err(text) => Err(text@),
        }),
{
    let mut placements: Vec<SwitchPlacement> = Vec::new();
    let mut i: usize = 0;
    assert(placements@ =~= seq![]);
    while i < details.len()
        invariant
            i <= details.len(),
            placements_of(switches@, details@.subrange(0, i as int)) == Ok::<
                Seq<SwitchPlacement>,
                Seq<char>,
            >(placements@),
        decreases details.len() - i,
    {
        let ghost next = details@.subrange(0, i + 1);
        assert(next.drop_last() =~= details@.subrange(0, i as int));
        assert(next.last() == details@[i as int]);
        let node = &details[i];
        let device = match find_device(switches, node.node_id.as_str()) {
            None => {
                proof {
                    placement_failure_stays(switches@, details@, i + 1);
                }
                return Err(
                    concat2(
                        "RMS returned device info for unexpected switch ",
                        node.node_id.as_str(),
                    ),
                );
            },
            Some(device) => device,
        };
        let tray_index: u32 = match node.tray_index {
            None => {
                proof {
                    placement_failure_stays(switches@, details@, i + 1);
                }
                return Err(
                    concat2("RMS did not return tray_index for switch ", node.node_id.as_str()),
                );
            },
            Some(tray_index) => tray_index,
        };
        placements.push(SwitchPlacement { device, tray_index, slot_number: node.slot_number });
        i += 1;
    }
    assert(details@.subrange(0, details@.len() as int) =~= details@);
    Ok(placements)
}

/// Whether one of the nodes has this id.
pub open spec fn some_node_is(details: Seq<NodeDeviceInfo>, node_id: Seq<char>) -> bool {
    exists|i: int| 0 <= i < details.len() && (#[trigger] details[i]).node_id@ == node_id
}

/// The ids of the switches that no node has, in the switches' order.
pub open spec fn unplaced_ids(
    switches: Seq<FirmwareUpgradeDeviceInfo>,
    details: Seq<NodeDeviceInfo>,
) -> Seq<Seq<char>>
    decreases switches.len(),
{
    if switches.len() == 0 {
        seq![]
    } else {
        let before = unplaced_ids(switches.drop_last(), details);
        if some_node_is(details, switches.last().node_id@) {
            before
        } else {
            before.push(switches.last().node_id@)
        }
    }
}

fn collect_unplaced(
    switches: &Vec<FirmwareUpgradeDeviceInfo>,
    details: &Vec<NodeDeviceInfo>,
) -> (r: Vec<String>)
    ensures
        text_views(r@) == unplaced_ids(switches@, details@),
{
    let mut r: Vec<String> = Vec::new();
    let mut i: usize = 0;
    assert(text_views(r@) =~= unplaced_ids(switches@.subrange(0, 0), details@));
    while i < switches.len()
        invariant
            i <= switches.len(),
            text_views(r@) == unplaced_ids(switches@.subrange(0, i as int), details@),
        decreases switches.len() - i,
    {
        let ghost next = switches@.subrange(0, i + 1);
        let ghost ids = text_views(r@);
        assert(next.drop_last() =~= switches@.subrange(0, i as int));
        assert(next.last() == switches@[i as int]);
        if !node_is_listed(details, switches[i].node_id.as_str()) {
            r.push(switches[i].node_id.clone());
            assert(text_views(r@) =~= ids.push(switches@[i as int].node_id@));
        }
        i += 1;
    }
    assert(switches@.subrange(0, switches@.len() as int) =~= switches@);
    r
}

fn node_is_listed(details: &Vec<NodeDeviceInfo>, node_id: &str) -> (r: bool)
    ensures
        r == some_node_is(details@, node_id@),
{
    let mut i: usize = 0;
    while i < details.len()
        invariant
            i <= details.len(),
            forall|k: int| 0 <= k < i ==> (#[trigger] details@[k]).node_id@ != node_id@,
        decreases details.len() - i,
    {
        if text_eq(details[i].node_id.as_str(), node_id) {
            return true;
        }
        i += 1;
    }
    false
}

/// Whether two switches stand in this tray.
pub open spec fn is_shared_tray(placements: Seq<SwitchPlacement>, tray_index: u32) -> bool {
    exists|i: int, j: int|
        #![trigger placements[i], placements[j]]
        0 <= i < j < placements.len() && placements[i].tray_index == tray_index
            && placements[j].tray_index == tray_index
}

/// Whether this is the lowest tray in which two switches stand.
pub open spec fn is_lowest_shared_tray(placements: Seq<SwitchPlacement>, tray_index: u32) -> bool {
    &&& is_shared_tray(placements, tray_index)
    &&& forall|other: u32| #[trigger] is_shared_tray(placements, other) ==> tray_index <= other
}

fn lowest_shared_tray(placements: &Vec<SwitchPlacement>) -> (r: Option<u32>)
    ensures
        match r {
            Some(tray_index) => is_lowest_shared_tray(placements@, tray_index),
            None => forall|tray_index: u32| !#[trigger] is_shared_tray(placements@, tray_index),
        },
{
    let mut lowest: Option<u32> = None;
    let mut i: usize = 0;
    while i < placements.len()
        invariant
            i <= placements.len(),
            lowest matches Some(t) ==> is_shared_tray(placements@, t),
            forall|a: int, b: int|
                #![trigger placements@[a], placements@[b]]
                0 <= a < i && a < b < placements@.len() && placements@[a].tray_index
                    == placements@[b].tray_index ==> lowest is Some && lowest->0
                    <= placements@[a].tray_index,
        decreases placements.len() - i,
    {
        let tray: u32 = placements[i].tray_index;
        let ghost before = lowest;
        let mut j: usize = i + 1;
        while j < placements.len()
            invariant
                i < j <= placements.len(),
                i < placements.len(),
                tray == placements@[i as int].tray_index,
                before is Some ==> lowest is Some && lowest->0 <= before->0,
                lowest matches Some(t) ==> is_shared_tray(placements@, t),
                forall|b: int|
                    i < b < j && (#[trigger] placements@[b]).tray_index == tray ==> lowest is Some
                        && lowest->0 <= tray,
            decreases placements.len() - j,
        {
            if placements[j].tray_index == tray {
                assert(is_shared_tray(placements@, tray)) by {
                    assert(placements@[i as int].tray_index == tray
                        && placements@[j as int].tray_index == tray);
                }
                match lowest {
                    Some(t) => {
                        if tray < t {
                            lowest = Some(tray);
                        }
                    },
                    None => {
                        lowest = Some(tray);
                    },
                }
            }
            j += 1;
        }
        i += 1;
    }
    proof {
        assert forall|other: u32| #[trigger] is_shared_tray(placements@, other) implies lowest is Some
            && lowest->0 <= other by {
            let (a, b) = choose|a: int, b: int|
                #![trigger placements@[a], placements@[b]]
                0 <= a < b < placements@.len() && placements@[a].tray_index == other
                    && placements@[b].tray_index == other;
            assert(placements@[a].tray_index == placements@[b].tray_index);
        }
    }
    lowest
}

/// The ids of the switches in a tray, in order.
pub open spec fn ids_in_tray(placements: Seq<SwitchPlacement>, tray_index: u32) -> Seq<Seq<char>>
    decreases placements.len(),
{
    if placements.len() == 0 {
        seq![]
    } else {
        let before = ids_in_tray(placements.drop_last(), tray_index);
        if placements.last().tray_index == tray_index {
            before.push(placements.last().device.node_id@)
        } else {
            before
        }
    }
}

fn collect_ids_in_tray(placements: &Vec<SwitchPlacement>, tray_index: u32) -> (r: Vec<String>)
    ensures
        text_views(r@) == ids_in_tray(placements@, tray_index),
{
    let mut r: Vec<String> = Vec::new();
    let mut i: usize = 0;
    assert(text_views(r@) =~= ids_in_tray(placements@.subrange(0, 0), tray_index));
    while i < placements.len()
        invariant
            i <= placements.len(),
            text_views(r@) == ids_in_tray(placements@.subrange(0, i as int), tray_index),
        decreases placements.len() - i,
    {
        let ghost next = placements@.subrange(0, i + 1);
        let ghost ids = text_views(r@);
        assert(next.drop_last() =~= placements@.subrange(0, i as int));
        assert(next.last() == placements@[i as int]);
        if placements[i].tray_index == tray_index {
            r.push(placements[i].device.node_id.clone());
            assert(text_views(r@) =~= ids.push(placements@[i as int].device.node_id@));
        }
        i += 1;
    }
    assert(placements@.subrange(0, placements@.len() as int) =~= placements@);
    r
}

/// The details of a failure, where there are any.
pub open spec fn failure_details(message: Seq<char>) -> Seq<char> {
    if blank(message) {
        "no error details provided"@
    } else {
        message
    }
}

/// What selecting the primary switch gives: the switch in the lowest tray, if the response is
/// a success and places every switch of the rack, no two of them in one tray.
pub open spec fn primary_selection(
    switches: Seq<FirmwareUpgradeDeviceInfo>,
    response: BatchGetNodeDeviceInfoResponse,
    r: Result<SwitchPlacement, String>,
) -> bool {
    if !response.status.succeeded() {
        r is Err && r->Err_0@ == "RMS BatchGetNodeDeviceInfo failed: "@ + failure_details(
            response.message@,
        )
    } else {
        match placements_of(switches, response.node_device_details@) {
            Err(failure) => r is Err && r->Err_0@ == failure,
            Ok(placements) => if placements.len() == 0 {
                r is Err && r->Err_0@
                    == "RMS returned no switch device info for ConfigureNmxCluster"@
            } else if placements.len() != switches.len() {
                r is Err && r->Err_0@ == "RMS did not return device info for switches: "@ + joined(
                    unplaced_ids(switches, response.node_device_details@),
                    ", "@,
                )
            } else if exists|tray_index: u32| #[trigger] is_lowest_shared_tray(placements, tray_index) {
                let tray_index = choose|tray_index: u32| #[trigger]
                    is_lowest_shared_tray(placements, tray_index);
                r is Err && r->Err_0@ == "RMS returned duplicate tray_index "@ + decimal_text(
                    tray_index as nat,
                ) + " for switches: "@ + joined(ids_in_tray(placements, tray_index), ", "@)
            } else {
                r is Ok && is_lowest_placed(placements, r->Ok_0)
            },
        }
    }
}

/// Whether a switch is the one of these that stands in the lowest tray.
pub open spec fn is_lowest_placed(
    placements: Seq<SwitchPlacement>,
    placement: SwitchPlacement,
) -> bool {
    &&& placements.contains(placement)
    &&& forall|i: int|
        0 <= i < placements.len() ==> placement.tray_index <= (#[trigger] placements[i]).tray_index
}

/// Selects the primary switch of a rack: the one in the lowest tray.
pub fn select_primary_switch(
    switches: &Vec<FirmwareUpgradeDeviceInfo>,
    response: &BatchGetNodeDeviceInfoResponse,
) -> (r: Result<SwitchPlacement, String>)
    ensures
        primary_selection(switches@, *response, r),
{
    if !response.status.is_success() {
        let failure = if is_blank(response.message.as_str()) {
            concat2("RMS BatchGetNodeDeviceInfo failed: ", "no error details provided")
        } else {
            concat2("RMS BatchGetNodeDeviceInfo failed: ", response.message.as_str())
        };
        return Err(failure);
    }
    let placements = match place_switches(switches, &response.node_device_details) {
        Err(failure) => {
            return Err(failure);
        },
        Ok(placements) => placements,
    };
    if placements.len() == 0 {
        return Err("RMS returned no switch device info for ConfigureNmxCluster".to_owned());
    }
    if placements.len() != switches.len() {
        let unplaced = collect_unplaced(switches, &response.node_device_details);
        let list = join(&unplaced, ", ");
        return Err(concat2("RMS did not return device info for switches: ", list.as_str()));
    }
    if let Some(tray_index) = lowest_shared_tray(&placements) {
        proof {
            let chosen = choose|t: u32| #[trigger] is_lowest_shared_tray(placements@, t);
            assert(is_lowest_shared_tray(placements@, tray_index));
            assert(chosen == tray_index);
        }
        let ids = collect_ids_in_tray(&placements, tray_index);
        let list = join(&ids, ", ");
        let number = decimal(tray_index as u64);
        let head = concat3(
            "RMS returned duplicate tray_index ",
            number.as_str(),
            " for switches: ",
        );
        return Err(concat2(head.as_str(), list.as_str()));
    }
    let mut lowest: usize = 0;
    let mut i: usize = 1;
    while i < placements.len()
        invariant
            1 <= i <= placements.len(),
            lowest < placements.len(),
            forall|k: int|
                0 <= k < i ==> placements@[lowest as int].tray_index <= (
                #[trigger] placements@[k]).tray_index,
        decreases placements.len() - i,
    {
        if placements[i].tray_index < placements[lowest].tray_index {
            lowest = i;
        }
        i += 1;
    }
    Ok(placements[lowest].clone())
}

/// Why no primary switch was observed.
#[derive(Debug)]
pub enum ObservedPrimarySwitchError {
    /// The response can still become authoritative.
    Retryable(String),
    /// The response breaks its contract, which asking again cannot repair.
    Terminal(String),
}

/// Why no primary switch was observed, with texts as characters.
pub enum ObservationFailure {
    Retryable(Seq<char>),
    Terminal(Seq<char>),
}

impl View for ObservedPrimarySwitchError {
    type V = ObservationFailure;

    open spec fn view(&self) -> ObservationFailure {
        match *self {
            ObservedPrimarySwitchError::Retryable(text) => ObservationFailure::Retryable(text@),
            ObservedPrimarySwitchError::Terminal(text) => ObservationFailure::Terminal(text@),
        }
    }
}

/// The status of a switch in a scale-up fabric.
#[derive(Debug)]
pub struct ScaleUpFabricSwitchStatus {
    pub node_id: String,
    pub enabled: bool,
    pub error_message: String,
}

/// The status of a scale-up fabric.
#[derive(Debug)]
pub struct GetScaleUpFabricStatusResponse {
    pub status: ReturnStatus,
    /// The status of the fabric's switches, where there is one.
    pub fabric_status: Option<Vec<ScaleUpFabricSwitchStatus>>,
    pub error_message: String,
}

/// Whether a switch with this id is expected.
pub open spec fn is_expected(
    switches: Seq<FirmwareUpgradeDeviceInfo>,
    node_id: Seq<char>,
) -> bool {
    exists|i: int| 0 <= i < switches.len() && (#[trigger] switches[i]).node_id@ == node_id
}

/// Whether a switch with this id was observed.
pub open spec fn is_observed(
    observed: Seq<ScaleUpFabricSwitchStatus>,
    node_id: Seq<char>,
) -> bool {
    exists|i: int| 0 <= i < observed.len() && (#[trigger] observed[i]).node_id@ == node_id
}

/// The first switch that is enabled.
pub open spec fn first_enabled(observed: Seq<ScaleUpFabricSwitchStatus>) -> Option<Seq<char>>
    decreases observed.len(),
{
    if observed.len() == 0 {
        None
    } else if first_enabled(observed.drop_last()) is Some {
        first_enabled(observed.drop_last())
    } else if observed.last().enabled {
        Some(observed.last().node_id@)
    } else {
        None
    }
}

/// What is wrong with the last of the observed switches: it is unexpected, was observed
/// before, could not be inspected, or is enabled as another one before it is.
pub open spec fn last_failure(
    switches: Seq<FirmwareUpgradeDeviceInfo>,
    observed: Seq<ScaleUpFabricSwitchStatus>,
) -> Option<ObservationFailure> {
    let before = observed.drop_last();
    let switch = observed.last();
    if !is_expected(switches, switch.node_id@) {
        Some(
            ObservationFailure::Terminal(
                "RMS GetScaleUpFabricStatus returned unexpected switch "@ + switch.node_id@,
            ),
        )
    } else if is_observed(before, switch.node_id@) {
        Some(
            ObservationFailure::Terminal(
                "RMS GetScaleUpFabricStatus returned duplicate switch "@ + switch.node_id@,
            ),
        )
    } else if !blank(switch.error_message@) {
        Some(
            ObservationFailure::Retryable(
                "RMS failed to inspect switch "@ + switch.node_id@ + ": "@ + switch.error_message@,
            ),
        )
    } else if switch.enabled && first_enabled(before) is Some {
        Some(
            ObservationFailure::Retryable(
                "RMS reported multiple primary switches: "@ + first_enabled(before)->0 + ", "@
                    + switch.node_id@,
            ),
        )
    } else {
        None
    }
}

/// What is wrong with the first of the observed switches with which something is.
pub open spec fn first_failure(
    switches: Seq<FirmwareUpgradeDeviceInfo>,
    observed: Seq<ScaleUpFabricSwitchStatus>,
) -> Option<ObservationFailure>
    decreases observed.len(),
{
    if observed.len() == 0 {
        None
    } else {
        match first_failure(switches, observed.drop_last()) {
            Some(failure) => Some(failure),
            None => last_failure(switches, observed),
        }
    }
}

pub proof fn failure_stays(
    switches: Seq<FirmwareUpgradeDeviceInfo>,
    observed: Seq<ScaleUpFabricSwitchStatus>,
    n: int,
)
    requires
        0 <= n <= observed.len(),
        first_failure(switches, observed.subrange(0, n)) is Some,
    ensures
        first_failure(switches, observed) == first_failure(switches, observed.subrange(0, n)),
    decreases observed.len(),
{
    if n == observed.len() {
        assert(observed.subrange(0, n) =~= observed);
    } else {
        assert(observed.drop_last().subrange(0, n) =~= observed.subrange(0, n));
        failure_stays(switches, observed.drop_last(), n);
    }
}

/// The ids of the expected switches that were not observed, each once, in the order in which
/// they are expected.
pub open spec fn omitted_ids(
    switches: Seq<FirmwareUpgradeDeviceInfo>,
    observed: Seq<ScaleUpFabricSwitchStatus>,
) -> Seq<Seq<char>>
    decreases switches.len(),
{
    if switches.len() == 0 {
        seq![]
    } else {
        let before = omitted_ids(switches.drop_last(), observed);
        let node_id = switches.last().node_id@;
        if is_observed(observed, node_id) || is_expected(switches.drop_last(), node_id) {
            before
        } else {
            before.push(node_id)
        }
    }
}

/// What observing the primary switch gives. The response must be a success with a fabric
/// status; each of its switches must be expected, occur once, have been inspected and not be
/// a second enabled one; every expected switch must occur, one of them enabled and with a
/// valid id.
pub open spec fn primary_observation(
    switches: Seq<FirmwareUpgradeDeviceInfo>,
    response: GetScaleUpFabricStatusResponse,
) -> Result<SwitchId, ObservationFailure> {
    match response.status.code {
        Some(ReturnCode::Success) => match response.fabric_status {
            None => Err(
                ObservationFailure::Terminal(
                    "RMS GetScaleUpFabricStatus returned no fabric status"@,
                ),
            ),
            Some(observed) => match first_failure(switches, observed@) {
                Some(failure) => Err(failure),
                None => if omitted_ids(switches, observed@).len() > 0 {
                    Err(
                        ObservationFailure::Terminal(
                            "RMS GetScaleUpFabricStatus omitted switches: "@ + joined(
                                omitted_ids(switches, observed@),
                                ", "@,
                            ),
                        ),
                    )
                } else {
                    match first_enabled(observed@) {
                        None => Err(
                            ObservationFailure::Retryable(
                                "RMS GetScaleUpFabricStatus reported no primary switch"@,
                            ),
                        ),
                        Some(node_id) => match device_of(switches, node_id) {
                            None => Err(
                                ObservationFailure::Terminal(
                                    "RMS GetScaleUpFabricStatus returned unexpected switch "@
                                        + node_id,
                                ),
                            ),
                            Some(device) => match device.switch_id {
                                Ok(id) => Ok(id),
                                Err(error) => Err(
                                    ObservationFailure::Terminal(
                                        "RMS returned invalid primary switch ID '"@ + node_id
                                            + "': "@ + error@,
                                    ),
                                ),
                            },
                        },
                    }
                },
            },
        },
        Some(ReturnCode::Failure) => Err(
            ObservationFailure::Retryable(
                "RMS GetScaleUpFabricStatus failed: "@ + failure_details(response.error_message@),
            ),
        ),
        _ => Err(
            ObservationFailure::Terminal(
                "RMS GetScaleUpFabricStatus returned invalid status "@ + signed_decimal_text(
                    response.status.number as int,
                ),
            ),
        ),
    }
}

fn expects(switches: &Vec<FirmwareUpgradeDeviceInfo>, count: usize, node_id: &str) -> (r: bool)
    requires
        count <= switches@.len(),
    ensures
        r == is_expected(switches@.subrange(0, count as int), node_id@),
{
    let mut i: usize = 0;
    let ghost some = switches@.subrange(0, count as int);
    while i < count
        invariant
            i <= count,
            count <= switches@.len(),
            some == switches@.subrange(0, count as int),
            forall|k: int| 0 <= k < i ==> (#[trigger] some[k]).node_id@ != node_id@,
        decreases count - i,
    {
        if text_eq(switches[i].node_id.as_str(), node_id) {
            assert(some[i as int].node_id@ == node_id@);
            return true;
        }
        i += 1;
    }
    false
}

fn observes(observed: &Vec<ScaleUpFabricSwitchStatus>, count: usize, node_id: &str) -> (r: bool)
    requires
        count <= observed@.len(),
    ensures
        r == is_observed(observed@.subrange(0, count as int), node_id@),
{
    let mut i: usize = 0;
    let ghost some = observed@.subrange(0, count as int);
    while i < count
        invariant
            i <= count,
            count <= observed@.len(),
            some == observed@.subrange(0, count as int),
            forall|k: int| 0 <= k < i ==> (#[trigger] some[k]).node_id@ != node_id@,
        decreases count - i,
    {
        if text_eq(observed[i].node_id.as_str(), node_id) {
            assert(some[i as int].node_id@ == node_id@);
            return true;
        }
        i += 1;
    }
    false
}

/// The enabled switch among the observed ones, if nothing is wrong with any of them.
fn scan_observed(
    switches: &Vec<FirmwareUpgradeDeviceInfo>,
    observed: &Vec<ScaleUpFabricSwitchStatus>,
) -> (r: Result<Option<String>, ObservedPrimarySwitchError>)
    ensures
        match first_failure(switches@, observed@) {
            Some(failure) => r is Err && r->Err_0@ == failure,
            None => r is Ok && first_enabled(observed@) == (match r->Ok_0 {
                Some(id) => Some(id@),
                None => None,
            }),
        },
{
    let mut enabled: Option<String> = None;
    let mut i: usize = 0;
    assert(switches@.subrange(0, switches@.len() as int) =~= switches@);
    while i < observed.len()
        invariant
            i <= observed.len(),
            switches@.subrange(0, switches@.len() as int) == switches@,
            first_failure(switches@, observed@.subrange(0, i as int)) is None,
            first_enabled(observed@.subrange(0, i as int)) == (match enabled {
                Some(id) => Some(id@),
                None => None,
            }),
        decreases observed.len() - i,
    {
        let ghost next = observed@.subrange(0, i + 1);
        let switch = &observed[i];
        proof {
            assert(next.drop_last() =~= observed@.subrange(0, i as int));
            assert(next.last() == observed@[i as int]);
            if last_failure(switches@, next) is Some {
                assert(first_failure(switches@, next) == last_failure(switches@, next));
                failure_stays(switches@, observed@, i + 1);
            }
        }
        if !expects(switches, switches.len(), switch.node_id.as_str()) {
            return Err(
                ObservedPrimarySwitchError::Terminal(
                    concat2(
                        "RMS GetScaleUpFabricStatus returned unexpected switch ",
                        switch.node_id.as_str(),
                    ),
                ),
            );
        }
        if observes(observed, i, switch.node_id.as_str()) {
            return Err(
                ObservedPrimarySwitchError::Terminal(
                    concat2(
                        "RMS GetScaleUpFabricStatus returned duplicate switch ",
                        switch.node_id.as_str(),
                    ),
                ),
            );
        }
        if !is_blank(switch.error_message.as_str()) {
            let head = concat3("RMS failed to inspect switch ", switch.node_id.as_str(), ": ");
            return Err(
                ObservedPrimarySwitchError::Retryable(
                    concat2(head.as_str(), switch.error_message.as_str()),
                ),
            );
        }
        if switch.enabled {
            if let Some(previous) = &enabled {
                let head = concat3(
                    "RMS reported multiple primary switches: ",
                    previous.as_str(),
                    ", ",
                );
                return Err(
                    ObservedPrimarySwitchError::Retryable(
                        concat2(head.as_str(), switch.node_id.as_str()),
                    ),
                );
            }
            enabled = Some(switch.node_id.clone());
        }
        i += 1;
    }
    assert(observed@.subrange(0, observed@.len() as int) =~= observed@);
    Ok(enabled)
}

fn collect_omitted(
    switches: &Vec<FirmwareUpgradeDeviceInfo>,
    observed: &Vec<ScaleUpFabricSwitchStatus>,
) -> (r: Vec<String>)
    ensures
        text_views(r@) == omitted_ids(switches@, observed@),
{
    let mut r: Vec<String> = Vec::new();
    let mut i: usize = 0;
    assert(text_views(r@) =~= omitted_ids(switches@.subrange(0, 0), observed@));
    assert(observed@.subrange(0, observed@.len() as int) =~= observed@);
    while i < switches.len()
        invariant
            i <= switches.len(),
            observed@.subrange(0, observed@.len() as int) == observed@,
            text_views(r@) == omitted_ids(switches@.subrange(0, i as int), observed@),
        decreases switches.len() - i,
    {
        let ghost next = switches@.subrange(0, i + 1);
        let ghost ids = text_views(r@);
        assert(next.drop_last() =~= switches@.subrange(0, i as int));
        assert(next.last() == switches@[i as int]);
        let node_id = switches[i].node_id.as_str();
        if !observes(observed, observed.len(), node_id) && !expects(switches, i, node_id) {
            r.push(switches[i].node_id.clone());
            assert(text_views(r@) =~= ids.push(switches@[i as int].node_id@));
        }
        i += 1;
    }
    assert(switches@.subrange(0, switches@.len() as int) =~= switches@);
    r
}

/// The primary switch that a status response shows.
pub fn observed_primary_switch(
    switches: &Vec<FirmwareUpgradeDeviceInfo>,
    response: &GetScaleUpFabricStatusResponse,
) -> (r: Result<SwitchId, ObservedPrimarySwitchError>)
    ensures
        primary_observation(switches@, *response) == (match r {
            Ok(id) => Ok(id),
            Err(error) => Err(error@),
        }),
{
    match response.status.code {
        Some(ReturnCode::Success) => {},
        Some(ReturnCode::Failure) => {
            let failure = if is_blank(response.error_message.as_str()) {
                concat2("RMS GetScaleUpFabricStatus failed: ", "no error details provided")
            } else {
                concat2("RMS GetScaleUpFabricStatus failed: ", response.error_message.as_str())
            };
            return Err(ObservedPrimarySwitchError::Retryable(failure));
        },
        _ => {
            let number = signed_decimal(response.status.number as i64);
            return Err(
                ObservedPrimarySwitchError::Terminal(
                    concat2("RMS GetScaleUpFabricStatus returned invalid status ", number.as_str()),
                ),
            );
        },
    }
    let observed = match &response.fabric_status {
        None => {
            return Err(
                ObservedPrimarySwitchError::Terminal(
                    "RMS GetScaleUpFabricStatus returned no fabric status".to_owned(),
                ),
            );
        },
        Some(observed) => observed,
    };
    let enabled = match scan_observed(switches, observed) {
        Err(error) => {
            return Err(error);
        },
        Ok(enabled) => enabled,
    };
    let omitted = collect_omitted(switches, observed);
    assert(text_views(omitted@).len() == omitted@.len());
    if omitted.len() > 0 {
        let list = join(&omitted, ", ");
        return Err(
            ObservedPrimarySwitchError::Terminal(
                concat2("RMS GetScaleUpFabricStatus omitted switches: ", list.as_str()),
            ),
        );
    }
    let node_id = match enabled {
        None => {
            return Err(
                ObservedPrimarySwitchError::Retryable(
                    "RMS GetScaleUpFabricStatus reported no primary switch".to_owned(),
                ),
            );
        },
        Some(node_id) => node_id,
    };
    match find_device(switches, node_id.as_str()) {
        None => Err(
            ObservedPrimarySwitchError::Terminal(
                concat2(
                    "RMS GetScaleUpFabricStatus returned unexpected switch ",
                    node_id.as_str(),
                ),
            ),
        ),
        Some(device) => match device.switch_id {
            Ok(id) => Ok(id),
            Err(error) => {
                let head = concat3(
                    "RMS returned invalid primary switch ID '",
                    node_id.as_str(),
                    "': ",
                );
                Err(ObservedPrimarySwitchError::Terminal(concat2(head.as_str(), error.as_str())))
            },
        },
    }
}

/// The switch to be written as its rack's primary one, or why it cannot be.
pub fn persist_primary_switch(
    primary_switch_node_id: &str,
    switch_id: Result<SwitchId, String>,
) -> (r: Result<SwitchId, String>)
    ensures
        match switch_id {
            Ok(id) => r == Ok::<SwitchId, String>(id),
            Err(error) => r is Err && r->Err_0@ == "selected primary switch '"@
                + primary_switch_node_id@ + "' is not a valid SwitchId: "@ + error@,
        },
{
    match switch_id {
        Ok(id) => Ok(id),
        Err(error) => {
            let head = concat3(
                "selected primary switch '",
                primary_switch_node_id,
                "' is not a valid SwitchId: ",
            );
            Err(concat2(head.as_str(), error.as_str()))
        },
    }
}

/// The failure of writing the primary switch of a rack.
pub fn primary_switch_write_failure(node_id: &str, rack_id: &str, error: &str) -> (r: String)
    ensures
        r@ == "failed to persist primary switch '"@ + node_id@ + "' for rack "@ + rack_id@ + ": "@
            + error@,
{
    let head = concat3("failed to persist primary switch '", node_id, "' for rack ");
    let rack = concat3(head.as_str(), rack_id, ": ");
    concat2(rack.as_str(), error)
}

/// Whether an observation is complete: each observed switch is expected, occurs once and was
/// inspected, and each expected switch is observed.
pub open spec fn is_complete(
    switches: Seq<FirmwareUpgradeDeviceInfo>,
    observed: Seq<ScaleUpFabricSwitchStatus>,
) -> bool {
    &&& forall|i: int|
        0 <= i < observed.len() ==> is_expected(switches, (#[trigger] observed[i]).node_id@)
            && blank(observed[i].error_message@)
    &&& forall|i: int, j: int|
        #![trigger observed[i], observed[j]]
        0 <= i < j < observed.len() ==> observed[i].node_id@ != observed[j].node_id@
    &&& forall|i: int|
        0 <= i < switches.len() ==> is_observed(observed, (#[trigger] switches[i]).node_id@)
}

/// Whether the switch at this position, and no other, is enabled.
pub open spec fn only_enabled(observed: Seq<ScaleUpFabricSwitchStatus>, i: int) -> bool {
    &&& 0 <= i < observed.len() && observed[i].enabled
    &&& forall|j: int| 0 <= j < observed.len() && (#[trigger] observed[j]).enabled ==> j == i
}

/// Whether the switch at this position, and no other, is enabled, and has this id.
pub open spec fn enabled_with_id(
    switches: Seq<FirmwareUpgradeDeviceInfo>,
    observed: Seq<ScaleUpFabricSwitchStatus>,
    i: int,
    id: SwitchId,
) -> bool {
    &&& only_enabled(observed, i)
    &&& device_of(switches, observed[i].node_id@) is Some
    &&& device_of(switches, observed[i].node_id@)->0.switch_id == Ok::<SwitchId, String>(id)
}

/// A primary switch is observed exactly where the response is a success with a complete
/// fabric status in which one switch, which has a valid id, is enabled; it is that switch.
pub proof fn primary_is_observed_in_complete_responses_only(
    switches: Seq<FirmwareUpgradeDeviceInfo>,
    response: GetScaleUpFabricStatusResponse,
    id: SwitchId,
)
    ensures
        primary_observation(switches, response) == Ok::<SwitchId, ObservationFailure>(id) <==> {
            &&& response.status.succeeded()
            &&& response.fabric_status is Some
            &&& is_complete(switches, response.fabric_status->0@)
            &&& exists|i: int| #[trigger]
                enabled_with_id(switches, response.fabric_status->0@, i, id)
        },
{
    if response.status.succeeded() && response.fabric_status is Some {
        let observed = response.fabric_status->0@;
        no_failure_means_sound(switches, observed);
        nothing_omitted_means_all_observed(switches, observed);
        if primary_observation(switches, response) is Ok {
            enabled_is_unique(observed);
            let i = choose|i: int| #[trigger] only_enabled(observed, i);
            assert(primary_observation(switches, response) == Ok::<
                SwitchId,
                ObservationFailure,
            >(id) ==> enabled_with_id(switches, observed, i, id));
            assert forall|a: int, b: int|
                #![trigger observed[a], observed[b]]
                0 <= a < b < observed.len() implies observed[a].node_id@
                != observed[b].node_id@ by {
                assert(sound_at(switches, observed, b));
                assert(observed.subrange(0, b)[a] == observed[a]);
            }
            assert forall|a: int| 0 <= a < observed.len() implies is_expected(
                switches,
                (#[trigger] observed[a]).node_id@,
            ) && blank(observed[a].error_message@) by {
                assert(sound_at(switches, observed, a));
            }
        }
        if is_complete(switches, observed) && exists|i: int| #[trigger]
            enabled_with_id(switches, observed, i, id) {
            let i = choose|i: int| #[trigger] enabled_with_id(switches, observed, i, id);
            assert forall|k: int| 0 <= k < observed.len() implies #[trigger] sound_at(
                switches,
                observed,
                k,
            ) by {
                let before = observed.subrange(0, k);
                if is_observed(before, observed[k].node_id@) {
                    let m = choose|m: int|
                        0 <= m < before.len() && (#[trigger] before[m]).node_id@
                            == observed[k].node_id@;
                    assert(before[m] == observed[m]);
                    assert(observed[m].node_id@ != observed[k].node_id@);
                }
                if observed[k].enabled {
                    none_enabled(before);
                }
            }
            enabled_is_first(observed, i);
        }
    }
}

/// Nothing is wrong with the observed switch at this position.
pub open spec fn sound_at(
    switches: Seq<FirmwareUpgradeDeviceInfo>,
    observed: Seq<ScaleUpFabricSwitchStatus>,
    k: int,
) -> bool {
    let before = observed.subrange(0, k);
    &&& is_expected(switches, observed[k].node_id@)
    &&& !is_observed(before, observed[k].node_id@)
    &&& blank(observed[k].error_message@)
    &&& observed[k].enabled ==> first_enabled(before) is None
}

pub proof fn no_failure_means_sound(
    switches: Seq<FirmwareUpgradeDeviceInfo>,
    observed: Seq<ScaleUpFabricSwitchStatus>,
)
    ensures
        first_failure(switches, observed) is None <==> forall|k: int|
            0 <= k < observed.len() ==> #[trigger] sound_at(switches, observed, k),
        first_failure(switches, observed) is None ==> (first_enabled(observed) is Some
            ==> exists|i: int| #[trigger] only_enabled(observed, i)),
    decreases observed.len(),
{
    if observed.len() > 0 {
        let before = observed.drop_last();
        let last = observed.len() - 1;
        no_failure_means_sound(switches, before);
        assert(observed.subrange(0, last) =~= before);
        assert(last_failure(switches, observed) is None <==> sound_at(switches, observed, last));
        assert forall|k: int| 0 <= k < before.len() implies (#[trigger] sound_at(
            switches,
            before,
            k,
        ) <==> sound_at(switches, observed, k)) by {
            assert(before.subrange(0, k) =~= observed.subrange(0, k));
        }
        if first_failure(switches, observed) is None {
            assert forall|k: int| 0 <= k < observed.len() implies #[trigger] sound_at(
                switches,
                observed,
                k,
            ) by {
                if k < last {
                    assert(sound_at(switches, before, k));
                }
            }
            if first_enabled(before) is Some {
                let i = choose|i: int| #[trigger] only_enabled(before, i);
                assert forall|j: int|
                    0 <= j < observed.len() && (#[trigger] observed[j]).enabled implies j == i by {
                    if j < last {
                        assert(before[j] == observed[j]);
                    }
                }
                assert(before[i] == observed[i]);
                assert(only_enabled(observed, i));
            } else if observed.last().enabled {
                nothing_enabled(before);
                assert forall|j: int|
                    0 <= j < observed.len() && (#[trigger] observed[j]).enabled implies j
                    == last by {
                    if j < last {
                        assert(before[j] == observed[j]);
                    }
                }
                assert(only_enabled(observed, last));
            }
        } else if forall|k: int|
            0 <= k < observed.len() ==> #[trigger] sound_at(switches, observed, k) {
            assert(sound_at(switches, observed, last));
            assert forall|k: int| 0 <= k < before.len() implies #[trigger] sound_at(
                switches,
                before,
                k,
            ) by {
                assert(sound_at(switches, observed, k));
            }
        }
    }
}

pub proof fn nothing_enabled(observed: Seq<ScaleUpFabricSwitchStatus>)
    requires
        first_enabled(observed) is None,
    ensures
        forall|j: int| 0 <= j < observed.len() ==> !(#[trigger] observed[j]).enabled,
    decreases observed.len(),
{
    if observed.len() > 0 {
        let before = observed.drop_last();
        nothing_enabled(before);
        assert forall|j: int| 0 <= j < observed.len() implies !(#[trigger] observed[j]).enabled by {
            if j < before.len() {
                assert(before[j] == observed[j]);
            }
        }
    }
}

pub proof fn none_enabled(before: Seq<ScaleUpFabricSwitchStatus>)
    requires
        forall|j: int| 0 <= j < before.len() ==> !(#[trigger] before[j]).enabled,
    ensures
        first_enabled(before) is None,
    decreases before.len(),
{
    if before.len() > 0 {
        let rest = before.drop_last();
        assert forall|j: int| 0 <= j < rest.len() implies !(#[trigger] rest[j]).enabled by {
            assert(rest[j] == before[j]);
        }
        none_enabled(rest);
        assert(!before[before.len() - 1].enabled);
    }
}

proof fn enabled_is_unique(observed: Seq<ScaleUpFabricSwitchStatus>)
    ensures
        forall|i: int| #[trigger]
            only_enabled(observed, i) ==> first_enabled(observed) == Some(observed[i].node_id@),
{
    assert forall|i: int| #[trigger] only_enabled(observed, i) implies first_enabled(observed)
        == Some(observed[i].node_id@) by {
        enabled_is_first(observed, i);
    }
}

pub proof fn enabled_is_first(observed: Seq<ScaleUpFabricSwitchStatus>, i: int)
    requires
        only_enabled(observed, i),
    ensures
        first_enabled(observed) == Some(observed[i].node_id@),
    decreases observed.len(),
{
    let before = observed.drop_last();
    if i == observed.len() - 1 {
        assert forall|j: int| 0 <= j < before.len() implies !(#[trigger] before[j]).enabled by {
            assert(before[j] == observed[j]);
        }
        none_enabled(before);
    } else {
        assert(before[i] == observed[i]);
        assert forall|j: int| 0 <= j < before.len() && (#[trigger] before[j]).enabled implies j
            == i by {
            assert(before[j] == observed[j]);
        }
        enabled_is_first(before, i);
    }
}

pub proof fn nothing_omitted_means_all_observed(
    switches: Seq<FirmwareUpgradeDeviceInfo>,
    observed: Seq<ScaleUpFabricSwitchStatus>,
)
    ensures
        omitted_ids(switches, observed).len() == 0 <==> forall|i: int|
            0 <= i < switches.len() ==> is_observed(observed, (#[trigger] switches[i]).node_id@),
    decreases switches.len(),
{
    if switches.len() > 0 {
        let before = switches.drop_last();
        nothing_omitted_means_all_observed(before, observed);
        if omitted_ids(switches, observed).len() == 0 {
            assert forall|i: int| 0 <= i < switches.len() implies is_observed(
                observed,
                (#[trigger] switches[i]).node_id@,
            ) by {
                if i < before.len() {
                    assert(before[i] == switches[i]);
                } else if is_expected(before, switches.last().node_id@) {
                    let k = choose|k: int|
                        0 <= k < before.len() && (#[trigger] before[k]).node_id@
                            == switches.last().node_id@;
                    assert(is_observed(observed, before[k].node_id@));
                }
            }
        } else if forall|i: int|
            0 <= i < switches.len() ==> is_observed(observed, (#[trigger] switches[i]).node_id@) {
            assert forall|i: int| 0 <= i < before.len() implies is_observed(
                observed,
                (#[trigger] before[i]).node_id@,
            ) by {
                assert(before[i] == switches[i]);
            }
            assert(is_observed(observed, switches[switches.len() - 1].node_id@));
        }
    }
}

/// A selected primary switch stands in a lower tray than every other switch of the response,
/// which places as many switches as the rack has.
pub proof fn selected_switch_is_alone_in_the_lowest_tray(
    switches: Seq<FirmwareUpgradeDeviceInfo>,
    response: BatchGetNodeDeviceInfoResponse,
    primary: SwitchPlacement,
)
    requires
        primary_selection(switches, response, Ok(primary)),
    ensures
        response.status.succeeded(),
        placements_of(switches, response.node_device_details@) is Ok,
        ({
            let placements = placements_of(switches, response.node_device_details@)->Ok_0;
            &&& placements.len() == switches.len()
            &&& exists|i: int|
                {
                    &&& 0 <= i < placements.len()
                    &&& #[trigger] placements[i] == primary
                    &&& forall|j: int|
                        0 <= j < placements.len() && j != i ==> primary.tray_index < (
                        #[trigger] placements[j]).tray_index
                }
        }),
{
    let placements = placements_of(switches, response.node_device_details@)->Ok_0;
    let i = choose|i: int| 0 <= i < placements.len() && placements[i] == primary;
    if exists|t: u32| #[trigger] is_shared_tray(placements, t) {
        let t = choose|t: u32| #[trigger] is_shared_tray(placements, t);
        lowest_shared_tray_exists(placements, t);
    }
    assert forall|j: int| 0 <= j < placements.len() && j != i implies primary.tray_index < (
    #[trigger] placements[j]).tray_index by {
        if placements[j].tray_index == primary.tray_index {
            if i < j {
                assert(placements[i].tray_index == primary.tray_index);
            }
            assert(is_shared_tray(placements, primary.tray_index));
        }
    }
    assert(placements[i] == primary);
}

proof fn lowest_shared_tray_exists(placements: Seq<SwitchPlacement>, t: u32)
    requires
        is_shared_tray(placements, t),
    ensures
        exists|tray_index: u32| #[trigger] is_lowest_shared_tray(placements, tray_index),
    decreases t,
{
    if forall|other: u32| #[trigger] is_shared_tray(placements, other) ==> t <= other {
        assert(is_lowest_shared_tray(placements, t));
    } else {
        let other = choose|other: u32| #[trigger] is_shared_tray(placements, other) && other < t;
        lowest_shared_tray_exists(placements, other);
    }
}

} // verus!
