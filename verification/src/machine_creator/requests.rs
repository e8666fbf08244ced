//! What an ingestion asks of the database and its other services, what they answer, and how
//! an ingestion can fail.
use vstd::prelude::*;

use crate::addresses::{mac_text, IpAddr, MacAddress, MachineId, MachineInterfaceId, NetworkSegmentId, Uuid};
use crate::expected_machine_data::{ExpectedHostNic, ExpectedMachine};
use crate::machine_creator::locks::{BmcInterfaceOwner, ExpectedInterfaceDiscoveryLockInputs};
use crate::text::{concat2, concat3};
use crate::rms_node_type::{
    descriptor_error_text, NodeDescriptorError, NodeInfo, RackProfile, UsernamePassword,
};

verus! {

/// An interface row of the database.
#[derive(Debug)]
pub struct InterfaceRow {
    pub id: MachineInterfaceId,
    pub mac_address: MacAddress,
    pub machine_id: Option<MachineId>,
    pub primary_interface: bool,
    pub is_bmc: bool,
}

impl Clone for InterfaceRow {
    fn clone(&self) -> (r: Self)
        ensures
            r == *self,
    {
        InterfaceRow {
            id: self.id,
            mac_address: self.mac_address,
            machine_id: self.machine_id.clone(),
            primary_interface: self.primary_interface,
            is_bmc: self.is_bmc,
        }
    }
}

/// The network configuration of a machine. What the library does not look at is carried
/// along in `remainder`.
#[derive(Debug)]
pub struct NetworkConfig {
    pub loopback_ip: Option<IpAddr>,
    pub secondary_overlay_vtep_ip: Option<IpAddr>,
    pub remainder: String,
}

impl Clone for NetworkConfig {
    fn clone(&self) -> (r: Self)
        ensures
            r == *self,
    {
        NetworkConfig {
            loopback_ip: self.loopback_ip,
            secondary_overlay_vtep_ip: self.secondary_overlay_vtep_ip,
            remainder: self.remainder.clone(),
        }
    }
}

/// A network configuration with the version under which it was read.
#[derive(Debug)]
pub struct VersionedConfig {
    pub config: NetworkConfig,
    pub version: String,
}

impl Clone for VersionedConfig {
    fn clone(&self) -> (r: Self)
        ensures
            r == *self,
    {
        VersionedConfig { config: self.config.clone(), version: self.version.clone() }
    }
}

/// An interface that is predicted to appear on the host's in-band network.
#[derive(Debug)]
pub struct Prediction {
    pub machine_id: MachineId,
    pub mac_address: MacAddress,
    pub boot_interface_id: Option<String>,
    pub primary_interface: bool,
    pub expected_interface: Option<ExpectedHostNic>,
}

/// The declaration of a machine with what its data say of the boot interface.
#[derive(Debug)]
pub struct DeclaredMachine {
    pub machine: ExpectedMachine,
    /// The MAC address of the interface that is declared primary.
    pub declared_primary: Option<MacAddress>,
}

/// Whose BMC and hardware data a topology is written from: those of the host, with empty
/// hardware data, or those of the DPU at this position.
#[derive(Clone, Copy, Debug, PartialEq, Eq, Structural)]
pub enum TopologySubject {
    Host,
    Dpu(usize),
}

/// How far the discovery of a DPU has come.
#[derive(Clone, Copy, Debug, PartialEq, Eq, Structural)]
pub enum DpuDiscoveringState {
    Initializing,
}

/// A request to the database or another service. The ingestion that
/// makes a request says which list goes with it.
#[derive(Debug)]
pub enum Request {
    /// Read the root credentials of a BMC. A failure counts as none.
    GetBmcCredentials { bmc_mac_address: MacAddress },
    BeginTransaction,
    FindExpectedMachineForUpdate { id: Option<Uuid>, bmc_mac_address: MacAddress },
    FindBmcOwner { address: IpAddr },
    /// Lock the ingestion's interface MAC addresses.
    LockInterfaceMacs,
    FindDiscoveryLockInputs { mac_address: MacAddress },
    ListAdminSegments,
    FindSegmentForAddress { address: IpAddr },
    /// Lock the ingestion's segments.
    LockSegments,
    /// Lock the ingestion's fixed addresses.
    LockFixedAddresses,
    FindBmcOwnerForUpdate { address: IpAddr },
    FindMachineByMac { mac_address: MacAddress },
    FindPredictedInterfaces { mac_address: MacAddress },
    /// Derive a predicted machine id from the host's report.
    GenerateMachineId,
    FindMachine { machine_id: MachineId, include_predicted_host: bool },
    /// Create a machine in its first state, with or without the declared data.
    CreateMachine { machine_id: MachineId, with_declaration: bool },
    WriteTopology { machine_id: MachineId, subject: TopologySubject },
    MarkTopologyUpdateNeeded { machine_id: MachineId },
    /// Complete the subject's BMC data from the interface rows.
    EnrichBmcMac { machine_id: MachineId, subject: TopologySubject },
    /// Write the subject's BMC data to the interface rows, with the interface declared for
    /// the BMC's MAC address.
    WriteBmcNetwork {
        machine_id: MachineId,
        subject: TopologySubject,
        bmc_mac: Option<MacAddress>,
    },
    FindRetainedBootInterface { mac_address: MacAddress },
    FindInterface { mac_address: MacAddress },
    /// Record the interface declared for the MAC address before the row is associated.
    CaptureExpectedInterface { interface_id: MachineInterfaceId, mac_address: MacAddress },
    SetPrimaryInterface { interface_id: MachineInterfaceId, primary: bool },
    AssociateWithMachine { interface_id: MachineInterfaceId, machine_id: MachineId },
    AssociateWithDpuMachine { interface_id: MachineInterfaceId, dpu_machine_id: MachineId },
    CreatePrediction { prediction: Prediction },
    FindPrediction { mac_address: MacAddress },
    /// Look up the hosts of the ingestion's DPUs.
    LookUpHostsByDpus,
    DemotePrimaryInterfaces { machine_id: MachineId },
    FindOrCreateHostInterface { dpu_machine_id: MachineId, mac_address: MacAddress },
    ReloadInterface { interface_id: MachineInterfaceId },
    AllocateLoopbackIp { machine_id: MachineId },
    AllocateSecondaryVtepIp { machine_id: MachineId },
    WriteNetworkConfig { machine_id: MachineId, versioned: VersionedConfig },
    /// Settle the host's addresses in the ingestion's administrative segments.
    ReconcileAdminAddresses { machine_id: MachineId },
    ReadNetworkConfig { machine_id: MachineId },
    /// Put the host into discovery, with the states that the ingestion has for its DPUs.
    WriteDiscoveringState { machine_id: MachineId },
    EnsureRackExists { rack_id: String },
    FindRackProfile { rack_profile_id: String },
    Commit,
    /// Ask the rack manager for the slot and tray of a node.
    FetchSlotAndTray { node: NodeInfo },
    WriteSlotAndTray {
        machine_id: MachineId,
        slot_number: Option<i32>,
        tray_index: Option<i32>,
    },
}

/// An answer to a request.
#[derive(Debug)]
pub enum Reply {
    /// The request failed, with the text of the failure.
    Failed(String),
    Done,
    Credentials(Option<UsernamePassword>),
    ExpectedMachine(Option<DeclaredMachine>),
    BmcOwner(Option<BmcInterfaceOwner>),
    LockInputs(ExpectedInterfaceDiscoveryLockInputs),
    Segments(Vec<NetworkSegmentId>),
    Segment(NetworkSegmentId),
    Found(bool),
    Changed(bool),
    Machine(MachineId),
    PredictedFor(Option<MachineId>),
    Mac(Option<MacAddress>),
    Ip(IpAddr),
    Interface(Option<InterfaceRow>),
    /// Host ids by the DPU ids that exist.
    HostsByDpu(Vec<(MachineId, MachineId)>),
    Config(VersionedConfig),
    /// The rack's profile id, where there is a rack and it has one.
    Rack(Option<String>),
    RackProfile(Option<RackProfile>),
    SlotAndTray { slot_number: Option<i32>, tray_index: Option<i32> },
}

/// What was found to exist although it must not.
#[derive(Clone, Copy, Debug, PartialEq, Eq, Structural)]
pub enum FoundKind {
    MachineInterface,
    PredictedMachineInterface,
}

/// How an ingestion fails.
#[derive(Debug)]
pub enum IngestionError {
    /// A request failed.
    Backend(String),
    ExpectedMachineChanged,
    ExpectedMachineIdentityChanged,
    BmcOwnerChanged { address: IpAddr },
    BmcOwnerMismatch { address: IpAddr, bmc_mac_address: MacAddress },
    InvalidReport(String),
    PartialDpus,
    DpusOfDifferentHosts,
    HostIdMissing,
    DpuAlreadyFound { dpu_machine_id: MachineId },
    HostInterfaceAlreadyOwned { dpu_machine_id: MachineId },
    AlreadyFound { kind: FoundKind, mac_address: MacAddress },
    FactoryMacMissing(String),
    HardwareInfoMissing(String),
    RackProfileMissing { rack_id: String, machine_id: MachineId },
    RackProfileUnknown { rack_profile_id: String, machine_id: MachineId },
    NodeDescriptor(NodeDescriptorError),
    /// An answer does not fit its request.
    UnexpectedReply,
}

/// Where a stage of an ingestion stands: it waits for the answer to a request, is done with
/// a result, or has failed.
#[derive(Debug)]
pub enum Progress<S, T> {
    Ask(S, Request),
    Finished(T),
    Failed(IngestionError),
}

/// Whether a request changes what the database holds.
pub open spec fn changes_data(request: Request) -> bool {
    match request {
        Request::CreateMachine { .. } => true,
        Request::WriteTopology { .. } => true,
        Request::MarkTopologyUpdateNeeded { .. } => true,
        Request::WriteBmcNetwork { .. } => true,
        Request::CaptureExpectedInterface { .. } => true,
        Request::SetPrimaryInterface { .. } => true,
        Request::AssociateWithMachine { .. } => true,
        Request::AssociateWithDpuMachine { .. } => true,
        Request::CreatePrediction { .. } => true,
        Request::DemotePrimaryInterfaces { .. } => true,
        Request::FindOrCreateHostInterface { .. } => true,
        Request::AllocateLoopbackIp { .. } => true,
        Request::AllocateSecondaryVtepIp { .. } => true,
        Request::WriteNetworkConfig { .. } => true,
        Request::ReconcileAdminAddresses { .. } => true,
        Request::WriteDiscoveringState { .. } => true,
        Request::EnsureRackExists { .. } => true,
        Request::WriteSlotAndTray { .. } => true,
        _ => false,
    }
}

/// Whether a request takes locks that another one of this kind must not follow.
pub open spec fn takes_agreed_locks(request: Request) -> bool {
    request is LockInterfaceMacs || request is LockSegments || request is LockFixedAddresses
        || request is FindBmcOwnerForUpdate
}

/// The failure that a failed or unfitting reply means.
pub open spec fn reply_failure(reply: Reply) -> IngestionError {
    match reply {
        Reply::Failed(text) => IngestionError::Backend(text),
        _ => IngestionError::UnexpectedReply,
    }
}

/// The failure that a failed or unfitting reply means.
pub fn failure_of(reply: Reply) -> (r: IngestionError)
    ensures
        r == reply_failure(reply),
{
    match reply {
        Reply::Failed(text) => IngestionError::Backend(text),
        _ => IngestionError::UnexpectedReply,
    }
}

/// The name of a kind of row.
pub open spec fn kind_text(kind: FoundKind) -> Seq<char> {
    match kind {
        FoundKind::MachineInterface => "MachineInterface"@,
        FoundKind::PredictedMachineInterface => "PredictedMachineInterface"@,
    }
}

impl FoundKind {
    /// The name of the kind of row.
    pub fn name(self) -> (r: &'static str)
        ensures
            r@ == kind_text(self),
    {
        match self {
            FoundKind::MachineInterface => "MachineInterface",
            FoundKind::PredictedMachineInterface => "PredictedMachineInterface",
        }
    }
}

/// An error of the site explorer, by its category.
#[derive(Debug)]
pub enum SiteExplorerError {
    /// A request to the database or another service failed.
    Backend(String),
    /// What the work relied on has changed; the work can be retried.
    FailedPrecondition(String),
    Internal(String),
    InvalidArgument(String),
    AlreadyFoundError { kind: &'static str, id: String },
}

/// An error of the site explorer, with texts as characters.
pub enum ErrorView {
    Backend(Seq<char>),
    FailedPrecondition(Seq<char>),
    Internal(Seq<char>),
    InvalidArgument(Seq<char>),
    AlreadyFoundError { kind: Seq<char>, id: Seq<char> },
}

impl View for SiteExplorerError {
    type V = ErrorView;

    open spec fn view(&self) -> ErrorView {
        match *self {
            SiteExplorerError::Backend(text) => ErrorView::Backend(text@),
            SiteExplorerError::FailedPrecondition(text) => ErrorView::FailedPrecondition(text@),
            SiteExplorerError::Internal(text) => ErrorView::Internal(text@),
            SiteExplorerError::InvalidArgument(text) => ErrorView::InvalidArgument(text@),
            SiteExplorerError::AlreadyFoundError { kind, id } => ErrorView::AlreadyFoundError {
                kind: kind@,
                id: id@,
            },
        }
    }
}

/// The category and text of a failure, where `address` is the text of the failure's address,
/// and `subject` that of the host or interface row that is involved.
pub open spec fn error_report(
    error: IngestionError,
    address: Seq<char>,
    subject: Seq<char>,
) -> ErrorView {
    match error {
        IngestionError::Backend(text) => ErrorView::Backend(text@),
        IngestionError::ExpectedMachineChanged => ErrorView::FailedPrecondition(
            "ExpectedMachine changed before managed-host ingestion; retry ingestion"@,
        ),
        IngestionError::ExpectedMachineIdentityChanged => ErrorView::FailedPrecondition(
            "ExpectedMachine identity or credential selection changed before managed-host ingestion; retry ingestion"@,
        ),
        IngestionError::BmcOwnerChanged { .. } => ErrorView::FailedPrecondition(
            "BMC interface ownership for "@ + address
                + " changed while managed-host ingestion was waiting for network locks; retry ingestion"@,
        ),
        IngestionError::BmcOwnerMismatch { bmc_mac_address, .. } => ErrorView::FailedPrecondition(
            "BMC interface ownership for "@ + address
                + " does not match the locked ExpectedMachine BMC MAC "@ + mac_text(
                bmc_mac_address.octets(),
            ) + "; retry ingestion"@,
        ),
        IngestionError::InvalidReport(text) => ErrorView::Backend(text@),
        IngestionError::PartialDpus => ErrorView::Internal(
            "explored endpoint has a partial number of DPU's already created"@,
        ),
        IngestionError::DpusOfDifferentHosts => ErrorView::Internal(
            "DPU's from exploration report exist but are members of different managed hosts. exploration results are inconsistent"@,
        ),
        IngestionError::HostIdMissing => ErrorView::Internal(
            "Failed to get machine ID for host: "@ + subject,
        ),
        IngestionError::DpuAlreadyFound { dpu_machine_id } => ErrorView::Internal(
            "BUG: DPU machine "@ + dpu_machine_id.text@
                + " was already found, but we already verified that it did not exist?"@,
        ),
        IngestionError::HostInterfaceAlreadyOwned { dpu_machine_id } => ErrorView::Internal(
            "The host's machine interface for DPU "@ + dpu_machine_id.text@
                + " already has the machine ID set--something is wrong: "@ + subject,
        ),
        IngestionError::AlreadyFound { kind, mac_address } => ErrorView::AlreadyFoundError {
            kind: kind_text(kind),
            id: mac_text(mac_address.octets()),
        },
        IngestionError::FactoryMacMissing(text) => ErrorView::InvalidArgument(
            "DPU hardware info is missing its host factory MAC address: "@ + text@,
        ),
        IngestionError::HardwareInfoMissing(text) => ErrorView::InvalidArgument(
            "hardware info missing: "@ + text@,
        ),
        IngestionError::RackProfileMissing { rack_id, machine_id } => ErrorView::InvalidArgument(
            "rack "@ + rack_id@
                + " has no rack_profile_id for RMS slot and tray lookup for host machine "@
                + machine_id.text@,
        ),
        IngestionError::RackProfileUnknown {
            rack_profile_id,
            machine_id,
        } => ErrorView::InvalidArgument(
            "rack profile "@ + rack_profile_id@
                + " is not configured for RMS slot and tray lookup for host machine "@
                + machine_id.text@,
        ),
        IngestionError::NodeDescriptor(error) => ErrorView::InvalidArgument(
            descriptor_error_text(error),
        ),
        IngestionError::UnexpectedReply => ErrorView::Internal(
            "a reply does not fit its request"@,
        ),
    }
}

impl IngestionError {
    /// The category and text of the failure, where `address` is the text of the failure's
    /// address, and `subject` that of the host or interface row that is involved.
    pub fn report(&self, address: &str, subject: &str) -> (r: SiteExplorerError)
        ensures
            r@ == error_report(*self, address@, subject@),
    {
        match self {
            IngestionError::Backend(text) => SiteExplorerError::Backend(text.clone()),
            IngestionError::ExpectedMachineChanged => SiteExplorerError::FailedPrecondition(
                "ExpectedMachine changed before managed-host ingestion; retry ingestion".to_owned(),
            ),
            IngestionError::ExpectedMachineIdentityChanged => SiteExplorerError::FailedPrecondition(
                "ExpectedMachine identity or credential selection changed before managed-host ingestion; retry ingestion".to_owned(),
            ),
            IngestionError::BmcOwnerChanged { .. } => SiteExplorerError::FailedPrecondition(
                concat3(
                    "BMC interface ownership for ",
                    address,
                    " changed while managed-host ingestion was waiting for network locks; retry ingestion",
                ),
            ),
            IngestionError::BmcOwnerMismatch { bmc_mac_address, .. } => {
                let head = concat3(
                    "BMC interface ownership for ",
                    address,
                    " does not match the locked ExpectedMachine BMC MAC ",
                );
                let mac = bmc_mac_address.to_text();
                SiteExplorerError::FailedPrecondition(
                    concat3(head.as_str(), mac.as_str(), "; retry ingestion"),
                )
            },
            IngestionError::InvalidReport(text) => SiteExplorerError::Backend(text.clone()),
            IngestionError::PartialDpus => SiteExplorerError::Internal(
                "explored endpoint has a partial number of DPU's already created".to_owned(),
            ),
            IngestionError::DpusOfDifferentHosts => SiteExplorerError::Internal(
                "DPU's from exploration report exist but are members of different managed hosts. exploration results are inconsistent".to_owned(),
            ),
            IngestionError::HostIdMissing => SiteExplorerError::Internal(
                concat2("Failed to get machine ID for host: ", subject),
            ),
            IngestionError::DpuAlreadyFound { dpu_machine_id } => SiteExplorerError::Internal(
                concat3(
                    "BUG: DPU machine ",
                    dpu_machine_id.text.as_str(),
                    " was already found, but we already verified that it did not exist?",
                ),
            ),
            IngestionError::HostInterfaceAlreadyOwned { dpu_machine_id } => {
                let head = concat3(
                    "The host's machine interface for DPU ",
                    dpu_machine_id.text.as_str(),
                    " already has the machine ID set--something is wrong: ",
                );
                SiteExplorerError::Internal(concat2(head.as_str(), subject))
            },
            IngestionError::AlreadyFound { kind, mac_address } => {
                SiteExplorerError::AlreadyFoundError {
                    kind: kind.name(),
                    id: mac_address.to_text(),
                }
            },
            IngestionError::FactoryMacMissing(text) => SiteExplorerError::InvalidArgument(
                concat2(
                    "DPU hardware info is missing its host factory MAC address: ",
                    text.as_str(),
                ),
            ),
            IngestionError::HardwareInfoMissing(text) => SiteExplorerError::InvalidArgument(
                concat2("hardware info missing: ", text.as_str()),
            ),
            IngestionError::RackProfileMissing { rack_id, machine_id } => {
                let head = concat3(
                    "rack ",
                    rack_id.as_str(),
                    " has no rack_profile_id for RMS slot and tray lookup for host machine ",
                );
                SiteExplorerError::InvalidArgument(
                    concat2(head.as_str(), machine_id.text.as_str()),
                )
            },
            IngestionError::RackProfileUnknown { rack_profile_id, machine_id } => {
                let head = concat3(
                    "rack profile ",
                    rack_profile_id.as_str(),
                    " is not configured for RMS slot and tray lookup for host machine ",
                );
                SiteExplorerError::InvalidArgument(
                    concat2(head.as_str(), machine_id.text.as_str()),
                )
            },
            IngestionError::NodeDescriptor(error) => SiteExplorerError::InvalidArgument(
                error.message(),
            ),
            IngestionError::UnexpectedReply => SiteExplorerError::Internal(
                "a reply does not fit its request".to_owned(),
            ),
        }
    }
}

} // verus!
