//! The stage of an ingestion that creates the machines, once all locks are held.
use vstd::prelude::*;

use crate::addresses::{mac_text, MachineId, NetworkSegmentId};
use crate::expected_machine_data::ExpectedMachine;
use crate::exploration::ExploredManagedHost;
use crate::machine_creator::boot_nic::{
    boot_nic_start, own_declared_host_boot_nic, BootNicOwnership,
};
use crate::machine_creator::dpu::{
    attach_dpu_to_host, attach_start, configure_dpu_interface, create_dpu, dpu_creation_start,
    dpu_interface_start, AttachStep, DpuCreationStep, DpuInterfaceSetup,
};
use crate::machine_creator::locks::ManagedHostIngestionLockInputs;
use crate::machine_creator::network_config::{
    dpu_config_start, reconcile_host_admin_addresses, reconcile_start, update_dpu_network_config,
    DpuConfigStep, DpuMachine, Reconciliation,
};
use crate::machine_creator::requests::{
    failure_of, reply_failure, DpuDiscoveringState, IngestionError, Progress, Reply, Request,
};
use crate::machine_creator::zero_dpu::{
    create_zero_dpu_machine, following, next_index, zero_dpu_start, HostFacts, ZeroDpuStep,
};
use crate::rms_node_type::{
    compute_node_identity_for_profile, identity_outcome, Endpoint, NodeDescriptorError, NodeInfo,
    RmsNodeIdentity, RmsNodeRole, UsernamePassword,
};

verus! {

/// What is known when the creation starts, and does not change while it goes on.
#[derive(Debug)]
pub struct CreationContext {
    /// Whether there is a rack manager to ask.
    pub has_rms: bool,
    /// Whether DPUs get a second tunnel address.
    pub allocate_secondary_vtep_ip: bool,
    pub machine: ExpectedMachine,
    pub host: ExploredManagedHost,
    pub facts: HostFacts,
    pub locks: ManagedHostIngestionLockInputs,
    /// The credentials of the host's BMC, where the rack manager will need them.
    pub credentials: Option<UsernamePassword>,
    /// The machine ids of the host's DPUs.
    pub dpu_ids: Vec<MachineId>,
}

/// The states with which discovery starts: every DPU is initializing.
pub open spec fn first_discovery_states(dpu_ids: Seq<MachineId>) -> Seq<
    (MachineId, DpuDiscoveringState),
> {
    Seq::new(dpu_ids.len(), |i: int| (dpu_ids[i], DpuDiscoveringState::Initializing))
}

impl CreationContext {
    /// The DPUs whose hosts are looked up.
    pub fn dpus_to_look_up(&self) -> (r: &Vec<MachineId>)
        ensures
            *r == self.dpu_ids,
    {
        &self.dpu_ids
    }

    /// The administrative segments in which the host's addresses are settled.
    pub fn admin_segments(&self) -> (r: &Vec<NetworkSegmentId>)
        ensures
            *r == self.locks.admin_segment_ids,
    {
        &self.locks.admin_segment_ids
    }

    /// The states with which the host is put into discovery: one for each of its DPUs, in
    /// order. A host without DPUs has none.
    pub fn discovering_states(&self) -> (r: Vec<(MachineId, DpuDiscoveringState)>)
        ensures
            r@ == first_discovery_states(self.dpu_ids@),
    {
        let mut states: Vec<(MachineId, DpuDiscoveringState)> = Vec::new();
        let mut i: usize = 0;
        while i < self.dpu_ids.len()
            invariant
                i <= self.dpu_ids.len(),
                states@ == first_discovery_states(self.dpu_ids@.subrange(0, i as int)),
            decreases self.dpu_ids.len() - i,
        {
            states.push((self.dpu_ids[i].clone(), DpuDiscoveringState::Initializing));
            i += 1;
        }
        assert(self.dpu_ids@.subrange(0, self.dpu_ids@.len() as int) =~= self.dpu_ids@);
        states
    }
}

/// How far the creation has come. `host` is the host's machine id; `position` counts DPUs.
#[derive(Debug)]
pub enum CreationStep {
    CreatingZeroDpu { step: ZeroDpuStep },
    LookingUpHosts { known_host: Option<MachineId> },
    SettingUpExisting { host: MachineId, position: usize, setup: DpuInterfaceSetup },
    ReconcilingExisting { reconciliation: Reconciliation },
    CommittingExisting,
    CreatingDpu { known_host: Option<MachineId>, position: usize, creation: DpuCreationStep },
    AttachingDpu {
        known_host: Option<MachineId>,
        position: usize,
        machine: DpuMachine,
        attachment: AttachStep,
    },
    ConfiguringDpu { host: MachineId, position: usize, config: DpuConfigStep },
    WritingState { host: MachineId },
    EnsuringRack { host: MachineId },
    OwningBootNic {
        host: MachineId,
        profile: Option<String>,
        ownership: BootNicOwnership,
    },
    Reconciling {
        host: MachineId,
        profile: Option<String>,
        reconciliation: Reconciliation,
    },
    FindingProfile { host: MachineId, rack_profile_id: String },
    Committing { host: MachineId, identity: Option<RmsNodeIdentity> },
    FetchingSlot { host: MachineId },
    BeginningUpdate { host: MachineId, slot_number: Option<i32>, tray_index: Option<i32> },
    WritingSlot,
    CommittingSlot,
}

/// Whether the machine is among these.
pub open spec fn among(ids: Seq<MachineId>, id: MachineId) -> bool {
    exists|j: int| 0 <= j < ids.len() && id.same_as(#[trigger] ids[j])
}

/// Whether a host was found for the DPU.
pub open spec fn has_host(existing: Seq<(MachineId, MachineId)>, dpu_id: MachineId) -> bool {
    exists|i: int| 0 <= i < existing.len() && (#[trigger] existing[i]).0.same_as(dpu_id)
}

/// The DPUs for which hosts were found are just the host's DPUs.
pub open spec fn same_dpus(existing: Seq<(MachineId, MachineId)>, dpu_ids: Seq<MachineId>) -> bool {
    &&& forall|i: int| 0 <= i < existing.len() ==> among(dpu_ids, (#[trigger] existing[i]).0)
    &&& forall|j: int| 0 <= j < dpu_ids.len() ==> has_host(existing, #[trigger] dpu_ids[j])
}

/// All DPUs that exist are attached to one host.
pub open spec fn one_host(existing: Seq<(MachineId, MachineId)>) -> bool {
    forall|i: int| 0 <= i < existing.len() ==> (#[trigger] existing[i]).1.same_as(existing[0].1)
}

fn is_among(ids: &Vec<MachineId>, id: &MachineId) -> (r: bool)
    ensures
        r == among(ids@, *id),
{
    let mut j: usize = 0;
    while j < ids.len()
        invariant
            j <= ids.len(),
            forall|k: int| 0 <= k < j ==> !id.same_as(#[trigger] ids@[k]),
        decreases ids.len() - j,
    {
        if id.same(&ids[j]) {
            return true;
        }
        j += 1;
    }
    false
}

fn host_was_found(existing: &Vec<(MachineId, MachineId)>, dpu_id: &MachineId) -> (r: bool)
    ensures
        r == has_host(existing@, *dpu_id),
{
    let mut i: usize = 0;
    while i < existing.len()
        invariant
            i <= existing.len(),
            forall|k: int| 0 <= k < i ==> !(#[trigger] existing@[k]).0.same_as(*dpu_id),
        decreases existing.len() - i,
    {
        if existing[i].0.same(dpu_id) {
            return true;
        }
        i += 1;
    }
    false
}

fn dpus_are_the_same(existing: &Vec<(MachineId, MachineId)>, dpu_ids: &Vec<MachineId>) -> (r: bool)
    ensures
        r == same_dpus(existing@, dpu_ids@),
{
    let mut i: usize = 0;
    while i < existing.len()
        invariant
            i <= existing.len(),
            forall|k: int| 0 <= k < i ==> among(dpu_ids@, (#[trigger] existing@[k]).0),
        decreases existing.len() - i,
    {
        if !is_among(dpu_ids, &existing[i].0) {
            return false;
        }
        i += 1;
    }
    let mut j: usize = 0;
    while j < dpu_ids.len()
        invariant
            j <= dpu_ids.len(),
            forall|k: int| 0 <= k < j ==> has_host(existing@, #[trigger] dpu_ids@[k]),
        decreases dpu_ids.len() - j,
    {
        if !host_was_found(existing, &dpu_ids[j]) {
            return false;
        }
        j += 1;
    }
    true
}

fn hosts_are_one(existing: &Vec<(MachineId, MachineId)>) -> (r: bool)
    ensures
        r == one_host(existing@),
{
    let mut i: usize = 0;
    while i < existing.len()
        invariant
            i <= existing.len(),
            forall|k: int| 0 <= k < i ==> (#[trigger] existing@[k]).1.same_as(existing@[0].1),
        decreases existing.len() - i,
    {
        if !existing[i].1.same(&existing[0].1) {
            return false;
        }
        i += 1;
    }
    true
}

/// The creation when the host's machine is known: whether hosts of its DPUs exist.
pub open spec fn creation_look_up(host: Option<MachineId>) -> Progress<CreationStep, bool> {
    Progress::Ask(CreationStep::LookingUpHosts { known_host: host }, Request::LookUpHostsByDpus)
}

/// The start: a host without DPUs gets its machine at once.
pub open spec fn creation_start(context: CreationContext) -> Progress<CreationStep, bool> {
    if context.host.dpus@.len() == 0 {
        creation_zero_dpu(zero_dpu_start(context.facts))
    } else {
        creation_look_up(None)
    }
}

/// The creation with the machine of a host without DPUs under way. Where it exists already
/// nothing is created.
pub open spec fn creation_zero_dpu(progress: Progress<ZeroDpuStep, Option<MachineId>>) -> Progress<
    CreationStep,
    bool,
> {
    match progress {
        Progress::Ask(step, request) => Progress::Ask(
            CreationStep::CreatingZeroDpu { step },
            request,
        ),
        Progress::Finished(None) => Progress::Finished(false),
        Progress::Finished(host) => creation_look_up(host),
        Progress::Failed(error) => Progress::Failed(error),
    }
}

/// Hosts of the DPUs exist: all the host's DPUs must, on one host. Then nothing is created;
/// the DPUs' interfaces are set up and the host's addresses are settled.
pub open spec fn creation_existing(
    context: CreationContext,
    existing: Seq<(MachineId, MachineId)>,
) -> Progress<CreationStep, bool> {
    if !same_dpus(existing, context.dpu_ids@) {
        Progress::Failed(IngestionError::PartialDpus)
    } else if !one_host(existing) {
        Progress::Failed(IngestionError::DpusOfDifferentHosts)
    } else {
        creation_set_up(context, existing[0].1, 0)
    }
}

/// The interfaces of the existing DPUs from this position on, then the host's addresses.
pub open spec fn creation_set_up(
    context: CreationContext,
    host: MachineId,
    position: int,
) -> Progress<CreationStep, bool>
    decreases context.host.dpus@.len() - position,
{
    if 0 <= position < context.host.dpus@.len() && position < context.dpu_ids@.len() {
        match dpu_interface_start(context.host.dpus@[position], context.dpu_ids@[position]) {
            Progress::Ask(setup, request) => Progress::Ask(
                CreationStep::SettingUpExisting { host, position: position as usize, setup },
                request,
            ),
            Progress::Finished(_) => creation_set_up(context, host, position + 1),
            Progress::Failed(error) => Progress::Failed(error),
        }
    } else {
        creation_reconcile_existing(reconcile_start(host))
    }
}

/// The existing host's addresses under way; then the transaction is committed.
pub open spec fn creation_reconcile_existing(progress: Progress<Reconciliation, bool>) -> Progress<
    CreationStep,
    bool,
> {
    match progress {
        Progress::Ask(reconciliation, request) => Progress::Ask(
            CreationStep::ReconcilingExisting { reconciliation },
            request,
        ),
        Progress::Finished(_) => Progress::Ask(CreationStep::CommittingExisting, Request::Commit),
        Progress::Failed(error) => Progress::Failed(error),
    }
}

/// The DPU at this position gets its machine; after the last one the host starts discovery.
pub open spec fn creation_dpu(
    context: CreationContext,
    host: Option<MachineId>,
    position: usize,
) -> Progress<CreationStep, bool> {
    if position < context.dpu_ids@.len() {
        let (step, request) = dpu_creation_start(context.dpu_ids@[position as int]);
        Progress::Ask(CreationStep::CreatingDpu { known_host: host, position, creation: step }, request)
    } else {
        match host {
            Some(host) => creation_write_state(host),
            None => Progress::Failed(IngestionError::HostIdMissing),
        }
    }
}

/// The host starts discovery.
pub open spec fn creation_write_state(host: MachineId) -> Progress<CreationStep, bool> {
    Progress::Ask(
        CreationStep::WritingState { host },
        Request::WriteDiscoveringState { machine_id: host },
    )
}

/// The machine of a DPU under way; afterwards the DPU is attached to the host. The DPU's
/// machine must be new, as no host of it was found.
pub open spec fn creation_dpu_machine(
    context: CreationContext,
    host: Option<MachineId>,
    position: usize,
    progress: Progress<DpuCreationStep, Option<DpuMachine>>,
) -> Progress<CreationStep, bool> {
    match progress {
        Progress::Ask(step, request) => Progress::Ask(
            CreationStep::CreatingDpu { known_host: host, position, creation: step },
            request,
        ),
        Progress::Finished(None) => if position < context.dpu_ids@.len() {
            Progress::Failed(
                IngestionError::DpuAlreadyFound {
                    dpu_machine_id: context.dpu_ids@[position as int],
                },
            )
        } else {
            Progress::Failed(IngestionError::UnexpectedReply)
        },
        Progress::Finished(Some(machine)) => if position < context.host.dpus@.len() && position
            < context.dpu_ids@.len() {
            creation_attach(
                context,
                host,
                position,
                machine,
                attach_start(
                    context.host.dpus@[position as int],
                    context.dpu_ids@[position as int],
                ),
            )
        } else {
            Progress::Failed(IngestionError::UnexpectedReply)
        },
        Progress::Failed(error) => Progress::Failed(error),
    }
}

/// The attaching of a DPU under way; afterwards the DPU gets its network configuration.
pub open spec fn creation_attach(
    context: CreationContext,
    host: Option<MachineId>,
    position: usize,
    machine: DpuMachine,
    progress: Progress<AttachStep, MachineId>,
) -> Progress<CreationStep, bool> {
    match progress {
        Progress::Ask(step, request) => Progress::Ask(
            CreationStep::AttachingDpu { known_host: host, position, machine, attachment: step },
            request,
        ),
        Progress::Finished(host) => creation_configure(
            context,
            host,
            position,
            dpu_config_start(machine, context.allocate_secondary_vtep_ip),
        ),
        Progress::Failed(error) => Progress::Failed(error),
    }
}

/// The network configuration of a DPU under way; afterwards comes the next DPU.
pub open spec fn creation_configure(
    context: CreationContext,
    host: MachineId,
    position: usize,
    progress: Progress<DpuConfigStep, ()>,
) -> Progress<CreationStep, bool> {
    match progress {
        Progress::Ask(step, request) => Progress::Ask(
            CreationStep::ConfiguringDpu { host, position, config: step },
            request,
        ),
        Progress::Finished(_) => match following(position, context.dpu_ids@.len()) {
            Some(position) => creation_dpu(context, Some(host), position),
            None => creation_write_state(host),
        },
        Progress::Failed(error) => Progress::Failed(error),
    }
}

/// The rack is settled: a host with DPUs owns its declared boot interface.
pub open spec fn creation_boot_nic(
    context: CreationContext,
    host: MachineId,
    rack_profile_id: Option<String>,
) -> Progress<CreationStep, bool> {
    if context.host.dpus@.len() > 0 {
        creation_own(context, host, rack_profile_id, boot_nic_start(context.facts, host))
    } else {
        creation_reconcile(context, host, rack_profile_id, reconcile_start(host))
    }
}

/// The owning of the boot interface under way; afterwards the host's addresses are settled.
pub open spec fn creation_own(
    context: CreationContext,
    host: MachineId,
    rack_profile_id: Option<String>,
    progress: Progress<BootNicOwnership, ()>,
) -> Progress<CreationStep, bool> {
    match progress {
        Progress::Ask(ownership, request) => Progress::Ask(
            CreationStep::OwningBootNic { host, profile: rack_profile_id, ownership },
            request,
        ),
        Progress::Finished(_) => creation_reconcile(
            context,
            host,
            rack_profile_id,
            reconcile_start(host),
        ),
        Progress::Failed(error) => Progress::Failed(error),
    }
}

/// The settling of the host's addresses under way; afterwards, where the host is in a rack
/// and there is a rack manager, the rack's profile is looked up, which must have an id.
/// Otherwise the transaction is committed.
pub open spec fn creation_reconcile(
    context: CreationContext,
    host: MachineId,
    rack_profile_id: Option<String>,
    progress: Progress<Reconciliation, bool>,
) -> Progress<CreationStep, bool> {
    match progress {
        Progress::Ask(reconciliation, request) => Progress::Ask(
            CreationStep::Reconciling { host, profile: rack_profile_id, reconciliation },
            request,
        ),
        Progress::Finished(_) => match context.machine.data.rack_id {
            Some(rack_id) => if context.has_rms {
                match rack_profile_id {
                    None => Progress::Failed(
                        IngestionError::RackProfileMissing { rack_id, machine_id: host },
                    ),
                    Some(rack_profile_id) => Progress::Ask(
                        CreationStep::FindingProfile { host, rack_profile_id },
                        Request::FindRackProfile { rack_profile_id },
                    ),
                }
            } else {
                creation_commit(host)
            },
            None => creation_commit(host),
        },
        Progress::Failed(error) => Progress::Failed(error),
    }
}

/// The transaction is committed, with nothing to ask the rack manager.
pub open spec fn creation_commit(host: MachineId) -> Progress<CreationStep, bool> {
    Progress::Ask(CreationStep::Committing { host, identity: None }, Request::Commit)
}

/// The profile is known: it must be configured and give an identity for a compute node; then
/// the transaction is committed.
pub open spec fn creation_identified(
    host: MachineId,
    rack_profile_id: String,
    profile: Option<crate::rms_node_type::RackProfile>,
    progress: Progress<CreationStep, bool>,
) -> bool {
    match profile {
        None => progress == Progress::<CreationStep, bool>::Failed(
            IngestionError::RackProfileUnknown { rack_profile_id, machine_id: host },
        ),
        Some(profile) => {
            ||| exists|error: NodeDescriptorError|
                {
                    &&& #[trigger] identity_outcome(profile, RmsNodeRole::Compute, Err(error))
                    &&& progress == Progress::<CreationStep, bool>::Failed(
                        IngestionError::NodeDescriptor(error),
                    )
                }
            ||| exists|identity: RmsNodeIdentity|
                {
                    &&& #[trigger] identity_outcome(profile, RmsNodeRole::Compute, Ok(identity))
                    &&& progress == Progress::<CreationStep, bool>::Ask(
                        CreationStep::Committing { host, identity: Some(identity) },
                        Request::Commit,
                    )
                }
        },
    }
}

/// The node of which the rack manager is asked for slot and tray: the host, by its BMC.
pub open spec fn slot_lookup_node(
    context: CreationContext,
    host: MachineId,
    identity: RmsNodeIdentity,
    node: NodeInfo,
) -> bool {
    &&& node.node_id@ == host.text@
    &&& context.machine.data.rack_id is Some
    &&& node.rack_id@ == context.machine.data.rack_id->0@
    &&& node.node_type == identity.legacy_node_type
    &&& node.node_descriptor is Some
    &&& node.node_descriptor->0.entries() == identity.node_descriptor.entries()
    &&& node.bmc_endpoint is Some
    &&& node.bmc_endpoint->0.ip_address@ == context.host.host_bmc_ip.text@
    &&& node.bmc_endpoint->0.mac_address@ == mac_text(context.machine.bmc_mac_address.octets())
    &&& node.bmc_endpoint->0.port == 443
    &&& node.bmc_endpoint->0.credentials == context.credentials
}

/// The transaction is committed: the machines are there. Where the host has an identity for
/// the rack manager, its slot and tray are fetched.
pub open spec fn creation_committed(
    context: CreationContext,
    host: MachineId,
    identity: Option<RmsNodeIdentity>,
    progress: Progress<CreationStep, bool>,
) -> bool {
    match (context.machine.data.rack_id, identity) {
        (Some(_), Some(identity)) => {
            &&& progress is Ask
            &&& progress->Ask_0 == CreationStep::FetchingSlot { host }
            &&& progress->Ask_1 is FetchSlotAndTray
            &&& slot_lookup_node(context, host, identity, progress->Ask_1->node)
        },
        _ => progress == Progress::<CreationStep, bool>::Finished(true),
    }
}

impl CreationStep {
    /// How the creation goes on after a reply.
    pub open spec fn next(
        self,
        context: CreationContext,
        reply: Reply,
        progress: Progress<CreationStep, bool>,
    ) -> bool {
        match (self, reply) {
            (
                CreationStep::FindingProfile { host, rack_profile_id },
                Reply::RackProfile(profile),
            ) => creation_identified(host, rack_profile_id, profile, progress),
            (CreationStep::Committing { host, identity }, Reply::Done) => creation_committed(
                context,
                host,
                identity,
                progress,
            ),
            _ => progress == self.next_progress(context, reply),
        }
    }

    /// How the creation goes on after a reply, at the steps that do not concern the rack
    /// manager's node.
    pub open spec fn next_progress(self, context: CreationContext, reply: Reply) -> Progress<
        CreationStep,
        bool,
    > {
        match (self, reply) {
            (CreationStep::CreatingZeroDpu { step }, reply) => creation_zero_dpu(
                step.next(context.facts, reply),
            ),
            (CreationStep::LookingUpHosts { known_host }, Reply::HostsByDpu(existing)) => if existing@.len()
                > 0 {
                creation_existing(context, existing@)
            } else {
                creation_dpu(context, known_host, 0)
            },
            (
                CreationStep::SettingUpExisting { host, position, setup },
                reply,
            ) => match setup.next(reply) {
                Progress::Ask(setup, request) => Progress::Ask(
                    CreationStep::SettingUpExisting { host, position, setup },
                    request,
                ),
                Progress::Finished(_) => creation_set_up(context, host, position + 1),
                Progress::Failed(error) => Progress::Failed(error),
            },
            (CreationStep::ReconcilingExisting { reconciliation }, reply) => creation_reconcile_existing(
                reconciliation.next(reply),
            ),
            (CreationStep::CommittingExisting, Reply::Done) => Progress::Finished(false),
            (CreationStep::CreatingDpu { known_host, position, creation }, reply) => if position
                < context.host.dpus@.len() {
                creation_dpu_machine(
                    context,
                    known_host,
                    position,
                    creation.next(context.host.dpus@[position as int], position, reply),
                )
            } else {
                Progress::Failed(IngestionError::UnexpectedReply)
            },
            (CreationStep::AttachingDpu { known_host, position, machine, attachment }, reply) => if position
                < context.host.dpus@.len() && position < context.dpu_ids@.len() {
                creation_attach(
                    context,
                    known_host,
                    position,
                    machine,
                    attachment.next(
                        context.host.dpus@[position as int],
                        context.dpu_ids@[position as int],
                        known_host,
                        reply,
                    ),
                )
            } else {
                Progress::Failed(IngestionError::UnexpectedReply)
            },
            (CreationStep::ConfiguringDpu { host, position, config }, reply) => creation_configure(
                context,
                host,
                position,
                config.next(context.allocate_secondary_vtep_ip, reply),
            ),
            (
                CreationStep::WritingState { host },
                Reply::Done,
            ) => match context.machine.data.rack_id {
                Some(rack_id) => Progress::Ask(
                    CreationStep::EnsuringRack { host },
                    Request::EnsureRackExists { rack_id },
                ),
                None => creation_boot_nic(context, host, None),
            },
            (CreationStep::EnsuringRack { host }, Reply::Rack(rack_profile_id)) => creation_boot_nic(
                context,
                host,
                rack_profile_id,
            ),
            (
                CreationStep::OwningBootNic { host, profile: rack_profile_id, ownership },
                reply,
            ) => creation_own(
                context,
                host,
                rack_profile_id,
                ownership.next(context.facts, reply),
            ),
            (
                CreationStep::Reconciling { host, profile: rack_profile_id, reconciliation },
                reply,
            ) => creation_reconcile(context, host, rack_profile_id, reconciliation.next(reply)),
            (
                CreationStep::FetchingSlot { host },
                Reply::SlotAndTray { slot_number, tray_index },
            ) => Progress::Ask(
                CreationStep::BeginningUpdate { host, slot_number, tray_index },
                Request::BeginTransaction,
            ),
            (
                CreationStep::BeginningUpdate { host, slot_number, tray_index },
                Reply::Done,
            ) => Progress::Ask(
                CreationStep::WritingSlot,
                Request::WriteSlotAndTray { machine_id: host, slot_number, tray_index },
            ),
            (CreationStep::WritingSlot, Reply::Done) => Progress::Ask(
                CreationStep::CommittingSlot,
                Request::Commit,
            ),
            (CreationStep::WritingSlot, Reply::Failed(_)) => Progress::Ask(
                CreationStep::CommittingSlot,
                Request::Commit,
            ),
            (CreationStep::CommittingSlot, Reply::Done) => Progress::Finished(true),
            (_, reply) => Progress::Failed(reply_failure(reply)),
        }
    }
}

fn look_up(host: Option<MachineId>) -> (r: Progress<CreationStep, bool>)
    ensures
        r == creation_look_up(host),
{
    Progress::Ask(CreationStep::LookingUpHosts { known_host: host }, Request::LookUpHostsByDpus)
}

fn with_zero_dpu(progress: Progress<ZeroDpuStep, Option<MachineId>>) -> (r: Progress<
    CreationStep,
    bool,
>)
    ensures
        r == creation_zero_dpu(progress),
{
    match progress {
        Progress::Ask(step, request) => Progress::Ask(
            CreationStep::CreatingZeroDpu { step },
            request,
        ),
        Progress::Finished(None) => Progress::Finished(false),
        Progress::Finished(Some(host)) => look_up(Some(host)),
        Progress::Failed(error) => Progress::Failed(error),
    }
}

fn set_up(context: &CreationContext, host: MachineId, position: usize) -> (r: Progress<
    CreationStep,
    bool,
>)
    ensures
        r == creation_set_up(*context, host, position as int),
    decreases context.host.dpus@.len() - position,
{
    if position < context.host.dpus.len() && position < context.dpu_ids.len() {
        match configure_dpu_interface(&context.host.dpus[position], &context.dpu_ids[position]) {
            Progress::Ask(setup, request) => Progress::Ask(
                CreationStep::SettingUpExisting { host, position, setup },
                request,
            ),
            Progress::Finished(_) => set_up(context, host, position + 1),
            Progress::Failed(error) => Progress::Failed(error),
        }
    } else {
        with_existing_reconciliation(reconcile_host_admin_addresses(host))
    }
}

fn with_existing_reconciliation(progress: Progress<Reconciliation, bool>) -> (r: Progress<
    CreationStep,
    bool,
>)
    ensures
        r == creation_reconcile_existing(progress),
{
    match progress {
        Progress::Ask(reconciliation, request) => Progress::Ask(
            CreationStep::ReconcilingExisting { reconciliation },
            request,
        ),
        Progress::Finished(_) => Progress::Ask(CreationStep::CommittingExisting, Request::Commit),
        Progress::Failed(error) => Progress::Failed(error),
    }
}

fn existing_host(context: &CreationContext, existing: &Vec<(MachineId, MachineId)>) -> (r: Progress<
    CreationStep,
    bool,
>)
    requires
        existing@.len() > 0,
    ensures
        r == creation_existing(*context, existing@),
{
    if !dpus_are_the_same(existing, &context.dpu_ids) {
        Progress::Failed(IngestionError::PartialDpus)
    } else if !hosts_are_one(existing) {
        Progress::Failed(IngestionError::DpusOfDifferentHosts)
    } else {
        set_up(context, existing[0].1.clone(), 0)
    }
}

fn write_state(host: MachineId) -> (r: Progress<CreationStep, bool>)
    ensures
        r == creation_write_state(host),
{
    let machine_id = host.clone();
    Progress::Ask(
        CreationStep::WritingState { host },
        Request::WriteDiscoveringState { machine_id },
    )
}

fn next_dpu(context: &CreationContext, host: Option<MachineId>, position: usize) -> (r: Progress<
    CreationStep,
    bool,
>)
    ensures
        r == creation_dpu(*context, host, position),
{
    if position < context.dpu_ids.len() {
        let (step, request) = create_dpu(&context.dpu_ids[position]);
        Progress::Ask(CreationStep::CreatingDpu { known_host: host, position, creation: step }, request)
    } else {
        match host {
            Some(host) => write_state(host),
            None => Progress::Failed(IngestionError::HostIdMissing),
        }
    }
}

fn with_dpu_machine(
    context: &CreationContext,
    host: Option<MachineId>,
    position: usize,
    progress: Progress<DpuCreationStep, Option<DpuMachine>>,
) -> (r: Progress<CreationStep, bool>)
    ensures
        r == creation_dpu_machine(*context, host, position, progress),
{
    match progress {
        Progress::Ask(step, request) => Progress::Ask(
            CreationStep::CreatingDpu { known_host: host, position, creation: step },
            request,
        ),
        Progress::Finished(None) => {
            if position < context.dpu_ids.len() {
                Progress::Failed(
                    IngestionError::DpuAlreadyFound {
                        dpu_machine_id: context.dpu_ids[position].clone(),
                    },
                )
            } else {
                Progress::Failed(IngestionError::UnexpectedReply)
            }
        },
        Progress::Finished(Some(machine)) => {
            if position < context.host.dpus.len() && position < context.dpu_ids.len() {
                let progress = attach_dpu_to_host(
                    &context.host.dpus[position],
                    &context.dpu_ids[position],
                );
                with_attach(context, host, position, machine, progress)
            } else {
                Progress::Failed(IngestionError::UnexpectedReply)
            }
        },
        Progress::Failed(error) => Progress::Failed(error),
    }
}

fn with_attach(
    context: &CreationContext,
    host: Option<MachineId>,
    position: usize,
    machine: DpuMachine,
    progress: Progress<AttachStep, MachineId>,
) -> (r: Progress<CreationStep, bool>)
    ensures
        r == creation_attach(*context, host, position, machine, progress),
{
    match progress {
        Progress::Ask(step, request) => Progress::Ask(
            CreationStep::AttachingDpu { known_host: host, position, machine, attachment: step },
            request,
        ),
        Progress::Finished(host) => with_config(
            context,
            host,
            position,
            update_dpu_network_config(machine, context.allocate_secondary_vtep_ip),
        ),
        Progress::Failed(error) => Progress::Failed(error),
    }
}

fn with_config(
    context: &CreationContext,
    host: MachineId,
    position: usize,
    progress: Progress<DpuConfigStep, ()>,
) -> (r: Progress<CreationStep, bool>)
    ensures
        r == creation_configure(*context, host, position, progress),
{
    match progress {
        Progress::Ask(step, request) => Progress::Ask(
            CreationStep::ConfiguringDpu { host, position, config: step },
            request,
        ),
        Progress::Finished(()) => match next_index(position, context.dpu_ids.len()) {
            Some(position) => next_dpu(context, Some(host), position),
            None => write_state(host),
        },
        Progress::Failed(error) => Progress::Failed(error),
    }
}

fn boot_nic(context: &CreationContext, host: MachineId, rack_profile_id: Option<String>) -> (r:
    Progress<CreationStep, bool>)
    ensures
        r == creation_boot_nic(*context, host, rack_profile_id),
{
    if context.host.dpus.len() > 0 {
        let progress = own_declared_host_boot_nic(&context.facts, &host);
        with_boot_nic(context, host, rack_profile_id, progress)
    } else {
        let progress = reconcile_host_admin_addresses(host.clone());
        with_reconciliation(context, host, rack_profile_id, progress)
    }
}

fn with_boot_nic(
    context: &CreationContext,
    host: MachineId,
    rack_profile_id: Option<String>,
    progress: Progress<BootNicOwnership, ()>,
) -> (r: Progress<CreationStep, bool>)
    ensures
        r == creation_own(*context, host, rack_profile_id, progress),
{
    match progress {
        Progress::Ask(ownership, request) => Progress::Ask(
            CreationStep::OwningBootNic { host, profile: rack_profile_id, ownership },
            request,
        ),
        Progress::Finished(()) => {
            let progress = reconcile_host_admin_addresses(host.clone());
            with_reconciliation(context, host, rack_profile_id, progress)
        },
        Progress::Failed(error) => Progress::Failed(error),
    }
}

fn commit(host: MachineId) -> (r: Progress<CreationStep, bool>)
    ensures
        r == creation_commit(host),
{
    Progress::Ask(CreationStep::Committing { host, identity: None }, Request::Commit)
}

fn with_reconciliation(
    context: &CreationContext,
    host: MachineId,
    rack_profile_id: Option<String>,
    progress: Progress<Reconciliation, bool>,
) -> (r: Progress<CreationStep, bool>)
    ensures
        r == creation_reconcile(*context, host, rack_profile_id, progress),
{
    match progress {
        Progress::Ask(reconciliation, request) => Progress::Ask(
            CreationStep::Reconciling { host, profile: rack_profile_id, reconciliation },
            request,
        ),
        Progress::Finished(_) => match &context.machine.data.rack_id {
            Some(rack_id) => {
                if context.has_rms {
                    match rack_profile_id {
                        None => Progress::Failed(
                            IngestionError::RackProfileMissing {
                                rack_id: rack_id.clone(),
                                machine_id: host,
                            },
                        ),
                        Some(rack_profile_id) => {
                            let wanted = rack_profile_id.clone();
                            Progress::Ask(
                                CreationStep::FindingProfile { host, rack_profile_id },
                                Request::FindRackProfile { rack_profile_id: wanted },
                            )
                        },
                    }
                } else {
                    commit(host)
                }
            },
            None => commit(host),
        },
        Progress::Failed(error) => Progress::Failed(error),
    }
}

fn identify(
    host: MachineId,
    rack_profile_id: String,
    profile: Option<crate::rms_node_type::RackProfile>,
) -> (r: Progress<CreationStep, bool>)
    ensures
        creation_identified(host, rack_profile_id, profile, r),
{
    match profile {
        None => Progress::Failed(
            IngestionError::RackProfileUnknown { rack_profile_id, machine_id: host },
        ),
        Some(profile) => match compute_node_identity_for_profile(&profile) {
            Err(error) => {
                assert(identity_outcome(profile, RmsNodeRole::Compute, Err(error)));
                Progress::Failed(IngestionError::NodeDescriptor(error))
            },
            Ok(identity) => {
                assert(identity_outcome(profile, RmsNodeRole::Compute, Ok(identity)));
                Progress::Ask(
                    CreationStep::Committing { host, identity: Some(identity) },
                    Request::Commit,
                )
            },
        },
    }
}

fn after_commit(
    context: &CreationContext,
    host: MachineId,
    identity: Option<RmsNodeIdentity>,
) -> (r: Progress<CreationStep, bool>)
    ensures
        creation_committed(*context, host, identity, r),
{
    match (&context.machine.data.rack_id, identity) {
        (Some(rack_id), Some(identity)) => {
            let mut node = NodeInfo {
                node_id: host.text.clone(),
                rack_id: rack_id.clone(),
                node_type: None,
                node_descriptor: None,
                bmc_endpoint: Some(
                    Endpoint {
                        ip_address: context.host.host_bmc_ip.text.clone(),
                        mac_address: context.machine.bmc_mac_address.to_text(),
                        port: 443,
                        credentials: context.credentials.clone(),
                    },
                ),
            };
            identity.apply_to_node_info(&mut node);
            Progress::Ask(CreationStep::FetchingSlot { host }, Request::FetchSlotAndTray { node })
        },
        _ => Progress::Finished(true),
    }
}

/// Starts to create the machines of a host. It finishes with whether machines were created.
pub fn start_creation(context: &CreationContext) -> (r: Progress<CreationStep, bool>)
    ensures
        r == creation_start(*context),
{
    if context.host.dpus.len() == 0 {
        with_zero_dpu(create_zero_dpu_machine(&context.facts))
    } else {
        look_up(None)
    }
}

impl CreationStep {
    /// Goes on after a reply.
    pub fn resume(self, context: &CreationContext, reply: Reply) -> (r: Progress<
        CreationStep,
        bool,
    >)
        ensures
            self.next(*context, reply, r),
    {
        match (self, reply) {
            (CreationStep::CreatingZeroDpu { step }, reply) => with_zero_dpu(
                step.resume(&context.facts, reply),
            ),
            (CreationStep::LookingUpHosts { known_host }, Reply::HostsByDpu(existing)) => {
                if existing.len() > 0 {
                    existing_host(context, &existing)
                } else {
                    next_dpu(context, known_host, 0)
                }
            },
            (CreationStep::SettingUpExisting { host, position, setup }, reply) => {
                match setup.resume(reply) {
                    Progress::Ask(setup, request) => Progress::Ask(
                        CreationStep::SettingUpExisting { host, position, setup },
                        request,
                    ),
                    Progress::Finished(_) => {
                        if position < context.host.dpus.len() {
                            set_up(context, host, position + 1)
                        } else {
                            with_existing_reconciliation(reconcile_host_admin_addresses(host))
                        }
                    },
                    Progress::Failed(error) => Progress::Failed(error),
                }
            },
            (CreationStep::ReconcilingExisting { reconciliation }, reply) => {
                with_existing_reconciliation(reconciliation.resume(reply))
            },
            (CreationStep::CommittingExisting, Reply::Done) => Progress::Finished(false),
            (CreationStep::CreatingDpu { known_host, position, creation }, reply) => {
                if position < context.host.dpus.len() {
                    let progress = creation.resume(&context.host.dpus[position], position, reply);
                    with_dpu_machine(context, known_host, position, progress)
                } else {
                    Progress::Failed(IngestionError::UnexpectedReply)
                }
            },
            (CreationStep::AttachingDpu { known_host, position, machine, attachment }, reply) => {
                if position < context.host.dpus.len() && position < context.dpu_ids.len() {
                    let progress = attachment.resume(
                        &context.host.dpus[position],
                        &context.dpu_ids[position],
                        &known_host,
                        reply,
                    );
                    with_attach(context, known_host, position, machine, progress)
                } else {
                    Progress::Failed(IngestionError::UnexpectedReply)
                }
            },
            (CreationStep::ConfiguringDpu { host, position, config }, reply) => {
                let progress = config.resume(context.allocate_secondary_vtep_ip, reply);
                with_config(context, host, position, progress)
            },
            (CreationStep::WritingState { host }, Reply::Done) => {
                match &context.machine.data.rack_id {
                    Some(rack_id) => Progress::Ask(
                        CreationStep::EnsuringRack { host },
                        Request::EnsureRackExists { rack_id: rack_id.clone() },
                    ),
                    None => boot_nic(context, host, None),
                }
            },
            (CreationStep::EnsuringRack { host }, Reply::Rack(rack_profile_id)) => boot_nic(
                context,
                host,
                rack_profile_id,
            ),
            (CreationStep::OwningBootNic { host, profile: rack_profile_id, ownership }, reply) => {
                let progress = ownership.resume(&context.facts, reply);
                with_boot_nic(context, host, rack_profile_id, progress)
            },
            (CreationStep::Reconciling { host, profile: rack_profile_id, reconciliation }, reply) => {
                let progress = reconciliation.resume(reply);
                with_reconciliation(context, host, rack_profile_id, progress)
            },
            (
                CreationStep::FindingProfile { host, rack_profile_id },
                Reply::RackProfile(profile),
            ) => identify(host, rack_profile_id, profile),
            (CreationStep::Committing { host, identity }, Reply::Done) => after_commit(
                context,
                host,
                identity,
            ),
            (
                CreationStep::FetchingSlot { host },
                Reply::SlotAndTray { slot_number, tray_index },
            ) => Progress::Ask(
                CreationStep::BeginningUpdate { host, slot_number, tray_index },
                Request::BeginTransaction,
            ),
            (
                CreationStep::BeginningUpdate { host, slot_number, tray_index },
                Reply::Done,
            ) => Progress::Ask(
                CreationStep::WritingSlot,
                Request::WriteSlotAndTray { machine_id: host, slot_number, tray_index },
            ),
            (CreationStep::WritingSlot, Reply::Done) => Progress::Ask(
                CreationStep::CommittingSlot,
                Request::Commit,
            ),
            (CreationStep::WritingSlot, Reply::Failed(_)) => Progress::Ask(
                CreationStep::CommittingSlot,
                Request::Commit,
            ),
            (CreationStep::CommittingSlot, Reply::Done) => Progress::Finished(true),
            (_, reply) => Progress::Failed(failure_of(reply)),
        }
    }
}

} // verus!
