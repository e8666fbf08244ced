//! What the creation of a host's machines is for, over all its runs.
use vstd::prelude::*;

use crate::addresses::{mac_text, MachineId, MachineInterfaceId};
use crate::machine_creator::creation::{
    among, creation_boot_nic, creation_dpu, creation_dpu_machine, creation_reconcile,
    creation_set_up, creation_start, has_host, one_host, same_dpus, CreationContext, CreationStep,
};
use crate::machine_creator::dpu::{AttachStep, DpuCreationStep};
use crate::machine_creator::laws::creation_is_valid;
use crate::machine_creator::network_config::{
    reconcile_start, DpuConfigStep, DpuMachine, ReconcileStep, Reconciliation,
};
use crate::machine_creator::requests::{
    IngestionError, InterfaceRow, Progress, Reply, Request, VersionedConfig,
};
use crate::machine_creator::trace::{log_grows, told};
use crate::rms_laws::{identities_need_family_and_vendor, names_family, names_vendor};
use crate::rms_node_type::{
    identity_outcome, NodeDescriptorError, NodeInfo, RackProfile, RmsNodeIdentity, RmsNodeRole,
};

verus! {

/// Whether a creation can come to this point: `log` holds its requests with their replies, in
/// order, and `steps` where it stood when it made them.
pub open spec fn reaches(
    context: CreationContext,
    steps: Seq<CreationStep>,
    log: Seq<(Request, Reply)>,
    progress: Progress<CreationStep, bool>,
) -> bool
    decreases log.len(),
{
    &&& steps.len() == log.len()
    &&& if log.len() == 0 {
        progress == creation_start(context)
    } else {
        &&& reaches(
            context,
            steps.drop_last(),
            log.drop_last(),
            Progress::Ask(steps.last(), log.last().0),
        )
        &&& steps.last().next(context, log.last().1, progress)
    }
}

/// Whether the DPU's machine was created, with this configuration.
pub open spec fn dpu_is_created(
    log: Seq<(Request, Reply)>,
    id: MachineId,
    versioned: VersionedConfig,
) -> bool {
    told(
        log,
        Request::CreateMachine { machine_id: id, with_declaration: false },
        Reply::Config(versioned),
    )
}

/// Whether an interface was linked to the DPU and read again as this row.
pub open spec fn is_linked_as(
    log: Seq<(Request, Reply)>,
    id: MachineId,
    interface_id: MachineInterfaceId,
    row: InterfaceRow,
) -> bool {
    &&& told(log, Request::AssociateWithDpuMachine { interface_id, dpu_machine_id: id }, Reply::Done)
    &&& told(log, Request::ReloadInterface { interface_id }, Reply::Interface(Some(row)))
}

/// Whether the interface with this id is the one that is linked to the DPU.
pub open spec fn is_linked(
    log: Seq<(Request, Reply)>,
    id: MachineId,
    interface_id: MachineInterfaceId,
) -> bool {
    exists|before: MachineInterfaceId, row: InterfaceRow| #[trigger]
        is_linked_as(log, id, before, row) && row.id == interface_id
}

/// Whether the DPU is attached to the host: its interface is the host's machine's.
pub open spec fn dpu_is_on(log: Seq<(Request, Reply)>, id: MachineId, host: MachineId) -> bool {
    exists|interface_id: MachineInterfaceId|
        {
            &&& #[trigger] is_linked(log, id, interface_id)
            &&& told(
                log,
                Request::AssociateWithMachine { interface_id, machine_id: host },
                Reply::Done,
            )
        }
}

/// Whether a network configuration was written for the machine.
pub open spec fn config_is_written(log: Seq<(Request, Reply)>, id: MachineId) -> bool {
    exists|versioned: VersionedConfig| #[trigger]
        told(log, Request::WriteNetworkConfig { machine_id: id, versioned }, Reply::Done)
}

/// Whether the DPU's machine was created.
pub open spec fn dpu_exists(log: Seq<(Request, Reply)>, id: MachineId) -> bool {
    exists|versioned: VersionedConfig| #[trigger] dpu_is_created(log, id, versioned)
}

/// Whether the DPU is done: created, attached to the host and configured.
pub open spec fn dpu_is_done(log: Seq<(Request, Reply)>, id: MachineId, host: MachineId) -> bool {
    dpu_exists(log, id) && dpu_is_on(log, id, host) && config_is_written(log, id)
}

/// Whether the DPU at this position is done, on a host that is known.
pub open spec fn is_done_at(
    context: CreationContext,
    log: Seq<(Request, Reply)>,
    host: Option<MachineId>,
    position: int,
) -> bool {
    host is Some && dpu_is_done(log, context.dpu_ids@[position], host->0)
}

/// Whether the DPUs before this position are done, all on one host.
pub open spec fn dpus_are_done(
    context: CreationContext,
    log: Seq<(Request, Reply)>,
    host: Option<MachineId>,
    position: int,
) -> bool {
    forall|p: int| 0 <= p < position ==> #[trigger] is_done_at(context, log, host, p)
}

/// Whether the host's addresses were settled: where that changed them, the host's configuration
/// was written again.
pub open spec fn addresses_are_settled(log: Seq<(Request, Reply)>, host: MachineId) -> bool {
    ||| told(log, Request::ReconcileAdminAddresses { machine_id: host }, Reply::Changed(false))
    ||| told(log, Request::ReconcileAdminAddresses { machine_id: host }, Reply::Changed(true))
        && config_is_written(log, host)
}

/// Whether the host was put into discovery.
pub open spec fn host_is_in_discovery(log: Seq<(Request, Reply)>, host: MachineId) -> bool {
    told(log, Request::WriteDiscoveringState { machine_id: host }, Reply::Done)
}

/// Whether this is the profile id of the host's rack, which must be there; a host outside of racks
/// has none.
pub open spec fn rack_has_profile(
    context: CreationContext,
    log: Seq<(Request, Reply)>,
    profile: Option<String>,
) -> bool {
    match context.machine.data.rack_id {
        Some(rack_id) => told(log, Request::EnsureRackExists { rack_id }, Reply::Rack(profile)),
        None => profile is None,
    }
}

/// Whether hosts of the DPUs were found, the first of them being this host.
pub open spec fn hosts_exist(
    log: Seq<(Request, Reply)>,
    existing: Vec<(MachineId, MachineId)>,
    host: MachineId,
) -> bool {
    &&& told(log, Request::LookUpHostsByDpus, Reply::HostsByDpu(existing))
    &&& existing@.len() > 0
    &&& existing@[0].1 == host
}

/// Whether this host of the DPUs was found.
pub open spec fn host_exists(log: Seq<(Request, Reply)>, host: MachineId) -> bool {
    exists|existing: Vec<(MachineId, MachineId)>| #[trigger] hosts_exist(log, existing, host)
}

/// Whether the DPUs are all done and the host is in discovery.
pub open spec fn machines_are_there(
    context: CreationContext,
    log: Seq<(Request, Reply)>,
    host: MachineId,
) -> bool {
    &&& dpus_are_done(context, log, Some(host), context.dpu_ids@.len() as int)
    &&& host_is_in_discovery(log, host)
}

/// Whether the rack's profile was found.
pub open spec fn profile_is_found(
    context: CreationContext,
    log: Seq<(Request, Reply)>,
    rack_profile_id: String,
    profile: RackProfile,
) -> bool {
    &&& rack_has_profile(context, log, Some(rack_profile_id))
    &&& told(
        log,
        Request::FindRackProfile { rack_profile_id },
        Reply::RackProfile(Some(profile)),
    )
}

/// Whether the rack of the host has a profile that was found.
pub open spec fn rack_is_profiled(context: CreationContext, log: Seq<(Request, Reply)>) -> bool {
    exists|rack_profile_id: String, profile: RackProfile| #[trigger]
        profile_is_found(context, log, rack_profile_id, profile)
}

/// Whether the rack manager has a part in this creation.
pub open spec fn asks_rack_manager(context: CreationContext) -> bool {
    context.machine.data.rack_id is Some && context.has_rms
}

/// Whether a node of the rack manager stands for the host: by its id, its rack, and its BMC with
/// the credentials that were read.
pub open spec fn node_is_host(context: CreationContext, host: MachineId, node: NodeInfo) -> bool {
    &&& node.node_id@ == host.text@
    &&& context.machine.data.rack_id matches Some(rack_id)
    &&& node.rack_id@ == rack_id@
    &&& node.bmc_endpoint matches Some(endpoint)
    &&& endpoint.ip_address@ == context.host.host_bmc_ip.text@
    &&& endpoint.mac_address@ == mac_text(context.machine.bmc_mac_address.octets())
    &&& endpoint.port == 443
    &&& endpoint.credentials == context.credentials
}

/// Whether the rack manager gave this slot and tray for the host.
pub open spec fn slot_is_known(
    context: CreationContext,
    log: Seq<(Request, Reply)>,
    host: MachineId,
    slot_number: Option<i32>,
    tray_index: Option<i32>,
) -> bool {
    exists|node: NodeInfo|
        {
            &&& node_is_host(context, host, node)
            &&& #[trigger] told(
                log,
                Request::FetchSlotAndTray { node },
                Reply::SlotAndTray { slot_number, tray_index },
            )
        }
}

/// Whether the writing of the host's slot and tray was asked for and is over, well or not.
pub open spec fn slot_is_written(
    context: CreationContext,
    log: Seq<(Request, Reply)>,
    host: MachineId,
) -> bool {
    exists|slot_number: Option<i32>, tray_index: Option<i32>, reply: Reply|
        {
            &&& slot_is_known(context, log, host, slot_number, tray_index)
            &&& reply is Done || reply is Failed
            &&& #[trigger] told(
                log,
                Request::WriteSlotAndTray { machine_id: host, slot_number, tray_index },
                reply,
            )
        }
}

/// Whether all the host's machines are there, its addresses are settled and, where the rack manager
/// has a part, its rack's profile is found.
pub open spec fn ready_to_commit(
    context: CreationContext,
    log: Seq<(Request, Reply)>,
    host: MachineId,
) -> bool {
    &&& machines_are_there(context, log, host)
    &&& addresses_are_settled(log, host)
    &&& asks_rack_manager(context) ==> rack_is_profiled(context, log)
}

/// Whether that was committed.
pub open spec fn is_committed(
    context: CreationContext,
    log: Seq<(Request, Reply)>,
    host: MachineId,
) -> bool {
    ready_to_commit(context, log, host) && told(log, Request::Commit, Reply::Done)
}

/// Whether a host that exists is settled and that was committed.
pub open spec fn existing_is_settled(log: Seq<(Request, Reply)>, host: MachineId) -> bool {
    host_exists(log, host) && addresses_are_settled(log, host)
}

spec fn reconciliation_stands(
    log: Seq<(Request, Reply)>,
    host: MachineId,
    reconciliation: Reconciliation,
    request: Request,
) -> bool {
    &&& reconciliation.machine_id == host
    &&& match reconciliation.step {
        ReconcileStep::Reconciling => request == Request::ReconcileAdminAddresses {
            machine_id: host,
        },
        ReconcileStep::Reading => told(
            log,
            Request::ReconcileAdminAddresses { machine_id: host },
            Reply::Changed(true),
        ),
        ReconcileStep::Writing => {
            &&& told(
                log,
                Request::ReconcileAdminAddresses { machine_id: host },
                Reply::Changed(true),
            )
            &&& request is WriteNetworkConfig
            &&& request->WriteNetworkConfig_machine_id == host
        },
    }
}

spec fn dpu_creation_stands(
    log: Seq<(Request, Reply)>,
    id: MachineId,
    creation: DpuCreationStep,
    request: Request,
) -> bool {
    match creation {
        DpuCreationStep::Finding { dpu_machine_id } => dpu_machine_id == id,
        DpuCreationStep::Creating { dpu_machine_id } => dpu_machine_id == id && request
            == Request::CreateMachine { machine_id: id, with_declaration: false },
        DpuCreationStep::SettingUpInterface { machine, .. } => machine.machine_id == id
            && dpu_is_created(log, id, machine.versioned),
        DpuCreationStep::WritingTopology { machine, .. } => machine.machine_id == id
            && dpu_is_created(log, id, machine.versioned),
    }
}

spec fn relinking(log: Seq<(Request, Reply)>, id: MachineId, request: Request) -> bool {
    request matches Request::ReloadInterface { interface_id } && told(
        log,
        Request::AssociateWithDpuMachine { interface_id, dpu_machine_id: id },
        Reply::Done,
    )
}

spec fn associating(
    log: Seq<(Request, Reply)>,
    id: MachineId,
    host: MachineId,
    request: Request,
) -> bool {
    request matches Request::AssociateWithMachine { interface_id, machine_id } && machine_id == host
        && is_linked(log, id, interface_id)
}

spec fn attachment_stands(
    log: Seq<(Request, Reply)>,
    id: MachineId,
    known_host: Option<MachineId>,
    attachment: AttachStep,
    request: Request,
) -> bool {
    match attachment {
        AttachStep::FindingInterface { .. } => true,
        AttachStep::Capturing { .. } => true,
        AttachStep::Linking { interface_id } => request == Request::AssociateWithDpuMachine {
            interface_id,
            dpu_machine_id: id,
        },
        AttachStep::Reloading => relinking(log, id, request),
        AttachStep::SettingSecondary { interface_id, host_machine_id } => known_host == Some(
            host_machine_id,
        ) && is_linked(log, id, interface_id),
        AttachStep::CreatingHost { interface_id, .. } => known_host is None && is_linked(
            log,
            id,
            interface_id,
        ),
        AttachStep::WritingTopology { interface_id, .. } => known_host is None && is_linked(
            log,
            id,
            interface_id,
        ),
        AttachStep::SettingPrimary { interface_id, .. } => known_host is None && is_linked(
            log,
            id,
            interface_id,
        ),
        AttachStep::Associating { host_machine_id } => (known_host is Some ==> known_host == Some(
            host_machine_id,
        )) && associating(log, id, host_machine_id, request),
    }
}

spec fn config_stands(id: MachineId, config: DpuConfigStep, request: Request) -> bool {
    match config {
        DpuConfigStep::AllocatingLoopback { dpu } => dpu.machine_id == id,
        DpuConfigStep::AllocatingVtep { dpu } => dpu.machine_id == id,
        DpuConfigStep::Writing => request is WriteNetworkConfig
            && request->WriteNetworkConfig_machine_id == id,
    }
}

spec fn holds(
    context: CreationContext,
    log: Seq<(Request, Reply)>,
    progress: Progress<CreationStep, bool>,
) -> bool {
    match progress {
        Progress::Ask(step, request) => match step {
            CreationStep::CreatingZeroDpu { .. } => context.dpu_ids@.len() == 0,
            CreationStep::LookingUpHosts { known_host } => request is LookUpHostsByDpus,
            CreationStep::SettingUpExisting { host, .. } => host_exists(log, host),
            CreationStep::ReconcilingExisting { reconciliation } => host_exists(
                log,
                reconciliation.machine_id,
            ) && reconciliation_stands(log, reconciliation.machine_id, reconciliation, request),
            CreationStep::CommittingExisting => request is Commit && exists|host: MachineId|
                existing_is_settled(log, host),
            CreationStep::CreatingDpu { known_host, position, creation } => {
                &&& position < context.dpu_ids@.len()
                &&& dpus_are_done(context, log, known_host, position as int)
                &&& dpu_creation_stands(
                    log,
                    context.dpu_ids@[position as int],
                    creation,
                    request,
                )
            },
            CreationStep::AttachingDpu { known_host, position, machine, attachment } => {
                &&& position < context.dpu_ids@.len()
                &&& dpus_are_done(context, log, known_host, position as int)
                &&& machine.machine_id == context.dpu_ids@[position as int]
                &&& dpu_exists(log, context.dpu_ids@[position as int])
                &&& attachment_stands(
                    log,
                    context.dpu_ids@[position as int],
                    known_host,
                    attachment,
                    request,
                )
            },
            CreationStep::ConfiguringDpu { host, position, config } => {
                &&& position < context.dpu_ids@.len()
                &&& dpus_are_done(context, log, Some(host), position as int)
                &&& dpu_exists(log, context.dpu_ids@[position as int])
                &&& dpu_is_on(log, context.dpu_ids@[position as int], host)
                &&& config_stands(context.dpu_ids@[position as int], config, request)
            },
            CreationStep::WritingState { host } => {
                &&& dpus_are_done(context, log, Some(host), context.dpu_ids@.len() as int)
                &&& request == Request::WriteDiscoveringState { machine_id: host }
            },
            CreationStep::EnsuringRack { host } => {
                &&& machines_are_there(context, log, host)
                &&& context.machine.data.rack_id matches Some(rack_id)
                &&& request == Request::EnsureRackExists { rack_id }
            },
            CreationStep::OwningBootNic { host, profile, .. } => machines_are_there(
                context,
                log,
                host,
            ) && rack_has_profile(context, log, profile),
            CreationStep::Reconciling { host, profile, reconciliation } => {
                &&& machines_are_there(context, log, host)
                &&& rack_has_profile(context, log, profile)
                &&& reconciliation_stands(log, host, reconciliation, request)
            },
            CreationStep::FindingProfile { host, rack_profile_id } => {
                &&& machines_are_there(context, log, host)
                &&& addresses_are_settled(log, host)
                &&& rack_has_profile(context, log, Some(rack_profile_id))
                &&& asks_rack_manager(context)
                &&& request == Request::FindRackProfile { rack_profile_id }
            },
            CreationStep::Committing { host, identity } => {
                &&& ready_to_commit(context, log, host)
                &&& request is Commit
                &&& identity is Some <==> asks_rack_manager(context)
            },
            CreationStep::FetchingSlot { host } => {
                &&& is_committed(context, log, host)
                &&& request is FetchSlotAndTray
                &&& node_is_host(context, host, request->node)
            },
            CreationStep::BeginningUpdate { host, slot_number, tray_index } => {
                &&& is_committed(context, log, host)
                &&& slot_is_known(context, log, host, slot_number, tray_index)
            },
            CreationStep::WritingSlot => {
                &&& request is WriteSlotAndTray
                &&& is_committed(context, log, request->WriteSlotAndTray_machine_id)
                &&& slot_is_known(
                    context,
                    log,
                    request->WriteSlotAndTray_machine_id,
                    request->slot_number,
                    request->tray_index,
                )
            },
            CreationStep::CommittingSlot => exists|host: MachineId| #[trigger]
                is_committed(context, log, host) && slot_is_written(context, log, host),
        },
        Progress::Finished(true) => exists|host: MachineId| #[trigger]
            is_committed(context, log, host) && (asks_rack_manager(context) ==> slot_is_written(
                context,
                log,
                host,
            )),
        Progress::Finished(false) => context.dpu_ids@.len() == 0 || (exists|host: MachineId|
            existing_is_settled(log, host)) && told(log, Request::Commit, Reply::Done),
        Progress::Failed(_) => true,
    }
}

proof fn facts_stay(
    context: CreationContext,
    log: Seq<(Request, Reply)>,
    id: MachineId,
    host: MachineId,
    interface_id: MachineInterfaceId,
)
    requires
        log.len() > 0,
    ensures
        is_linked(log.drop_last(), id, interface_id) ==> is_linked(log, id, interface_id),
        dpu_is_on(log.drop_last(), id, host) ==> dpu_is_on(log, id, host),
        config_is_written(log.drop_last(), id) ==> config_is_written(log, id),
        config_is_written(log.drop_last(), host) ==> config_is_written(log, host),
        dpu_exists(log.drop_last(), id) ==> dpu_exists(log, id),
        dpu_is_done(log.drop_last(), id, host) ==> dpu_is_done(log, id, host),
        addresses_are_settled(log.drop_last(), host) ==> addresses_are_settled(log, host),
        host_exists(log.drop_last(), host) ==> host_exists(log, host),
{
    log_grows(log);
    let before = log.drop_last();
    link_stays(log, id, interface_id);
    if dpu_is_on(before, id, host) {
        let interface_id = choose|interface_id: MachineInterfaceId|
            {
                &&& #[trigger] is_linked(before, id, interface_id)
                &&& told(
                    before,
                    Request::AssociateWithMachine { interface_id, machine_id: host },
                    Reply::Done,
                )
            };
        link_stays(log, id, interface_id);
    }
    if dpu_exists(before, id) {
        let versioned = choose|versioned: VersionedConfig| #[trigger]
            dpu_is_created(before, id, versioned);
        assert(dpu_is_created(log, id, versioned));
    }
    if host_exists(before, host) {
        let existing = choose|existing: Vec<(MachineId, MachineId)>| #[trigger]
            hosts_exist(before, existing, host);
        assert(hosts_exist(log, existing, host));
    }
}

proof fn link_stays(log: Seq<(Request, Reply)>, id: MachineId, interface_id: MachineInterfaceId)
    requires
        log.len() > 0,
    ensures
        is_linked(log.drop_last(), id, interface_id) ==> is_linked(log, id, interface_id),
{
    log_grows(log);
    if is_linked(log.drop_last(), id, interface_id) {
        let (old_id, row) = choose|old_id: MachineInterfaceId, row: InterfaceRow| #[trigger]
            is_linked_as(log.drop_last(), id, old_id, row) && row.id == interface_id;
        assert(is_linked_as(log, id, old_id, row));
    }
}

proof fn dpus_stay_done(
    context: CreationContext,
    log: Seq<(Request, Reply)>,
    host: Option<MachineId>,
    position: int,
)
    requires
        log.len() > 0,
        dpus_are_done(context, log.drop_last(), host, position),
    ensures
        dpus_are_done(context, log, host, position),
{
    assert forall|p: int| 0 <= p < position implies #[trigger] is_done_at(
        context,
        log,
        host,
        p,
    ) by {
        assert(is_done_at(context, log.drop_last(), host, p));
        facts_stay(context, log, context.dpu_ids@[p], host->0, MachineInterfaceId(0));
    }
}

proof fn commitment_stays(
    context: CreationContext,
    log: Seq<(Request, Reply)>,
    host: MachineId,
)
    requires
        log.len() > 0,
    ensures
        machines_are_there(context, log.drop_last(), host) ==> machines_are_there(
            context,
            log,
            host,
        ),
        rack_is_profiled(context, log.drop_last()) ==> rack_is_profiled(context, log),
        ready_to_commit(context, log.drop_last(), host) ==> ready_to_commit(context, log, host),
        is_committed(context, log.drop_last(), host) ==> is_committed(context, log, host),
{
    let before = log.drop_last();
    log_grows(log);
    facts_stay(context, log, host, host, MachineInterfaceId(0));
    if machines_are_there(context, before, host) {
        dpus_stay_done(context, log, Some(host), context.dpu_ids@.len() as int);
    }
    if rack_is_profiled(context, before) {
        let (rack_profile_id, profile) = choose|rack_profile_id: String, profile: RackProfile|
            #[trigger] profile_is_found(context, before, rack_profile_id, profile);
        assert(profile_is_found(context, log, rack_profile_id, profile));
    }
}

proof fn slot_stays(
    context: CreationContext,
    log: Seq<(Request, Reply)>,
    host: MachineId,
    slot_number: Option<i32>,
    tray_index: Option<i32>,
)
    requires
        log.len() > 0,
    ensures
        slot_is_known(context, log.drop_last(), host, slot_number, tray_index) ==> slot_is_known(
            context,
            log,
            host,
            slot_number,
            tray_index,
        ),
{
    log_grows(log);
}

proof fn written_slot_stays(context: CreationContext, log: Seq<(Request, Reply)>, host: MachineId)
    requires
        log.len() > 0,
    ensures
        slot_is_written(context, log.drop_last(), host) ==> slot_is_written(context, log, host),
{
    log_grows(log);
    let before = log.drop_last();
    if slot_is_written(context, before, host) {
        let (slot_number, tray_index, reply) = choose|
            slot_number: Option<i32>,
            tray_index: Option<i32>,
            reply: Reply,
        |
            {
                &&& slot_is_known(context, before, host, slot_number, tray_index)
                &&& reply is Done || reply is Failed
                &&& #[trigger] told(
                    before,
                    Request::WriteSlotAndTray { machine_id: host, slot_number, tray_index },
                    reply,
                )
            };
        slot_stays(context, log, host, slot_number, tray_index);
    }
}

proof fn reconciliation_goes_on(
    log: Seq<(Request, Reply)>,
    host: MachineId,
    reconciliation: Reconciliation,
)
    requires
        log.len() > 0,
        reconciliation_stands(log.drop_last(), host, reconciliation, log.last().0),
    ensures
        match reconciliation.next(log.last().1) {
            Progress::Ask(next, request) => reconciliation_stands(log, host, next, request),
            Progress::Finished(_) => addresses_are_settled(log, host),
            Progress::Failed(_) => true,
        },
{
    log_grows(log);
    if reconciliation.step is Writing && log.last().1 is Done {
        assert(told(
            log,
            Request::WriteNetworkConfig {
                machine_id: host,
                versioned: log.last().0->WriteNetworkConfig_versioned,
            },
            Reply::Done,
        ));
    }
}

proof fn set_up_stands(
    context: CreationContext,
    log: Seq<(Request, Reply)>,
    host: MachineId,
    position: int,
)
    requires
        host_exists(log, host),
    ensures
        holds(context, log, creation_set_up(context, host, position)),
    decreases context.host.dpus@.len() - position,
{
    if 0 <= position < context.host.dpus@.len() && position < context.dpu_ids@.len() {
        set_up_stands(context, log, host, position + 1);
    }
}

proof fn next_dpu_stands(
    context: CreationContext,
    log: Seq<(Request, Reply)>,
    host: Option<MachineId>,
    position: usize,
)
    requires
        dpus_are_done(context, log, host, position as int),
        position <= context.dpu_ids@.len(),
    ensures
        holds(context, log, creation_dpu(context, host, position)),
{
    assert(context.dpu_ids@.len() == context.dpu_ids.len());
}

proof fn existing_goes_on(
    context: CreationContext,
    log: Seq<(Request, Reply)>,
    step: CreationStep,
)
    requires
        log.len() > 0,
        holds(context, log.drop_last(), Progress::Ask(step, log.last().0)),
        step is LookingUpHosts || step is SettingUpExisting || step is ReconcilingExisting
            || step is CommittingExisting,
    ensures
        holds(context, log, step.next_progress(context, log.last().1)),
{
    log_grows(log);
    let reply = log.last().1;
    match step {
        CreationStep::LookingUpHosts { known_host } => {
            if let Reply::HostsByDpu(existing) = reply {
                if existing@.len() > 0 {
                    assert(hosts_exist(log, existing, existing@[0].1));
                    set_up_stands(context, log, existing@[0].1, 0);
                } else {
                    next_dpu_stands(context, log, known_host, 0);
                }
            }
        },
        CreationStep::SettingUpExisting { host, position, setup } => {
            facts_stay(context, log, host, host, MachineInterfaceId(0));
            set_up_stands(context, log, host, position + 1);
        },
        CreationStep::ReconcilingExisting { reconciliation } => {
            let host = reconciliation.machine_id;
            facts_stay(context, log, host, host, MachineInterfaceId(0));
            reconciliation_goes_on(log, host, reconciliation);
            if reconciliation.next(reply) is Finished {
                assert(existing_is_settled(log, host));
            }
        },
        CreationStep::CommittingExisting => {
            let host = choose|host: MachineId| existing_is_settled(log.drop_last(), host);
            facts_stay(context, log, host, host, MachineInterfaceId(0));
            assert(existing_is_settled(log, host));
        },
        _ => {},
    }
}

proof fn attaching_starts(
    context: CreationContext,
    log: Seq<(Request, Reply)>,
    known_host: Option<MachineId>,
    position: usize,
    machine: DpuMachine,
)
    requires
        position < context.dpu_ids@.len(),
        dpus_are_done(context, log, known_host, position as int),
        machine.machine_id == context.dpu_ids@[position as int],
        dpu_exists(log, context.dpu_ids@[position as int]),
    ensures
        holds(
            context,
            log,
            creation_dpu_machine(context, known_host, position, Progress::Finished(Some(machine))),
        ),
{
}

proof fn creating_goes_on(context: CreationContext, log: Seq<(Request, Reply)>, step: CreationStep)
    requires
        log.len() > 0,
        holds(context, log.drop_last(), Progress::Ask(step, log.last().0)),
        step is CreatingDpu,
    ensures
        holds(context, log, step.next_progress(context, log.last().1)),
{
    log_grows(log);
    let reply = log.last().1;
    if let CreationStep::CreatingDpu { known_host, position, creation } = step {
        let id = context.dpu_ids@[position as int];
        dpus_stay_done(context, log, known_host, position as int);
        if position < context.host.dpus@.len() {
            let progress = creation.next(context.host.dpus@[position as int], position, reply);
            match progress {
                Progress::Ask(next, request) => {
                    assert(dpu_creation_stands(log, id, next, request));
                },
                Progress::Finished(Some(machine)) => {
                    assert(dpu_is_created(log, id, machine.versioned));
                    attaching_starts(context, log, known_host, position, machine);
                },
                _ => {},
            }
        }
    }
}

proof fn attachment_goes_on(
    context: CreationContext,
    log: Seq<(Request, Reply)>,
    position: int,
    known_host: Option<MachineId>,
    attachment: AttachStep,
)
    requires
        log.len() > 0,
        attachment_stands(
            log.drop_last(),
            context.dpu_ids@[position],
            known_host,
            attachment,
            log.last().0,
        ),
    ensures
        match attachment.next(
            context.host.dpus@[position],
            context.dpu_ids@[position],
            known_host,
            log.last().1,
        ) {
            Progress::Ask(next, request) => attachment_stands(
                log,
                context.dpu_ids@[position],
                known_host,
                next,
                request,
            ),
            Progress::Finished(host) => dpu_is_on(log, context.dpu_ids@[position], host) && (
            known_host is Some ==> known_host == Some(host)),
            Progress::Failed(_) => true,
        },
{
    log_grows(log);
    let id = context.dpu_ids@[position];
    let reply = log.last().1;
    match attachment {
        AttachStep::Reloading => {
            if let Reply::Interface(Some(row)) = reply {
                let interface_id = log.last().0->ReloadInterface_interface_id;
                assert(is_linked_as(log, id, interface_id, row));
                assert(is_linked(log, id, row.id));
            }
        },
        AttachStep::SettingSecondary { interface_id, .. } => link_stays(log, id, interface_id),
        AttachStep::CreatingHost { interface_id, .. } => link_stays(log, id, interface_id),
        AttachStep::WritingTopology { interface_id, .. } => link_stays(log, id, interface_id),
        AttachStep::SettingPrimary { interface_id, .. } => link_stays(log, id, interface_id),
        AttachStep::Associating { .. } => {
            link_stays(log, id, log.last().0->AssociateWithMachine_interface_id);
        },
        _ => {},
    }
}

proof fn attaching_goes_on(context: CreationContext, log: Seq<(Request, Reply)>, step: CreationStep)
    requires
        log.len() > 0,
        holds(context, log.drop_last(), Progress::Ask(step, log.last().0)),
        step is AttachingDpu,
    ensures
        holds(context, log, step.next_progress(context, log.last().1)),
{
    if let CreationStep::AttachingDpu { known_host, position, machine, attachment } = step {
        let id = context.dpu_ids@[position as int];
        dpus_stay_done(context, log, known_host, position as int);
        facts_stay(context, log, id, id, MachineInterfaceId(0));
        attachment_goes_on(context, log, position as int, known_host, attachment);
        if position < context.host.dpus@.len() {
            let progress = attachment.next(
                context.host.dpus@[position as int],
                id,
                known_host,
                log.last().1,
            );
            if let Progress::Finished(host) = progress {
                assert(dpus_are_done(context, log, Some(host), position as int)) by {
                    assert forall|p: int| 0 <= p < position implies #[trigger] is_done_at(
                        context,
                        log,
                        Some(host),
                        p,
                    ) by {
                        assert(is_done_at(context, log, known_host, p));
                    }
                }
            }
        }
    }
}

proof fn configuring_goes_on(
    context: CreationContext,
    log: Seq<(Request, Reply)>,
    step: CreationStep,
)
    requires
        log.len() > 0,
        holds(context, log.drop_last(), Progress::Ask(step, log.last().0)),
        step is ConfiguringDpu,
    ensures
        holds(context, log, step.next_progress(context, log.last().1)),
{
    log_grows(log);
    assert(context.dpu_ids@.len() == context.dpu_ids.len());
    if let CreationStep::ConfiguringDpu { host, position, config } = step {
        let id = context.dpu_ids@[position as int];
        dpus_stay_done(context, log, Some(host), position as int);
        facts_stay(context, log, id, host, MachineInterfaceId(0));
        let progress = config.next(context.allocate_secondary_vtep_ip, log.last().1);
        if progress is Finished {
            assert(told(
                log,
                Request::WriteNetworkConfig {
                    machine_id: id,
                    versioned: log.last().0->WriteNetworkConfig_versioned,
                },
                Reply::Done,
            ));
            assert(dpu_is_done(log, id, host));
            assert(is_done_at(context, log, Some(host), position as int));
            assert(dpus_are_done(context, log, Some(host), position + 1));
            if position + 1 < context.dpu_ids@.len() {
                next_dpu_stands(context, log, Some(host), (position + 1) as usize);
            }
        }
    }
}

proof fn reconciled_stands(
    context: CreationContext,
    log: Seq<(Request, Reply)>,
    host: MachineId,
    profile: Option<String>,
    progress: Progress<Reconciliation, bool>,
)
    requires
        machines_are_there(context, log, host),
        rack_has_profile(context, log, profile),
        match progress {
            Progress::Ask(reconciliation, request) => reconciliation_stands(
                log,
                host,
                reconciliation,
                request,
            ),
            Progress::Finished(_) => addresses_are_settled(log, host),
            Progress::Failed(_) => true,
        },
    ensures
        holds(context, log, creation_reconcile(context, host, profile, progress)),
{
}

proof fn finishing_goes_on(context: CreationContext, log: Seq<(Request, Reply)>, step: CreationStep)
    requires
        log.len() > 0,
        holds(context, log.drop_last(), Progress::Ask(step, log.last().0)),
        step is WritingState || step is EnsuringRack || step is OwningBootNic
            || step is Reconciling,
    ensures
        holds(context, log, step.next_progress(context, log.last().1)),
{
    log_grows(log);
    let reply = log.last().1;
    match step {
        CreationStep::WritingState { host } => {
            dpus_stay_done(context, log, Some(host), context.dpu_ids@.len() as int);
            if reply is Done && context.machine.data.rack_id is None {
                boot_nic_stands(context, log, host, None);
            }
        },
        CreationStep::EnsuringRack { host } => {
            commitment_stays(context, log, host);
            if let Reply::Rack(profile) = reply {
                boot_nic_stands(context, log, host, profile);
            }
        },
        CreationStep::OwningBootNic { host, profile, ownership } => {
            commitment_stays(context, log, host);
            if ownership.next(context.facts, reply) is Finished {
                reconciled_stands(
                    context,
                    log,
                    host,
                    profile,
                    reconcile_start(host),
                );
            }
        },
        CreationStep::Reconciling { host, profile, reconciliation } => {
            commitment_stays(context, log, host);
            reconciliation_goes_on(log, host, reconciliation);
            reconciled_stands(context, log, host, profile, reconciliation.next(reply));
        },
        _ => {},
    }
}

proof fn boot_nic_stands(
    context: CreationContext,
    log: Seq<(Request, Reply)>,
    host: MachineId,
    profile: Option<String>,
)
    requires
        machines_are_there(context, log, host),
        rack_has_profile(context, log, profile),
    ensures
        holds(context, log, creation_boot_nic(context, host, profile)),
{
    reconciled_stands(
        context,
        log,
        host,
        profile,
        reconcile_start(host),
    );
}

proof fn rack_manager_goes_on(
    context: CreationContext,
    log: Seq<(Request, Reply)>,
    step: CreationStep,
    progress: Progress<CreationStep, bool>,
)
    requires
        log.len() > 0,
        holds(context, log.drop_last(), Progress::Ask(step, log.last().0)),
        step.next(context, log.last().1, progress),
        step is FindingProfile || step is Committing || step is FetchingSlot
            || step is BeginningUpdate || step is WritingSlot || step is CommittingSlot,
    ensures
        holds(context, log, progress),
{
    log_grows(log);
    let before = log.drop_last();
    let reply = log.last().1;
    let request = log.last().0;
    match step {
        CreationStep::FindingProfile { host, rack_profile_id } => {
            commitment_stays(context, log, host);
            facts_stay(context, log, host, host, MachineInterfaceId(0));
            if let Reply::RackProfile(Some(profile)) = reply {
                assert(profile_is_found(context, log, rack_profile_id, profile));
            }
        },
        CreationStep::Committing { host, identity } => {
            commitment_stays(context, log, host);
            if reply is Done {
                assert(is_committed(context, log, host));
            }
        },
        CreationStep::FetchingSlot { host } => {
            commitment_stays(context, log, host);
            if let Reply::SlotAndTray { slot_number, tray_index } = reply {
                assert(told(log, Request::FetchSlotAndTray { node: request->node }, reply));
                assert(slot_is_known(context, log, host, slot_number, tray_index));
            }
        },
        CreationStep::BeginningUpdate { host, slot_number, tray_index } => {
            commitment_stays(context, log, host);
            slot_stays(context, log, host, slot_number, tray_index);
        },
        CreationStep::WritingSlot => {
            let host = request->WriteSlotAndTray_machine_id;
            commitment_stays(context, log, host);
            slot_stays(context, log, host, request->slot_number, request->tray_index);
            assert(told(
                log,
                Request::WriteSlotAndTray {
                    machine_id: host,
                    slot_number: request->slot_number,
                    tray_index: request->tray_index,
                },
                reply,
            ));
            if reply is Done || reply is Failed {
                assert(is_committed(context, log, host) && slot_is_written(context, log, host));
            }
        },
        CreationStep::CommittingSlot => {
            let host = choose|host: MachineId| #[trigger]
                is_committed(context, before, host) && slot_is_written(context, before, host);
            commitment_stays(context, log, host);
            written_slot_stays(context, log, host);
            assert(is_committed(context, log, host) && slot_is_written(context, log, host));
        },
        _ => {},
    }
}

proof fn always_holds(
    context: CreationContext,
    steps: Seq<CreationStep>,
    log: Seq<(Request, Reply)>,
    progress: Progress<CreationStep, bool>,
)
    requires
        context.dpu_ids@.len() == context.host.dpus@.len(),
        reaches(context, steps, log, progress),
    ensures
        holds(context, log, progress),
    decreases log.len(),
{
    if log.len() > 0 {
        let step = steps.last();
        always_holds(
            context,
            steps.drop_last(),
            log.drop_last(),
            Progress::Ask(step, log.last().0),
        );
        match step {
            CreationStep::CreatingZeroDpu { .. } => {},
            CreationStep::LookingUpHosts { .. } => existing_goes_on(context, log, step),
            CreationStep::SettingUpExisting { .. } => existing_goes_on(context, log, step),
            CreationStep::ReconcilingExisting { .. } => existing_goes_on(context, log, step),
            CreationStep::CommittingExisting => existing_goes_on(context, log, step),
            CreationStep::CreatingDpu { .. } => creating_goes_on(context, log, step),
            CreationStep::AttachingDpu { .. } => attaching_goes_on(context, log, step),
            CreationStep::ConfiguringDpu { .. } => configuring_goes_on(context, log, step),
            CreationStep::WritingState { .. } => finishing_goes_on(context, log, step),
            CreationStep::EnsuringRack { .. } => finishing_goes_on(context, log, step),
            CreationStep::OwningBootNic { .. } => finishing_goes_on(context, log, step),
            CreationStep::Reconciling { .. } => finishing_goes_on(context, log, step),
            _ => rack_manager_goes_on(context, log, step, progress),
        }
    }
}

/// Machines are reported as created once every DPU's machine was created, attached to the host and
/// configured, the host was put into discovery and its addresses were settled, all that was
/// committed, and, where a rack manager has a part, the host's slot and tray were asked for by its
/// BMC and written as they were given, or at least that was tried.
pub proof fn created_machines_are_complete(
    context: CreationContext,
    steps: Seq<CreationStep>,
    log: Seq<(Request, Reply)>,
)
    requires
        context.dpu_ids@.len() == context.host.dpus@.len(),
        reaches(context, steps, log, Progress::Finished(true)),
    ensures
        exists|host: MachineId| #[trigger]
            is_committed(context, log, host) && (asks_rack_manager(context) ==> slot_is_written(
                context,
                log,
                host,
            )),
{
    always_holds(context, steps, log, Progress::Finished(true));
}

/// Where nothing was created for a host with DPUs, its machine existed, and its addresses were
/// settled and committed.
pub proof fn existing_hosts_are_settled(
    context: CreationContext,
    steps: Seq<CreationStep>,
    log: Seq<(Request, Reply)>,
)
    requires
        context.dpu_ids@.len() == context.host.dpus@.len(),
        context.dpu_ids@.len() > 0,
        reaches(context, steps, log, Progress::Finished(false)),
    ensures
        exists|host: MachineId| existing_is_settled(log, host),
        told(log, Request::Commit, Reply::Done),
{
    always_holds(context, steps, log, Progress::Finished(false));
}

/// A host is put into discovery only when all its DPUs are done; the rack manager is asked for a
/// node only after the machines were committed, and for the host only; and what is written of slot
/// and tray is what the rack manager gave for this host.
pub proof fn later_requests_follow_from_earlier_answers(
    context: CreationContext,
    steps: Seq<CreationStep>,
    log: Seq<(Request, Reply)>,
    step: CreationStep,
    request: Request,
)
    requires
        context.dpu_ids@.len() == context.host.dpus@.len(),
        reaches(context, steps, log, Progress::Ask(step, request)),
    ensures
        step is WritingState ==> (request matches Request::WriteDiscoveringState { machine_id }
            && dpus_are_done(context, log, Some(machine_id), context.dpu_ids@.len() as int)),
        step is EnsuringRack ==> (request matches Request::EnsureRackExists { rack_id }
            && context.machine.data.rack_id == Some(rack_id)),
        step is FindingProfile ==> (request matches Request::FindRackProfile { rack_profile_id }
            && rack_has_profile(context, log, Some(rack_profile_id)) && asks_rack_manager(context)),
        step is FetchingSlot ==> (request matches Request::FetchSlotAndTray { node } && exists|
            host: MachineId,
        | #[trigger]
            is_committed(context, log, host) && node_is_host(context, host, node)),
        step is WritingSlot ==> (request matches Request::WriteSlotAndTray {
            machine_id,
            slot_number,
            tray_index,
        } && is_committed(context, log, machine_id) && slot_is_known(
            context,
            log,
            machine_id,
            slot_number,
            tray_index,
        )),
{
    always_holds(context, steps, log, Progress::Ask(step, request));
}

/// Once a host's rack is settled, a host with DPUs comes to own the interface that is declared
/// primary; without DPUs, or without such a declaration, its addresses are settled at once.
pub proof fn boot_nics_are_owned_where_there_are_dpus(
    context: CreationContext,
    step: CreationStep,
    reply: Reply,
    progress: Progress<CreationStep, bool>,
    host: MachineId,
)
    requires
        step.next(context, reply, progress),
        (step == CreationStep::EnsuringRack { host } && reply is Rack) || (step
            == CreationStep::WritingState { host } && reply is Done
            && context.machine.data.rack_id is None),
    ensures
        progress is Ask,
        context.host.dpus@.len() > 0 ==> (context.facts.declared_primary matches Some(mac_address)
            ==> progress->Ask_1 == Request::FindInterface { mac_address }),
        context.host.dpus@.len() == 0 || context.facts.declared_primary is None ==> progress->Ask_1
            == (Request::ReconcileAdminAddresses { machine_id: host }),
{
}

/// Where the rack manager has a part, the host's rack must have a profile, this profile must be
/// configured, and it must name a product family and a vendor of compute nodes; otherwise nothing
/// is committed.
pub proof fn racks_need_a_profile(
    context: CreationContext,
    host: MachineId,
    rack_profile_id: String,
    profile: Option<RackProfile>,
    progress: Progress<CreationStep, bool>,
)
    requires
        (CreationStep::FindingProfile { host, rack_profile_id }).next(
            context,
            Reply::RackProfile(profile),
            progress,
        ),
    ensures
        profile is None ==> progress == Progress::<CreationStep, bool>::Failed(
            IngestionError::RackProfileUnknown { rack_profile_id, machine_id: host },
        ),
        profile matches Some(profile) ==> {
            &&& progress is Ask <==> names_family(profile) && names_vendor(
                profile,
                RmsNodeRole::Compute,
            )
            &&& progress is Ask ==> progress->Ask_1 is Commit
            &&& !names_family(profile) ==> progress == Progress::<CreationStep, bool>::Failed(
                IngestionError::NodeDescriptor(NodeDescriptorError::MissingProductFamily),
            )
            &&& names_family(profile) && !names_vendor(profile, RmsNodeRole::Compute)
                ==> (progress matches Progress::Failed(
                IngestionError::NodeDescriptor(NodeDescriptorError::VendorMissing { role }),
            ) && role@ == "compute"@)
        },
{
    if let Some(profile) = profile {
        if exists|error: NodeDescriptorError|
            {
                &&& #[trigger] identity_outcome(profile, RmsNodeRole::Compute, Err(error))
                &&& progress == Progress::<CreationStep, bool>::Failed(
                    IngestionError::NodeDescriptor(error),
                )
            } {
            let error = choose|error: NodeDescriptorError|
                {
                    &&& #[trigger] identity_outcome(profile, RmsNodeRole::Compute, Err(error))
                    &&& progress == Progress::<CreationStep, bool>::Failed(
                        IngestionError::NodeDescriptor(error),
                    )
                };
            identities_need_family_and_vendor(profile, RmsNodeRole::Compute, Err(error));
        } else {
            let identity = choose|identity: RmsNodeIdentity|
                {
                    &&& #[trigger] identity_outcome(profile, RmsNodeRole::Compute, Ok(identity))
                    &&& progress == Progress::<CreationStep, bool>::Ask(
                        CreationStep::Committing { host, identity: Some(identity) },
                        Request::Commit,
                    )
                };
            identities_need_family_and_vendor(profile, RmsNodeRole::Compute, Ok(identity));
        }
    }
}

/// A rack without a profile id ends the creation where the rack manager has a part, once the host's
/// addresses are settled; without a rack manager, or a rack, the machines are then committed.
pub proof fn racks_need_a_profile_id(
    context: CreationContext,
    host: MachineId,
    profile: Option<String>,
    reconciliation: Reconciliation,
    progress: Progress<CreationStep, bool>,
)
    requires
        reconciliation.step is Reconciling,
        (CreationStep::Reconciling { host, profile, reconciliation }).next(
            context,
            Reply::Changed(false),
            progress,
        ),
    ensures
        !asks_rack_manager(context) ==> progress is Ask && progress->Ask_1 is Commit,
        asks_rack_manager(context) && profile is None ==> progress == Progress::<
            CreationStep,
            bool,
        >::Failed(
            IngestionError::RackProfileMissing {
                rack_id: context.machine.data.rack_id->0,
                machine_id: host,
            },
        ),
        asks_rack_manager(context) ==> (profile matches Some(rack_profile_id) ==> progress is Ask
            && progress->Ask_1 == Request::FindRackProfile { rack_profile_id }),
{
}

/// The node that the rack manager is asked for carries the identity that the rack's profile gives a
/// compute node.
pub proof fn nodes_carry_the_identity_of_their_rack(
    context: CreationContext,
    host: MachineId,
    identity: RmsNodeIdentity,
    progress: Progress<CreationStep, bool>,
)
    requires
        context.machine.data.rack_id is Some,
        (CreationStep::Committing { host, identity: Some(identity) }).next(
            context,
            Reply::Done,
            progress,
        ),
    ensures
        progress matches Progress::Ask(_, Request::FetchSlotAndTray { node }) && node.node_type
            == identity.legacy_node_type && node.node_descriptor is Some
            && node.node_descriptor->0.entries() == identity.node_descriptor.entries()
            && node_is_host(context, host, node),
{
}

/// Whether a list of ids holds one with this text.
pub open spec fn lists(ids: Seq<MachineId>, text: Seq<char>) -> bool {
    exists|i: int| 0 <= i < ids.len() && (#[trigger] ids[i]).text@ == text
}

/// Whether a DPU with this text was found to have a host.
pub open spec fn finds(existing: Seq<(MachineId, MachineId)>, text: Seq<char>) -> bool {
    exists|i: int| 0 <= i < existing.len() && (#[trigger] existing[i]).0.text@ == text
}

/// Whether the DPUs with hosts are others than the host's DPUs.
pub open spec fn dpus_differ(existing: Seq<(MachineId, MachineId)>, ids: Seq<MachineId>) -> bool {
    exists|text: Seq<char>| #[trigger] finds(existing, text) != lists(ids, text)
}

/// Whether the hosts of two DPUs differ.
pub open spec fn hosts_differ(existing: Seq<(MachineId, MachineId)>) -> bool {
    exists|i: int, j: int|
        0 <= i < existing.len() && 0 <= j < existing.len() && (#[trigger] existing[i]).1.text@ != (
        #[trigger] existing[j]).1.text@
}

/// Where hosts of some DPUs exist, they must be hosts of just the host's DPUs, or the creation fails
/// for the DPUs that differ; and they must all be one host, or it fails for the hosts that differ.
/// Otherwise it goes on, without creating a machine.
pub proof fn existing_dpus_must_be_all_on_one_host(
    context: CreationContext,
    step: CreationStep,
    existing: Vec<(MachineId, MachineId)>,
    progress: Progress<CreationStep, bool>,
)
    requires
        existing@.len() > 0,
        step is LookingUpHosts,
        step.next(context, Reply::HostsByDpu(existing), progress),
    ensures
        progress == Progress::<CreationStep, bool>::Failed(IngestionError::PartialDpus)
            <==> dpus_differ(existing@, context.dpu_ids@),
        progress == Progress::<CreationStep, bool>::Failed(IngestionError::DpusOfDifferentHosts)
            <==> !dpus_differ(existing@, context.dpu_ids@) && hosts_differ(existing@),
        !dpus_differ(existing@, context.dpu_ids@) && !hosts_differ(existing@) ==> progress is Ask
            && !(progress->Ask_1 is CreateMachine),
{
    same_dpus_have_the_same_texts(existing@, context.dpu_ids@);
    set_up_goes_on(context, existing@[0].1, 0);
    if !one_host(existing@) {
        let i = choose|i: int|
            0 <= i < existing@.len() && !(#[trigger] existing@[i]).1.same_as(existing@[0].1);
        assert(existing@[i].1.text@ != existing@[0].1.text@);
    }
}

proof fn set_up_goes_on(context: CreationContext, host: MachineId, position: int)
    ensures
        creation_set_up(context, host, position) is Ask,
        !(creation_set_up(context, host, position)->Ask_1 is CreateMachine),
    decreases context.host.dpus@.len() - position,
{
    if 0 <= position < context.host.dpus@.len() && position < context.dpu_ids@.len() {
        set_up_goes_on(context, host, position + 1);
    }
}

proof fn same_dpus_have_the_same_texts(existing: Seq<(MachineId, MachineId)>, ids: Seq<MachineId>)
    ensures
        same_dpus(existing, ids) <==> !dpus_differ(existing, ids),
{
    if same_dpus(existing, ids) {
        assert forall|text: Seq<char>| #[trigger] finds(existing, text) == lists(ids, text) by {
            if finds(existing, text) {
                let i = choose|i: int|
                    0 <= i < existing.len() && (#[trigger] existing[i]).0.text@ == text;
                assert(among(ids, existing[i].0));
                let j = choose|j: int|
                    0 <= j < ids.len() && existing[i].0.same_as(#[trigger] ids[j]);
                assert(ids[j].text@ == text);
            }
            if lists(ids, text) {
                let j = choose|j: int| 0 <= j < ids.len() && (#[trigger] ids[j]).text@ == text;
                assert(has_host(existing, ids[j]));
                let i = choose|i: int|
                    0 <= i < existing.len() && (#[trigger] existing[i]).0.same_as(ids[j]);
                assert(existing[i].0.text@ == text);
            }
        }
    }
    if !dpus_differ(existing, ids) {
        assert forall|i: int| 0 <= i < existing.len() implies
            among(ids, (#[trigger] existing[i]).0) by {
            assert(finds(existing, existing[i].0.text@));
            let j = choose|j: int|
                0 <= j < ids.len() && (#[trigger] ids[j]).text@ == existing[i].0.text@;
            assert(existing[i].0.same_as(ids[j]));
        }
        assert forall|j: int| 0 <= j < ids.len() implies
            has_host(existing, #[trigger] ids[j]) by {
            assert(lists(ids, ids[j].text@));
            assert(finds(existing, ids[j].text@));
            let i = choose|i: int|
                0 <= i < existing.len() && (#[trigger] existing[i]).0.text@ == ids[j].text@;
            assert(existing[i].0.same_as(ids[j]));
        }
    }
}

/// A failed request ends the creation with the text of the failure, except that slot and tray need
/// not be written.
pub proof fn failed_requests_end_the_creation(
    context: CreationContext,
    step: CreationStep,
    text: String,
    progress: Progress<CreationStep, bool>,
)
    requires
        creation_is_valid(context, step),
        step.next(context, Reply::Failed(text), progress),
    ensures
        !(step is WritingSlot) ==> progress == Progress::<CreationStep, bool>::Failed(
            IngestionError::Backend(text),
        ),
        step is WritingSlot ==> progress is Ask && progress->Ask_1 is Commit,
{
}

} // verus!
