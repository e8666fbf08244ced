//! What holds of every ingestion, whatever its requests are answered.
use vstd::prelude::*;

use crate::addresses::{IpAddr, MacAddress, MachineId};
use crate::expected_machine_data::ExpectedMachine;
use crate::exploration::{EndpointExplorationReport, ExploredDpu, ExploredManagedHost};
use crate::machine_creator::boot_nic::BootNicOwnership;
use crate::machine_creator::creation::{
    among, creation_set_up, creation_start, first_discovery_states, same_dpus, CreationContext,
    CreationStep,
};
use crate::machine_creator::dpu::{
    dpu_interface_start, AttachStep, DpuCreationStep, DpuInterfaceSetup,
};
use crate::machine_creator::ingestion::{
    context_of, ingestion_creates, ingestion_locks, ingestion_next, ingestion_start, list_of,
    valid_dpu_ids, Ingestion, ListView, MachineCreator,
};
use crate::machine_creator::lock_stage::{
    lock_macs, lock_merged, lock_next, lock_starts, LockStage, LockStep,
};
use crate::machine_creator::locks::{
    ingestion_identity, is_bmc_address, ManagedHostIngestionLockInputs,
};
use crate::machine_creator::network_config::{DpuConfigStep, Reconciliation};
use crate::machine_creator::requests::{
    changes_data, takes_agreed_locks, IngestionError, Progress, Reply, Request,
};
use crate::machine_creator::topology::TopologyUpdate;
use crate::machine_creator::zero_dpu::{zero_dpu_start, HostFacts, Ownership, ZeroDpuStep};
use crate::rms_node_type::UsernamePassword;

verus! {

/// How far an ingestion has come, by number.
pub open spec fn rank(ingestion: Ingestion) -> nat {
    match ingestion {
        Ingestion::GettingCredentials { .. } => 0,
        Ingestion::Beginning { .. } => 1,
        Ingestion::FindingExpected { .. } => 2,
        Ingestion::Locking { stage, .. } => match stage.step {
            LockStep::Previewing { .. } => 3,
            LockStep::LockingMacs => 4,
            LockStep::Discovering { .. } => 5,
            LockStep::ListingAdminSegments => 6,
            LockStep::FindingSegments { .. } => 7,
            LockStep::FindingBmcSegment { .. } => 8,
            LockStep::LockingSegments => 9,
            LockStep::LockingFixedAddresses => 10,
            LockStep::Revalidating { .. } => 11,
        },
        Ingestion::Creating { .. } => 12,
    }
}

/// Whether a creation waits for a commit.
pub open spec fn awaits_commit(step: CreationStep) -> bool {
    step is Committing || step is CommittingExisting || step is CommittingSlot
}

/// What an ingestion that has come this far may be waiting for.
pub open spec fn request_fits(ingestion: Ingestion, request: Request) -> bool {
    match ingestion {
        Ingestion::Locking { stage, .. } => match stage.step {
            LockStep::LockingMacs => request is LockInterfaceMacs,
            LockStep::LockingSegments => request is LockSegments,
            LockStep::LockingFixedAddresses => request is LockFixedAddresses,
            LockStep::Revalidating { .. } => request is FindBmcOwnerForUpdate,
            _ => is_preparation(request),
        },
        Ingestion::Creating { step, .. } => !takes_agreed_locks(request) && (request is Commit
            <==> awaits_commit(step)),
        _ => is_preparation(request),
    }
}

/// Whether a request may come before the machines are created, other than to take agreed locks.
pub open spec fn is_preparation(request: Request) -> bool {
    !takes_agreed_locks(request) && !changes_data(request) && !(request is Commit) && !(
    request is LookUpHostsByDpus)
}

/// Whether a request belongs to the work of a single stage: it neither takes agreed locks nor
/// ends a transaction.
pub open spec fn is_work(request: Request) -> bool {
    !takes_agreed_locks(request) && !(request is Commit)
}

proof fn topology_works(update: TopologyUpdate, reply: Reply)
    ensures
        update.next(reply) matches Progress::Ask(_, request) ==> is_work(request),
{
}

proof fn zero_dpu_works(step: ZeroDpuStep, facts: HostFacts, reply: Reply)
    ensures
        step.next(facts, reply) matches Progress::Ask(_, request) ==> is_work(request),
{
    if let ZeroDpuStep::WritingTopology { update, .. } = step {
        topology_works(update, reply);
    }
}

proof fn boot_nic_works(ownership: BootNicOwnership, facts: HostFacts, reply: Reply)
    ensures
        ownership.next(facts, reply) matches Progress::Ask(_, request) ==> is_work(request),
{
}

proof fn interface_setup_works(setup: DpuInterfaceSetup, reply: Reply)
    ensures
        setup.next(reply) matches Progress::Ask(_, request) ==> is_work(request),
{
}

proof fn dpu_creation_works(
    step: DpuCreationStep,
    dpu: ExploredDpu,
    position: usize,
    reply: Reply,
)
    ensures
        step.next(dpu, position, reply) matches Progress::Ask(_, request) ==> is_work(request),
{
    match step {
        DpuCreationStep::SettingUpInterface { setup, .. } => interface_setup_works(setup, reply),
        DpuCreationStep::WritingTopology { update, .. } => topology_works(update, reply),
        _ => {},
    }
}

proof fn attach_works(
    step: AttachStep,
    dpu: ExploredDpu,
    dpu_machine_id: MachineId,
    host: Option<MachineId>,
    reply: Reply,
)
    ensures
        step.next(dpu, dpu_machine_id, host, reply) matches Progress::Ask(_, request) ==> is_work(
            request,
        ),
{
    if let AttachStep::WritingTopology { update, .. } = step {
        topology_works(update, reply);
    }
}

proof fn dpu_config_works(step: DpuConfigStep, vtep: bool, reply: Reply)
    ensures
        step.next(vtep, reply) matches Progress::Ask(_, request) ==> is_work(request),
{
}

proof fn reconciliation_works(reconciliation: Reconciliation, reply: Reply)
    ensures
        reconciliation.next(reply) matches Progress::Ask(_, request) ==> is_work(request),
{
}

/// A creation waits for a commit exactly at the steps that say so, and takes no agreed lock.
pub open spec fn creation_fits(progress: Progress<CreationStep, bool>) -> bool {
    match progress {
        Progress::Ask(step, request) => !takes_agreed_locks(request) && (request is Commit
            <==> awaits_commit(step)),
        _ => true,
    }
}

proof fn set_up_fits(context: CreationContext, host: MachineId, position: int)
    ensures
        creation_fits(creation_set_up(context, host, position)),
    decreases context.host.dpus@.len() - position,
{
    if 0 <= position < context.host.dpus@.len() && position < context.dpu_ids@.len() {
        if dpu_interface_start(
            context.host.dpus@[position],
            context.dpu_ids@[position],
        ) is Finished {
            set_up_fits(context, host, position + 1);
        }
    }
}

proof fn creation_next_fits(
    step: CreationStep,
    context: CreationContext,
    reply: Reply,
    progress: Progress<CreationStep, bool>,
)
    requires
        step.next(context, reply, progress),
    ensures
        creation_fits(progress),
{
    match step {
        CreationStep::CreatingZeroDpu { step } => zero_dpu_works(step, context.facts, reply),
        CreationStep::LookingUpHosts { .. } => {
            if let Reply::HostsByDpu(existing) = reply {
                set_up_fits(context, existing@[0].1, 0);
            }
        },
        CreationStep::SettingUpExisting { host, position, setup } => {
            interface_setup_works(setup, reply);
            set_up_fits(context, host, position + 1);
        },
        CreationStep::ReconcilingExisting { reconciliation } => reconciliation_works(
            reconciliation,
            reply,
        ),
        CreationStep::CreatingDpu { known_host, position, creation } => {
            if position < context.host.dpus@.len() {
                dpu_creation_works(
                    creation,
                    context.host.dpus@[position as int],
                    position,
                    reply,
                );
            }
        },
        CreationStep::AttachingDpu { known_host, position, machine, attachment } => {
            if position < context.host.dpus@.len() && position < context.dpu_ids@.len() {
                attach_works(
                    attachment,
                    context.host.dpus@[position as int],
                    context.dpu_ids@[position as int],
                    known_host,
                    reply,
                );
            }
        },
        CreationStep::ConfiguringDpu { config, .. } => dpu_config_works(
            config,
            context.allocate_secondary_vtep_ip,
            reply,
        ),
        CreationStep::OwningBootNic { ownership, .. } => boot_nic_works(
            ownership,
            context.facts,
            reply,
        ),
        CreationStep::Reconciling { reconciliation, .. } => reconciliation_works(
            reconciliation,
            reply,
        ),
        _ => {},
    }
}

/// How one request follows another in an ingestion.
proof fn step_keeps_order(ingestion: Ingestion, reply: Reply, next: Ingestion, request: Request)
    requires
        ingestion_next(ingestion, reply, Progress::Ask(next, request)),
    ensures
        rank(ingestion) <= rank(next),
        request_fits(next, request),
        rank(next) >= 5 ==> rank(ingestion) >= 4,
        rank(next) >= 10 ==> rank(ingestion) >= 9,
        rank(next) >= 11 ==> rank(ingestion) >= 10,
{
    match ingestion {
        Ingestion::Creating { context, step } => {
            let creating = choose|creating: Progress<CreationStep, bool>|
                {
                    &&& #[trigger] step.next(context, reply, creating)
                    &&& Progress::<Ingestion, bool>::Ask(next, request) == ingestion_creates(
                        context,
                        creating,
                    )
                };
            creation_next_fits(step, context, reply, creating);
        },
        Ingestion::Locking { creator, credentials, stage } => {
            let progress = Progress::<Ingestion, bool>::Ask(next, request);
            let locking = choose|locking: Progress<LockStage, LockStage>|
                {
                    &&& #[trigger] lock_next(stage@, reply, locking)
                    &&& ingestion_locks(creator, credentials, locking, progress)
                };
            if let Progress::Finished(locked) = locking {
                let context = choose|context: CreationContext|
                    {
                        &&& #[trigger] context_of(creator, credentials, locked, context)
                        &&& progress == ingestion_creates(context, creation_start(context))
                    };
                assert(creation_fits(creation_start(context)));
            }
        },
        _ => {},
    }
}

/// Whether one request of an ingestion comes right after another.
pub open spec fn follows(now: (Ingestion, Request), next: (Ingestion, Request)) -> bool {
    exists|reply: Reply| #[trigger]
        ingestion_next(now.0, reply, Progress::Ask(next.0, next.1))
}

/// A run of an ingestion: its requests one after another, from the first, with the state in
/// which each was made.
pub open spec fn is_run(
    expected: Option<ExpectedMachine>,
    host: ExploredManagedHost,
    report: EndpointExplorationReport,
    creator: MachineCreator,
    run: Seq<(Ingestion, Request)>,
) -> bool {
    &&& run.len() > 0 ==> ingestion_start(expected, host, report, creator) == Progress::<
        Ingestion,
        bool,
    >::Ask(run[0].0, run[0].1)
    &&& forall|k: int| 0 < k < run.len() ==> follows(#[trigger] run[k - 1], run[k])
}

/// Whether the agreed locks that come before `n` steps of an ingestion were taken by step `k`
/// of a run: first the MAC addresses, then the segments, then the fixed addresses.
spec fn locks_taken(run: Seq<(Ingestion, Request)>, k: int, n: int) -> bool {
    &&& n >= 5 ==> exists|a: int| 0 <= a <= k && (#[trigger] run[a]).1 is LockInterfaceMacs
    &&& n >= 10 ==> exists|b: int| 0 <= b <= k && (#[trigger] run[b]).1 is LockSegments
    &&& n >= 11 ==> exists|c: int| 0 <= c <= k && (#[trigger] run[c]).1 is LockFixedAddresses
}

proof fn run_invariant(
    expected: Option<ExpectedMachine>,
    host: ExploredManagedHost,
    report: EndpointExplorationReport,
    creator: MachineCreator,
    run: Seq<(Ingestion, Request)>,
    k: int,
)
    requires
        is_run(expected, host, report, creator, run),
        0 <= k < run.len(),
    ensures
        request_fits(run[k].0, run[k].1),
        locks_taken(run, k, rank(run[k].0) as int),
        forall|j: int| 0 <= j <= k ==> rank((#[trigger] run[j]).0) <= rank(run[k].0),
    decreases k,
{
    if k > 0 {
        run_invariant(expected, host, report, creator, run, k - 1);
        assert(follows(run[k - 1], run[k]));
        let reply = choose|reply: Reply| #[trigger]
            ingestion_next(run[k - 1].0, reply, Progress::Ask(run[k].0, run[k].1));
        step_keeps_order(run[k - 1].0, reply, run[k].0, run[k].1);
        assert(request_fits(run[k - 1].0, run[k - 1].1));
        if rank(run[k].0) >= 5 {
            if rank(run[k - 1].0) == 4 {
                assert(run[k - 1].1 is LockInterfaceMacs);
            } else {
                let a = choose|a: int|
                    0 <= a <= k - 1 && (#[trigger] run[a]).1 is LockInterfaceMacs;
                assert(run[a].1 is LockInterfaceMacs);
            }
        }
        if rank(run[k].0) >= 10 {
            if rank(run[k - 1].0) == 9 {
                assert(run[k - 1].1 is LockSegments);
            } else {
                let b = choose|b: int| 0 <= b <= k - 1 && (#[trigger] run[b]).1 is LockSegments;
                assert(run[b].1 is LockSegments);
            }
        }
        if rank(run[k].0) >= 11 {
            if rank(run[k - 1].0) == 10 {
                assert(run[k - 1].1 is LockFixedAddresses);
            } else {
                let c = choose|c: int|
                    0 <= c <= k - 1 && (#[trigger] run[c]).1 is LockFixedAddresses;
                assert(run[c].1 is LockFixedAddresses);
            }
        }
    }
}

/// Where the agreed lock that a request takes stands in the order: MAC addresses, segments,
/// fixed addresses, rows of BMC owners. Data are changed after all of them.
pub open spec fn lock_order(request: Request) -> nat {
    if request is LockInterfaceMacs {
        1
    } else if request is LockSegments {
        2
    } else if request is LockFixedAddresses {
        3
    } else if request is FindBmcOwnerForUpdate {
        4
    } else if changes_data(request) {
        5
    } else {
        0
    }
}

/// Every ingestion takes its locks in the agreed order, and takes none once it has changed
/// data: interface MAC addresses first, then segments, fixed addresses and owner rows.
pub proof fn locks_are_taken_in_order(
    expected: Option<ExpectedMachine>,
    host: ExploredManagedHost,
    report: EndpointExplorationReport,
    creator: MachineCreator,
    run: Seq<(Ingestion, Request)>,
    i: int,
    j: int,
)
    requires
        is_run(expected, host, report, creator, run),
        0 <= i < j < run.len(),
        lock_order(run[i].1) > 0,
        lock_order(run[j].1) > 0,
    ensures
        lock_order(run[i].1) <= lock_order(run[j].1),
{
    run_invariant(expected, host, report, creator, run, i);
    run_invariant(expected, host, report, creator, run, j);
}

/// No ingestion changes data before it holds the locks on its interface MAC addresses, its
/// segments and its fixed addresses.
pub proof fn data_change_only_under_locks(
    expected: Option<ExpectedMachine>,
    host: ExploredManagedHost,
    report: EndpointExplorationReport,
    creator: MachineCreator,
    run: Seq<(Ingestion, Request)>,
    k: int,
)
    requires
        is_run(expected, host, report, creator, run),
        0 <= k < run.len(),
        changes_data(run[k].1),
    ensures
        exists|a: int| 0 <= a < k && (#[trigger] run[a]).1 is LockInterfaceMacs,
        exists|b: int| 0 <= b < k && (#[trigger] run[b]).1 is LockSegments,
        exists|c: int| 0 <= c < k && (#[trigger] run[c]).1 is LockFixedAddresses,
{
    run_invariant(expected, host, report, creator, run, k);
    assert(rank(run[k].0) == 12);
    let a = choose|a: int| 0 <= a <= k && (#[trigger] run[a]).1 is LockInterfaceMacs;
    let b = choose|b: int| 0 <= b <= k && (#[trigger] run[b]).1 is LockSegments;
    let c = choose|c: int| 0 <= c <= k && (#[trigger] run[c]).1 is LockFixedAddresses;
    assert(run[a].1 is LockInterfaceMacs && run[b].1 is LockSegments
        && run[c].1 is LockFixedAddresses);
}

/// An ingestion reports created machines only once a commit has succeeded.
pub proof fn machines_are_reported_after_commit(
    expected: Option<ExpectedMachine>,
    host: ExploredManagedHost,
    report: EndpointExplorationReport,
    creator: MachineCreator,
    run: Seq<(Ingestion, Request)>,
    reply: Reply,
)
    requires
        is_run(expected, host, report, creator, run),
        run.len() > 0,
        ingestion_next(run.last().0, reply, Progress::Finished(true)),
    ensures
        run.last().1 is Commit,
        reply is Done,
{
    run_invariant(expected, host, report, creator, run, run.len() - 1);
    let progress = Progress::<Ingestion, bool>::Finished(true);
    match run.last().0 {
        Ingestion::Creating { context, step } => {
            let creating = choose|creating: Progress<CreationStep, bool>|
                {
                    &&& #[trigger] step.next(context, reply, creating)
                    &&& progress == ingestion_creates(context, creating)
                };
            creation_finishes_by_commit(step, context, reply, creating);
        },
        Ingestion::Locking { creator, credentials, stage } => {
            let locking = choose|locking: Progress<LockStage, LockStage>|
                {
                    &&& #[trigger] lock_next(stage@, reply, locking)
                    &&& ingestion_locks(creator, credentials, locking, progress)
                };
            if let Progress::Finished(locked) = locking {
                let context = choose|context: CreationContext|
                    {
                        &&& #[trigger] context_of(creator, credentials, locked, context)
                        &&& progress == ingestion_creates(context, creation_start(context))
                    };
            }
        },
        _ => {},
    }
}

proof fn creation_finishes_by_commit(
    step: CreationStep,
    context: CreationContext,
    reply: Reply,
    progress: Progress<CreationStep, bool>,
)
    requires
        step.next(context, reply, progress),
        progress == Progress::<CreationStep, bool>::Finished(true),
    ensures
        awaits_commit(step),
        reply is Done,
{
    match step {
        CreationStep::LookingUpHosts { .. } => {
            if let Reply::HostsByDpu(existing) = reply {
                set_up_does_not_finish(context, existing@[0].1, 0);
            }
        },
        CreationStep::SettingUpExisting { host, position, .. } => {
            set_up_does_not_finish(context, host, position + 1);
        },
        _ => {},
    }
}

proof fn set_up_does_not_finish(context: CreationContext, host: MachineId, position: int)
    ensures
        !(creation_set_up(context, host, position) is Finished),
    decreases context.host.dpus@.len() - position,
{
    if 0 <= position < context.host.dpus@.len() && position < context.dpu_ids@.len() {
        if dpu_interface_start(
            context.host.dpus@[position],
            context.dpu_ids@[position],
        ) is Finished {
            set_up_does_not_finish(context, host, position + 1);
        }
    }
}

/// A host that nobody declared is refused without any request.
pub proof fn undeclared_hosts_are_refused(
    host: ExploredManagedHost,
    report: EndpointExplorationReport,
    creator: MachineCreator,
)
    ensures
        ingestion_start(None, host, report, creator) == Progress::<Ingestion, bool>::Finished(
            false,
        ),
{
}

/// What an ingestion works on, all the way: the explored host, under a declaration with the
/// identity that it had at the start. The stage that takes the locks previews the owners of
/// all BMC addresses.
pub open spec fn keeps_subject(
    expected: ExpectedMachine,
    host: ExploredManagedHost,
    ingestion: Ingestion,
) -> bool {
    match ingestion {
        Ingestion::GettingCredentials { subject } => subject.host == host && subject.identity
            == ingestion_identity(expected),
        Ingestion::Beginning { subject, .. } => subject.host == host && subject.identity
            == ingestion_identity(expected),
        Ingestion::FindingExpected { subject, .. } => subject.host == host && subject.identity
            == ingestion_identity(expected),
        Ingestion::Locking { stage, .. } => {
            &&& stage.host == host
            &&& ingestion_identity(stage.declared.machine) == ingestion_identity(expected)
            &&& previews_follow_addresses(host, stage)
        },
        Ingestion::Creating { context, .. } => context.host == host && ingestion_identity(
            context.machine,
        ) == ingestion_identity(expected),
    }
}

/// The previews made so far are of the host's BMC addresses, in their order; after the
/// previewing there is one for each address.
pub open spec fn previews_follow_addresses(host: ExploredManagedHost, stage: LockStage) -> bool {
    &&& forall|address: IpAddr|
        is_bmc_address(host, address) ==> #[trigger] stage.addresses@.contains(address)
    &&& match stage.step {
        LockStep::Previewing { index } => stage.previews@.len() == index && index
            < stage.addresses@.len(),
        LockStep::Revalidating { index } => stage.previews@.len() == stage.addresses@.len()
            && index < stage.previews@.len(),
        _ => stage.previews@.len() == stage.addresses@.len(),
    }
    &&& stage.addresses@.len() > 0
    &&& forall|m: int|
        0 <= m < stage.previews@.len() ==> (#[trigger] stage.previews@[m]).address
            == stage.addresses@[m]
}

/// Whether the row of the owner of this BMC address was locked by step `k` of a run.
pub open spec fn owner_row_locked(
    run: Seq<(Ingestion, Request)>,
    k: int,
    address: IpAddr,
) -> bool {
    exists|c: int|
        0 <= c <= k && #[trigger] run[c].1 == (Request::FindBmcOwnerForUpdate { address })
}

/// Which owner rows an ingestion has locked by step `k` of a run: while it revalidates, those
/// of the previews up to the current one; afterwards those of all BMC addresses.
spec fn owner_rows_locked(
    host: ExploredManagedHost,
    run: Seq<(Ingestion, Request)>,
    k: int,
) -> bool {
    match run[k].0 {
        Ingestion::Locking { stage, .. } => match stage.step {
            LockStep::Revalidating { index } => forall|m: int|
                0 <= m <= index && m < stage.previews@.len() ==> owner_row_locked(
                    run,
                    k,
                    (#[trigger] stage.previews@[m]).address,
                ),
            _ => true,
        },
        Ingestion::Creating { .. } => forall|address: IpAddr| #[trigger]
            is_bmc_address(host, address) ==> owner_row_locked(run, k, address),
        _ => true,
    }
}

proof fn row_stays_locked(run: Seq<(Ingestion, Request)>, k: int, address: IpAddr)
    requires
        owner_row_locked(run, k, address),
    ensures
        owner_row_locked(run, k + 1, address),
{
    let c = choose|c: int|
        0 <= c <= k && #[trigger] run[c].1 == (Request::FindBmcOwnerForUpdate { address });
    assert(run[c].1 == (Request::FindBmcOwnerForUpdate { address }));
}

proof fn lock_step_keeps_previews(
    host: ExploredManagedHost,
    stage: LockStage,
    reply: Reply,
    next: LockStage,
    request: Request,
)
    requires
        lock_next(stage@, reply, Progress::Ask(next, request)),
        previews_follow_addresses(host, stage),
    ensures
        previews_follow_addresses(host, next),
{
    let now = stage@;
    let later = next@;
    assert(later.addresses == now.addresses);
    assert(next.addresses@ == stage.addresses@);
    assert(next.previews@ == later.previews);
    match stage.step {
        LockStep::Previewing { index } => {
            assert(stage.addresses@.len() == stage.addresses.len());
            assert(next.previews@.len() == index + 1);
            assert forall|m: int| 0 <= m < next.previews@.len() implies (
            #[trigger] next.previews@[m]).address == next.addresses@[m] by {
                if m < index {
                    assert(next.previews@[m] == stage.previews@[m]);
                }
            }
        },
        _ => {
            assert(next.previews@ == stage.previews@);
        },
    }
}

proof fn run_keeps_subject(
    expected: ExpectedMachine,
    host: ExploredManagedHost,
    report: EndpointExplorationReport,
    creator: MachineCreator,
    run: Seq<(Ingestion, Request)>,
    k: int,
)
    requires
        is_run(Some(expected), host, report, creator, run),
        0 <= k < run.len(),
    ensures
        keeps_subject(expected, host, run[k].0),
        owner_rows_locked(host, run, k),
    decreases k,
{
    if k > 0 {
        run_keeps_subject(expected, host, report, creator, run, k - 1);
        assert(follows(run[k - 1], run[k]));
        let reply = choose|reply: Reply| #[trigger]
            ingestion_next(run[k - 1].0, reply, Progress::Ask(run[k].0, run[k].1));
        let progress = Progress::<Ingestion, bool>::Ask(run[k].0, run[k].1);
        match run[k - 1].0 {
            Ingestion::Creating { context, step } => {
                assert forall|address: IpAddr| #[trigger]
                    is_bmc_address(host, address) implies owner_row_locked(run, k, address) by {
                    row_stays_locked(run, k - 1, address);
                }
            },
            Ingestion::Locking { creator, credentials, stage } => {
                let locking = choose|locking: Progress<LockStage, LockStage>|
                    {
                        &&& #[trigger] lock_next(stage@, reply, locking)
                        &&& ingestion_locks(creator, credentials, locking, progress)
                    };
                match locking {
                    Progress::Ask(next, request) => {
                        if let LockStep::Revalidating { index } = next.step {
                            assert(next.previews@ == next@.previews);
                            assert forall|m: int|
                                0 <= m <= index && m
                                    < next.previews@.len() implies owner_row_locked(
                                run,
                                k,
                                (#[trigger] next.previews@[m]).address,
                            ) by {
                                if m == index {
                                    assert(run[k].1 == (Request::FindBmcOwnerForUpdate {
                                        address: next.previews@[m].address,
                                    }));
                                } else {
                                    assert(stage.previews@ == next.previews@);
                                    row_stays_locked(run, k - 1, next.previews@[m].address);
                                }
                            }
                        }
                        lock_step_keeps_previews(host, stage, reply, next, request);
                    },
                    Progress::Finished(locked) => {
                        assert(locked@ == stage@);
                        assert forall|address: IpAddr| #[trigger]
                            is_bmc_address(host, address) implies owner_row_locked(
                            run,
                            k,
                            address,
                        ) by {
                            assert(stage.addresses@.contains(address));
                            let m = choose|m: int|
                                0 <= m < stage.addresses@.len() && stage.addresses@[m] == address;
                            assert(stage.previews@[m].address == address);
                            row_stays_locked(run, k - 1, address);
                        }
                    },
                    Progress::Failed(_) => {},
                }
            },
            Ingestion::FindingExpected { subject, credentials } => {
                if let Reply::ExpectedMachine(Some(declared)) = reply {
                    let locking = choose|locking: Progress<LockStage, LockStage>|
                        {
                            &&& #[trigger] lock_starts(
                                declared,
                                subject.host,
                                subject.report,
                                locking,
                            )
                            &&& ingestion_locks(subject.creator, credentials, locking, progress)
                        };
                    let next = locking->Ask_0;
                    assert(next.addresses@ == next@.addresses && next.previews@ == next@.previews);
                }
            },
            _ => {},
        }
    }
}

/// No ingestion changes data before it has locked the row of the owner of every BMC address
/// of the host.
pub proof fn data_change_only_with_owner_rows_locked(
    expected: ExpectedMachine,
    host: ExploredManagedHost,
    report: EndpointExplorationReport,
    creator: MachineCreator,
    run: Seq<(Ingestion, Request)>,
    k: int,
    address: IpAddr,
)
    requires
        is_run(Some(expected), host, report, creator, run),
        0 <= k < run.len(),
        changes_data(run[k].1),
        is_bmc_address(host, address),
    ensures
        owner_row_locked(run, k, address),
{
    run_invariant(Some(expected), host, report, creator, run, k);
    run_keeps_subject(expected, host, report, creator, run, k);
}

/// Machines are created for the explored host only, and under a locked declaration whose
/// identity is the one from which the credentials were chosen.
pub proof fn creation_keeps_the_declared_identity(
    expected: ExpectedMachine,
    host: ExploredManagedHost,
    report: EndpointExplorationReport,
    creator: MachineCreator,
    run: Seq<(Ingestion, Request)>,
    k: int,
)
    requires
        is_run(Some(expected), host, report, creator, run),
        0 <= k < run.len(),
        run[k].0 is Creating,
    ensures
        run[k].0->context.host == host,
        ingestion_identity(run[k].0->context.machine) == ingestion_identity(expected),
{
    run_keeps_subject(expected, host, report, creator, run, k);
}

/// Where the creation of a machine without DPUs stands after these replies.
pub open spec fn zero_dpu_after(facts: HostFacts, replies: Seq<Reply>) -> Progress<
    ZeroDpuStep,
    Option<MachineId>,
>
    decreases replies.len(),
{
    if replies.len() == 0 {
        zero_dpu_start(facts)
    } else {
        match zero_dpu_after(facts, replies.drop_last()) {
            Progress::Ask(step, _) => step.next(facts, replies.last()),
            done => done,
        }
    }
}

/// The interface that a step brings into ownership.
pub open spec fn owned_at(step: ZeroDpuStep) -> Option<Ownership> {
    match step {
        ZeroDpuStep::FindingInterface { owner } => Some(owner),
        ZeroDpuStep::Capturing { owner, .. } => Some(owner),
        ZeroDpuStep::Reconciling { owner } => Some(owner),
        ZeroDpuStep::Demoting { owner, .. } => Some(owner),
        ZeroDpuStep::Adopting { owner } => Some(owner),
        ZeroDpuStep::Predicting { owner } => Some(owner),
        _ => None,
    }
}

/// The MAC address of the interface that a request makes, or predicts to be, primary.
pub open spec fn made_primary(progress: Progress<ZeroDpuStep, Option<MachineId>>) -> Option<
    MacAddress,
> {
    match progress {
        Progress::Ask(step, Request::SetPrimaryInterface { primary, .. }) => if primary
            && owned_at(step) is Some {
            Some(owned_at(step)->0.mac_address)
        } else {
            None
        },
        Progress::Ask(_, Request::CreatePrediction { prediction }) => if prediction.primary_interface {
            Some(prediction.mac_address)
        } else {
            None
        },
        _ => None,
    }
}

/// The boot interface is settled before interfaces are owned and is the only one that is made
/// primary; a row that is about to be adopted belongs to nobody.
spec fn zero_dpu_invariant(
    facts: HostFacts,
    progress: Progress<ZeroDpuStep, Option<MachineId>>,
) -> bool {
    match progress {
        Progress::Ask(step, request) => {
            &&& made_primary(progress) is Some ==> owned_at(step) is Some
                && owned_at(step)->0.primary_mac == made_primary(progress)
            &&& owned_at(step) is Some && facts.declared_primary is Some ==> owned_at(
                step,
            )->0.primary_mac == facts.declared_primary
            &&& step matches ZeroDpuStep::Demoting { row, .. } ==> row.machine_id is None
            &&& request is SetPrimaryInterface ==> owned_at(step) is Some
            &&& step is FindingRetained ==> facts.declared_primary is None
        },
        _ => true,
    }
}

proof fn zero_dpu_invariant_holds(facts: HostFacts, replies: Seq<Reply>)
    ensures
        zero_dpu_invariant(facts, zero_dpu_after(facts, replies)),
    decreases replies.len(),
{
    if replies.len() > 0 {
        zero_dpu_invariant_holds(facts, replies.drop_last());
        if let Progress::Ask(step, _) = zero_dpu_after(facts, replies.drop_last()) {
            if let ZeroDpuStep::WritingTopology { update, .. } = step {
                topology_asks_no_flags(update, replies.last());
            }
        }
    }
}

proof fn topology_asks_no_flags(update: TopologyUpdate, reply: Reply)
    ensures
        update.next(reply) matches Progress::Ask(_, request) ==> !(request is SetPrimaryInterface)
            && !(request is CreatePrediction),
{
}

proof fn settled_primary_stays(facts: HostFacts, replies: Seq<Reply>, n: int)
    requires
        0 <= n <= replies.len(),
        zero_dpu_after(facts, replies.subrange(0, n)) is Ask,
        zero_dpu_after(facts, replies) is Ask,
        owned_at(zero_dpu_after(facts, replies.subrange(0, n))->Ask_0) is Some,
    ensures
        owned_at(zero_dpu_after(facts, replies)->Ask_0) is Some,
        owned_at(zero_dpu_after(facts, replies)->Ask_0)->0.primary_mac == owned_at(
            zero_dpu_after(facts, replies.subrange(0, n))->Ask_0,
        )->0.primary_mac,
    decreases replies.len(),
{
    if n == replies.len() {
        assert(replies.subrange(0, n) =~= replies);
    } else {
        let before = replies.drop_last();
        assert(before.subrange(0, n) =~= replies.subrange(0, n));
        settled_primary_stays(facts, before, n);
    }
}

/// The creation of a machine without DPUs makes, or predicts to be, primary only one
/// interface: the declared one, where one is declared.
pub proof fn at_most_one_interface_is_made_primary(
    facts: HostFacts,
    replies: Seq<Reply>,
    n: int,
)
    requires
        0 <= n <= replies.len(),
        made_primary(zero_dpu_after(facts, replies)) is Some,
    ensures
        facts.declared_primary is Some ==> made_primary(zero_dpu_after(facts, replies))
            == facts.declared_primary,
        made_primary(zero_dpu_after(facts, replies.subrange(0, n))) is Some ==> made_primary(
            zero_dpu_after(facts, replies.subrange(0, n)),
        ) == made_primary(zero_dpu_after(facts, replies)),
{
    zero_dpu_invariant_holds(facts, replies);
    zero_dpu_invariant_holds(facts, replies.subrange(0, n));
    if made_primary(zero_dpu_after(facts, replies.subrange(0, n))) is Some {
        settled_primary_stays(facts, replies, n);
    }
}

/// The creation of a machine without DPUs adopts only interfaces that belong to nobody.
pub proof fn only_unowned_interfaces_are_adopted(facts: HostFacts, replies: Seq<Reply>)
    requires
        replies.len() > 0,
        zero_dpu_after(facts, replies.drop_last()) is Ask,
        zero_dpu_after(facts, replies) is Ask,
        zero_dpu_after(facts, replies)->Ask_1 is AssociateWithMachine,
    ensures
        match zero_dpu_after(facts, replies.drop_last())->Ask_0 {
            ZeroDpuStep::Capturing { row, .. } => row.machine_id is None,
            ZeroDpuStep::Demoting { row, .. } => row.machine_id is None,
            _ => false,
        },
{
    zero_dpu_invariant_holds(facts, replies.drop_last());
    if let ZeroDpuStep::WritingTopology { update, .. } = zero_dpu_after(
        facts,
        replies.drop_last(),
    )->Ask_0 {
        topology_asks_no_flags(update, replies.last());
    }
}

/// The creation of a host's machines as it can come about: the host has its machine from the
/// start if it has no DPUs, and otherwise from its first DPU on.
pub open spec fn creation_is_valid(context: CreationContext, step: CreationStep) -> bool {
    &&& context.dpu_ids@.len() == context.host.dpus@.len()
    &&& match step {
        CreationStep::LookingUpHosts { known_host } => known_host is Some
            <==> context.dpu_ids@.len() == 0,
        CreationStep::CreatingZeroDpu { .. } => context.dpu_ids@.len() == 0,
        CreationStep::SettingUpExisting { position, .. } => position < context.dpu_ids@.len(),
        CreationStep::CreatingDpu { known_host, position, .. } => position
            < context.dpu_ids@.len() && (known_host is Some <==> position > 0),
        CreationStep::AttachingDpu { known_host, position, .. } => position
            < context.dpu_ids@.len() && (known_host is Some <==> position > 0),
        CreationStep::ConfiguringDpu { position, .. } => position < context.dpu_ids@.len(),
        _ => true,
    }
}

proof fn set_up_stays_valid(context: CreationContext, host: MachineId, position: int)
    requires
        context.dpu_ids@.len() == context.host.dpus@.len(),
        0 <= position,
    ensures
        creation_set_up(context, host, position) matches Progress::Ask(step, _)
            ==> creation_is_valid(context, step),
        creation_set_up(context, host, position) != Progress::<CreationStep, bool>::Failed(
            IngestionError::HostIdMissing,
        ),
    decreases context.host.dpus@.len() - position,
{
    if 0 <= position < context.host.dpus@.len() && position < context.dpu_ids@.len() {
        assert(context.dpu_ids@.len() == context.dpu_ids.len());
        if dpu_interface_start(
            context.host.dpus@[position],
            context.dpu_ids@[position],
        ) is Finished {
            set_up_stays_valid(context, host, position + 1);
        }
    }
}

/// A creation that starts stays as it can come about, and never lacks the host's machine id
/// when it needs one. So the first DPU's interface, and no other's, is attached while the
/// host has no machine.
pub proof fn creation_stays_valid(
    context: CreationContext,
    step: CreationStep,
    reply: Reply,
    progress: Progress<CreationStep, bool>,
)
    requires
        creation_is_valid(context, step),
        step.next(context, reply, progress),
    ensures
        progress matches Progress::Ask(next, _) ==> creation_is_valid(context, next),
        progress != Progress::<CreationStep, bool>::Failed(IngestionError::HostIdMissing),
{
    assert(context.dpu_ids@.len() == context.dpu_ids.len());
    match step {
        CreationStep::CreatingZeroDpu { step } => zero_dpu_never_lacks_a_host(
            step,
            context.facts,
            reply,
        ),
        CreationStep::LookingUpHosts { .. } => {
            if let Reply::HostsByDpu(existing) = reply {
                set_up_stays_valid(context, existing@[0].1, 0);
            }
        },
        CreationStep::SettingUpExisting { host, position, .. } => {
            set_up_stays_valid(context, host, position + 1);
        },
        _ => {},
    }
}

proof fn zero_dpu_never_lacks_a_host(step: ZeroDpuStep, facts: HostFacts, reply: Reply)
    ensures
        step.next(facts, reply) != Progress::<ZeroDpuStep, Option<MachineId>>::Failed(
            IngestionError::HostIdMissing,
        ),
{
}

/// A creation starts as it can come about.
pub proof fn creation_starts_valid(
    creator: MachineCreator,
    credentials: Option<UsernamePassword>,
    stage: LockStage,
    context: CreationContext,
)
    requires
        context_of(creator, credentials, stage, context),
    ensures
        creation_start(context) matches Progress::Ask(step, _) ==> creation_is_valid(
            context,
            step,
        ),
{
    every_valid_dpu_has_an_id(stage.host.dpus@);
}

proof fn every_valid_dpu_has_an_id(dpus: Seq<ExploredDpu>)
    ensures
        valid_dpu_ids(dpus) matches Ok(ids) ==> ids.len() == dpus.len(),
    decreases dpus.len(),
{
    if dpus.len() > 0 {
        every_valid_dpu_has_an_id(dpus.drop_last());
    }
}

/// Among the DPUs of a host, the interface of the first becomes the host's primary one, with
/// which the host's machine is created, and those of the others become secondary ones.
pub proof fn first_dpu_is_primary(
    context: CreationContext,
    step: CreationStep,
    reply: Reply,
    progress: Progress<CreationStep, bool>,
)
    requires
        creation_is_valid(context, step),
        step is AttachingDpu,
        step->attachment is Reloading,
        step.next(context, reply, progress),
        progress is Ask,
    ensures
        step->AttachingDpu_position == 0 ==> progress->Ask_1 is CreateMachine,
        step->AttachingDpu_position > 0 ==> progress->Ask_1 is SetPrimaryInterface
            && !progress->Ask_1->primary,
{
}

/// The host's machine that the creation of a machine without DPUs has asked for by this step.
spec fn zero_dpu_machine(step: ZeroDpuStep) -> Option<MachineId> {
    match step {
        ZeroDpuStep::CreatingMachine { machine_id } => Some(machine_id),
        ZeroDpuStep::WritingTopology { machine_id, .. } => Some(machine_id),
        ZeroDpuStep::FindingRetained { machine_id, .. } => Some(machine_id),
        _ => match owned_at(step) {
            Some(owner) => Some(owner.machine_id),
            None => None,
        },
    }
}

/// The host's machine that the attaching of a DPU has asked for, or was given, by this step.
spec fn attach_machine(step: AttachStep, known_host: Option<MachineId>) -> Option<MachineId> {
    match step {
        AttachStep::SettingSecondary { host_machine_id, .. } => Some(host_machine_id),
        AttachStep::CreatingHost { host_machine_id, .. } => Some(host_machine_id),
        AttachStep::WritingTopology { host_machine_id, .. } => Some(host_machine_id),
        AttachStep::SettingPrimary { host_machine_id, .. } => Some(host_machine_id),
        AttachStep::Associating { host_machine_id } => Some(host_machine_id),
        _ => known_host,
    }
}

/// The host's machine that a creation has asked for by this step, where the step knows it.
spec fn host_machine(step: CreationStep) -> Option<MachineId> {
    match step {
        CreationStep::CreatingZeroDpu { step } => zero_dpu_machine(step),
        CreationStep::LookingUpHosts { known_host } => known_host,
        CreationStep::CreatingDpu { known_host, .. } => known_host,
        CreationStep::AttachingDpu { known_host, attachment, .. } => attach_machine(
            attachment,
            known_host,
        ),
        CreationStep::ConfiguringDpu { host, .. } => Some(host),
        CreationStep::WritingState { host } => Some(host),
        CreationStep::EnsuringRack { host } => Some(host),
        CreationStep::OwningBootNic { host, .. } => Some(host),
        CreationStep::Reconciling { host, .. } => Some(host),
        CreationStep::FindingProfile { host, .. } => Some(host),
        CreationStep::Committing { host, .. } => Some(host),
        CreationStep::FetchingSlot { host } => Some(host),
        CreationStep::BeginningUpdate { host, .. } => Some(host),
        _ => None,
    }
}

/// Whether a creation has asked for no machine by this step.
spec fn asked_for_none(step: CreationStep) -> bool {
    match step {
        CreationStep::CreatingZeroDpu { step } => zero_dpu_machine(step) is None,
        CreationStep::LookingUpHosts { known_host } => known_host is None,
        CreationStep::SettingUpExisting { .. } => true,
        CreationStep::ReconcilingExisting { .. } => true,
        CreationStep::CommittingExisting => true,
        _ => false,
    }
}

/// Whether a creation has put the host into discovery by this step.
spec fn in_discovery(step: CreationStep) -> bool {
    match step {
        CreationStep::WritingState { .. } => true,
        CreationStep::EnsuringRack { .. } => true,
        CreationStep::OwningBootNic { .. } => true,
        CreationStep::Reconciling { .. } => true,
        CreationStep::FindingProfile { .. } => true,
        CreationStep::Committing { .. } => true,
        CreationStep::FetchingSlot { .. } => true,
        CreationStep::BeginningUpdate { .. } => true,
        CreationStep::WritingSlot => true,
        CreationStep::CommittingSlot => true,
        _ => false,
    }
}

/// The request to create the host's machine.
pub open spec fn creates_host(machine_id: MachineId) -> Request {
    Request::CreateMachine { machine_id, with_declaration: true }
}

proof fn zero_dpu_asks_for_its_machine(step: ZeroDpuStep, facts: HostFacts, reply: Reply)
    ensures
        match step.next(facts, reply) {
            Progress::Ask(next, request) => match zero_dpu_machine(next) {
                Some(machine) => zero_dpu_machine(step) == Some(machine) || request
                    == creates_host(machine),
                None => zero_dpu_machine(step) is None && !(request is CreateMachine),
            },
            Progress::Finished(machine) => zero_dpu_machine(step) == machine,
            Progress::Failed(_) => true,
        },
{
}

proof fn attaching_asks_for_the_host(
    step: AttachStep,
    dpu: ExploredDpu,
    dpu_machine_id: MachineId,
    known_host: Option<MachineId>,
    reply: Reply,
)
    ensures
        match step.next(dpu, dpu_machine_id, known_host, reply) {
            Progress::Ask(next, request) => match attach_machine(next, known_host) {
                Some(machine) => attach_machine(step, known_host) == Some(machine) || request
                    == creates_host(machine),
                None => true,
            },
            Progress::Finished(machine) => attach_machine(step, known_host) == Some(machine),
            Progress::Failed(_) => true,
        },
{
}

proof fn set_up_asks_for_none(context: CreationContext, host: MachineId, position: int)
    ensures
        creation_set_up(context, host, position) matches Progress::Ask(step, request)
            ==> asked_for_none(step) && !in_discovery(step) && host_machine(step) is None && !(
        request is CreateMachine),
    decreases context.host.dpus@.len() - position,
{
    if 0 <= position < context.host.dpus@.len() && position < context.dpu_ids@.len() {
        if dpu_interface_start(
            context.host.dpus@[position],
            context.dpu_ids@[position],
        ) is Finished {
            set_up_asks_for_none(context, host, position + 1);
        }
    }
}

/// What one request of a creation adds to those before it.
proof fn creation_step_asks(
    step: CreationStep,
    context: CreationContext,
    reply: Reply,
    next: CreationStep,
    request: Request,
)
    requires
        creation_is_valid(context, step),
        step.next(context, reply, Progress::Ask(next, request)),
    ensures
        host_machine(next) is Some ==> host_machine(step) == host_machine(next) || request
            == creates_host(host_machine(next)->0),
        asked_for_none(next) ==> asked_for_none(step) && !(request is CreateMachine),
        in_discovery(next) && !in_discovery(step) ==> host_machine(next) is Some && request == (
        Request::WriteDiscoveringState { machine_id: host_machine(next)->0 }),
        in_discovery(next) && in_discovery(step) && host_machine(next) is Some
            ==> host_machine(step) == host_machine(next),
{
    match step {
        CreationStep::CreatingZeroDpu { step } => zero_dpu_asks_for_its_machine(
            step,
            context.facts,
            reply,
        ),
        CreationStep::LookingUpHosts { known_host } => {
            if let Reply::HostsByDpu(existing) = reply {
                set_up_asks_for_none(context, existing@[0].1, 0);
                if known_host is Some && existing@.len() > 0 && same_dpus(
                    existing@,
                    context.dpu_ids@,
                ) {
                    assert(among(context.dpu_ids@, existing@[0].0));
                }
            }
        },
        CreationStep::SettingUpExisting { host, position, setup } => {
            creating_is_not_setting_up(setup, reply);
            set_up_asks_for_none(context, host, position + 1);
        },
        CreationStep::AttachingDpu { known_host, position, attachment, .. } => {
            attaching_asks_for_the_host(
                attachment,
                context.host.dpus@[position as int],
                context.dpu_ids@[position as int],
                known_host,
                reply,
            );
        },
        _ => {},
    }
}

proof fn creating_is_not_setting_up(setup: DpuInterfaceSetup, reply: Reply)
    ensures
        setup.next(reply) matches Progress::Ask(_, request) ==> !(request is CreateMachine),
{
}

proof fn creation_finishes_as_asked(
    step: CreationStep,
    context: CreationContext,
    reply: Reply,
    created: bool,
)
    requires
        step.next(context, reply, Progress::Finished(created)),
    ensures
        created ==> in_discovery(step),
        !created ==> asked_for_none(step),
{
    match step {
        CreationStep::CreatingZeroDpu { step } => zero_dpu_asks_for_its_machine(
            step,
            context.facts,
            reply,
        ),
        CreationStep::LookingUpHosts { .. } => {
            if let Reply::HostsByDpu(existing) = reply {
                set_up_does_not_finish(context, existing@[0].1, 0);
            }
        },
        CreationStep::SettingUpExisting { host, position, .. } => {
            set_up_does_not_finish(context, host, position + 1);
        },
        _ => {},
    }
}

/// Whether a run has asked by step `k` to create the host's machine under this id.
pub open spec fn host_asked_for(
    run: Seq<(Ingestion, Request)>,
    k: int,
    machine_id: MachineId,
) -> bool {
    exists|a: int| 0 <= a <= k && (#[trigger] run[a]).1 == creates_host(machine_id)
}

/// Whether a request of an ingestion puts the host under this id into discovery, where the
/// states that go with it are the first ones of exactly the host's DPUs.
pub open spec fn starts_discovery(
    host: ExploredManagedHost,
    now: (Ingestion, Request),
    machine_id: MachineId,
) -> bool {
    &&& now.1 == (Request::WriteDiscoveringState { machine_id })
    &&& valid_dpu_ids(host.dpus@) is Ok
    &&& list_of(now.0, now.1) == ListView::DiscoveringStates(
        first_discovery_states(valid_dpu_ids(host.dpus@)->Ok_0),
    )
}

/// Whether a run has asked by step `k` to put the host under this id into discovery.
pub open spec fn discovery_asked_for(
    host: ExploredManagedHost,
    run: Seq<(Ingestion, Request)>,
    k: int,
    machine_id: MachineId,
) -> bool {
    exists|a: int| 0 <= a <= k && starts_discovery(host, #[trigger] run[a], machine_id)
}

/// Whether a run has asked for no machine by step `k`.
pub open spec fn no_machine_asked_for(run: Seq<(Ingestion, Request)>, k: int) -> bool {
    forall|a: int| 0 <= a <= k ==> !((#[trigger] run[a]).1 is CreateMachine)
}

/// A machine that has been asked for as the host's and put into discovery by step `k`.
spec fn host_created(
    host: ExploredManagedHost,
    run: Seq<(Ingestion, Request)>,
    k: int,
    machine_id: MachineId,
) -> bool {
    host_asked_for(run, k, machine_id) && discovery_asked_for(host, run, k, machine_id)
}

/// What a run has asked for by step `k`, by how far the ingestion has come.
spec fn asked_so_far(host: ExploredManagedHost, run: Seq<(Ingestion, Request)>, k: int) -> bool {
    match run[k].0 {
        Ingestion::Creating { context, step } => {
            &&& creation_is_valid(context, step)
            &&& context.host == host
            &&& valid_dpu_ids(host.dpus@) == Ok::<Seq<MachineId>, String>(context.dpu_ids@)
            &&& host_machine(step) matches Some(machine) ==> host_asked_for(run, k, machine)
            &&& asked_for_none(step) ==> no_machine_asked_for(run, k)
            &&& in_discovery(step) ==> match host_machine(step) {
                Some(machine) => host_created(host, run, k, machine),
                None => exists|machine: MachineId| host_created(host, run, k, machine),
            }
        },
        _ => no_machine_asked_for(run, k),
    }
}

proof fn asked_stays_asked(
    host: ExploredManagedHost,
    run: Seq<(Ingestion, Request)>,
    k: int,
    machine_id: MachineId,
)
    ensures
        host_asked_for(run, k, machine_id) ==> host_asked_for(run, k + 1, machine_id),
        discovery_asked_for(host, run, k, machine_id) ==> discovery_asked_for(
            host,
            run,
            k + 1,
            machine_id,
        ),
{
    if host_asked_for(run, k, machine_id) {
        let a = choose|a: int| 0 <= a <= k && (#[trigger] run[a]).1 == creates_host(machine_id);
        assert(run[a].1 == creates_host(machine_id));
    }
    if discovery_asked_for(host, run, k, machine_id) {
        let a = choose|a: int| 0 <= a <= k && starts_discovery(host, #[trigger] run[a], machine_id);
        assert(starts_discovery(host, run[a], machine_id));
    }
}

proof fn run_asks(
    expected: ExpectedMachine,
    host: ExploredManagedHost,
    report: EndpointExplorationReport,
    creator: MachineCreator,
    run: Seq<(Ingestion, Request)>,
    k: int,
)
    requires
        is_run(Some(expected), host, report, creator, run),
        0 <= k < run.len(),
    ensures
        asked_so_far(host, run, k),
    decreases k,
{
    run_invariant(Some(expected), host, report, creator, run, k);
    run_keeps_subject(expected, host, report, creator, run, k);
    if k > 0 {
        run_asks(expected, host, report, creator, run, k - 1);
        assert(follows(run[k - 1], run[k]));
        let reply = choose|reply: Reply| #[trigger]
            ingestion_next(run[k - 1].0, reply, Progress::Ask(run[k].0, run[k].1));
        let progress = Progress::<Ingestion, bool>::Ask(run[k].0, run[k].1);
        match run[k - 1].0 {
            Ingestion::Creating { context, step } => {
                let creating = choose|creating: Progress<CreationStep, bool>|
                    {
                        &&& #[trigger] step.next(context, reply, creating)
                        &&& progress == ingestion_creates(context, creating)
                    };
                let next = creating->Ask_0;
                let request = run[k].1;
                assert(creating == Progress::<CreationStep, bool>::Ask(next, request));
                creation_stays_valid(context, step, reply, creating);
                creation_step_asks(step, context, reply, next, request);
                if let Some(machine) = host_machine(next) {
                    asked_stays_asked(host, run, k - 1, machine);
                    assert(request == creates_host(machine) ==> run[k].1 == creates_host(machine));
                    if in_discovery(next) && !in_discovery(step) {
                        assert(starts_discovery(host, run[k], machine));
                    }
                }
                if in_discovery(next) && in_discovery(step) {
                    let before = k - 1;
                    let machine = match host_machine(step) {
                        Some(machine) => machine,
                        None => choose|machine: MachineId| host_created(host, run, before, machine),
                    };
                    assert(host_created(host, run, before, machine));
                    asked_stays_asked(host, run, k - 1, machine);
                    assert(host_created(host, run, k, machine));
                }
            },
            Ingestion::Locking { creator, credentials, stage } => {
                let locking = choose|locking: Progress<LockStage, LockStage>|
                    {
                        &&& #[trigger] lock_next(stage@, reply, locking)
                        &&& ingestion_locks(creator, credentials, locking, progress)
                    };
                if let Progress::Finished(locked) = locking {
                    let context = choose|context: CreationContext|
                        {
                            &&& #[trigger] context_of(creator, credentials, locked, context)
                            &&& progress == ingestion_creates(context, creation_start(context))
                        };
                    creation_starts_valid(creator, credentials, locked, context);
                }
            },
            _ => {},
        }
    }
}

/// Whether a run ends with this result after its requests.
pub open spec fn ends_with(
    expected: Option<ExpectedMachine>,
    host: ExploredManagedHost,
    report: EndpointExplorationReport,
    creator: MachineCreator,
    run: Seq<(Ingestion, Request)>,
    created: bool,
) -> bool {
    if run.len() == 0 {
        ingestion_start(expected, host, report, creator) == Progress::<Ingestion, bool>::Finished(
            created,
        )
    } else {
        exists|reply: Reply| #[trigger]
            ingestion_next(run.last().0, reply, Progress::Finished(created))
    }
}

/// The result of an ingestion says whether machines were created. One that ends with `true` has
/// asked to create the host's machine and to put this machine into discovery, with every DPU of
/// the host, and no other, initializing. One that ends with `false` has asked for no machine.
pub proof fn result_says_whether_machines_were_created(
    expected: Option<ExpectedMachine>,
    host: ExploredManagedHost,
    report: EndpointExplorationReport,
    creator: MachineCreator,
    run: Seq<(Ingestion, Request)>,
    created: bool,
)
    requires
        is_run(expected, host, report, creator, run),
        ends_with(expected, host, report, creator, run, created),
    ensures
        created ==> exists|machine_id: MachineId|
            {
                &&& #[trigger] host_asked_for(run, run.len() - 1, machine_id)
                &&& discovery_asked_for(host, run, run.len() - 1, machine_id)
            },
        !created ==> no_machine_asked_for(run, run.len() - 1),
{
    if run.len() > 0 {
        let last = run.len() - 1;
        run_asks(expected->0, host, report, creator, run, last);
        let progress = Progress::<Ingestion, bool>::Finished(created);
        let reply = choose|reply: Reply| #[trigger]
            ingestion_next(run.last().0, reply, Progress::Finished(created));
        match run[last].0 {
            Ingestion::Creating { context, step } => {
                let creating = choose|creating: Progress<CreationStep, bool>|
                    {
                        &&& #[trigger] step.next(context, reply, creating)
                        &&& progress == ingestion_creates(context, creating)
                    };
                creation_finishes_as_asked(step, context, reply, created);
                if created {
                    let machine = match host_machine(step) {
                        Some(machine) => machine,
                        None => choose|machine: MachineId| host_created(host, run, last, machine),
                    };
                    assert(host_created(host, run, last, machine));
                }
            },
            _ => {
                if created {
                    machines_are_reported_after_commit(
                        expected,
                        host,
                        report,
                        creator,
                        run,
                        reply,
                    );
                    run_invariant(expected, host, report, creator, run, last);
                }
            },
        }
    }
}

/// Whether a run has asked by step `k` to lock the segments of these lock inputs, which bring
/// together all that had been found out by then.
pub open spec fn segments_locked_by(
    run: Seq<(Ingestion, Request)>,
    k: int,
    locks: ManagedHostIngestionLockInputs,
) -> bool {
    exists|b: int|
        {
            &&& 0 <= b <= k
            &&& (#[trigger] run[b]).1 is LockSegments
            &&& run[b].0 is Locking
            &&& run[b].0->stage.locks == locks
            &&& lock_merged(run[b].0->stage@)
        }
}

/// The lists that an ingestion holds at step `k` of a run are complete by the time they are
/// needed.
spec fn lists_are_complete(run: Seq<(Ingestion, Request)>, k: int) -> bool {
    match run[k].0 {
        Ingestion::Locking { stage, .. } => match stage.step {
            LockStep::LockingMacs => lock_macs(stage@),
            LockStep::LockingSegments | LockStep::LockingFixedAddresses | LockStep::Revalidating {
                ..
            } => lock_merged(stage@) && segments_locked_by(run, k, stage.locks),
            _ => true,
        },
        Ingestion::Creating { context, .. } => segments_locked_by(run, k, context.locks),
        _ => true,
    }
}

proof fn segments_stay_locked(
    run: Seq<(Ingestion, Request)>,
    k: int,
    locks: ManagedHostIngestionLockInputs,
)
    requires
        segments_locked_by(run, k, locks),
    ensures
        segments_locked_by(run, k + 1, locks),
{
    let b = choose|b: int|
        {
            &&& 0 <= b <= k
            &&& (#[trigger] run[b]).1 is LockSegments
            &&& run[b].0 is Locking
            &&& run[b].0->stage.locks == locks
            &&& lock_merged(run[b].0->stage@)
        };
    assert(run[b].1 is LockSegments);
}

proof fn run_completes_lists(
    expected: Option<ExpectedMachine>,
    host: ExploredManagedHost,
    report: EndpointExplorationReport,
    creator: MachineCreator,
    run: Seq<(Ingestion, Request)>,
    k: int,
)
    requires
        is_run(expected, host, report, creator, run),
        0 <= k < run.len(),
    ensures
        lists_are_complete(run, k),
    decreases k,
{
    run_invariant(expected, host, report, creator, run, k);
    if k > 0 {
        run_completes_lists(expected, host, report, creator, run, k - 1);
        assert(follows(run[k - 1], run[k]));
        let reply = choose|reply: Reply| #[trigger]
            ingestion_next(run[k - 1].0, reply, Progress::Ask(run[k].0, run[k].1));
        let progress = Progress::<Ingestion, bool>::Ask(run[k].0, run[k].1);
        match run[k - 1].0 {
            Ingestion::Creating { context, .. } => {
                segments_stay_locked(run, k - 1, context.locks);
            },
            Ingestion::Locking { creator, credentials, stage } => {
                let locking = choose|locking: Progress<LockStage, LockStage>|
                    {
                        &&& #[trigger] lock_next(stage@, reply, locking)
                        &&& ingestion_locks(creator, credentials, locking, progress)
                    };
                if segments_locked_by(run, k - 1, stage.locks) {
                    segments_stay_locked(run, k - 1, stage.locks);
                }
                if let Progress::Ask(next, _) = locking {
                    assert(run[k].0->stage == next);
                    if next.step is LockingSegments {
                        assert(lock_merged(next@));
                        assert(run[k].1 is LockSegments);
                    }
                }
            },
            _ => {},
        }
    }
}

/// Every request of an ingestion goes with the list that it is about. The interface MAC addresses
/// that are locked are those of all interfaces involved. The segments and fixed addresses that
/// are locked bring together all that was found out of them. The hosts that are looked up are
/// those of exactly the host's DPUs, and the host's addresses are settled in the administrative
/// segments among what was locked.
pub proof fn requests_go_with_their_lists(
    expected: ExpectedMachine,
    host: ExploredManagedHost,
    report: EndpointExplorationReport,
    creator: MachineCreator,
    run: Seq<(Ingestion, Request)>,
    k: int,
)
    requires
        is_run(Some(expected), host, report, creator, run),
        0 <= k < run.len(),
    ensures
        run[k].1 is LockInterfaceMacs ==> {
            &&& run[k].0 is Locking
            &&& list_of(run[k].0, run[k].1) == ListView::Macs(run[k].0->stage@.interface_macs)
            &&& lock_macs(run[k].0->stage@)
        },
        run[k].1 is LockSegments ==> {
            &&& run[k].0 is Locking
            &&& list_of(run[k].0, run[k].1) == ListView::Segments(
                run[k].0->stage@.locks.segment_ids@,
            )
            &&& lock_merged(run[k].0->stage@)
        },
        run[k].1 is LockFixedAddresses ==> {
            &&& run[k].0 is Locking
            &&& list_of(run[k].0, run[k].1) == ListView::FixedAddresses(
                run[k].0->stage@.locks.fixed_allocations@,
            )
            &&& lock_merged(run[k].0->stage@)
        },
        run[k].1 is LookUpHostsByDpus ==> {
            &&& valid_dpu_ids(host.dpus@) is Ok
            &&& list_of(run[k].0, run[k].1) == ListView::Machines(valid_dpu_ids(host.dpus@)->Ok_0)
        },
        run[k].1 is ReconcileAdminAddresses ==> exists|locks: ManagedHostIngestionLockInputs|
            {
                &&& #[trigger] segments_locked_by(run, k, locks)
                &&& list_of(run[k].0, run[k].1) == ListView::Segments(locks.admin_segment_ids@)
            },
        run[k].1 is WriteDiscoveringState ==> {
            &&& valid_dpu_ids(host.dpus@) is Ok
            &&& list_of(run[k].0, run[k].1) == ListView::DiscoveringStates(
                first_discovery_states(valid_dpu_ids(host.dpus@)->Ok_0),
            )
        },
{
    run_invariant(Some(expected), host, report, creator, run, k);
    run_completes_lists(Some(expected), host, report, creator, run, k);
    run_asks(expected, host, report, creator, run, k);
}

} // verus!
