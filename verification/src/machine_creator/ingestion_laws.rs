//! What an ingestion works with from its start to its machines.
use vstd::prelude::*;

use crate::addresses::{MacAddress, MachineId};
use crate::expected_machine_data::ExpectedMachine;
use crate::exploration::{EndpointExplorationReport, ExploredDpu, ExploredManagedHost};
use crate::machine_creator::creation::{creation_start, CreationContext, CreationStep};
use crate::machine_creator::ingestion::{
    context_of, ingestion_creates, ingestion_locked, ingestion_locks, ingestion_next,
    ingestion_start, list_of, valid_dpu_ids, Ingestion, IngestionSubject, ListView, MachineCreator,
};
use crate::machine_creator::laws::creation_is_valid;
use crate::machine_creator::lock_stage::{lock_next, lock_starts, LockStage};
use crate::machine_creator::locks::ingestion_identity;
use crate::machine_creator::requests::{
    DeclaredMachine, DpuDiscoveringState, IngestionError, Progress, Reply, Request,
};
use crate::machine_creator::trace::{log_grows, told};
use crate::rms_node_type::UsernamePassword;

verus! {

/// An ingestion starts for a declared host. It reads the declared BMC's credentials exactly if the
/// host is declared to be in a rack and there is a rack manager; otherwise it begins at once.
pub proof fn credentials_are_read_for_the_rack_manager_only(
    expected: Option<ExpectedMachine>,
    host: ExploredManagedHost,
    report: EndpointExplorationReport,
    creator: MachineCreator,
)
    ensures
        expected is None <==> ingestion_start(expected, host, report, creator) is Finished,
        expected is None ==> ingestion_start(expected, host, report, creator) == Progress::<
            Ingestion,
            bool,
        >::Finished(false),
        expected matches Some(machine) ==> (ingestion_start(
            expected,
            host,
            report,
            creator,
        ) matches Progress::Ask(_, request) && if machine.data.rack_id is Some && creator.has_rms {
            request == Request::GetBmcCredentials { bmc_mac_address: machine.bmc_mac_address }
        } else {
            request is BeginTransaction
        }),
{
}

/// The DPUs have machine ids exactly if each one's report is valid: each id is that of the DPU at
/// its place. Otherwise the failure is that of the first DPU whose report is not valid.
pub proof fn dpu_ids_are_those_of_the_reports(dpus: Seq<ExploredDpu>)
    ensures
        valid_dpu_ids(dpus) is Ok <==> forall|i: int|
            0 <= i < dpus.len() ==> (#[trigger] dpus[i]).machine_id is Ok,
        valid_dpu_ids(dpus) matches Ok(ids) ==> ids.len() == dpus.len() && forall|i: int|
            0 <= i < dpus.len() ==> (#[trigger] dpus[i]).machine_id == Ok::<MachineId, String>(
                ids[i],
            ),
        valid_dpu_ids(dpus) matches Err(text) ==> exists|i: int|
            {
                &&& 0 <= i < dpus.len()
                &&& (#[trigger] dpus[i]).machine_id == Err::<MachineId, String>(text)
                &&& forall|j: int| 0 <= j < i ==> (#[trigger] dpus[j]).machine_id is Ok
            },
    decreases dpus.len(),
{
    if dpus.len() > 0 {
        let before = dpus.drop_last();
        let last = dpus.len() - 1;
        dpu_ids_are_those_of_the_reports(before);
        match valid_dpu_ids(before) {
            Ok(ids) => {
                assert forall|i: int| 0 <= i < last implies (#[trigger] dpus[i]).machine_id == Ok::<
                    MachineId,
                    String,
                >(ids[i]) by {
                    assert(dpus[i] == before[i]);
                }
                assert(dpus[last] == dpus.last());
            },
            Err(text) => {
                let i = choose|i: int|
                    {
                        &&& 0 <= i < before.len()
                        &&& (#[trigger] before[i]).machine_id == Err::<MachineId, String>(text)
                        &&& forall|j: int|
                            0 <= j < i ==> (#[trigger] before[j]).machine_id is Ok
                    };
                assert(dpus[i] == before[i]);
                assert forall|j: int| 0 <= j < i implies (
                #[trigger] dpus[j]).machine_id is Ok by {
                    assert(dpus[j] == before[j]);
                }
            },
        }
    }
}

/// Under the lock of its row, a declaration that is gone, or that has another id, BMC or place in
/// racks than at the start, ends the ingestion.
pub proof fn changed_declarations_end_the_ingestion(
    expected: ExpectedMachine,
    subject: IngestionSubject,
    credentials: Option<UsernamePassword>,
    declared: Option<DeclaredMachine>,
    progress: Progress<Ingestion, bool>,
)
    requires
        subject.identity == ingestion_identity(expected),
        ingestion_next(
            (Ingestion::FindingExpected { subject, credentials }),
            Reply::ExpectedMachine(declared),
            progress,
        ),
    ensures
        declared is None ==> progress == Progress::<Ingestion, bool>::Failed(
            IngestionError::ExpectedMachineChanged,
        ),
        declared matches Some(now) ==> (progress == Progress::<Ingestion, bool>::Failed(
            IngestionError::ExpectedMachineIdentityChanged,
        ) <==> now.machine.id != expected.id || now.machine.bmc_mac_address
            != expected.bmc_mac_address || (now.machine.data.rack_id is Some)
            != (expected.data.rack_id is Some)),
{
}

/// Whether an ingestion can come to this point: `log` holds its requests with their replies, in
/// order, and `states` where it stood when it made them.
pub open spec fn ingestion_reaches(
    expected: ExpectedMachine,
    host: ExploredManagedHost,
    report: EndpointExplorationReport,
    creator: MachineCreator,
    states: Seq<Ingestion>,
    log: Seq<(Request, Reply)>,
    progress: Progress<Ingestion, bool>,
) -> bool
    decreases log.len(),
{
    &&& states.len() == log.len()
    &&& if log.len() == 0 {
        progress == ingestion_start(Some(expected), host, report, creator)
    } else {
        &&& ingestion_reaches(
            expected,
            host,
            report,
            creator,
            states.drop_last(),
            log.drop_last(),
            Progress::Ask(states.last(), log.last().0),
        )
        &&& ingestion_next(states.last(), log.last().1, progress)
    }
}

/// Whether the credentials are what the vault gave for the BMC; none are used where it was not
/// asked or could not answer.
pub open spec fn credentials_are_told(
    log: Seq<(Request, Reply)>,
    bmc_mac_address: MacAddress,
    credentials: Option<UsernamePassword>,
) -> bool {
    ||| told(
        log,
        Request::GetBmcCredentials { bmc_mac_address },
        Reply::Credentials(credentials),
    )
    ||| credentials is None
}

/// Whether this is the declaration as it was found, by id and BMC, with its row locked, and its id,
/// its BMC and whether it names a rack are as they were at the start.
pub open spec fn declaration_is_told(
    log: Seq<(Request, Reply)>,
    expected: ExpectedMachine,
    declared: DeclaredMachine,
) -> bool {
    &&& told(
        log,
        Request::FindExpectedMachineForUpdate {
            id: expected.id,
            bmc_mac_address: expected.bmc_mac_address,
        },
        Reply::ExpectedMachine(Some(declared)),
    )
    &&& declared.machine.id == expected.id
    &&& declared.machine.bmc_mac_address == expected.bmc_mac_address
    &&& declared.machine.data.rack_id is Some <==> expected.data.rack_id is Some
}

/// Whether a creation works with this declaration, and with the host, the report and the site that
/// the ingestion was started for.
pub open spec fn context_is_of(
    host: ExploredManagedHost,
    report: EndpointExplorationReport,
    creator: MachineCreator,
    declared: DeclaredMachine,
    context: CreationContext,
) -> bool {
    &&& context.machine == declared.machine
    &&& context.host == host
    &&& context.has_rms == creator.has_rms
    &&& context.allocate_secondary_vtep_ip == creator.allocate_secondary_vtep_ip
    &&& context.facts.interface_ids == report.interface_ids
    &&& context.facts.host_nics@ == declared.machine.data.host_nics@
    &&& context.facts.declared_primary == declared.declared_primary
    &&& context.facts.machine_id is None
    &&& context.dpu_ids@.len() == host.dpus@.len()
    &&& forall|i: int|
        0 <= i < host.dpus@.len() ==> (#[trigger] host.dpus@[i]).machine_id == Ok::<
            MachineId,
            String,
        >(context.dpu_ids@[i])
}

/// Whether there is such a declaration.
pub open spec fn context_is_told(
    log: Seq<(Request, Reply)>,
    expected: ExpectedMachine,
    host: ExploredManagedHost,
    report: EndpointExplorationReport,
    creator: MachineCreator,
    context: CreationContext,
) -> bool {
    exists|declared: DeclaredMachine|
        {
            &&& #[trigger] declaration_is_told(log, expected, declared)
            &&& context_is_of(host, report, creator, declared, context)
        }
}

spec fn subject_is(
    expected: ExpectedMachine,
    host: ExploredManagedHost,
    report: EndpointExplorationReport,
    creator: MachineCreator,
    subject: IngestionSubject,
) -> bool {
    &&& subject.creator == creator
    &&& subject.host == host
    &&& subject.report == report
    &&& subject.identity == ingestion_identity(expected)
}

spec fn state_stands(
    expected: ExpectedMachine,
    host: ExploredManagedHost,
    report: EndpointExplorationReport,
    given: MachineCreator,
    log: Seq<(Request, Reply)>,
    ingestion: Ingestion,
    request: Request,
) -> bool {
    match ingestion {
        Ingestion::GettingCredentials { subject } => {
            &&& subject_is(expected, host, report, given, subject)
            &&& request == Request::GetBmcCredentials {
                bmc_mac_address: expected.bmc_mac_address,
            }
        },
        Ingestion::Beginning { subject, credentials } => {
            &&& subject_is(expected, host, report, given, subject)
            &&& credentials_are_told(log, expected.bmc_mac_address, credentials)
            &&& request is BeginTransaction
        },
        Ingestion::FindingExpected { subject, credentials } => {
            &&& subject_is(expected, host, report, given, subject)
            &&& credentials_are_told(log, expected.bmc_mac_address, credentials)
            &&& request == Request::FindExpectedMachineForUpdate {
                id: expected.id,
                bmc_mac_address: expected.bmc_mac_address,
            }
            &&& told(log, Request::BeginTransaction, Reply::Done)
        },
        Ingestion::Locking { creator, credentials, stage } => {
            &&& creator == given
            &&& credentials_are_told(log, expected.bmc_mac_address, credentials)
            &&& declaration_is_told(log, expected, stage.declared)
            &&& stage.host == host
            &&& stage.report == report
        },
        Ingestion::Creating { context, step } => {
            &&& credentials_are_told(log, expected.bmc_mac_address, context.credentials)
            &&& context_is_told(log, expected, host, report, given, context)
        },
    }
}

proof fn locked_stands(
    expected: ExpectedMachine,
    host: ExploredManagedHost,
    report: EndpointExplorationReport,
    creator: MachineCreator,
    log: Seq<(Request, Reply)>,
    credentials: Option<UsernamePassword>,
    locking: Progress<LockStage, LockStage>,
    progress: Progress<Ingestion, bool>,
)
    requires
        ingestion_locks(creator, credentials, locking, progress),
        credentials_are_told(log, expected.bmc_mac_address, credentials),
        locking matches Progress::Ask(stage, _) ==> declaration_is_told(
            log,
            expected,
            stage.declared,
        ) && stage.host == host && stage.report == report,
        locking matches Progress::Finished(stage) ==> declaration_is_told(
            log,
            expected,
            stage.declared,
        ) && stage.host == host && stage.report == report,
    ensures
        progress matches Progress::Ask(ingestion, request) ==> state_stands(
            expected,
            host,
            report,
            creator,
            log,
            ingestion,
            request,
        ),
{
    if let Progress::Finished(stage) = locking {
        dpu_ids_are_those_of_the_reports(stage.host.dpus@);
        if valid_dpu_ids(stage.host.dpus@) is Ok {
            let context = choose|context: CreationContext|
                {
                    &&& #[trigger] context_of(creator, credentials, stage, context)
                    &&& progress == ingestion_creates(context, creation_start(context))
                };
            assert(declaration_is_told(log, expected, stage.declared));
            assert(context_is_of(host, report, creator, stage.declared, context));
        }
    }
}

proof fn state_always_stands(
    expected: ExpectedMachine,
    host: ExploredManagedHost,
    report: EndpointExplorationReport,
    creator: MachineCreator,
    states: Seq<Ingestion>,
    log: Seq<(Request, Reply)>,
    progress: Progress<Ingestion, bool>,
)
    requires
        ingestion_reaches(expected, host, report, creator, states, log, progress),
    ensures
        progress matches Progress::Ask(ingestion, request) ==> state_stands(
            expected,
            host,
            report,
            creator,
            log,
            ingestion,
            request,
        ),
    decreases log.len(),
{
    if log.len() > 0 {
        let state = states.last();
        let reply = log.last().1;
        let before = log.drop_last();
        state_always_stands(
            expected,
            host,
            report,
            creator,
            states.drop_last(),
            before,
            Progress::Ask(state, log.last().0),
        );
        log_grows(log);
        match state {
            Ingestion::FindingExpected { subject, credentials } => {
                if let Reply::ExpectedMachine(Some(declared)) = reply {
                    if subject.identity == ingestion_identity(declared.machine) {
                        let locking = choose|locking: Progress<LockStage, LockStage>|
                            {
                                &&& #[trigger] lock_starts(
                                    declared,
                                    subject.host,
                                    subject.report,
                                    locking,
                                )
                                &&& ingestion_locks(
                                    subject.creator,
                                    credentials,
                                    locking,
                                    progress,
                                )
                            };
                        assert(declaration_is_told(log, expected, declared));
                        locked_stands(
                            expected,
                            host,
                            report,
                            creator,
                            log,
                            credentials,
                            locking,
                            progress,
                        );
                    }
                }
            },
            Ingestion::Locking { creator: given, credentials, stage } => {
                let locking = choose|locking: Progress<LockStage, LockStage>|
                    {
                        &&& #[trigger] lock_next(stage@, reply, locking)
                        &&& ingestion_locks(given, credentials, locking, progress)
                    };
                lock_keeps_its_subject(stage, reply, locking);
                assert(declaration_is_told(log, expected, stage.declared));
                locked_stands(
                    expected,
                    host,
                    report,
                    creator,
                    log,
                    credentials,
                    locking,
                    progress,
                );
            },
            Ingestion::Creating { context, .. } => {
                let declared = choose|declared: DeclaredMachine|
                    {
                        &&& #[trigger] declaration_is_told(before, expected, declared)
                        &&& context_is_of(host, report, creator, declared, context)
                    };
                assert(declaration_is_told(log, expected, declared));
            },
            _ => {},
        }
    }
}

proof fn lock_keeps_its_subject(
    stage: LockStage,
    reply: Reply,
    progress: Progress<LockStage, LockStage>,
)
    requires
        lock_next(stage@, reply, progress),
    ensures
        progress matches Progress::Ask(next, _) ==> next.declared == stage.declared && next.host
            == stage.host && next.report == stage.report,
        progress matches Progress::Finished(next) ==> next.declared == stage.declared && next.host
            == stage.host && next.report == stage.report,
{
    if let Progress::Ask(next, _) = progress {
        assert(next@.declared == stage@.declared);
        assert(next@.host == stage@.host);
        assert(next@.report == stage@.report);
    }
    if let Progress::Finished(next) = progress {
        assert(next@.declared == stage@.declared);
        assert(next@.host == stage@.host);
        assert(next@.report == stage@.report);
    }
}

/// An ingestion creates machines from the declaration as it was found under the lock of its row,
/// for the host and from the report with which it was started, with the machine ids that the DPUs'
/// reports give, and with the credentials that the vault gave for the declared BMC, or none.
pub proof fn machines_are_created_from_the_locked_declaration(
    expected: ExpectedMachine,
    host: ExploredManagedHost,
    report: EndpointExplorationReport,
    creator: MachineCreator,
    states: Seq<Ingestion>,
    log: Seq<(Request, Reply)>,
    context: CreationContext,
    step: CreationStep,
    request: Request,
)
    requires
        ingestion_reaches(
            expected,
            host,
            report,
            creator,
            states,
            log,
            Progress::Ask((Ingestion::Creating { context, step }), request),
        ),
    ensures
        context_is_told(log, expected, host, report, creator, context),
        credentials_are_told(log, expected.bmc_mac_address, context.credentials),
{
    state_always_stands(
        expected,
        host,
        report,
        creator,
        states,
        log,
        Progress::Ask((Ingestion::Creating { context, step }), request),
    );
}

/// An ingestion looks its declaration up by the id and the BMC that it had at the start, in a
/// transaction.
pub proof fn the_declaration_is_looked_up_by_id_and_bmc(
    expected: ExpectedMachine,
    host: ExploredManagedHost,
    report: EndpointExplorationReport,
    creator: MachineCreator,
    states: Seq<Ingestion>,
    log: Seq<(Request, Reply)>,
    state: Ingestion,
    request: Request,
)
    requires
        ingestion_reaches(
            expected,
            host,
            report,
            creator,
            states,
            log,
            Progress::Ask(state, request),
        ),
        state is FindingExpected,
    ensures
        request == (Request::FindExpectedMachineForUpdate {
            id: expected.id,
            bmc_mac_address: expected.bmc_mac_address,
        }),
        told(log, Request::BeginTransaction, Reply::Done),
{
    state_always_stands(
        expected,
        host,
        report,
        creator,
        states,
        log,
        Progress::Ask(state, request),
    );
}

/// A host is put into discovery with a state for each of its DPUs, in their order, each of them
/// initializing.
pub proof fn discovery_starts_with_every_dpu(
    context: CreationContext,
    step: CreationStep,
    machine_id: MachineId,
    i: int,
)
    requires
        0 <= i < context.dpu_ids@.len(),
    ensures
        list_of(
            (Ingestion::Creating { context, step }),
            (Request::WriteDiscoveringState { machine_id }),
        ) matches ListView::DiscoveringStates(states) && states.len() == context.dpu_ids@.len()
            && states[i] == (context.dpu_ids@[i], DpuDiscoveringState::Initializing),
        list_of((Ingestion::Creating { context, step }), Request::LookUpHostsByDpus)
            matches ListView::Machines(machines) && machines.len() == context.dpu_ids@.len()
            && machines[i] == context.dpu_ids@[i],
        list_of(
            (Ingestion::Creating { context, step }),
            (Request::ReconcileAdminAddresses { machine_id }),
        ) == ListView::Segments(context.locks.admin_segment_ids@),
{
}

/// Credentials that were read are used, and a vault that fails counts as one without them: the
/// ingestion begins either way.
pub proof fn the_vault_does_not_stop_an_ingestion(
    subject: IngestionSubject,
    reply: Reply,
    progress: Progress<Ingestion, bool>,
)
    requires
        reply is Credentials || reply is Failed,
        ingestion_next((Ingestion::GettingCredentials { subject }), reply, progress),
    ensures
        progress is Ask,
        progress->Ask_1 is BeginTransaction,
        progress->Ask_0 is Beginning,
        reply matches Reply::Credentials(credentials) ==> progress->Ask_0->Beginning_credentials
            == credentials,
        reply is Failed ==> progress->Ask_0->Beginning_credentials is None,
{
}

/// A failed request ends an ingestion with the text of the failure, unless it asked for the BMC's
/// credentials or wrote slot and tray.
pub proof fn failed_requests_end_an_ingestion(
    ingestion: Ingestion,
    text: String,
    progress: Progress<Ingestion, bool>,
)
    requires
        ingestion_next(ingestion, Reply::Failed(text), progress),
        !(ingestion is GettingCredentials),
        ingestion matches Ingestion::Creating { context, step } ==> creation_is_valid(context, step)
            && !(step is WritingSlot),
    ensures
        progress == Progress::<Ingestion, bool>::Failed(IngestionError::Backend(text)),
{
}

/// An ingestion of a host with a DPU whose report is not valid ends with that DPU's failure, the
/// first one, once the locks are held; no machine is created.
pub proof fn invalid_dpu_reports_end_an_ingestion(
    creator: MachineCreator,
    credentials: Option<UsernamePassword>,
    stage: LockStage,
    progress: Progress<Ingestion, bool>,
    i: int,
    text: String,
)
    requires
        ingestion_locked(creator, credentials, stage, progress),
        0 <= i < stage.host.dpus@.len(),
        stage.host.dpus@[i].machine_id == Err::<MachineId, String>(text),
        forall|j: int| 0 <= j < i ==> (#[trigger] stage.host.dpus@[j]).machine_id is Ok,
    ensures
        progress == Progress::<Ingestion, bool>::Failed(IngestionError::InvalidReport(text)),
{
    let dpus = stage.host.dpus@;
    dpu_ids_are_those_of_the_reports(dpus);
    assert(!(dpus[i].machine_id is Ok));
    if let Err(first) = valid_dpu_ids(dpus) {
        let k = choose|k: int|
            {
                &&& 0 <= k < dpus.len()
                &&& (#[trigger] dpus[k]).machine_id == Err::<MachineId, String>(first)
                &&& forall|j: int| 0 <= j < k ==> (#[trigger] dpus[j]).machine_id is Ok
            };
        assert(k == i) by {
            if k < i {
                assert(dpus[k].machine_id is Ok);
            } else if i < k {
                assert(dpus[i].machine_id is Ok);
            }
        }
    }
}

} // verus!
