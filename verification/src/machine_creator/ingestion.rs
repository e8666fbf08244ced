//! The ingestion of one explored host, from its declaration to its machines.
use vstd::prelude::*;

use crate::addresses::{FixedAllocation, MacAddress, MachineId, NetworkSegmentId};
use crate::expected_machine_data::ExpectedMachine;
use crate::exploration::{EndpointExplorationReport, ExploredDpu, ExploredManagedHost};
use crate::machine_creator::creation::{
    creation_start, first_discovery_states, start_creation, CreationContext, CreationStep,
};
use crate::machine_creator::lock_stage::{
    lock_next, lock_starts, start_lock_stage, LockStage,
};
use crate::machine_creator::locks::{
    host_mac_addresses_for_predicted_machine, ingestion_identity, predicted_host_macs,
    ExpectedMachineIngestionIdentity,
};
use crate::machine_creator::requests::{
    failure_of, reply_failure, DpuDiscoveringState, IngestionError, Progress, Reply, Request,
};
use crate::machine_creator::zero_dpu::HostFacts;
use crate::rms_node_type::UsernamePassword;

verus! {

/// What creates machines at a site, by how the site is set up.
#[derive(Clone, Copy, Debug, PartialEq, Eq, Structural)]
pub struct MachineCreator {
    /// Whether there is a rack manager to ask.
    pub has_rms: bool,
    /// Whether DPUs get a second tunnel address.
    pub allocate_secondary_vtep_ip: bool,
    /// After how many machines a run is over.
    pub machines_created_per_run: u64,
}

impl MachineCreator {
    /// A creator for a site that is set up like this.
    pub fn new(
        has_rms: bool,
        allocate_secondary_vtep_ip: bool,
        machines_created_per_run: u64,
    ) -> (r: Self)
        ensures
            r.has_rms == has_rms,
            r.allocate_secondary_vtep_ip == allocate_secondary_vtep_ip,
            r.machines_created_per_run == machines_created_per_run,
    {
        MachineCreator { has_rms, allocate_secondary_vtep_ip, machines_created_per_run }
    }
}

/// What is ingested.
#[derive(Debug)]
pub struct IngestionSubject {
    pub creator: MachineCreator,
    /// What the declaration said when the ingestion started.
    pub identity: ExpectedMachineIngestionIdentity,
    pub host: ExploredManagedHost,
    pub report: EndpointExplorationReport,
}

/// An ingestion that waits for a reply.
#[derive(Debug)]
pub enum Ingestion {
    GettingCredentials { subject: IngestionSubject },
    Beginning { subject: IngestionSubject, credentials: Option<UsernamePassword> },
    FindingExpected { subject: IngestionSubject, credentials: Option<UsernamePassword> },
    Locking {
        creator: MachineCreator,
        credentials: Option<UsernamePassword>,
        stage: LockStage,
    },
    Creating { context: CreationContext, step: CreationStep },
}

/// The list that goes with a request.
#[derive(Debug)]
pub enum RequestList<'a> {
    Nothing,
    Macs(&'a Vec<MacAddress>),
    Segments(&'a Vec<NetworkSegmentId>),
    FixedAddresses(&'a Vec<FixedAllocation>),
    Machines(&'a Vec<MachineId>),
    DiscoveringStates(Vec<(MachineId, DpuDiscoveringState)>),
}

/// The list that goes with a request, as a sequence.
pub enum ListView {
    Nothing,
    Macs(Seq<MacAddress>),
    Segments(Seq<NetworkSegmentId>),
    FixedAddresses(Seq<FixedAllocation>),
    Machines(Seq<MachineId>),
    DiscoveringStates(Seq<(MachineId, DpuDiscoveringState)>),
}

impl<'a> View for RequestList<'a> {
    type V = ListView;

    open spec fn view(&self) -> ListView {
        match *self {
            RequestList::Nothing => ListView::Nothing,
            RequestList::Macs(list) => ListView::Macs(list@),
            RequestList::Segments(list) => ListView::Segments(list@),
            RequestList::FixedAddresses(list) => ListView::FixedAddresses(list@),
            RequestList::Machines(list) => ListView::Machines(list@),
            RequestList::DiscoveringStates(list) => ListView::DiscoveringStates(list@),
        }
    }
}

/// The list that goes with a request of an ingestion. The locks' requests go with what is to be
/// locked. The request for hosts goes with the DPUs, the settling of addresses with the
/// administrative segments, and the start of discovery with the states of the DPUs.
pub open spec fn list_of(ingestion: Ingestion, request: Request) -> ListView {
    match (ingestion, request) {
        (Ingestion::Locking { stage, .. }, Request::LockInterfaceMacs) => ListView::Macs(
            stage.interface_macs@,
        ),
        (Ingestion::Locking { stage, .. }, Request::LockSegments) => ListView::Segments(
            stage.locks.segment_ids@,
        ),
        (Ingestion::Locking { stage, .. }, Request::LockFixedAddresses) => ListView::FixedAddresses(
            stage.locks.fixed_allocations@,
        ),
        (Ingestion::Creating { context, .. }, Request::LookUpHostsByDpus) => ListView::Machines(
            context.dpu_ids@,
        ),
        (
            Ingestion::Creating { context, .. },
            Request::ReconcileAdminAddresses { .. },
        ) => ListView::Segments(context.locks.admin_segment_ids@),
        (
            Ingestion::Creating { context, .. },
            Request::WriteDiscoveringState { .. },
        ) => ListView::DiscoveringStates(first_discovery_states(context.dpu_ids@)),
        _ => ListView::Nothing,
    }
}

impl Ingestion {
    /// The list that goes with a request of the ingestion.
    pub fn list_for(&self, request: &Request) -> (r: RequestList<'_>)
        ensures
            r@ == list_of(*self, *request),
    {
        match (self, request) {
            (Ingestion::Locking { stage, .. }, Request::LockInterfaceMacs) => RequestList::Macs(
                stage.macs_to_lock(),
            ),
            (Ingestion::Locking { stage, .. }, Request::LockSegments) => RequestList::Segments(
                stage.segments_to_lock(),
            ),
            (Ingestion::Locking { stage, .. }, Request::LockFixedAddresses) => {
                RequestList::FixedAddresses(stage.fixed_addresses_to_lock())
            },
            (Ingestion::Creating { context, .. }, Request::LookUpHostsByDpus) => {
                RequestList::Machines(context.dpus_to_look_up())
            },
            (Ingestion::Creating { context, .. }, Request::ReconcileAdminAddresses { .. }) => {
                RequestList::Segments(context.admin_segments())
            },
            (Ingestion::Creating { context, .. }, Request::WriteDiscoveringState { .. }) => {
                RequestList::DiscoveringStates(context.discovering_states())
            },
            _ => RequestList::Nothing,
        }
    }
}

/// How an ingestion starts. A host that nobody declared is refused. The BMC's credentials are
/// read where the rack manager will need them.
pub open spec fn ingestion_start(
    expected: Option<ExpectedMachine>,
    host: ExploredManagedHost,
    report: EndpointExplorationReport,
    creator: MachineCreator,
) -> Progress<Ingestion, bool> {
    match expected {
        None => Progress::Finished(false),
        Some(expected) => {
            let identity = ingestion_identity(expected);
            let subject = IngestionSubject { creator, identity, host, report };
            if identity.has_rack_id && creator.has_rms {
                Progress::Ask(
                    Ingestion::GettingCredentials { subject },
                    Request::GetBmcCredentials { bmc_mac_address: identity.bmc_mac_address },
                )
            } else {
                Progress::Ask(
                    Ingestion::Beginning { subject, credentials: None },
                    Request::BeginTransaction,
                )
            }
        },
    }
}

impl MachineCreator {
    /// Starts the ingestion of a host. It finishes with whether machines were created.
    pub fn create_managed_host(
        &self,
        explored_host: ExploredManagedHost,
        report: EndpointExplorationReport,
        expected_machine: Option<&ExpectedMachine>,
    ) -> (r: Progress<Ingestion, bool>)
        ensures
            r == ingestion_start(
                (match expected_machine {
                    Some(expected) => Some(*expected),
                    None => None,
                }),
                explored_host,
                report,
                *self,
            ),
    {
        match expected_machine {
            None => Progress::Finished(false),
            Some(expected) => {
                let identity = ExpectedMachineIngestionIdentity::from(expected);
                let bmc_mac_address = identity.bmc_mac_address;
                let subject = IngestionSubject { creator: *self, identity, host: explored_host, report };
                if identity.has_rack_id && self.has_rms {
                    Progress::Ask(
                        Ingestion::GettingCredentials { subject },
                        Request::GetBmcCredentials { bmc_mac_address },
                    )
                } else {
                    Progress::Ask(
                        Ingestion::Beginning { subject, credentials: None },
                        Request::BeginTransaction,
                    )
                }
            },
        }
    }
}

/// The machine ids of DPUs, or the failure of the first whose report is not valid.
pub open spec fn valid_dpu_ids(dpus: Seq<ExploredDpu>) -> Result<Seq<MachineId>, String>
    decreases dpus.len(),
{
    if dpus.len() == 0 {
        Ok(seq![])
    } else {
        match valid_dpu_ids(dpus.drop_last()) {
            Err(text) => Err(text),
            Ok(ids) => match dpus.last().machine_id {
                Err(text) => Err(text),
                Ok(id) => Ok(ids.push(id)),
            },
        }
    }
}

/// What is known once the locks are held.
pub open spec fn context_of(
    creator: MachineCreator,
    credentials: Option<UsernamePassword>,
    stage: LockStage,
    context: CreationContext,
) -> bool {
    let machine = stage.declared.machine;
    &&& context.has_rms == creator.has_rms
    &&& context.allocate_secondary_vtep_ip == creator.allocate_secondary_vtep_ip
    &&& context.machine == machine
    &&& context.host == stage.host
    &&& context.locks == stage.locks
    &&& context.credentials == credentials
    &&& context.facts.mac_addresses@ == predicted_host_macs(stage.report, Some(machine.data))
    &&& context.facts.interface_ids == stage.report.interface_ids
    &&& context.facts.host_nics@ == machine.data.host_nics@
    &&& context.facts.declared_primary == stage.declared.declared_primary
    &&& context.facts.machine_id is None
    &&& valid_dpu_ids(stage.host.dpus@) == Ok::<Seq<MachineId>, String>(context.dpu_ids@)
}

/// The ingestion with the creation under way.
pub open spec fn ingestion_creates(
    context: CreationContext,
    progress: Progress<CreationStep, bool>,
) -> Progress<Ingestion, bool> {
    match progress {
        Progress::Ask(step, request) => Progress::Ask(
            Ingestion::Creating { context, step },
            request,
        ),
        Progress::Finished(created) => Progress::Finished(created),
        Progress::Failed(error) => Progress::Failed(error),
    }
}

/// All locks are held: every DPU must have a valid report; then the creation starts.
pub open spec fn ingestion_locked(
    creator: MachineCreator,
    credentials: Option<UsernamePassword>,
    stage: LockStage,
    progress: Progress<Ingestion, bool>,
) -> bool {
    match valid_dpu_ids(stage.host.dpus@) {
        Err(text) => progress == Progress::<Ingestion, bool>::Failed(
            IngestionError::InvalidReport(text),
        ),
        Ok(_) => exists|context: CreationContext|
            {
                &&& #[trigger] context_of(creator, credentials, stage, context)
                &&& progress == ingestion_creates(context, creation_start(context))
            },
    }
}

/// The ingestion with its locks under way.
pub open spec fn ingestion_locks(
    creator: MachineCreator,
    credentials: Option<UsernamePassword>,
    locking: Progress<LockStage, LockStage>,
    progress: Progress<Ingestion, bool>,
) -> bool {
    match locking {
        Progress::Ask(stage, request) => progress == Progress::<Ingestion, bool>::Ask(
            Ingestion::Locking { creator, credentials, stage },
            request,
        ),
        Progress::Finished(stage) => ingestion_locked(creator, credentials, stage, progress),
        Progress::Failed(error) => progress == Progress::<Ingestion, bool>::Failed(error),
    }
}

/// How an ingestion goes on after a reply. The declaration must still be there, with the
/// same identity, once its row is locked.
pub open spec fn ingestion_next(
    ingestion: Ingestion,
    reply: Reply,
    progress: Progress<Ingestion, bool>,
) -> bool {
    match (ingestion, reply) {
        (Ingestion::GettingCredentials { subject }, Reply::Credentials(credentials)) => progress
            == Progress::<Ingestion, bool>::Ask(
            Ingestion::Beginning { subject, credentials },
            Request::BeginTransaction,
        ),
        (Ingestion::GettingCredentials { subject }, Reply::Failed(_)) => progress == Progress::<
            Ingestion,
            bool,
        >::Ask(Ingestion::Beginning { subject, credentials: None }, Request::BeginTransaction),
        (Ingestion::Beginning { subject, credentials }, Reply::Done) => progress == Progress::<
            Ingestion,
            bool,
        >::Ask(
            Ingestion::FindingExpected { subject, credentials },
            Request::FindExpectedMachineForUpdate {
                id: subject.identity.id,
                bmc_mac_address: subject.identity.bmc_mac_address,
            },
        ),
        (
            Ingestion::FindingExpected { subject, credentials },
            Reply::ExpectedMachine(declared),
        ) => match declared {
            None => progress == Progress::<Ingestion, bool>::Failed(
                IngestionError::ExpectedMachineChanged,
            ),
            Some(declared) => if subject.identity == ingestion_identity(declared.machine) {
                exists|locking: Progress<LockStage, LockStage>|
                    {
                        &&& #[trigger] lock_starts(
                            declared,
                            subject.host,
                            subject.report,
                            locking,
                        )
                        &&& ingestion_locks(subject.creator, credentials, locking, progress)
                    }
            } else {
                progress == Progress::<Ingestion, bool>::Failed(
                    IngestionError::ExpectedMachineIdentityChanged,
                )
            },
        },
        (Ingestion::Locking { creator, credentials, stage }, reply) => exists|
            locking: Progress<LockStage, LockStage>,
        |
            {
                &&& #[trigger] lock_next(stage@, reply, locking)
                &&& ingestion_locks(creator, credentials, locking, progress)
            },
        (Ingestion::Creating { context, step }, reply) => exists|
            creating: Progress<CreationStep, bool>,
        |
            {
                &&& #[trigger] step.next(context, reply, creating)
                &&& progress == ingestion_creates(context, creating)
            },
        (_, reply) => progress == Progress::<Ingestion, bool>::Failed(reply_failure(reply)),
    }
}

fn dpu_ids_of(dpus: &Vec<ExploredDpu>) -> (r: Result<Vec<MachineId>, String>)
    ensures
        valid_dpu_ids(dpus@) == (match r {
            Ok(ids) => Ok(ids@),
            Err(text) => Err(text),
        }),
{
    let mut ids: Vec<MachineId> = Vec::new();
    let mut i: usize = 0;
    assert(ids@ =~= seq![]);
    while i < dpus.len()
        invariant
            i <= dpus.len(),
            valid_dpu_ids(dpus@.subrange(0, i as int)) == Ok::<Seq<MachineId>, String>(ids@),
        decreases dpus.len() - i,
    {
        let ghost next = dpus@.subrange(0, i + 1);
        assert(next.drop_last() =~= dpus@.subrange(0, i as int));
        assert(next.last() == dpus@[i as int]);
        match &dpus[i].machine_id {
            Ok(id) => {
                ids.push(id.clone());
            },
            Err(text) => {
                proof {
                    invalid_report_stays(dpus@, i + 1);
                }
                return Err(text.clone());
            },
        }
        i += 1;
    }
    assert(dpus@.subrange(0, dpus@.len() as int) =~= dpus@);
    Ok(ids)
}

proof fn invalid_report_stays(dpus: Seq<ExploredDpu>, n: int)
    requires
        0 <= n <= dpus.len(),
        valid_dpu_ids(dpus.subrange(0, n)) is Err,
    ensures
        valid_dpu_ids(dpus) == valid_dpu_ids(dpus.subrange(0, n)),
    decreases dpus.len(),
{
    if n == dpus.len() {
        assert(dpus.subrange(0, n) =~= dpus);
    } else {
        assert(dpus.drop_last().subrange(0, n) =~= dpus.subrange(0, n));
        invalid_report_stays(dpus.drop_last(), n);
    }
}

fn with_creation(context: CreationContext, progress: Progress<CreationStep, bool>) -> (r: Progress<
    Ingestion,
    bool,
>)
    ensures
        r == ingestion_creates(context, progress),
{
    match progress {
        Progress::Ask(step, request) => Progress::Ask(
            Ingestion::Creating { context, step },
            request,
        ),
        Progress::Finished(created) => Progress::Finished(created),
        Progress::Failed(error) => Progress::Failed(error),
    }
}

fn begin_creation(
    creator: MachineCreator,
    credentials: Option<UsernamePassword>,
    stage: LockStage,
) -> (r: Progress<Ingestion, bool>)
    ensures
        ingestion_locked(creator, credentials, stage, r),
{
    let dpu_ids = match dpu_ids_of(&stage.host.dpus) {
        Err(text) => {
            return Progress::Failed(IngestionError::InvalidReport(text));
        },
        Ok(dpu_ids) => dpu_ids,
    };
    let mac_addresses = host_mac_addresses_for_predicted_machine(
        &stage.report,
        Some(&stage.declared.machine.data),
    );
    let host_nics = stage.declared.machine.data.host_nics.clone();
    let context = CreationContext {
        has_rms: creator.has_rms,
        allocate_secondary_vtep_ip: creator.allocate_secondary_vtep_ip,
        machine: stage.declared.machine,
        host: stage.host,
        facts: HostFacts {
            mac_addresses,
            interface_ids: stage.report.interface_ids,
            host_nics,
            declared_primary: stage.declared.declared_primary,
            machine_id: None,
        },
        locks: stage.locks,
        credentials,
        dpu_ids,
    };
    assert(context_of(creator, credentials, stage, context));
    let progress = start_creation(&context);
    with_creation(context, progress)
}

fn with_locks(
    creator: MachineCreator,
    credentials: Option<UsernamePassword>,
    locking: Progress<LockStage, LockStage>,
) -> (r: Progress<Ingestion, bool>)
    ensures
        ingestion_locks(creator, credentials, locking, r),
{
    match locking {
        Progress::Ask(stage, request) => Progress::Ask(
            Ingestion::Locking { creator, credentials, stage },
            request,
        ),
        Progress::Finished(stage) => begin_creation(creator, credentials, stage),
        Progress::Failed(error) => Progress::Failed(error),
    }
}

impl Ingestion {
    /// Goes on after a reply.
    pub fn resume(self, reply: Reply) -> (r: Progress<Ingestion, bool>)
        ensures
            ingestion_next(self, reply, r),
    {
        match (self, reply) {
            (Ingestion::GettingCredentials { subject }, Reply::Credentials(credentials)) => {
                Progress::Ask(
                    Ingestion::Beginning { subject, credentials },
                    Request::BeginTransaction,
                )
            },
            (Ingestion::GettingCredentials { subject }, Reply::Failed(_)) => Progress::Ask(
                Ingestion::Beginning { subject, credentials: None },
                Request::BeginTransaction,
            ),
            (Ingestion::Beginning { subject, credentials }, Reply::Done) => {
                let id = subject.identity.id;
                let bmc_mac_address = subject.identity.bmc_mac_address;
                Progress::Ask(
                    Ingestion::FindingExpected { subject, credentials },
                    Request::FindExpectedMachineForUpdate { id, bmc_mac_address },
                )
            },
            (
                Ingestion::FindingExpected { subject, credentials },
                Reply::ExpectedMachine(declared),
            ) => match declared {
                None => Progress::Failed(IngestionError::ExpectedMachineChanged),
                Some(declared) => {
                    if subject.identity.matches(&declared.machine) {
                        let locking = start_lock_stage(declared, subject.host, subject.report);
                        with_locks(subject.creator, credentials, locking)
                    } else {
                        Progress::Failed(IngestionError::ExpectedMachineIdentityChanged)
                    }
                },
            },
            (Ingestion::Locking { creator, credentials, stage }, reply) => {
                let locking = stage.resume(reply);
                with_locks(creator, credentials, locking)
            },
            (Ingestion::Creating { context, step }, reply) => {
                let creating = step.resume(&context, reply);
                with_creation(context, creating)
            },
            (_, reply) => Progress::Failed(failure_of(reply)),
        }
    }
}

} // verus!
