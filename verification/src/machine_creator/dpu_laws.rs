//! What creating a DPU's machine and attaching a DPU to its host are for, over all their runs.
use vstd::prelude::*;

use crate::addresses::{MacAddress, MachineId, MachineInterfaceId};
use crate::exploration::{oob_mac_of, ExploredDpu};
use crate::machine_creator::dpu::{
    attach_start, dpu_creation_start, dpu_interface_start, AttachStep, DpuCreationStep,
    DpuInterfaceSetup, DpuInterfaceStep,
};
use crate::machine_creator::network_config::DpuMachine;
use crate::machine_creator::requests::{
    IngestionError, InterfaceRow, Progress, Reply, Request, TopologySubject,
};
use crate::machine_creator::topology::TopologyStep;
use crate::machine_creator::trace::{after, answered, history_grows};

verus! {

/// Whether the topology of a machine is written from the subject's data: the hardware data, the
/// mark that they will be completed, and the BMC's network data with the MAC address that was
/// found for it.
pub open spec fn topology_is_written<S, T>(
    start: Progress<S, T>,
    next: spec_fn(S, Reply) -> Progress<S, T>,
    replies: Seq<Reply>,
    machine_id: MachineId,
    subject: TopologySubject,
) -> bool {
    &&& answered(
        start,
        next,
        replies,
        Request::WriteTopology { machine_id, subject },
        Reply::Done,
    )
    &&& answered(
        start,
        next,
        replies,
        Request::MarkTopologyUpdateNeeded { machine_id },
        Reply::Done,
    )
    &&& exists|bmc_mac: Option<MacAddress>| #[trigger]
        bmc_network_is_written(start, next, replies, machine_id, subject, bmc_mac)
}

/// Whether the BMC's network data are written with the MAC address that was found.
pub open spec fn bmc_network_is_written<S, T>(
    start: Progress<S, T>,
    next: spec_fn(S, Reply) -> Progress<S, T>,
    replies: Seq<Reply>,
    machine_id: MachineId,
    subject: TopologySubject,
    bmc_mac: Option<MacAddress>,
) -> bool {
    &&& answered(
        start,
        next,
        replies,
        Request::EnrichBmcMac { machine_id, subject },
        Reply::Mac(bmc_mac),
    )
    &&& answered(
        start,
        next,
        replies,
        Request::WriteBmcNetwork { machine_id, subject, bmc_mac },
        Reply::Done,
    )
}

/// What holds while a topology is being written.
spec fn topology_is_under_way<S, T>(
    start: Progress<S, T>,
    next: spec_fn(S, Reply) -> Progress<S, T>,
    replies: Seq<Reply>,
    machine_id: MachineId,
    subject: TopologySubject,
    step: TopologyStep,
    request: Request,
) -> bool {
    let written = answered(
        start,
        next,
        replies,
        Request::WriteTopology { machine_id, subject },
        Reply::Done,
    );
    let marked = answered(
        start,
        next,
        replies,
        Request::MarkTopologyUpdateNeeded { machine_id },
        Reply::Done,
    );
    match step {
        TopologyStep::Writing => request == Request::WriteTopology { machine_id, subject },
        TopologyStep::Marking => written && request == Request::MarkTopologyUpdateNeeded {
            machine_id,
        },
        TopologyStep::Enriching => written && marked && request == Request::EnrichBmcMac {
            machine_id,
            subject,
        },
        TopologyStep::WritingBmcNetwork => written && marked && request is WriteBmcNetwork && {
            let bmc_mac = request->bmc_mac;
            &&& answered(
                start,
                next,
                replies,
                Request::EnrichBmcMac { machine_id, subject },
                Reply::Mac(bmc_mac),
            )
            &&& request == Request::WriteBmcNetwork { machine_id, subject, bmc_mac }
        },
    }
}

proof fn topology_goes_on<S, T>(
    start: Progress<S, T>,
    next: spec_fn(S, Reply) -> Progress<S, T>,
    replies: Seq<Reply>,
    machine_id: MachineId,
    subject: TopologySubject,
    step: TopologyStep,
    request: Request,
)
    requires
        replies.len() > 0,
        after(start, next, replies.drop_last()) is Ask,
        after(start, next, replies.drop_last())->Ask_1 == request,
        topology_is_under_way(
            start,
            next,
            replies.drop_last(),
            machine_id,
            subject,
            step,
            request,
        ),
    ensures
        step is WritingBmcNetwork && replies.last() is Done ==> topology_is_written(
            start,
            next,
            replies,
            machine_id,
            subject,
        ),
        step is Writing && replies.last() is Done ==> topology_is_under_way(
            start,
            next,
            replies,
            machine_id,
            subject,
            TopologyStep::Marking,
            Request::MarkTopologyUpdateNeeded { machine_id },
        ),
        step is Marking && replies.last() is Done ==> topology_is_under_way(
            start,
            next,
            replies,
            machine_id,
            subject,
            TopologyStep::Enriching,
            Request::EnrichBmcMac { machine_id, subject },
        ),
        step is Enriching ==> (replies.last() matches Reply::Mac(bmc_mac)
            ==> topology_is_under_way(
            start,
            next,
            replies,
            machine_id,
            subject,
            TopologyStep::WritingBmcNetwork,
            Request::WriteBmcNetwork { machine_id, subject, bmc_mac },
        )),
{
    history_grows(start, next, replies);
    if step is WritingBmcNetwork && replies.last() is Done {
        assert(bmc_network_is_written(
            start,
            next,
            replies,
            machine_id,
            subject,
            request->bmc_mac,
        ));
    }
}

proof fn topology_stays_written<S, T>(
    start: Progress<S, T>,
    next: spec_fn(S, Reply) -> Progress<S, T>,
    replies: Seq<Reply>,
    machine_id: MachineId,
    subject: TopologySubject,
)
    requires
        replies.len() > 0,
        topology_is_written(start, next, replies.drop_last(), machine_id, subject),
    ensures
        topology_is_written(start, next, replies, machine_id, subject),
{
    history_grows(start, next, replies);
    let bmc_mac = choose|bmc_mac: Option<MacAddress>| #[trigger]
        bmc_network_is_written(start, next, replies.drop_last(), machine_id, subject, bmc_mac);
    assert(bmc_network_is_written(start, next, replies, machine_id, subject, bmc_mac));
}

/// Whether a row of nobody was made the DPU's: captured, and associated with the DPU as machine
/// and as DPU.
pub open spec fn row_is_claimed<S, T>(
    start: Progress<S, T>,
    next: spec_fn(S, Reply) -> Progress<S, T>,
    replies: Seq<Reply>,
    dpu_machine_id: MachineId,
    row: InterfaceRow,
) -> bool {
    &&& answered(
        start,
        next,
        replies,
        Request::CaptureExpectedInterface { interface_id: row.id, mac_address: row.mac_address },
        Reply::Done,
    )
    &&& answered(
        start,
        next,
        replies,
        Request::AssociateWithMachine { interface_id: row.id, machine_id: dpu_machine_id },
        Reply::Done,
    )
    &&& answered(
        start,
        next,
        replies,
        Request::AssociateWithDpuMachine { interface_id: row.id, dpu_machine_id },
        Reply::Done,
    )
}

/// Whether this is the row that was found for the DPU's out-of-band interface.
pub open spec fn is_oob_row<S, T>(
    start: Progress<S, T>,
    next: spec_fn(S, Reply) -> Progress<S, T>,
    replies: Seq<Reply>,
    dpu: ExploredDpu,
    row: InterfaceRow,
) -> bool {
    &&& oob_mac_of(dpu.systems@) is Some
    &&& answered(
        start,
        next,
        replies,
        Request::FindInterface { mac_address: oob_mac_of(dpu.systems@)->0 },
        Reply::Interface(Some(row)),
    )
}

/// Whether the DPU's out-of-band interface was found to be nobody's and was made the DPU's.
pub open spec fn oob_is_claimed<S, T>(
    start: Progress<S, T>,
    next: spec_fn(S, Reply) -> Progress<S, T>,
    replies: Seq<Reply>,
    dpu: ExploredDpu,
    dpu_machine_id: MachineId,
) -> bool {
    exists|row: InterfaceRow|
        {
            &&& #[trigger] is_oob_row(start, next, replies, dpu, row)
            &&& row.machine_id is None
            &&& row_is_claimed(start, next, replies, dpu_machine_id, row)
        }
}

/// Whether there is nothing to do for the DPU's out-of-band interface: it has none, or the
/// interface has no row, or its row has a machine.
pub open spec fn oob_is_left_alone<S, T>(
    start: Progress<S, T>,
    next: spec_fn(S, Reply) -> Progress<S, T>,
    replies: Seq<Reply>,
    dpu: ExploredDpu,
) -> bool {
    ||| oob_mac_of(dpu.systems@) is None
    ||| answered(
        start,
        next,
        replies,
        Request::FindInterface { mac_address: oob_mac_of(dpu.systems@)->0 },
        Reply::Interface(None),
    )
    ||| exists|row: InterfaceRow| #[trigger]
        is_oob_row(start, next, replies, dpu, row) && row.machine_id is Some
}

/// What holds while an out-of-band interface is being set up.
spec fn setup_is_under_way<S, T>(
    start: Progress<S, T>,
    next: spec_fn(S, Reply) -> Progress<S, T>,
    replies: Seq<Reply>,
    dpu: ExploredDpu,
    dpu_machine_id: MachineId,
    setup: DpuInterfaceSetup,
    request: Request,
) -> bool {
    &&& setup.dpu_machine_id == dpu_machine_id
    &&& match setup.step {
        DpuInterfaceStep::Finding => {
            &&& oob_mac_of(dpu.systems@) is Some
            &&& request == Request::FindInterface { mac_address: oob_mac_of(dpu.systems@)->0 }
        },
        DpuInterfaceStep::Capturing { interface_id } => exists|row: InterfaceRow|
            {
                &&& #[trigger] is_oob_row(start, next, replies, dpu, row)
                &&& row.machine_id is None && row.id == interface_id
                &&& request == Request::CaptureExpectedInterface {
                    interface_id,
                    mac_address: row.mac_address,
                }
            },
        DpuInterfaceStep::Associating { interface_id } => exists|row: InterfaceRow|
            {
                &&& #[trigger] is_oob_row(start, next, replies, dpu, row)
                &&& row.machine_id is None && row.id == interface_id
                &&& answered(
                    start,
                    next,
                    replies,
                    Request::CaptureExpectedInterface {
                        interface_id,
                        mac_address: row.mac_address,
                    },
                    Reply::Done,
                )
                &&& request == Request::AssociateWithMachine {
                    interface_id,
                    machine_id: dpu_machine_id,
                }
            },
        DpuInterfaceStep::Linking => exists|row: InterfaceRow|
            {
                &&& #[trigger] is_oob_row(start, next, replies, dpu, row)
                &&& row.machine_id is None
                &&& answered(
                    start,
                    next,
                    replies,
                    Request::CaptureExpectedInterface {
                        interface_id: row.id,
                        mac_address: row.mac_address,
                    },
                    Reply::Done,
                )
                &&& answered(
                    start,
                    next,
                    replies,
                    Request::AssociateWithMachine {
                        interface_id: row.id,
                        machine_id: dpu_machine_id,
                    },
                    Reply::Done,
                )
                &&& request == Request::AssociateWithDpuMachine {
                    interface_id: row.id,
                    dpu_machine_id,
                }
            },
    }
}

proof fn setup_goes_on<S, T>(
    start: Progress<S, T>,
    next: spec_fn(S, Reply) -> Progress<S, T>,
    replies: Seq<Reply>,
    dpu: ExploredDpu,
    dpu_machine_id: MachineId,
    setup: DpuInterfaceSetup,
    request: Request,
)
    requires
        replies.len() > 0,
        after(start, next, replies.drop_last()) is Ask,
        after(start, next, replies.drop_last())->Ask_1 == request,
        setup_is_under_way(
            start,
            next,
            replies.drop_last(),
            dpu,
            dpu_machine_id,
            setup,
            request,
        ),
    ensures
        match setup.next(replies.last()) {
            Progress::Ask(following, request) => setup_is_under_way(
                start,
                next,
                replies,
                dpu,
                dpu_machine_id,
                following,
                request,
            ),
            Progress::Finished(true) => oob_is_claimed(start, next, replies, dpu, dpu_machine_id),
            Progress::Finished(false) => oob_is_left_alone(start, next, replies, dpu),
            Progress::Failed(_) => true,
        },
{
    let before = replies.drop_last();
    history_grows(start, next, replies);
    match setup.step {
        DpuInterfaceStep::Finding => {
            if let Reply::Interface(Some(row)) = replies.last() {
                assert(is_oob_row(start, next, replies, dpu, row));
            }
        },
        DpuInterfaceStep::Capturing { interface_id } => {
            let row = choose|row: InterfaceRow|
                {
                    &&& #[trigger] is_oob_row(start, next, before, dpu, row)
                    &&& row.machine_id is None && row.id == interface_id
                    &&& request == Request::CaptureExpectedInterface {
                        interface_id,
                        mac_address: row.mac_address,
                    }
                };
            assert(is_oob_row(start, next, replies, dpu, row));
        },
        DpuInterfaceStep::Associating { interface_id } => {
            let row = choose|row: InterfaceRow|
                {
                    &&& #[trigger] is_oob_row(start, next, before, dpu, row)
                    &&& row.machine_id is None && row.id == interface_id
                    &&& answered(
                        start,
                        next,
                        before,
                        Request::CaptureExpectedInterface {
                            interface_id,
                            mac_address: row.mac_address,
                        },
                        Reply::Done,
                    )
                    &&& request == Request::AssociateWithMachine {
                        interface_id,
                        machine_id: dpu_machine_id,
                    }
                };
            assert(is_oob_row(start, next, replies, dpu, row));
        },
        DpuInterfaceStep::Linking => {
            let row = choose|row: InterfaceRow|
                {
                    &&& #[trigger] is_oob_row(start, next, before, dpu, row)
                    &&& row.machine_id is None
                    &&& answered(
                        start,
                        next,
                        before,
                        Request::CaptureExpectedInterface {
                            interface_id: row.id,
                            mac_address: row.mac_address,
                        },
                        Reply::Done,
                    )
                    &&& answered(
                        start,
                        next,
                        before,
                        Request::AssociateWithMachine {
                            interface_id: row.id,
                            machine_id: dpu_machine_id,
                        },
                        Reply::Done,
                    )
                    &&& request == Request::AssociateWithDpuMachine {
                        interface_id: row.id,
                        dpu_machine_id,
                    }
                };
            assert(is_oob_row(start, next, replies, dpu, row));
        },
    }
}

proof fn setup_stays_done<S, T>(
    start: Progress<S, T>,
    next: spec_fn(S, Reply) -> Progress<S, T>,
    replies: Seq<Reply>,
    dpu: ExploredDpu,
    dpu_machine_id: MachineId,
)
    requires
        replies.len() > 0,
    ensures
        oob_is_claimed(start, next, replies.drop_last(), dpu, dpu_machine_id) ==> oob_is_claimed(
            start,
            next,
            replies,
            dpu,
            dpu_machine_id,
        ),
        oob_is_left_alone(start, next, replies.drop_last(), dpu) ==> oob_is_left_alone(
            start,
            next,
            replies,
            dpu,
        ),
{
    let before = replies.drop_last();
    history_grows(start, next, replies);
    if oob_is_claimed(start, next, before, dpu, dpu_machine_id) {
        let row = choose|row: InterfaceRow|
            {
                &&& #[trigger] is_oob_row(start, next, before, dpu, row)
                &&& row.machine_id is None
                &&& row_is_claimed(start, next, before, dpu_machine_id, row)
            };
        assert(is_oob_row(start, next, replies, dpu, row));
    }
    if exists|row: InterfaceRow| #[trigger]
        is_oob_row(start, next, before, dpu, row) && row.machine_id is Some {
        let row = choose|row: InterfaceRow| #[trigger]
            is_oob_row(start, next, before, dpu, row) && row.machine_id is Some;
        assert(is_oob_row(start, next, replies, dpu, row));
    }
}

/// How the setup of an out-of-band interface goes on.
pub open spec fn setup_next() -> spec_fn(DpuInterfaceSetup, Reply) -> Progress<
    DpuInterfaceSetup,
    bool,
> {
    |setup: DpuInterfaceSetup, reply: Reply| setup.next(reply)
}

/// Setting up a DPU's out-of-band interface finishes with `true` exactly when the interface was
/// nobody's and was made the DPU's; an interface that has a machine, or no row, is left alone.
pub proof fn oob_interfaces_of_nobody_are_claimed(
    dpu: ExploredDpu,
    dpu_machine_id: MachineId,
    replies: Seq<Reply>,
)
    ensures
        ({
            let start = dpu_interface_start(dpu, dpu_machine_id);
            match after(start, setup_next(), replies) {
                Progress::Finished(true) => oob_is_claimed(
                    start,
                    setup_next(),
                    replies,
                    dpu,
                    dpu_machine_id,
                ),
                Progress::Finished(false) => oob_is_left_alone(start, setup_next(), replies, dpu),
                Progress::Ask(setup, request) => {
                    &&& request matches Request::AssociateWithMachine { machine_id, .. }
                        ==> machine_id == dpu_machine_id
                    &&& request matches Request::AssociateWithDpuMachine { dpu_machine_id: id, .. }
                        ==> id == dpu_machine_id
                },
                Progress::Failed(_) => true,
            }
        }),
{
    setup_always_holds(dpu, dpu_machine_id, replies);
}

proof fn setup_always_holds(dpu: ExploredDpu, dpu_machine_id: MachineId, replies: Seq<Reply>)
    ensures
        ({
            let start = dpu_interface_start(dpu, dpu_machine_id);
            match after(start, setup_next(), replies) {
                Progress::Ask(setup, request) => setup_is_under_way(
                    start,
                    setup_next(),
                    replies,
                    dpu,
                    dpu_machine_id,
                    setup,
                    request,
                ),
                Progress::Finished(true) => oob_is_claimed(
                    start,
                    setup_next(),
                    replies,
                    dpu,
                    dpu_machine_id,
                ),
                Progress::Finished(false) => oob_is_left_alone(start, setup_next(), replies, dpu),
                Progress::Failed(_) => true,
            }
        }),
    decreases replies.len(),
{
    if replies.len() > 0 {
        let start = dpu_interface_start(dpu, dpu_machine_id);
        setup_always_holds(dpu, dpu_machine_id, replies.drop_last());
        match after(start, setup_next(), replies.drop_last()) {
            Progress::Ask(setup, request) => setup_goes_on(
                start,
                setup_next(),
                replies,
                dpu,
                dpu_machine_id,
                setup,
                request,
            ),
            _ => setup_stays_done(start, setup_next(), replies, dpu, dpu_machine_id),
        }
    }
}

/// Where the creation of a DPU's machine starts.
pub open spec fn creation_begins(dpu_machine_id: MachineId) -> Progress<
    DpuCreationStep,
    Option<DpuMachine>,
> {
    let (step, request) = dpu_creation_start(dpu_machine_id);
    Progress::Ask(step, request)
}

/// How the creation of a DPU's machine goes on.
pub open spec fn creation_next(dpu: ExploredDpu, position: usize) -> spec_fn(
    DpuCreationStep,
    Reply,
) -> Progress<DpuCreationStep, Option<DpuMachine>> {
    |step: DpuCreationStep, reply: Reply| step.next(dpu, position, reply)
}

/// Whether this was asked to create a DPU's machine, and answered so.
pub open spec fn creation_answered(
    dpu: ExploredDpu,
    position: usize,
    dpu_machine_id: MachineId,
    replies: Seq<Reply>,
    request: Request,
    reply: Reply,
) -> bool {
    answered(creation_begins(dpu_machine_id), creation_next(dpu, position), replies, request, reply)
}

/// Whether this is the DPU's machine as it was created: under the DPU's id, which was not taken,
/// without declared data, and with the configuration it was created with.
pub open spec fn is_new_dpu(
    dpu: ExploredDpu,
    position: usize,
    dpu_machine_id: MachineId,
    replies: Seq<Reply>,
    machine: DpuMachine,
) -> bool {
    &&& machine.machine_id == dpu_machine_id
    &&& creation_answered(
        dpu,
        position,
        dpu_machine_id,
        replies,
        Request::FindMachine { machine_id: dpu_machine_id, include_predicted_host: false },
        Reply::Found(false),
    )
    &&& creation_answered(
        dpu,
        position,
        dpu_machine_id,
        replies,
        Request::CreateMachine { machine_id: dpu_machine_id, with_declaration: false },
        Reply::Config(machine.versioned),
    )
}

/// Whether the DPU's out-of-band interface is settled.
pub open spec fn oob_is_settled(
    dpu: ExploredDpu,
    position: usize,
    dpu_machine_id: MachineId,
    replies: Seq<Reply>,
) -> bool {
    let start = creation_begins(dpu_machine_id);
    let next = creation_next(dpu, position);
    oob_is_claimed(start, next, replies, dpu, dpu_machine_id) || oob_is_left_alone(
        start,
        next,
        replies,
        dpu,
    )
}

spec fn creation_holds(
    dpu: ExploredDpu,
    position: usize,
    dpu_machine_id: MachineId,
    replies: Seq<Reply>,
    progress: Progress<DpuCreationStep, Option<DpuMachine>>,
) -> bool {
    let start = creation_begins(dpu_machine_id);
    let next = creation_next(dpu, position);
    match progress {
        Progress::Ask(step, request) => match step {
            DpuCreationStep::Finding { dpu_machine_id: id } => id == dpu_machine_id && request
                == Request::FindMachine {
                machine_id: dpu_machine_id,
                include_predicted_host: false,
            },
            DpuCreationStep::Creating { dpu_machine_id: id } => {
                &&& id == dpu_machine_id
                &&& creation_answered(
                    dpu,
                    position,
                    dpu_machine_id,
                    replies,
                    Request::FindMachine {
                        machine_id: dpu_machine_id,
                        include_predicted_host: false,
                    },
                    Reply::Found(false),
                )
                &&& request == Request::CreateMachine {
                    machine_id: dpu_machine_id,
                    with_declaration: false,
                }
            },
            DpuCreationStep::SettingUpInterface { machine, setup } => {
                &&& is_new_dpu(dpu, position, dpu_machine_id, replies, machine)
                &&& setup_is_under_way(
                    start,
                    next,
                    replies,
                    dpu,
                    dpu_machine_id,
                    setup,
                    request,
                )
            },
            DpuCreationStep::WritingTopology { machine, update } => {
                &&& is_new_dpu(dpu, position, dpu_machine_id, replies, machine)
                &&& oob_is_settled(dpu, position, dpu_machine_id, replies)
                &&& dpu.hardware_info is Ok
                &&& update.machine_id == dpu_machine_id
                &&& update.subject == TopologySubject::Dpu(position)
                &&& topology_is_under_way(
                    start,
                    next,
                    replies,
                    dpu_machine_id,
                    TopologySubject::Dpu(position),
                    update.step,
                    request,
                )
            },
        },
        Progress::Finished(Some(machine)) => dpu_is_complete(
            dpu,
            position,
            dpu_machine_id,
            replies,
            machine,
        ),
        Progress::Finished(None) => creation_answered(
            dpu,
            position,
            dpu_machine_id,
            replies,
            Request::FindMachine { machine_id: dpu_machine_id, include_predicted_host: false },
            Reply::Found(true),
        ),
        Progress::Failed(_) => true,
    }
}

/// Whether the DPU's machine is complete: new, with its interface settled and its topology written
/// from the DPU's own data, which the report gives.
pub open spec fn dpu_is_complete(
    dpu: ExploredDpu,
    position: usize,
    dpu_machine_id: MachineId,
    replies: Seq<Reply>,
    machine: DpuMachine,
) -> bool {
    &&& is_new_dpu(dpu, position, dpu_machine_id, replies, machine)
    &&& oob_is_settled(dpu, position, dpu_machine_id, replies)
    &&& dpu.hardware_info is Ok
    &&& topology_is_written(
        creation_begins(dpu_machine_id),
        creation_next(dpu, position),
        replies,
        dpu_machine_id,
        TopologySubject::Dpu(position),
    )
}

/// Creating a DPU's machine gives a complete one where the DPU had none, and nothing where it has
/// one already.
pub proof fn dpu_machines_are_created_whole(
    dpu: ExploredDpu,
    position: usize,
    dpu_machine_id: MachineId,
    replies: Seq<Reply>,
)
    ensures
        match after(creation_begins(dpu_machine_id), creation_next(dpu, position), replies) {
            Progress::Finished(Some(machine)) => dpu_is_complete(
                dpu,
                position,
                dpu_machine_id,
                replies,
                machine,
            ),
            Progress::Finished(None) => creation_answered(
                dpu,
                position,
                dpu_machine_id,
                replies,
                Request::FindMachine { machine_id: dpu_machine_id, include_predicted_host: false },
                Reply::Found(true),
            ),
            Progress::Ask(_, request) => request matches Request::CreateMachine {
                machine_id,
                with_declaration,
            } ==> machine_id == dpu_machine_id && !with_declaration,
            Progress::Failed(_) => true,
        },
{
    creation_always_holds(dpu, position, dpu_machine_id, replies);
}

proof fn creation_always_holds(
    dpu: ExploredDpu,
    position: usize,
    dpu_machine_id: MachineId,
    replies: Seq<Reply>,
)
    ensures
        creation_holds(
            dpu,
            position,
            dpu_machine_id,
            replies,
            after(creation_begins(dpu_machine_id), creation_next(dpu, position), replies),
        ),
    decreases replies.len(),
{
    if replies.len() > 0 {
        let start = creation_begins(dpu_machine_id);
        let next = creation_next(dpu, position);
        let before = replies.drop_last();
        creation_always_holds(dpu, position, dpu_machine_id, before);
        history_grows(start, next, replies);
        match after(start, next, before) {
            Progress::Ask(step, request) => match step {
                DpuCreationStep::SettingUpInterface { machine, setup } => {
                    setup_goes_on(start, next, replies, dpu, dpu_machine_id, setup, request);
                },
                DpuCreationStep::WritingTopology { machine, update } => {
                    setup_stays_done(start, next, replies, dpu, dpu_machine_id);
                    topology_goes_on(
                        start,
                        next,
                        replies,
                        dpu_machine_id,
                        TopologySubject::Dpu(position),
                        update.step,
                        request,
                    );
                },
                _ => {},
            },
            Progress::Finished(Some(_)) => {
                setup_stays_done(start, next, replies, dpu, dpu_machine_id);
                topology_stays_written(
                    start,
                    next,
                    replies,
                    dpu_machine_id,
                    TopologySubject::Dpu(position),
                );
            },
            _ => {},
        }
    }
}

/// How the attaching of a DPU goes on.
pub open spec fn attach_next(
    dpu: ExploredDpu,
    dpu_machine_id: MachineId,
    known_host: Option<MachineId>,
) -> spec_fn(AttachStep, Reply) -> Progress<AttachStep, MachineId> {
    |step: AttachStep, reply: Reply| step.next(dpu, dpu_machine_id, known_host, reply)
}

/// Whether this was asked to attach a DPU, and answered so.
pub open spec fn attach_answered(
    dpu: ExploredDpu,
    dpu_machine_id: MachineId,
    known_host: Option<MachineId>,
    replies: Seq<Reply>,
    request: Request,
    reply: Reply,
) -> bool {
    answered(
        attach_start(dpu, dpu_machine_id),
        attach_next(dpu, dpu_machine_id, known_host),
        replies,
        request,
        reply,
    )
}

/// The MAC address by which the host sees the DPU, where the hardware data name it.
pub open spec fn host_side_mac(dpu: ExploredDpu) -> Option<MacAddress> {
    match dpu.hardware_info {
        Ok(hardware) => match hardware.factory_mac_address {
            Ok(mac) => Some(mac),
            Err(_) => None,
        },
        Err(_) => None,
    }
}

/// Whether this is the interface by which the host sees the DPU: found by the MAC address that the
/// hardware data name, nobody's, captured and linked to the DPU. `interface_id` is its id as it
/// was read again afterwards.
pub open spec fn is_host_side(
    dpu: ExploredDpu,
    dpu_machine_id: MachineId,
    known_host: Option<MachineId>,
    replies: Seq<Reply>,
    row: InterfaceRow,
) -> bool {
    &&& host_side_mac(dpu) is Some
    &&& row.machine_id is None
    &&& attach_answered(
        dpu,
        dpu_machine_id,
        known_host,
        replies,
        Request::FindOrCreateHostInterface {
            dpu_machine_id,
            mac_address: host_side_mac(dpu)->0,
        },
        Reply::Interface(Some(row)),
    )
}

/// Whether the interface was captured under the host-side MAC address.
pub open spec fn host_side_is_captured(
    dpu: ExploredDpu,
    dpu_machine_id: MachineId,
    known_host: Option<MachineId>,
    replies: Seq<Reply>,
    row: InterfaceRow,
) -> bool {
    &&& is_host_side(dpu, dpu_machine_id, known_host, replies, row)
    &&& attach_answered(
        dpu,
        dpu_machine_id,
        known_host,
        replies,
        Request::CaptureExpectedInterface {
            interface_id: row.id,
            mac_address: host_side_mac(dpu)->0,
        },
        Reply::Done,
    )
}

/// Whether the interface was linked to the DPU.
pub open spec fn host_side_is_linked(
    dpu: ExploredDpu,
    dpu_machine_id: MachineId,
    known_host: Option<MachineId>,
    replies: Seq<Reply>,
    row: InterfaceRow,
) -> bool {
    &&& host_side_is_captured(dpu, dpu_machine_id, known_host, replies, row)
    &&& attach_answered(
        dpu,
        dpu_machine_id,
        known_host,
        replies,
        Request::AssociateWithDpuMachine { interface_id: row.id, dpu_machine_id },
        Reply::Done,
    )
}

/// Whether the linked interface was read again and now goes by this id.
pub open spec fn host_side_goes_by(
    dpu: ExploredDpu,
    dpu_machine_id: MachineId,
    known_host: Option<MachineId>,
    replies: Seq<Reply>,
    interface_id: MachineInterfaceId,
) -> bool {
    exists|row: InterfaceRow, again: InterfaceRow| #[trigger]
        is_read_again(dpu, dpu_machine_id, known_host, replies, row, again) && again.id
            == interface_id
}

/// Whether the linked interface was read again.
pub open spec fn is_read_again(
    dpu: ExploredDpu,
    dpu_machine_id: MachineId,
    known_host: Option<MachineId>,
    replies: Seq<Reply>,
    row: InterfaceRow,
    again: InterfaceRow,
) -> bool {
    &&& host_side_is_linked(dpu, dpu_machine_id, known_host, replies, row)
    &&& attach_answered(
        dpu,
        dpu_machine_id,
        known_host,
        replies,
        Request::ReloadInterface { interface_id: row.id },
        Reply::Interface(Some(again)),
    )
}

/// Whether this is the host's machine: the known one, or else the one under the id that the DPU's
/// hardware data give the host, which was then created with the declared data.
pub open spec fn is_host_machine(
    dpu: ExploredDpu,
    known_host: Option<MachineId>,
    host: MachineId,
) -> bool {
    match known_host {
        Some(known) => host == known,
        None => dpu.hardware_info is Ok && dpu.hardware_info->Ok_0.host_machine_id == Ok::<
            MachineId,
            String,
        >(host),
    }
}

/// Whether the host's machine was created just now, with its topology.
pub open spec fn host_is_written(
    dpu: ExploredDpu,
    dpu_machine_id: MachineId,
    known_host: Option<MachineId>,
    replies: Seq<Reply>,
    host: MachineId,
) -> bool {
    &&& host_is_created(dpu, dpu_machine_id, known_host, replies, host)
    &&& topology_is_written(
        attach_start(dpu, dpu_machine_id),
        attach_next(dpu, dpu_machine_id, known_host),
        replies,
        host,
        TopologySubject::Host,
    )
}

/// Whether the host's machine was created just now.
pub open spec fn host_is_created(
    dpu: ExploredDpu,
    dpu_machine_id: MachineId,
    known_host: Option<MachineId>,
    replies: Seq<Reply>,
    host: MachineId,
) -> bool {
    exists|reply: Reply|
        {
            &&& reply is Config
            &&& #[trigger] attach_answered(
                dpu,
                dpu_machine_id,
                known_host,
                replies,
                Request::CreateMachine { machine_id: host, with_declaration: true },
                reply,
            )
        }
}

/// Whether the interface has its flag: secondary where the host had its machine already, primary
/// on the machine that was created with it.
pub open spec fn host_side_has_its_flag(
    dpu: ExploredDpu,
    dpu_machine_id: MachineId,
    known_host: Option<MachineId>,
    replies: Seq<Reply>,
    host: MachineId,
    interface_id: MachineInterfaceId,
) -> bool {
    &&& is_host_machine(dpu, known_host, host)
    &&& host_side_goes_by(dpu, dpu_machine_id, known_host, replies, interface_id)
    &&& known_host is None ==> host_is_written(dpu, dpu_machine_id, known_host, replies, host)
    &&& attach_answered(
        dpu,
        dpu_machine_id,
        known_host,
        replies,
        Request::SetPrimaryInterface { interface_id, primary: known_host is None },
        Reply::Done,
    )
}

/// Whether the DPU is attached to the host: the interface by which the host sees it has its flag
/// and is associated with the host's machine.
pub open spec fn dpu_is_attached(
    dpu: ExploredDpu,
    dpu_machine_id: MachineId,
    known_host: Option<MachineId>,
    replies: Seq<Reply>,
    host: MachineId,
) -> bool {
    exists|interface_id: MachineInterfaceId|
        {
            &&& #[trigger] host_side_has_its_flag(
                dpu,
                dpu_machine_id,
                known_host,
                replies,
                host,
                interface_id,
            )
            &&& attach_answered(
                dpu,
                dpu_machine_id,
                known_host,
                replies,
                Request::AssociateWithMachine { interface_id, machine_id: host },
                Reply::Done,
            )
        }
}

spec fn association_is_due(
    dpu: ExploredDpu,
    dpu_machine_id: MachineId,
    known_host: Option<MachineId>,
    replies: Seq<Reply>,
    host: MachineId,
    request: Request,
) -> bool {
    exists|interface_id: MachineInterfaceId|
        {
            &&& #[trigger] host_side_has_its_flag(
                dpu,
                dpu_machine_id,
                known_host,
                replies,
                host,
                interface_id,
            )
            &&& request == Request::AssociateWithMachine { interface_id, machine_id: host }
        }
}

spec fn attach_holds(
    dpu: ExploredDpu,
    dpu_machine_id: MachineId,
    known_host: Option<MachineId>,
    replies: Seq<Reply>,
    progress: Progress<AttachStep, MachineId>,
) -> bool {
    match progress {
        Progress::Ask(step, request) => match step {
            AttachStep::FindingInterface { mac_address } => {
                &&& host_side_mac(dpu) == Some(mac_address)
                &&& request == Request::FindOrCreateHostInterface { dpu_machine_id, mac_address }
            },
            AttachStep::Capturing { interface_id } => exists|row: InterfaceRow|
                {
                    &&& #[trigger] is_host_side(dpu, dpu_machine_id, known_host, replies, row)
                    &&& row.id == interface_id
                    &&& request == Request::CaptureExpectedInterface {
                        interface_id,
                        mac_address: host_side_mac(dpu)->0,
                    }
                },
            AttachStep::Linking { interface_id } => exists|row: InterfaceRow|
                {
                    &&& #[trigger] host_side_is_captured(
                        dpu,
                        dpu_machine_id,
                        known_host,
                        replies,
                        row,
                    )
                    &&& row.id == interface_id
                    &&& request == Request::AssociateWithDpuMachine { interface_id, dpu_machine_id }
                },
            AttachStep::Reloading => exists|row: InterfaceRow|
                {
                    &&& #[trigger] host_side_is_linked(
                        dpu,
                        dpu_machine_id,
                        known_host,
                        replies,
                        row,
                    )
                    &&& request == Request::ReloadInterface { interface_id: row.id }
                },
            AttachStep::SettingSecondary { interface_id, host_machine_id } => {
                &&& known_host == Some(host_machine_id)
                &&& host_side_goes_by(dpu, dpu_machine_id, known_host, replies, interface_id)
                &&& request == Request::SetPrimaryInterface { interface_id, primary: false }
            },
            AttachStep::CreatingHost { interface_id, host_machine_id } => {
                &&& known_host is None
                &&& is_host_machine(dpu, known_host, host_machine_id)
                &&& host_side_goes_by(dpu, dpu_machine_id, known_host, replies, interface_id)
                &&& request == Request::CreateMachine {
                    machine_id: host_machine_id,
                    with_declaration: true,
                }
            },
            AttachStep::WritingTopology { interface_id, host_machine_id, update } => {
                &&& known_host is None
                &&& is_host_machine(dpu, known_host, host_machine_id)
                &&& host_side_goes_by(dpu, dpu_machine_id, known_host, replies, interface_id)
                &&& host_is_created(dpu, dpu_machine_id, known_host, replies, host_machine_id)
                &&& update.machine_id == host_machine_id
                &&& update.subject == TopologySubject::Host
                &&& topology_is_under_way(
                    attach_start(dpu, dpu_machine_id),
                    attach_next(dpu, dpu_machine_id, known_host),
                    replies,
                    host_machine_id,
                    TopologySubject::Host,
                    update.step,
                    request,
                )
            },
            AttachStep::SettingPrimary { interface_id, host_machine_id } => {
                &&& known_host is None
                &&& is_host_machine(dpu, known_host, host_machine_id)
                &&& host_side_goes_by(dpu, dpu_machine_id, known_host, replies, interface_id)
                &&& host_is_written(dpu, dpu_machine_id, known_host, replies, host_machine_id)
                &&& request == Request::SetPrimaryInterface { interface_id, primary: true }
            },
            AttachStep::Associating { host_machine_id } => association_is_due(
                dpu,
                dpu_machine_id,
                known_host,
                replies,
                host_machine_id,
                request,
            ),
        },
        Progress::Finished(host) => dpu_is_attached(
            dpu,
            dpu_machine_id,
            known_host,
            replies,
            host,
        ),
        Progress::Failed(_) => true,
    }
}

proof fn attachment_grows(
    dpu: ExploredDpu,
    dpu_machine_id: MachineId,
    known_host: Option<MachineId>,
    replies: Seq<Reply>,
    host: MachineId,
    interface_id: MachineInterfaceId,
)
    requires
        replies.len() > 0,
    ensures
        host_side_goes_by(
            dpu,
            dpu_machine_id,
            known_host,
            replies.drop_last(),
            interface_id,
        ) ==> host_side_goes_by(dpu, dpu_machine_id, known_host, replies, interface_id),
        host_is_created(dpu, dpu_machine_id, known_host, replies.drop_last(), host)
            ==> host_is_created(dpu, dpu_machine_id, known_host, replies, host),
        host_is_written(dpu, dpu_machine_id, known_host, replies.drop_last(), host)
            ==> host_is_written(dpu, dpu_machine_id, known_host, replies, host),
        host_side_has_its_flag(
            dpu,
            dpu_machine_id,
            known_host,
            replies.drop_last(),
            host,
            interface_id,
        ) ==> host_side_has_its_flag(
            dpu,
            dpu_machine_id,
            known_host,
            replies,
            host,
            interface_id,
        ),
{
    let start = attach_start(dpu, dpu_machine_id);
    let next = attach_next(dpu, dpu_machine_id, known_host);
    let before = replies.drop_last();
    history_grows(start, next, replies);
    if host_side_goes_by(dpu, dpu_machine_id, known_host, before, interface_id) {
        let (row, again) = choose|row: InterfaceRow, again: InterfaceRow| #[trigger]
            is_read_again(dpu, dpu_machine_id, known_host, before, row, again) && again.id
                == interface_id;
        assert(is_read_again(dpu, dpu_machine_id, known_host, replies, row, again));
    }
    if host_is_created(dpu, dpu_machine_id, known_host, before, host) {
        let reply = choose|reply: Reply|
            {
                &&& reply is Config
                &&& #[trigger] attach_answered(
                    dpu,
                    dpu_machine_id,
                    known_host,
                    before,
                    Request::CreateMachine { machine_id: host, with_declaration: true },
                    reply,
                )
            };
        assert(attach_answered(
            dpu,
            dpu_machine_id,
            known_host,
            replies,
            Request::CreateMachine { machine_id: host, with_declaration: true },
            reply,
        ));
    }
    if host_is_written(dpu, dpu_machine_id, known_host, before, host) {
        topology_stays_written(start, next, replies, host, TopologySubject::Host);
    }
}

proof fn attach_goes_on(
    dpu: ExploredDpu,
    dpu_machine_id: MachineId,
    known_host: Option<MachineId>,
    replies: Seq<Reply>,
)
    requires
        replies.len() > 0,
        attach_holds(
            dpu,
            dpu_machine_id,
            known_host,
            replies.drop_last(),
            after(
                attach_start(dpu, dpu_machine_id),
                attach_next(dpu, dpu_machine_id, known_host),
                replies.drop_last(),
            ),
        ),
    ensures
        attach_holds(
            dpu,
            dpu_machine_id,
            known_host,
            replies,
            after(
                attach_start(dpu, dpu_machine_id),
                attach_next(dpu, dpu_machine_id, known_host),
                replies,
            ),
        ),
{
    let start = attach_start(dpu, dpu_machine_id);
    let next = attach_next(dpu, dpu_machine_id, known_host);
    let before = replies.drop_last();
    let reply = replies.last();
    history_grows(start, next, replies);
    match after(start, next, before) {
        Progress::Ask(step, request) => match step {
            AttachStep::FindingInterface { mac_address } => {
                if let Reply::Interface(Some(row)) = reply {
                    if row.machine_id is None {
                        assert(is_host_side(dpu, dpu_machine_id, known_host, replies, row));
                    }
                }
            },
            AttachStep::Capturing { interface_id } => {
                let row = choose|row: InterfaceRow|
                    {
                        &&& #[trigger] is_host_side(dpu, dpu_machine_id, known_host, before, row)
                        &&& row.id == interface_id
                        &&& request == Request::CaptureExpectedInterface {
                            interface_id,
                            mac_address: host_side_mac(dpu)->0,
                        }
                    };
                if reply is Done {
                    assert(host_side_is_captured(dpu, dpu_machine_id, known_host, replies, row));
                }
            },
            AttachStep::Linking { interface_id } => {
                let row = choose|row: InterfaceRow|
                    {
                        &&& #[trigger] host_side_is_captured(
                            dpu,
                            dpu_machine_id,
                            known_host,
                            before,
                            row,
                        )
                        &&& row.id == interface_id
                        &&& request == Request::AssociateWithDpuMachine {
                            interface_id,
                            dpu_machine_id,
                        }
                    };
                if reply is Done {
                    assert(host_side_is_linked(dpu, dpu_machine_id, known_host, replies, row));
                }
            },
            AttachStep::Reloading => {
                let row = choose|row: InterfaceRow|
                    {
                        &&& #[trigger] host_side_is_linked(
                            dpu,
                            dpu_machine_id,
                            known_host,
                            before,
                            row,
                        )
                        &&& request == Request::ReloadInterface { interface_id: row.id }
                    };
                if let Reply::Interface(Some(again)) = reply {
                    assert(is_read_again(
                        dpu,
                        dpu_machine_id,
                        known_host,
                        replies,
                        row,
                        again,
                    ));
                    assert(host_side_goes_by(
                        dpu,
                        dpu_machine_id,
                        known_host,
                        replies,
                        again.id,
                    ));
                }
            },
            AttachStep::SettingSecondary { interface_id, host_machine_id } => {
                attachment_grows(
                    dpu,
                    dpu_machine_id,
                    known_host,
                    replies,
                    host_machine_id,
                    interface_id,
                );
                if reply is Done {
                    assert(host_side_has_its_flag(
                        dpu,
                        dpu_machine_id,
                        known_host,
                        replies,
                        host_machine_id,
                        interface_id,
                    ));
                }
            },
            AttachStep::CreatingHost { interface_id, host_machine_id } => {
                attachment_grows(
                    dpu,
                    dpu_machine_id,
                    known_host,
                    replies,
                    host_machine_id,
                    interface_id,
                );
                if reply is Config {
                    assert(attach_answered(
                        dpu,
                        dpu_machine_id,
                        known_host,
                        replies,
                        Request::CreateMachine {
                            machine_id: host_machine_id,
                            with_declaration: true,
                        },
                        reply,
                    ));
                }
            },
            AttachStep::WritingTopology { interface_id, host_machine_id, update } => {
                attachment_grows(
                    dpu,
                    dpu_machine_id,
                    known_host,
                    replies,
                    host_machine_id,
                    interface_id,
                );
                topology_goes_on(
                    start,
                    next,
                    replies,
                    host_machine_id,
                    TopologySubject::Host,
                    update.step,
                    request,
                );
            },
            AttachStep::SettingPrimary { interface_id, host_machine_id } => {
                attachment_grows(
                    dpu,
                    dpu_machine_id,
                    known_host,
                    replies,
                    host_machine_id,
                    interface_id,
                );
                if reply is Done {
                    assert(host_side_has_its_flag(
                        dpu,
                        dpu_machine_id,
                        known_host,
                        replies,
                        host_machine_id,
                        interface_id,
                    ));
                }
            },
            AttachStep::Associating { host_machine_id } => {
                let interface_id = choose|interface_id: MachineInterfaceId|
                    {
                        &&& #[trigger] host_side_has_its_flag(
                            dpu,
                            dpu_machine_id,
                            known_host,
                            before,
                            host_machine_id,
                            interface_id,
                        )
                        &&& request == Request::AssociateWithMachine {
                            interface_id,
                            machine_id: host_machine_id,
                        }
                    };
                attachment_grows(
                    dpu,
                    dpu_machine_id,
                    known_host,
                    replies,
                    host_machine_id,
                    interface_id,
                );
            },
        },
        Progress::Finished(host) => {
            let interface_id = choose|interface_id: MachineInterfaceId|
                {
                    &&& #[trigger] host_side_has_its_flag(
                        dpu,
                        dpu_machine_id,
                        known_host,
                        before,
                        host,
                        interface_id,
                    )
                    &&& attach_answered(
                        dpu,
                        dpu_machine_id,
                        known_host,
                        before,
                        Request::AssociateWithMachine { interface_id, machine_id: host },
                        Reply::Done,
                    )
                };
            attachment_grows(dpu, dpu_machine_id, known_host, replies, host, interface_id);
        },
        Progress::Failed(_) => {},
    }
}

proof fn attach_always_holds(
    dpu: ExploredDpu,
    dpu_machine_id: MachineId,
    known_host: Option<MachineId>,
    replies: Seq<Reply>,
)
    ensures
        attach_holds(
            dpu,
            dpu_machine_id,
            known_host,
            replies,
            after(
                attach_start(dpu, dpu_machine_id),
                attach_next(dpu, dpu_machine_id, known_host),
                replies,
            ),
        ),
    decreases replies.len(),
{
    if replies.len() > 0 {
        attach_always_holds(dpu, dpu_machine_id, known_host, replies.drop_last());
        attach_goes_on(dpu, dpu_machine_id, known_host, replies);
    }
}

/// Attaching a DPU finishes with the host's machine once the interface by which the host sees the
/// DPU is that machine's. The first DPU has the host's machine created, with this interface as its
/// primary one; on a machine that is known it becomes a secondary one.
pub proof fn dpus_are_attached_to_their_host(
    dpu: ExploredDpu,
    dpu_machine_id: MachineId,
    known_host: Option<MachineId>,
    replies: Seq<Reply>,
)
    ensures
        match after(
            attach_start(dpu, dpu_machine_id),
            attach_next(dpu, dpu_machine_id, known_host),
            replies,
        ) {
            Progress::Finished(host) => dpu_is_attached(
                dpu,
                dpu_machine_id,
                known_host,
                replies,
                host,
            ),
            Progress::Ask(_, request) => {
                &&& request matches Request::CreateMachine { machine_id, with_declaration }
                    ==> known_host is None && with_declaration && is_host_machine(
                    dpu,
                    known_host,
                    machine_id,
                )
                &&& request matches Request::SetPrimaryInterface { primary, .. } ==> primary
                    == (known_host is None)
            },
            Progress::Failed(_) => true,
        },
{
    attach_always_holds(dpu, dpu_machine_id, known_host, replies);
}

/// An interface that belongs to a machine already is a contradiction, and so are hardware data
/// without the host-side MAC address: the DPU is not attached.
pub proof fn contradictions_end_the_attaching(
    dpu: ExploredDpu,
    dpu_machine_id: MachineId,
    known_host: Option<MachineId>,
    row: InterfaceRow,
)
    ensures
        dpu.hardware_info matches Err(text) ==> attach_start(dpu, dpu_machine_id) == Progress::<
            AttachStep,
            MachineId,
        >::Failed(IngestionError::InvalidReport(text)),
        dpu.hardware_info matches Ok(hardware) ==> (hardware.factory_mac_address matches Err(text)
            ==> attach_start(dpu, dpu_machine_id) == Progress::<AttachStep, MachineId>::Failed(
            IngestionError::FactoryMacMissing(text),
        )),
        host_side_mac(dpu) is Some && row.machine_id is Some ==> after(
            attach_start(dpu, dpu_machine_id),
            attach_next(dpu, dpu_machine_id, known_host),
            seq![Reply::Interface(Some(row))],
        ) == Progress::<AttachStep, MachineId>::Failed(
            IngestionError::HostInterfaceAlreadyOwned { dpu_machine_id },
        ),
{
    reveal_with_fuel(after, 2);
    let replies = seq![Reply::Interface(Some(row))];
    assert(replies.drop_last() =~= Seq::<Reply>::empty());
}

} // verus!
