//! What the owning of a declared boot interface is for, over all runs: the interface becomes the
//! host's only primary one, now or when it appears.
use vstd::prelude::*;

use crate::addresses::{MacAddress, MachineId};
use crate::expected_machine_data::ExpectedHostNic;
use crate::machine_creator::boot_nic::{boot_nic_start, BootNicOwnership, BootNicStep};
use crate::machine_creator::requests::{
    FoundKind, IngestionError, InterfaceRow, Prediction, Progress, Reply, Request,
};
use crate::machine_creator::zero_dpu::{declared_interface, HostFacts};
use crate::machine_creator::zero_dpu_laws::{
    declaration_is_the_first, interface_id_is_the_first, is_first_declared, is_first_id,
};

verus! {

/// Where the owning stands after these replies.
pub open spec fn boot_nic_after(
    facts: HostFacts,
    host: MachineId,
    replies: Seq<Reply>,
) -> Progress<BootNicOwnership, ()>
    decreases replies.len(),
{
    if replies.len() == 0 {
        boot_nic_start(facts, host)
    } else {
        match boot_nic_after(facts, host, replies.drop_last()) {
            Progress::Ask(ownership, _) => ownership.next(facts, replies.last()),
            done => done,
        }
    }
}

/// Whether the owning makes this request after the first `n` of these replies.
pub open spec fn asks_at(
    facts: HostFacts,
    host: MachineId,
    replies: Seq<Reply>,
    n: int,
    request: Request,
) -> bool {
    boot_nic_after(facts, host, replies.subrange(0, n)) matches Progress::Ask(_, made) && made
        == request
}

/// Whether the owning makes this request at some point and gets this reply.
#[verifier::opaque]
pub open spec fn answered(
    facts: HostFacts,
    host: MachineId,
    replies: Seq<Reply>,
    request: Request,
    reply: Reply,
) -> bool {
    exists|n: int|
        {
            &&& 0 <= n < replies.len()
            &&& #[trigger] asks_at(facts, host, replies, n, request)
            &&& replies[n] == reply
        }
}

/// What is predicted of a boot interface: it will be the host's primary one, with its id from the
/// report and its declaration, which then says that it is primary.
pub open spec fn is_boot_prediction(
    facts: HostFacts,
    host: MachineId,
    mac_address: MacAddress,
    prediction: Prediction,
) -> bool {
    &&& prediction.machine_id == host
    &&& prediction.mac_address == mac_address
    &&& prediction.primary_interface
    &&& is_first_id(facts.interface_ids@, mac_address, prediction.boot_interface_id)
    &&& match prediction.expected_interface {
        None => is_first_declared(facts.host_nics@, mac_address, None),
        Some(nic) => exists|declared: ExpectedHostNic|
            {
                &&& #[trigger] is_first_declared(facts.host_nics@, mac_address, Some(declared))
                &&& nic == (ExpectedHostNic { primary: Some(true), ..declared })
            },
    }
}

/// Whether the row of the boot interface was found and its declaration captured.
pub open spec fn row_is_captured(
    facts: HostFacts,
    host: MachineId,
    replies: Seq<Reply>,
    mac_address: MacAddress,
    row: InterfaceRow,
) -> bool {
    &&& answered(
        facts,
        host,
        replies,
        Request::FindInterface { mac_address },
        Reply::Interface(Some(row)),
    )
    &&& answered(
        facts,
        host,
        replies,
        Request::CaptureExpectedInterface { interface_id: row.id, mac_address },
        Reply::Done,
    )
}

/// Whether a row of nobody has become the host's only primary one, but for its association: all
/// other interfaces of the host are demoted, and the row is primary or is made so.
pub open spec fn row_is_made_primary(
    facts: HostFacts,
    host: MachineId,
    replies: Seq<Reply>,
    row: InterfaceRow,
) -> bool {
    &&& answered(
        facts,
        host,
        replies,
        Request::DemotePrimaryInterfaces { machine_id: host },
        Reply::Done,
    )
    &&& row.primary_interface || answered(
        facts,
        host,
        replies,
        Request::SetPrimaryInterface { interface_id: row.id, primary: true },
        Reply::Done,
    )
}

/// Whether the boot interface is owned through its row: the row is the host's already, or it was
/// nobody's, was made the host's only primary one and was associated with the host.
pub open spec fn owned_by_row(
    facts: HostFacts,
    host: MachineId,
    replies: Seq<Reply>,
    mac_address: MacAddress,
    row: InterfaceRow,
) -> bool {
    &&& row_is_captured(facts, host, replies, mac_address, row)
    &&& match row.machine_id {
        Some(owner) => owner.text@ == host.text@,
        None => {
            &&& row_is_made_primary(facts, host, replies, row)
            &&& answered(
                facts,
                host,
                replies,
                Request::AssociateWithMachine { interface_id: row.id, machine_id: host },
                Reply::Done,
            )
        },
    }
}

/// Whether the boot interface has no row and is predicted to be the host's.
pub open spec fn owned_by_prediction(
    facts: HostFacts,
    host: MachineId,
    replies: Seq<Reply>,
    mac_address: MacAddress,
) -> bool {
    &&& answered(
        facts,
        host,
        replies,
        Request::FindInterface { mac_address },
        Reply::Interface(None),
    )
    &&& {
        ||| exists|owner: MachineId|
            {
                &&& #[trigger] answered(
                    facts,
                    host,
                    replies,
                    Request::FindPrediction { mac_address },
                    Reply::PredictedFor(Some(owner)),
                )
                &&& owner.text@ == host.text@
            }
        ||| exists|prediction: Prediction|
            {
                &&& #[trigger] is_boot_prediction(facts, host, mac_address, prediction)
                &&& answered(
                    facts,
                    host,
                    replies,
                    Request::FindPrediction { mac_address },
                    Reply::PredictedFor(None),
                )
                &&& answered(
                    facts,
                    host,
                    replies,
                    Request::CreatePrediction { prediction },
                    Reply::Done,
                )
            }
    }
}

/// What holds at each step of the owning, by what was asked and answered before.
spec fn step_holds(
    facts: HostFacts,
    host: MachineId,
    replies: Seq<Reply>,
    ownership: BootNicOwnership,
    request: Request,
) -> bool {
    let mac_address = ownership.mac_address;
    &&& ownership.host_machine_id == host
    &&& facts.declared_primary == Some(mac_address)
    &&& match ownership.step {
        BootNicStep::FindingInterface => request == Request::FindInterface { mac_address },
        BootNicStep::Capturing { row } => {
            &&& answered(
                facts,
                host,
                replies,
                Request::FindInterface { mac_address },
                Reply::Interface(Some(row)),
            )
            &&& request == Request::CaptureExpectedInterface { interface_id: row.id, mac_address }
        },
        BootNicStep::Demoting { row } => {
            &&& row_is_captured(facts, host, replies, mac_address, row)
            &&& row.machine_id is None
            &&& request == Request::DemotePrimaryInterfaces { machine_id: host }
        },
        BootNicStep::Promoting { row } => {
            &&& row_is_captured(facts, host, replies, mac_address, row)
            &&& row.machine_id is None
            &&& answered(
                facts,
                host,
                replies,
                Request::DemotePrimaryInterfaces { machine_id: host },
                Reply::Done,
            )
            &&& request == Request::SetPrimaryInterface { interface_id: row.id, primary: true }
        },
        BootNicStep::Adopting => exists|row: InterfaceRow|
            {
                &&& #[trigger] row_is_captured(facts, host, replies, mac_address, row)
                &&& row.machine_id is None
                &&& row_is_made_primary(facts, host, replies, row)
                &&& request == Request::AssociateWithMachine {
                    interface_id: row.id,
                    machine_id: host,
                }
            },
        BootNicStep::FindingPrediction => {
            &&& answered(
                facts,
                host,
                replies,
                Request::FindInterface { mac_address },
                Reply::Interface(None),
            )
            &&& request == Request::FindPrediction { mac_address }
        },
        BootNicStep::Predicting => {
            &&& answered(
                facts,
                host,
                replies,
                Request::FindInterface { mac_address },
                Reply::Interface(None),
            )
            &&& answered(
                facts,
                host,
                replies,
                Request::FindPrediction { mac_address },
                Reply::PredictedFor(None),
            )
            &&& request is CreatePrediction
            &&& is_boot_prediction(facts, host, mac_address, request->prediction)
        },
    }
}

/// Whether the declared boot interface, where there is one, is the host's.
pub open spec fn boot_nic_is_owned(
    facts: HostFacts,
    host: MachineId,
    replies: Seq<Reply>,
) -> bool {
    match facts.declared_primary {
        None => true,
        Some(mac_address) => {
            ||| exists|row: InterfaceRow| #[trigger]
                owned_by_row(facts, host, replies, mac_address, row)
            ||| owned_by_prediction(facts, host, replies, mac_address)
        },
    }
}

spec fn holds_after(facts: HostFacts, host: MachineId, replies: Seq<Reply>) -> bool {
    match boot_nic_after(facts, host, replies) {
        Progress::Ask(ownership, request) => step_holds(facts, host, replies, ownership, request),
        Progress::Finished(_) => boot_nic_is_owned(facts, host, replies),
        Progress::Failed(_) => true,
    }
}

proof fn history_grows(facts: HostFacts, host: MachineId, replies: Seq<Reply>)
    requires
        replies.len() > 0,
    ensures
        forall|request: Request, reply: Reply| #[trigger]
            answered(facts, host, replies.drop_last(), request, reply) ==> answered(
                facts,
                host,
                replies,
                request,
                reply,
            ),
        boot_nic_after(facts, host, replies.drop_last()) matches Progress::Ask(_, request)
            ==> answered(facts, host, replies, request, replies.last()),
{
    reveal(answered);
    let before = replies.drop_last();
    assert forall|request: Request, reply: Reply| #[trigger]
        answered(facts, host, before, request, reply) implies answered(
        facts,
        host,
        replies,
        request,
        reply,
    ) by {
        let n = choose|n: int|
            {
                &&& 0 <= n < before.len()
                &&& #[trigger] asks_at(facts, host, before, n, request)
                &&& before[n] == reply
            };
        assert(before.subrange(0, n) =~= replies.subrange(0, n));
        assert(asks_at(facts, host, replies, n, request));
        assert(replies[n] == reply);
    }
    assert(replies.subrange(0, before.len() as int) =~= before);
    if let Progress::Ask(_, request) = boot_nic_after(facts, host, before) {
        assert(asks_at(facts, host, replies, before.len() as int, request));
    }
}

proof fn owned_stays_owned(facts: HostFacts, host: MachineId, replies: Seq<Reply>)
    requires
        replies.len() > 0,
        boot_nic_is_owned(facts, host, replies.drop_last()),
    ensures
        boot_nic_is_owned(facts, host, replies),
{
    let before = replies.drop_last();
    history_grows(facts, host, replies);
    if let Some(mac_address) = facts.declared_primary {
        if exists|row: InterfaceRow| #[trigger] owned_by_row(facts, host, before, mac_address, row) {
            let row = choose|row: InterfaceRow| #[trigger]
                owned_by_row(facts, host, before, mac_address, row);
            assert(owned_by_row(facts, host, replies, mac_address, row));
        } else if exists|owner: MachineId|
            {
                &&& #[trigger] answered(
                    facts,
                    host,
                    before,
                    Request::FindPrediction { mac_address },
                    Reply::PredictedFor(Some(owner)),
                )
                &&& owner.text@ == host.text@
            } {
            let owner = choose|owner: MachineId|
                {
                    &&& #[trigger] answered(
                        facts,
                        host,
                        before,
                        Request::FindPrediction { mac_address },
                        Reply::PredictedFor(Some(owner)),
                    )
                    &&& owner.text@ == host.text@
                };
            assert(answered(
                facts,
                host,
                replies,
                Request::FindPrediction { mac_address },
                Reply::PredictedFor(Some(owner)),
            ));
        } else {
            let prediction = choose|prediction: Prediction|
                {
                    &&& #[trigger] is_boot_prediction(facts, host, mac_address, prediction)
                    &&& answered(
                        facts,
                        host,
                        before,
                        Request::FindPrediction { mac_address },
                        Reply::PredictedFor(None),
                    )
                    &&& answered(
                        facts,
                        host,
                        before,
                        Request::CreatePrediction { prediction },
                        Reply::Done,
                    )
                };
            assert(is_boot_prediction(facts, host, mac_address, prediction));
        }
    }
}

proof fn always_holds(facts: HostFacts, host: MachineId, replies: Seq<Reply>)
    ensures
        holds_after(facts, host, replies),
    decreases replies.len(),
{
    if replies.len() > 0 {
        let before = replies.drop_last();
        let reply = replies.last();
        always_holds(facts, host, before);
        history_grows(facts, host, replies);
        match boot_nic_after(facts, host, before) {
            Progress::Ask(ownership, request) => {
                let mac_address = ownership.mac_address;
                match ownership.step {
                    BootNicStep::Capturing { row } => {
                        if reply is Done {
                            assert(row_is_captured(facts, host, replies, mac_address, row));
                            if row.machine_id is Some && row.machine_id->0.same_as(host) {
                                assert(owned_by_row(facts, host, replies, mac_address, row));
                            }
                        }
                    },
                    BootNicStep::Demoting { row } => {
                        assert(row_is_captured(facts, host, replies, mac_address, row));
                    },
                    BootNicStep::Promoting { row } => {
                        assert(row_is_captured(facts, host, replies, mac_address, row));
                    },
                    BootNicStep::Adopting => {
                        if reply is Done {
                            let row = choose|row: InterfaceRow|
                                {
                                    &&& #[trigger] row_is_captured(
                                        facts,
                                        host,
                                        before,
                                        mac_address,
                                        row,
                                    )
                                    &&& row.machine_id is None
                                    &&& row_is_made_primary(facts, host, before, row)
                                    &&& request == Request::AssociateWithMachine {
                                        interface_id: row.id,
                                        machine_id: host,
                                    }
                                };
                            assert(owned_by_row(facts, host, replies, mac_address, row));
                        }
                    },
                    BootNicStep::FindingPrediction => {
                        interface_id_is_the_first(facts.interface_ids@, mac_address);
                        declaration_is_the_first(facts.host_nics@, mac_address);
                        if let Some(nic) = declared_interface(facts.host_nics@, mac_address) {
                            assert(is_first_declared(facts.host_nics@, mac_address, Some(nic)));
                        }
                        if let Reply::PredictedFor(Some(owner)) = reply {
                            assert(answered(
                                facts,
                                host,
                                replies,
                                Request::FindPrediction { mac_address },
                                Reply::PredictedFor(Some(owner)),
                            ));
                        }
                    },
                    BootNicStep::Predicting => {
                        if reply is Done {
                            let prediction = request->prediction;
                            assert(is_boot_prediction(facts, host, mac_address, prediction));
                            assert(answered(
                                facts,
                                host,
                                replies,
                                Request::CreatePrediction { prediction },
                                Reply::Done,
                            ));
                            assert(owned_by_prediction(facts, host, replies, mac_address));
                        }
                    },
                    _ => {},
                }
            },
            Progress::Finished(_) => owned_stays_owned(facts, host, replies),
            Progress::Failed(_) => {},
        }
        match boot_nic_after(facts, host, replies) {
            Progress::Ask(ownership, request) => {
                assert(step_holds(facts, host, replies, ownership, request));
            },
            Progress::Finished(_) => {
                if let Some(mac_address) = facts.declared_primary {
                    assert((exists|row: InterfaceRow| #[trigger]
                        owned_by_row(facts, host, replies, mac_address, row))
                        || owned_by_prediction(facts, host, replies, mac_address));
                }
            },
            Progress::Failed(_) => {},
        }
    }
}

/// The owning finishes only with the declared boot interface already the host's, made its only
/// primary one and associated with it, or predicted to be its primary one.
pub proof fn boot_nic_ends_up_owned(facts: HostFacts, host: MachineId, replies: Seq<Reply>)
    requires
        boot_nic_after(facts, host, replies) is Finished,
        facts.declared_primary is Some,
    ensures
        ({
            let mac_address = facts.declared_primary->0;
            ||| exists|row: InterfaceRow| #[trigger]
                owned_by_row(facts, host, replies, mac_address, row)
            ||| owned_by_prediction(facts, host, replies, mac_address)
        }),
{
    always_holds(facts, host, replies);
}

/// Whatever the owning asks concerns the declared interface and the host: a prediction is of the
/// declared interface as the host's primary one, an interface is only ever made primary, after
/// all others of the host were demoted, and only a row of nobody is associated, with the host.
pub proof fn boot_nic_requests_are_of_the_declared_interface(
    facts: HostFacts,
    host: MachineId,
    replies: Seq<Reply>,
)
    requires
        boot_nic_after(facts, host, replies) is Ask,
    ensures
        facts.declared_primary is Some,
        ({
            let mac_address = facts.declared_primary->0;
            match boot_nic_after(facts, host, replies)->Ask_1 {
                Request::CreatePrediction { prediction } => is_boot_prediction(
                    facts,
                    host,
                    mac_address,
                    prediction,
                ),
                Request::SetPrimaryInterface { interface_id, primary } => {
                    &&& primary
                    &&& answered(
                        facts,
                        host,
                        replies,
                        Request::DemotePrimaryInterfaces { machine_id: host },
                        Reply::Done,
                    )
                    &&& exists|row: InterfaceRow| #[trigger]
                        row_is_captured(facts, host, replies, mac_address, row) && row.id
                            == interface_id && row.machine_id is None
                },
                Request::AssociateWithMachine { interface_id, machine_id } => {
                    &&& machine_id == host
                    &&& exists|row: InterfaceRow| #[trigger]
                        row_is_captured(facts, host, replies, mac_address, row) && row.id
                            == interface_id && row.machine_id is None && row_is_made_primary(
                            facts,
                            host,
                            replies,
                            row,
                        )
                },
                Request::DemotePrimaryInterfaces { machine_id } => machine_id == host,
                Request::FindInterface { mac_address: mac } => mac == mac_address,
                Request::FindPrediction { mac_address: mac } => mac == mac_address,
                Request::CaptureExpectedInterface { mac_address: mac, .. } => mac == mac_address,
                _ => false,
            }
        }),
{
    always_holds(facts, host, replies);
}

/// A row or a prediction of another machine is a contradiction, which ends the owning.
pub proof fn foreign_boot_nics_are_refused(
    facts: HostFacts,
    host: MachineId,
    row: InterfaceRow,
    owner: MachineId,
)
    requires
        facts.declared_primary is Some,
        owner.text@ != host.text@,
        row.machine_id == Some(owner),
    ensures
        boot_nic_after(facts, host, seq![Reply::Interface(Some(row)), Reply::Done]) == Progress::<
            BootNicOwnership,
            (),
        >::Failed(
            IngestionError::AlreadyFound {
                kind: FoundKind::MachineInterface,
                mac_address: facts.declared_primary->0,
            },
        ),
        boot_nic_after(
            facts,
            host,
            seq![Reply::Interface(None), Reply::PredictedFor(Some(owner))],
        ) == Progress::<BootNicOwnership, ()>::Failed(
            IngestionError::AlreadyFound {
                kind: FoundKind::PredictedMachineInterface,
                mac_address: facts.declared_primary->0,
            },
        ),
{
    reveal_with_fuel(boot_nic_after, 3);
    let rows = seq![Reply::Interface(Some(row)), Reply::Done];
    assert(rows.drop_last() =~= seq![Reply::Interface(Some(row))]);
    assert(rows.drop_last().drop_last() =~= Seq::<Reply>::empty());
    let predictions = seq![Reply::Interface(None), Reply::PredictedFor(Some(owner))];
    assert(predictions.drop_last() =~= seq![Reply::Interface(None)]);
    assert(predictions.drop_last().drop_last() =~= Seq::<Reply>::empty());
}

} // verus!
