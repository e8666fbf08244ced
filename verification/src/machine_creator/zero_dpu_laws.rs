//! What the creation of a machine without DPUs is for, over all runs: a host that exists gets no
//! second machine, and a new machine owns every interface of its host, one of them primary.
use vstd::prelude::*;

use crate::addresses::{MacAddress, MachineId};
use crate::expected_machine::ExpectedInterfaceRole;
use crate::expected_machine_data::ExpectedHostNic;
use crate::exploration::interface_id_for;
use crate::machine_creator::laws::zero_dpu_after;
use crate::machine_creator::requests::{
    FoundKind, IngestionError, InterfaceRow, Prediction, Progress, Reply, Request, TopologySubject,
};
use crate::machine_creator::topology::TopologyStep;
use crate::machine_creator::zero_dpu::{
    declared_interface, zero_dpu_own, zero_dpu_own_following, HostFacts, Ownership, ZeroDpuStep,
};

verus! {

/// The request that the creation makes after the first `n` of these replies.
pub open spec fn asks_after(facts: HostFacts, replies: Seq<Reply>, n: int) -> Option<Request> {
    match zero_dpu_after(facts, replies.subrange(0, n)) {
        Progress::Ask(_, request) => Some(request),
        _ => None,
    }
}

/// Whether the creation makes this request at some point of these replies.
#[verifier::opaque]
pub open spec fn asked(facts: HostFacts, replies: Seq<Reply>, request: Request) -> bool {
    exists|n: int|
        0 <= n <= replies.len() && #[trigger] asks_after(facts, replies, n) == Some(request)
}

/// Whether the creation makes this request at some point and gets this reply.
#[verifier::opaque]
pub open spec fn answered(
    facts: HostFacts,
    replies: Seq<Reply>,
    request: Request,
    reply: Reply,
) -> bool {
    exists|n: int|
        {
            &&& 0 <= n < replies.len()
            &&& #[trigger] asks_after(facts, replies, n) == Some(request)
            &&& replies[n] == reply
        }
}

/// The interface id that a report gives for a MAC address.
pub open spec fn is_first_id(
    ids: Seq<(MacAddress, String)>,
    mac: MacAddress,
    id: Option<String>,
) -> bool {
    match id {
        Some(text) => exists|i: int|
            {
                &&& 0 <= i < ids.len()
                &&& #[trigger] ids[i] == (mac, text)
                &&& forall|k: int| 0 <= k < i ==> (#[trigger] ids[k]).0 != mac
            },
        None => forall|k: int| 0 <= k < ids.len() ==> (#[trigger] ids[k]).0 != mac,
    }
}

/// The first declaration of an interface with a MAC address.
pub open spec fn is_first_declared(
    nics: Seq<ExpectedHostNic>,
    mac: MacAddress,
    nic: Option<ExpectedHostNic>,
) -> bool {
    match nic {
        Some(nic) => exists|i: int|
            {
                &&& 0 <= i < nics.len()
                &&& #[trigger] nics[i] == nic
                &&& nic.mac_address == mac
                &&& forall|k: int| 0 <= k < i ==> (#[trigger] nics[k]).mac_address != mac
            },
        None => forall|k: int| 0 <= k < nics.len() ==> (#[trigger] nics[k]).mac_address != mac,
    }
}

/// The interface id for a MAC address is that of the first entry with this address.
pub proof fn interface_id_is_the_first(ids: Seq<(MacAddress, String)>, mac: MacAddress)
    ensures
        is_first_id(ids, mac, interface_id_for(ids, mac)),
    decreases ids.len(),
{
    if ids.len() > 0 && ids[0].0 != mac {
        let rest = ids.drop_first();
        interface_id_is_the_first(rest, mac);
        match interface_id_for(rest, mac) {
            Some(text) => {
                let i = choose|i: int|
                    {
                        &&& 0 <= i < rest.len()
                        &&& #[trigger] rest[i] == (mac, text)
                        &&& forall|k: int| 0 <= k < i ==> (#[trigger] rest[k]).0 != mac
                    };
                assert forall|k: int| 0 <= k < i + 1 implies (#[trigger] ids[k]).0 != mac by {
                    if k > 0 {
                        assert(rest[k - 1] == ids[k]);
                    }
                }
                assert(ids[i + 1] == (mac, text));
            },
            None => {
                assert forall|k: int| 0 <= k < ids.len() implies (#[trigger] ids[k]).0 != mac by {
                    if k > 0 {
                        assert(rest[k - 1] == ids[k]);
                    }
                }
            },
        }
    } else if ids.len() > 0 {
        assert(ids[0] == (mac, ids[0].1));
    }
}

/// The declaration of an interface is the first one that names its MAC address.
pub proof fn declaration_is_the_first(nics: Seq<ExpectedHostNic>, mac: MacAddress)
    ensures
        is_first_declared(nics, mac, declared_interface(nics, mac)),
    decreases nics.len(),
{
    if nics.len() > 0 && nics[0].mac_address != mac {
        let rest = nics.drop_first();
        declaration_is_the_first(rest, mac);
        match declared_interface(rest, mac) {
            Some(nic) => {
                let i = choose|i: int|
                    {
                        &&& 0 <= i < rest.len()
                        &&& #[trigger] rest[i] == nic
                        &&& nic.mac_address == mac
                        &&& forall|k: int| 0 <= k < i ==> (#[trigger] rest[k]).mac_address != mac
                    };
                assert forall|k: int| 0 <= k < i + 1 implies (#[trigger] nics[k]).mac_address
                    != mac by {
                    if k > 0 {
                        assert(rest[k - 1] == nics[k]);
                    }
                }
                assert(nics[i + 1] == nic);
            },
            None => {
                assert forall|k: int| 0 <= k < nics.len() implies (#[trigger] nics[k]).mac_address
                    != mac by {
                    if k > 0 {
                        assert(rest[k - 1] == nics[k]);
                    }
                }
            },
        }
    } else if nics.len() > 0 {
        assert(nics[0] == nics[0]);
    }
}

/// Neither a machine nor a prediction exists for any of the first `count` MAC addresses.
pub open spec fn unknown_so_far(facts: HostFacts, replies: Seq<Reply>, count: int) -> bool {
    forall|i: int|
        0 <= i < count && i < facts.mac_addresses@.len() ==> {
            &&& answered(
                facts,
                replies,
                Request::FindMachineByMac { mac_address: #[trigger] facts.mac_addresses@[i] },
                Reply::Found(false),
            )
            &&& answered(
                facts,
                replies,
                Request::FindPredictedInterfaces { mac_address: facts.mac_addresses@[i] },
                Reply::Found(false),
            )
        }
}

/// Where the id of a new machine comes from: it is the known one, or else the derived one.
pub open spec fn is_own_id(facts: HostFacts, replies: Seq<Reply>, machine_id: MachineId) -> bool {
    match facts.machine_id {
        Some(known) => machine_id == known,
        None => answered(facts, replies, Request::GenerateMachineId, Reply::Machine(machine_id)),
    }
}

/// Whether a new machine under this id may be created: nothing exists for any MAC address of the
/// host, and the id is the host's own and not taken.
pub open spec fn may_be_created(
    facts: HostFacts,
    replies: Seq<Reply>,
    machine_id: MachineId,
) -> bool {
    &&& unknown_so_far(facts, replies, facts.mac_addresses@.len() as int)
    &&& is_own_id(facts, replies, machine_id)
    &&& answered(
        facts,
        replies,
        Request::FindMachine { machine_id, include_predicted_host: true },
        Reply::Found(false),
    )
}

/// Whether the boot interface was settled as this: the declared one, or else the first that was
/// retained from an earlier life of the host, if any was.
pub open spec fn primary_is_settled(
    facts: HostFacts,
    replies: Seq<Reply>,
    primary_mac: Option<MacAddress>,
) -> bool {
    match (facts.declared_primary, primary_mac) {
        (Some(mac), _) => primary_mac == Some(mac),
        (None, Some(mac)) => exists|j: int|
            {
                &&& 0 <= j < facts.mac_addresses@.len()
                &&& #[trigger] facts.mac_addresses@[j] == mac
                &&& answered(
                    facts,
                    replies,
                    Request::FindRetainedBootInterface { mac_address: mac },
                    Reply::Found(true),
                )
                &&& not_retained(facts, replies, j)
            },
        (None, None) => not_retained(facts, replies, facts.mac_addresses@.len() as int),
    }
}

/// None of the first `count` interfaces was retained from an earlier life of the host.
pub open spec fn not_retained(facts: HostFacts, replies: Seq<Reply>, count: int) -> bool {
    forall|k: int|
        0 <= k < count && k < facts.mac_addresses@.len() ==> answered(
            facts,
            replies,
            Request::FindRetainedBootInterface {
                mac_address: #[trigger] facts.mac_addresses@[k],
            },
            Reply::Found(false),
        )
}

/// What is predicted of an interface without a row: it is the machine's, primary exactly if it is
/// the boot interface, with its id from the report and its declaration. A declaration of one of
/// the host's own interfaces says whether it is primary.
pub open spec fn is_prediction(
    facts: HostFacts,
    machine_id: MachineId,
    mac_address: MacAddress,
    primary: bool,
    prediction: Prediction,
) -> bool {
    &&& prediction.machine_id == machine_id
    &&& prediction.mac_address == mac_address
    &&& prediction.primary_interface == primary
    &&& is_first_id(facts.interface_ids@, mac_address, prediction.boot_interface_id)
    &&& match prediction.expected_interface {
        None => is_first_declared(facts.host_nics@, mac_address, None),
        Some(nic) => exists|declared: ExpectedHostNic|
            {
                &&& #[trigger] is_first_declared(facts.host_nics@, mac_address, Some(declared))
                &&& nic == (if declared.role == ExpectedInterfaceRole::Host {
                    ExpectedHostNic { primary: Some(primary), ..declared }
                } else {
                    declared
                })
            },
    }
}

/// Whether the row of an interface was brought into the machine's ownership: its declaration is
/// captured; it belongs to the machine already, or to nobody and is associated with the machine;
/// and it has the right flag, or gets it. An interface of a BMC that the machine has already is
/// never primary.
pub open spec fn row_is_owned(
    facts: HostFacts,
    replies: Seq<Reply>,
    machine_id: MachineId,
    mac_address: MacAddress,
    primary: bool,
    row: InterfaceRow,
) -> bool {
    &&& answered(
        facts,
        replies,
        Request::CaptureExpectedInterface { interface_id: row.id, mac_address },
        Reply::Done,
    )
    &&& match row.machine_id {
        Some(owner) => {
            &&& owner.text@ == machine_id.text@
            &&& flag_is_right(facts, replies, row, primary && !row.is_bmc)
        },
        None => {
            &&& flag_is_right(facts, replies, row, primary)
            &&& answered(
                facts,
                replies,
                Request::AssociateWithMachine { interface_id: row.id, machine_id },
                Reply::Done,
            )
        },
    }
}

/// Whether a row has this flag, or gets it.
pub open spec fn flag_is_right(
    facts: HostFacts,
    replies: Seq<Reply>,
    row: InterfaceRow,
    primary: bool,
) -> bool {
    row.primary_interface == primary || answered(
        facts,
        replies,
        Request::SetPrimaryInterface { interface_id: row.id, primary },
        Reply::Done,
    )
}

/// Whether an interface is owned by the machine: through its row, or through a prediction where
/// it has none.
pub open spec fn interface_is_owned(
    facts: HostFacts,
    replies: Seq<Reply>,
    machine_id: MachineId,
    primary_mac: Option<MacAddress>,
    mac_address: MacAddress,
) -> bool {
    let primary = primary_mac == Some(mac_address);
    ||| {
        &&& answered(
            facts,
            replies,
            Request::FindInterface { mac_address },
            Reply::Interface(None),
        )
        &&& exists|prediction: Prediction|
            {
                &&& #[trigger] is_prediction(facts, machine_id, mac_address, primary, prediction)
                &&& answered(
                    facts,
                    replies,
                    Request::CreatePrediction { prediction },
                    Reply::Done,
                )
            }
    }
    ||| exists|row: InterfaceRow|
        {
            &&& answered(
                facts,
                replies,
                Request::FindInterface { mac_address },
                Reply::Interface(Some(row)),
            )
            &&& #[trigger] row_is_owned(facts, replies, machine_id, mac_address, primary, row)
        }
}

/// The first `count` interfaces are owned by the machine.
pub open spec fn owned_so_far(
    facts: HostFacts,
    replies: Seq<Reply>,
    machine_id: MachineId,
    primary_mac: Option<MacAddress>,
    count: int,
) -> bool {
    forall|i: int|
        0 <= i < count && i < facts.mac_addresses@.len() ==> interface_is_owned(
            facts,
            replies,
            machine_id,
            primary_mac,
            #[trigger] facts.mac_addresses@[i],
        )
}

/// Whether the machine was created and its topology was written, from the host's data, with the
/// BMC's MAC address as it was found.
pub open spec fn machine_is_written(
    facts: HostFacts,
    replies: Seq<Reply>,
    machine_id: MachineId,
) -> bool {
    &&& asked(facts, replies, Request::CreateMachine { machine_id, with_declaration: true })
    &&& answered(
        facts,
        replies,
        Request::WriteTopology { machine_id, subject: TopologySubject::Host },
        Reply::Done,
    )
    &&& answered(facts, replies, Request::MarkTopologyUpdateNeeded { machine_id }, Reply::Done)
    &&& exists|bmc_mac: Option<MacAddress>| #[trigger]
        bmc_network_is_written(facts, replies, machine_id, bmc_mac)
}

/// Whether the BMC's network data were written with this MAC address, as it was found.
pub open spec fn bmc_network_is_written(
    facts: HostFacts,
    replies: Seq<Reply>,
    machine_id: MachineId,
    bmc_mac: Option<MacAddress>,
) -> bool {
    &&& answered(
        facts,
        replies,
        Request::EnrichBmcMac { machine_id, subject: TopologySubject::Host },
        Reply::Mac(bmc_mac),
    )
    &&& answered(
        facts,
        replies,
        Request::WriteBmcNetwork { machine_id, subject: TopologySubject::Host, bmc_mac },
        Reply::Done,
    )
}

/// What holds while interfaces are brought into ownership.
spec fn owning(facts: HostFacts, replies: Seq<Reply>, owner: Ownership) -> bool {
    &&& owner.index < facts.mac_addresses@.len()
    &&& owner.mac_address == facts.mac_addresses@[owner.index as int]
    &&& may_be_created(facts, replies, owner.machine_id)
    &&& machine_is_written(facts, replies, owner.machine_id)
    &&& primary_is_settled(facts, replies, owner.primary_mac)
    &&& owned_so_far(facts, replies, owner.machine_id, owner.primary_mac, owner.index as int)
}

/// The row that the current interface was found to have.
spec fn row_was_found(
    facts: HostFacts,
    replies: Seq<Reply>,
    owner: Ownership,
    row: InterfaceRow,
) -> bool {
    answered(
        facts,
        replies,
        Request::FindInterface { mac_address: owner.mac_address },
        Reply::Interface(Some(row)),
    )
}

/// The row of the current interface is found and captured.
spec fn row_was_captured(
    facts: HostFacts,
    replies: Seq<Reply>,
    owner: Ownership,
    row: InterfaceRow,
) -> bool {
    &&& row_was_found(facts, replies, owner, row)
    &&& answered(
        facts,
        replies,
        Request::CaptureExpectedInterface {
            interface_id: row.id,
            mac_address: owner.mac_address,
        },
        Reply::Done,
    )
}

/// What holds at each step of the creation, by what was asked and answered before.
spec fn step_holds(
    facts: HostFacts,
    replies: Seq<Reply>,
    step: ZeroDpuStep,
    request: Request,
) -> bool {
    let count = facts.mac_addresses@.len() as int;
    match step {
        ZeroDpuStep::FindingMachineByMac { index, mac_address } => {
            &&& index < count && mac_address == facts.mac_addresses@[index as int]
            &&& unknown_so_far(facts, replies, index as int)
            &&& request == Request::FindMachineByMac { mac_address }
        },
        ZeroDpuStep::FindingPredictions { index } => {
            &&& index < count
            &&& unknown_so_far(facts, replies, index as int)
            &&& answered(
                facts,
                replies,
                Request::FindMachineByMac { mac_address: facts.mac_addresses@[index as int] },
                Reply::Found(false),
            )
            &&& request == Request::FindPredictedInterfaces {
                mac_address: facts.mac_addresses@[index as int],
            }
        },
        ZeroDpuStep::GeneratingId => {
            &&& unknown_so_far(facts, replies, count)
            &&& facts.machine_id is None
            &&& request is GenerateMachineId
        },
        ZeroDpuStep::FindingMachine { machine_id } => {
            &&& unknown_so_far(facts, replies, count)
            &&& is_own_id(facts, replies, machine_id)
            &&& request == Request::FindMachine { machine_id, include_predicted_host: true }
        },
        ZeroDpuStep::CreatingMachine { machine_id } => {
            &&& may_be_created(facts, replies, machine_id)
            &&& request == Request::CreateMachine { machine_id, with_declaration: true }
        },
        ZeroDpuStep::WritingTopology { machine_id, update } => {
            let subject = TopologySubject::Host;
            let written = answered(
                facts,
                replies,
                Request::WriteTopology { machine_id, subject },
                Reply::Done,
            );
            let marked = answered(
                facts,
                replies,
                Request::MarkTopologyUpdateNeeded { machine_id },
                Reply::Done,
            );
            &&& may_be_created(facts, replies, machine_id)
            &&& asked(
                facts,
                replies,
                Request::CreateMachine { machine_id, with_declaration: true },
            )
            &&& update.machine_id == machine_id && update.subject == subject
            &&& match update.step {
                TopologyStep::Writing => request == Request::WriteTopology { machine_id, subject },
                TopologyStep::Marking => written && request
                    == Request::MarkTopologyUpdateNeeded { machine_id },
                TopologyStep::Enriching => written && marked && request
                    == Request::EnrichBmcMac { machine_id, subject },
                TopologyStep::WritingBmcNetwork => written && marked && request
                    is WriteBmcNetwork && {
                    let bmc_mac = request->bmc_mac;
                    &&& answered(
                        facts,
                        replies,
                        Request::EnrichBmcMac { machine_id, subject },
                        Reply::Mac(bmc_mac),
                    )
                    &&& request == Request::WriteBmcNetwork { machine_id, subject, bmc_mac }
                },
            }
        },
        ZeroDpuStep::FindingRetained { machine_id, index, mac_address } => {
            &&& index < count && mac_address == facts.mac_addresses@[index as int]
            &&& facts.declared_primary is None
            &&& may_be_created(facts, replies, machine_id)
            &&& machine_is_written(facts, replies, machine_id)
            &&& not_retained(facts, replies, index as int)
            &&& request == Request::FindRetainedBootInterface { mac_address }
        },
        ZeroDpuStep::FindingInterface { owner } => {
            &&& owning(facts, replies, owner)
            &&& request == Request::FindInterface { mac_address: owner.mac_address }
        },
        ZeroDpuStep::Capturing { owner, row } => {
            &&& owning(facts, replies, owner)
            &&& row_was_found(facts, replies, owner, row)
            &&& request == Request::CaptureExpectedInterface {
                interface_id: row.id,
                mac_address: owner.mac_address,
            }
        },
        ZeroDpuStep::Reconciling { owner } => {
            &&& owning(facts, replies, owner)
            &&& exists|row: InterfaceRow|
                {
                    &&& #[trigger] row_was_captured(facts, replies, owner, row)
                    &&& row.machine_id is Some
                    &&& row.machine_id->0.text@ == owner.machine_id.text@
                    &&& request == Request::SetPrimaryInterface {
                        interface_id: row.id,
                        primary: owner.primary_mac == Some(owner.mac_address) && !row.is_bmc,
                    }
                }
        },
        ZeroDpuStep::Demoting { owner, row } => {
            &&& owning(facts, replies, owner)
            &&& row_was_captured(facts, replies, owner, row)
            &&& row.machine_id is None
            &&& request == Request::SetPrimaryInterface {
                interface_id: row.id,
                primary: owner.primary_mac == Some(owner.mac_address),
            }
        },
        ZeroDpuStep::Adopting { owner } => {
            &&& owning(facts, replies, owner)
            &&& exists|row: InterfaceRow|
                {
                    &&& #[trigger] row_was_captured(facts, replies, owner, row)
                    &&& row.machine_id is None
                    &&& flag_is_right(
                        facts,
                        replies,
                        row,
                        owner.primary_mac == Some(owner.mac_address),
                    )
                    &&& request == Request::AssociateWithMachine {
                        interface_id: row.id,
                        machine_id: owner.machine_id,
                    }
                }
        },
        ZeroDpuStep::Predicting { owner } => {
            &&& owning(facts, replies, owner)
            &&& answered(
                facts,
                replies,
                Request::FindInterface { mac_address: owner.mac_address },
                Reply::Interface(None),
            )
            &&& request is CreatePrediction
            &&& is_prediction(
                facts,
                owner.machine_id,
                owner.mac_address,
                owner.primary_mac == Some(owner.mac_address),
                request->prediction,
            )
        },
    }
}

/// What holds of the creation after these replies.
spec fn holds_after(facts: HostFacts, replies: Seq<Reply>) -> bool {
    match zero_dpu_after(facts, replies) {
        Progress::Ask(step, request) => step_holds(facts, replies, step, request),
        Progress::Finished(Some(machine_id)) => new_machine_is_complete(
            facts,
            replies,
            machine_id,
        ),
        _ => true,
    }
}

/// Whether the creation is complete: the machine may be created and is written, and every
/// interface of the host is its own, with one boot interface settled before.
pub open spec fn new_machine_is_complete(
    facts: HostFacts,
    replies: Seq<Reply>,
    machine_id: MachineId,
) -> bool {
    &&& may_be_created(facts, replies, machine_id)
    &&& machine_is_written(facts, replies, machine_id)
    &&& exists|primary_mac: Option<MacAddress>|
        {
            &&& #[trigger] primary_is_settled(facts, replies, primary_mac)
            &&& owned_so_far(
                facts,
                replies,
                machine_id,
                primary_mac,
                facts.mac_addresses@.len() as int,
            )
        }
}

proof fn history_grows(facts: HostFacts, replies: Seq<Reply>)
    requires
        replies.len() > 0,
    ensures
        forall|request: Request| #[trigger]
            asked(facts, replies.drop_last(), request) ==> asked(facts, replies, request),
        forall|request: Request, reply: Reply| #[trigger]
            answered(facts, replies.drop_last(), request, reply) ==> answered(
                facts,
                replies,
                request,
                reply,
            ),
        zero_dpu_after(facts, replies.drop_last()) matches Progress::Ask(_, request) ==> asked(
            facts,
            replies,
            request,
        ) && answered(facts, replies, request, replies.last()),
{
    reveal(asked);
    reveal(answered);
    let before = replies.drop_last();
    assert forall|n: int| 0 <= n <= before.len() implies #[trigger] asks_after(facts, before, n)
        == asks_after(facts, replies, n) by {
        assert(before.subrange(0, n) =~= replies.subrange(0, n));
    }
    assert forall|request: Request| #[trigger] asked(facts, before, request) implies asked(
        facts,
        replies,
        request,
    ) by {
        let n = choose|n: int|
            0 <= n <= before.len() && #[trigger] asks_after(facts, before, n) == Some(request);
        assert(asks_after(facts, replies, n) == Some(request));
    }
    assert forall|request: Request, reply: Reply| #[trigger]
        answered(facts, before, request, reply) implies answered(
        facts,
        replies,
        request,
        reply,
    ) by {
        let n = choose|n: int|
            {
                &&& 0 <= n < before.len()
                &&& #[trigger] asks_after(facts, before, n) == Some(request)
                &&& before[n] == reply
            };
        assert(asks_after(facts, replies, n) == Some(request));
        assert(replies[n] == reply);
    }
    assert(replies.subrange(0, before.len() as int) =~= before);
    if let Progress::Ask(_, request) = zero_dpu_after(facts, before) {
        assert(asks_after(facts, replies, before.len() as int) == Some(request));
    }
}

proof fn ownership_grows(
    facts: HostFacts,
    replies: Seq<Reply>,
    machine_id: MachineId,
    primary_mac: Option<MacAddress>,
    count: int,
)
    requires
        replies.len() > 0,
    ensures
        may_be_created(facts, replies.drop_last(), machine_id) ==> may_be_created(
            facts,
            replies,
            machine_id,
        ),
        machine_is_written(facts, replies.drop_last(), machine_id) ==> machine_is_written(
            facts,
            replies,
            machine_id,
        ),
        primary_is_settled(facts, replies.drop_last(), primary_mac) ==> primary_is_settled(
            facts,
            replies,
            primary_mac,
        ),
        owned_so_far(facts, replies.drop_last(), machine_id, primary_mac, count) ==> owned_so_far(
            facts,
            replies,
            machine_id,
            primary_mac,
            count,
        ),
{
    let before = replies.drop_last();
    history_grows(facts, replies);
    if machine_is_written(facts, before, machine_id) {
        let bmc_mac = choose|bmc_mac: Option<MacAddress>| #[trigger]
            bmc_network_is_written(facts, before, machine_id, bmc_mac);
        assert(bmc_network_is_written(facts, replies, machine_id, bmc_mac));
    }
    if primary_is_settled(facts, before, primary_mac) && facts.declared_primary is None {
        if let Some(mac) = primary_mac {
            let j = choose|j: int|
                {
                    &&& 0 <= j < facts.mac_addresses@.len()
                    &&& #[trigger] facts.mac_addresses@[j] == mac
                    &&& answered(
                        facts,
                        before,
                        Request::FindRetainedBootInterface { mac_address: mac },
                        Reply::Found(true),
                    )
                    &&& not_retained(facts, before, j)
                };
            assert(not_retained(facts, replies, j));
            assert(facts.mac_addresses@[j] == mac);
        }
    }
    if owned_so_far(facts, before, machine_id, primary_mac, count) {
        assert forall|i: int|
            0 <= i < count && i < facts.mac_addresses@.len() implies interface_is_owned(
            facts,
            replies,
            machine_id,
            primary_mac,
            #[trigger] facts.mac_addresses@[i],
        ) by {
            one_stays_owned(facts, replies, machine_id, primary_mac, facts.mac_addresses@[i]);
        }
    }
}

proof fn one_stays_owned(
    facts: HostFacts,
    replies: Seq<Reply>,
    machine_id: MachineId,
    primary_mac: Option<MacAddress>,
    mac_address: MacAddress,
)
    requires
        replies.len() > 0,
        interface_is_owned(facts, replies.drop_last(), machine_id, primary_mac, mac_address),
    ensures
        interface_is_owned(facts, replies, machine_id, primary_mac, mac_address),
{
    let before = replies.drop_last();
    let primary = primary_mac == Some(mac_address);
    history_grows(facts, replies);
    if exists|row: InterfaceRow|
        {
            &&& answered(
                facts,
                before,
                Request::FindInterface { mac_address },
                Reply::Interface(Some(row)),
            )
            &&& #[trigger] row_is_owned(facts, before, machine_id, mac_address, primary, row)
        } {
        let row = choose|row: InterfaceRow|
            {
                &&& answered(
                    facts,
                    before,
                    Request::FindInterface { mac_address },
                    Reply::Interface(Some(row)),
                )
                &&& #[trigger] row_is_owned(facts, before, machine_id, mac_address, primary, row)
            };
        assert(row_is_owned(facts, replies, machine_id, mac_address, primary, row));
    } else {
        let prediction = choose|prediction: Prediction|
            {
                &&& #[trigger] is_prediction(facts, machine_id, mac_address, primary, prediction)
                &&& answered(
                    facts,
                    before,
                    Request::CreatePrediction { prediction },
                    Reply::Done,
                )
            };
        assert(is_prediction(facts, machine_id, mac_address, primary, prediction));
    }
}

proof fn row_gives_ownership(
    facts: HostFacts,
    replies: Seq<Reply>,
    owner: Ownership,
    row: InterfaceRow,
)
    requires
        row_was_found(facts, replies, owner, row),
        row_is_owned(
            facts,
            replies,
            owner.machine_id,
            owner.mac_address,
            owner.primary_mac == Some(owner.mac_address),
            row,
        ),
    ensures
        interface_is_owned(
            facts,
            replies,
            owner.machine_id,
            owner.primary_mac,
            owner.mac_address,
        ),
{
}

/// The current interface is owned: the next one follows, or the creation is complete.
proof fn next_interface_follows(facts: HostFacts, replies: Seq<Reply>, owner: Ownership)
    requires
        owning(facts, replies, owner),
        interface_is_owned(
            facts,
            replies,
            owner.machine_id,
            owner.primary_mac,
            owner.mac_address,
        ),
    ensures
        match zero_dpu_own_following(facts, owner) {
            Progress::Ask(step, request) => step_holds(facts, replies, step, request),
            Progress::Finished(Some(machine_id)) => new_machine_is_complete(
                facts,
                replies,
                machine_id,
            ),
            _ => false,
        },
{
    let next = owner.index + 1;
    assert(facts.mac_addresses@.len() == facts.mac_addresses.len());
    assert(owned_so_far(facts, replies, owner.machine_id, owner.primary_mac, next)) by {
        assert forall|i: int|
            0 <= i < next && i < facts.mac_addresses@.len() implies interface_is_owned(
            facts,
            replies,
            owner.machine_id,
            owner.primary_mac,
            #[trigger] facts.mac_addresses@[i],
        ) by {}
    }
    if next >= facts.mac_addresses@.len() {
        assert(primary_is_settled(facts, replies, owner.primary_mac));
    }
}

/// The machine is written and its boot interface is settled: its interfaces follow.
proof fn owning_follows(
    facts: HostFacts,
    replies: Seq<Reply>,
    machine_id: MachineId,
    primary_mac: Option<MacAddress>,
)
    requires
        may_be_created(facts, replies, machine_id),
        machine_is_written(facts, replies, machine_id),
        primary_is_settled(facts, replies, primary_mac),
    ensures
        match zero_dpu_own(facts, machine_id, primary_mac) {
            Progress::Ask(step, request) => step_holds(facts, replies, step, request),
            Progress::Finished(Some(machine_id)) => new_machine_is_complete(
                facts,
                replies,
                machine_id,
            ),
            _ => false,
        },
{
    assert(owned_so_far(facts, replies, machine_id, primary_mac, 0));
    if facts.mac_addresses@.len() == 0 {
        assert(primary_is_settled(facts, replies, primary_mac));
    }
}

proof fn step_leads_on(facts: HostFacts, replies: Seq<Reply>)
    requires
        replies.len() > 0,
        holds_after(facts, replies.drop_last()),
    ensures
        holds_after(facts, replies),
{
    let before = replies.drop_last();
    let reply = replies.last();
    history_grows(facts, replies);
    assert(facts.mac_addresses@.len() == facts.mac_addresses.len());
    match zero_dpu_after(facts, before) {
        Progress::Ask(step, request) => match step {
            ZeroDpuStep::FindingMachineByMac { .. } => {},
            ZeroDpuStep::FindingPredictions { index } => {
                assert(reply == Reply::Found(false) ==> unknown_so_far(
                    facts,
                    replies,
                    index + 1,
                ));
            },
            ZeroDpuStep::GeneratingId => {},
            ZeroDpuStep::FindingMachine { .. } => {},
            ZeroDpuStep::CreatingMachine { .. } => {},
            ZeroDpuStep::WritingTopology { machine_id, update } => {
                ownership_grows(facts, replies, machine_id, None, 0);
                if update.step is WritingBmcNetwork && reply is Done {
                    assert(bmc_network_is_written(
                        facts,
                        replies,
                        machine_id,
                        request->bmc_mac,
                    ));
                    if facts.declared_primary is Some || facts.mac_addresses@.len() == 0 {
                        owning_follows(facts, replies, machine_id, facts.declared_primary);
                    }
                }
            },
            ZeroDpuStep::FindingRetained { machine_id, index, mac_address } => {
                ownership_grows(facts, replies, machine_id, None, 0);
                if reply == Reply::Found(true) {
                    assert(not_retained(facts, replies, index as int));
                    assert(facts.mac_addresses@[index as int] == mac_address);
                    owning_follows(facts, replies, machine_id, Some(mac_address));
                } else if reply == Reply::Found(false) {
                    assert(not_retained(facts, replies, index + 1));
                    if index + 1 >= facts.mac_addresses@.len() {
                        owning_follows(facts, replies, machine_id, None);
                    }
                }
            },
            ZeroDpuStep::FindingInterface { owner } => {
                ownership_grows(
                    facts,
                    replies,
                    owner.machine_id,
                    owner.primary_mac,
                    owner.index as int,
                );
                interface_id_is_the_first(facts.interface_ids@, owner.mac_address);
                declaration_is_the_first(facts.host_nics@, owner.mac_address);
            },
            ZeroDpuStep::Capturing { owner, row } => {
                ownership_grows(
                    facts,
                    replies,
                    owner.machine_id,
                    owner.primary_mac,
                    owner.index as int,
                );
                let primary = owner.primary_mac == Some(owner.mac_address);
                if reply is Done {
                    assert(row_was_captured(facts, replies, owner, row));
                    if row.machine_id is Some && row.machine_id->0.same_as(owner.machine_id)
                        && row.primary_interface == (primary && !row.is_bmc) {
                        assert(row_is_owned(
                            facts,
                            replies,
                            owner.machine_id,
                            owner.mac_address,
                            primary,
                            row,
                        ));
                        row_gives_ownership(facts, replies, owner, row);
                        next_interface_follows(facts, replies, owner);
                    }
                }
            },
            ZeroDpuStep::Reconciling { owner } => {
                ownership_grows(
                    facts,
                    replies,
                    owner.machine_id,
                    owner.primary_mac,
                    owner.index as int,
                );
                if reply is Done {
                    let primary = owner.primary_mac == Some(owner.mac_address);
                    let row = choose|row: InterfaceRow|
                        {
                            &&& #[trigger] row_was_captured(facts, before, owner, row)
                            &&& row.machine_id is Some
                            &&& row.machine_id->0.text@ == owner.machine_id.text@
                            &&& request == Request::SetPrimaryInterface {
                                interface_id: row.id,
                                primary: owner.primary_mac == Some(owner.mac_address)
                                    && !row.is_bmc,
                            }
                        };
                    assert(row_is_owned(
                        facts,
                        replies,
                        owner.machine_id,
                        owner.mac_address,
                        primary,
                        row,
                    ));
                    next_interface_follows(facts, replies, owner);
                }
            },
            ZeroDpuStep::Demoting { owner, row } => {
                ownership_grows(
                    facts,
                    replies,
                    owner.machine_id,
                    owner.primary_mac,
                    owner.index as int,
                );
                assert(row_was_captured(facts, replies, owner, row));
            },
            ZeroDpuStep::Adopting { owner } => {
                ownership_grows(
                    facts,
                    replies,
                    owner.machine_id,
                    owner.primary_mac,
                    owner.index as int,
                );
                if reply is Done {
                    let primary = owner.primary_mac == Some(owner.mac_address);
                    let row = choose|row: InterfaceRow|
                        {
                            &&& #[trigger] row_was_captured(facts, before, owner, row)
                            &&& row.machine_id is None
                            &&& flag_is_right(
                                facts,
                                before,
                                row,
                                owner.primary_mac == Some(owner.mac_address),
                            )
                            &&& request == Request::AssociateWithMachine {
                                interface_id: row.id,
                                machine_id: owner.machine_id,
                            }
                        };
                    assert(row_is_owned(
                        facts,
                        replies,
                        owner.machine_id,
                        owner.mac_address,
                        primary,
                        row,
                    ));
                    next_interface_follows(facts, replies, owner);
                }
            },
            ZeroDpuStep::Predicting { owner } => {
                ownership_grows(
                    facts,
                    replies,
                    owner.machine_id,
                    owner.primary_mac,
                    owner.index as int,
                );
                if reply is Done {
                    assert(is_prediction(
                        facts,
                        owner.machine_id,
                        owner.mac_address,
                        owner.primary_mac == Some(owner.mac_address),
                        request->prediction,
                    ));
                    next_interface_follows(facts, replies, owner);
                }
            },
        },
        Progress::Finished(Some(machine_id)) => {
            let primary_mac = choose|primary_mac: Option<MacAddress>|
                {
                    &&& #[trigger] primary_is_settled(facts, before, primary_mac)
                    &&& owned_so_far(
                        facts,
                        before,
                        machine_id,
                        primary_mac,
                        facts.mac_addresses@.len() as int,
                    )
                };
            ownership_grows(
                facts,
                replies,
                machine_id,
                primary_mac,
                facts.mac_addresses@.len() as int,
            );
        },
        _ => {},
    }
}

proof fn always_holds(facts: HostFacts, replies: Seq<Reply>)
    ensures
        holds_after(facts, replies),
    decreases replies.len(),
{
    if replies.len() > 0 {
        always_holds(facts, replies.drop_last());
        step_leads_on(facts, replies);
    }
}

proof fn ended_stays_ended(facts: HostFacts, replies: Seq<Reply>, n: int)
    requires
        0 <= n <= replies.len(),
        !(zero_dpu_after(facts, replies.subrange(0, n)) is Ask),
    ensures
        zero_dpu_after(facts, replies) == zero_dpu_after(facts, replies.subrange(0, n)),
    decreases replies.len(),
{
    if n == replies.len() {
        assert(replies.subrange(0, n) =~= replies);
    } else {
        assert(replies.drop_last().subrange(0, n) =~= replies.subrange(0, n));
        ended_stays_ended(facts, replies.drop_last(), n);
    }
}

/// A host that exists already gets no second machine: as soon as a machine or a prediction is
/// found for one of its MAC addresses, or a machine under its id, the creation ends with nothing.
pub proof fn known_hosts_get_no_second_machine(facts: HostFacts, replies: Seq<Reply>, n: int)
    requires
        0 <= n < replies.len(),
        asks_after(facts, replies, n) is Some,
        asks_after(facts, replies, n)->0 is FindMachineByMac || asks_after(
            facts,
            replies,
            n,
        )->0 is FindPredictedInterfaces || asks_after(facts, replies, n)->0 is FindMachine,
        replies[n] == Reply::Found(true),
    ensures
        zero_dpu_after(facts, replies) == Progress::<ZeroDpuStep, Option<MachineId>>::Finished(
            None,
        ),
{
    let until = replies.subrange(0, n + 1);
    assert(until.drop_last() =~= replies.subrange(0, n));
    assert(until.last() == replies[n]);
    always_holds(facts, replies.subrange(0, n));
    ended_stays_ended(facts, replies, n + 1);
}

/// A machine is asked for only after nothing was found for any MAC address of the host, neither a
/// machine nor a prediction, and under the host's own id, which was not taken.
pub proof fn only_unknown_hosts_get_a_machine(
    facts: HostFacts,
    replies: Seq<Reply>,
    machine_id: MachineId,
    with_declaration: bool,
)
    requires
        zero_dpu_after(facts, replies) is Ask,
        zero_dpu_after(facts, replies)->Ask_1 == (Request::CreateMachine {
            machine_id,
            with_declaration,
        }),
    ensures
        with_declaration,
        forall|i: int|
            0 <= i < facts.mac_addresses@.len() ==> {
                &&& answered(
                    facts,
                    replies,
                    Request::FindMachineByMac { mac_address: #[trigger] facts.mac_addresses@[i] },
                    Reply::Found(false),
                )
                &&& answered(
                    facts,
                    replies,
                    Request::FindPredictedInterfaces { mac_address: facts.mac_addresses@[i] },
                    Reply::Found(false),
                )
            },
        facts.machine_id is Some ==> facts.machine_id == Some(machine_id),
        facts.machine_id is None ==> answered(
            facts,
            replies,
            Request::GenerateMachineId,
            Reply::Machine(machine_id),
        ),
        answered(
            facts,
            replies,
            Request::FindMachine { machine_id, include_predicted_host: true },
            Reply::Found(false),
        ),
{
    always_holds(facts, replies);
}

/// A creation that finishes with a machine has created it for an unknown host, has written its
/// topology and has brought every interface of the host into its ownership: through its row, or
/// through a prediction where it has none. Primary is exactly the boot interface: the declared
/// one, or else the first that was retained.
pub proof fn new_machines_own_every_interface(
    facts: HostFacts,
    replies: Seq<Reply>,
    machine_id: MachineId,
)
    requires
        zero_dpu_after(facts, replies) == Progress::<ZeroDpuStep, Option<MachineId>>::Finished(
            Some(machine_id),
        ),
    ensures
        new_machine_is_complete(facts, replies, machine_id),
{
    always_holds(facts, replies);
}

/// A row that belongs to another machine is a contradiction, which ends the creation.
pub proof fn foreign_rows_end_the_creation(
    facts: HostFacts,
    replies: Seq<Reply>,
    mac_address: MacAddress,
    row: InterfaceRow,
    n: int,
)
    requires
        0 <= n < replies.len() - 1,
        asks_after(facts, replies, n) == Some(Request::FindInterface { mac_address }),
        replies[n] == Reply::Interface(Some(row)),
        replies[n + 1] == Reply::Done,
        row.machine_id is Some,
        zero_dpu_after(facts, replies) != Progress::<ZeroDpuStep, Option<MachineId>>::Failed(
            IngestionError::AlreadyFound { kind: FoundKind::MachineInterface, mac_address },
        ),
    ensures
        exists|machine_id: MachineId|
            {
                &&& #[trigger] asked(
                    facts,
                    replies,
                    Request::CreateMachine { machine_id, with_declaration: true },
                )
                &&& row.machine_id->0.text@ == machine_id.text@
            },
{
    let found = replies.subrange(0, n + 1);
    let captured = replies.subrange(0, n + 2);
    assert(found.drop_last() =~= replies.subrange(0, n));
    assert(captured.drop_last() =~= found);
    assert(found.last() == replies[n] && captured.last() == replies[n + 1]);
    always_holds(facts, replies.subrange(0, n));
    always_holds(facts, found);
    if let Progress::Ask(ZeroDpuStep::Capturing { owner, row }, _) = zero_dpu_after(facts, found) {
        if row.machine_id->0.same_as(owner.machine_id) {
            asked_early(
                facts,
                replies,
                n + 1,
                Request::CreateMachine { machine_id: owner.machine_id, with_declaration: true },
            );
        } else {
            ended_stays_ended(facts, replies, n + 2);
        }
    }
}

proof fn asked_early(facts: HostFacts, replies: Seq<Reply>, n: int, request: Request)
    requires
        0 <= n <= replies.len(),
        asked(facts, replies.subrange(0, n), request),
    ensures
        asked(facts, replies, request),
{
    reveal(asked);
    let early = replies.subrange(0, n);
    let k = choose|k: int|
        0 <= k <= early.len() && #[trigger] asks_after(facts, early, k) == Some(request);
    assert(early.subrange(0, k) =~= replies.subrange(0, k));
    assert(asks_after(facts, replies, k) == Some(request));
}

} // verus!
