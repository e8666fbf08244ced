//! Creating the machine of a host that has no DPUs.
use vstd::prelude::*;

use crate::addresses::{MacAddress, MachineId};
use crate::expected_machine::ExpectedInterfaceRole;
use crate::expected_machine_data::ExpectedHostNic;
use crate::exploration::{find_interface_id_for_mac, interface_id_for};
use crate::machine_creator::requests::{
    failure_of, reply_failure, FoundKind, IngestionError, InterfaceRow, Prediction, Progress,
    Reply, Request, TopologySubject,
};
use crate::machine_creator::topology::{topology_start, update_machine_topology, TopologyUpdate};

verus! {

/// What is known of a host when its machine is created.
#[derive(Debug)]
pub struct HostFacts {
    /// The MAC addresses by which the host is predicted.
    pub mac_addresses: Vec<MacAddress>,
    /// The report's interface ids, by MAC address.
    pub interface_ids: Vec<(MacAddress, String)>,
    /// The declared interfaces.
    pub host_nics: Vec<ExpectedHostNic>,
    /// The MAC address of the interface that is declared primary.
    pub declared_primary: Option<MacAddress>,
    /// The host's machine id, where it is known already.
    pub machine_id: Option<MachineId>,
}

/// The declaration of an interface by its MAC address: the first that names it.
pub open spec fn declared_interface(nics: Seq<ExpectedHostNic>, mac: MacAddress) -> Option<
    ExpectedHostNic,
>
    decreases nics.len(),
{
    if nics.len() == 0 {
        None
    } else if nics[0].mac_address == mac {
        Some(nics[0])
    } else {
        declared_interface(nics.drop_first(), mac)
    }
}

/// The declaration of an interface by its MAC address.
pub fn find_declared_interface(nics: &Vec<ExpectedHostNic>, mac: MacAddress) -> (r: Option<
    ExpectedHostNic,
>)
    ensures
        r == declared_interface(nics@, mac),
{
    let mut i: usize = 0;
    assert(nics@.subrange(0, nics@.len() as int) =~= nics@);
    while i < nics.len()
        invariant
            i <= nics.len(),
            declared_interface(nics@, mac) == declared_interface(
                nics@.subrange(i as int, nics@.len() as int),
                mac,
            ),
        decreases nics.len() - i,
    {
        let ghost rest = nics@.subrange(i as int, nics@.len() as int);
        assert(rest.drop_first() =~= nics@.subrange(i + 1, nics@.len() as int));
        if nics[i].mac_address == mac {
            return Some(nics[i].clone());
        }
        i += 1;
    }
    None
}

/// How far the creation of the machine has come. `mac_address` is the one at `index`;
/// `primary_mac` is that of the host's boot interface.
#[derive(Debug)]
pub enum ZeroDpuStep {
    FindingMachineByMac { index: usize, mac_address: MacAddress },
    FindingPredictions { index: usize },
    GeneratingId,
    FindingMachine { machine_id: MachineId },
    CreatingMachine { machine_id: MachineId },
    WritingTopology { machine_id: MachineId, update: TopologyUpdate },
    FindingRetained { machine_id: MachineId, index: usize, mac_address: MacAddress },
    FindingInterface { owner: Ownership },
    Capturing { owner: Ownership, row: InterfaceRow },
    Reconciling { owner: Ownership },
    Demoting { owner: Ownership, row: InterfaceRow },
    Adopting { owner: Ownership },
    Predicting { owner: Ownership },
}

/// Which interface is being brought into the machine's ownership.
#[derive(Debug)]
pub struct Ownership {
    pub machine_id: MachineId,
    pub primary_mac: Option<MacAddress>,
    pub index: usize,
    pub mac_address: MacAddress,
}

impl Clone for Ownership {
    fn clone(&self) -> (r: Self)
        ensures
            r == *self,
    {
        Ownership {
            machine_id: self.machine_id.clone(),
            primary_mac: self.primary_mac,
            index: self.index,
            mac_address: self.mac_address,
        }
    }
}

impl Ownership {
    /// Whether the interface is the host's boot interface.
    pub open spec fn wants_primary(self) -> bool {
        self.primary_mac == Some(self.mac_address)
    }

    /// Whether the interface is the host's boot interface.
    pub fn is_primary(&self) -> (r: bool)
        ensures
            r == self.wants_primary(),
    {
        match self.primary_mac {
            Some(mac) => mac == self.mac_address,
            None => false,
        }
    }
}

/// The position after `index` in a list of this length.
pub open spec fn following(index: usize, len: nat) -> Option<usize> {
    if index + 1 < len {
        Some((index + 1) as usize)
    } else {
        None
    }
}

/// The position after `index` in a list of this length.
pub fn next_index(index: usize, len: usize) -> (r: Option<usize>)
    ensures
        r == following(index, len as nat),
{
    if index < len && index + 1 < len {
        Some(index + 1)
    } else {
        None
    }
}

/// The start: whether a machine or a prediction with one of the MAC addresses exists.
pub open spec fn zero_dpu_start(facts: HostFacts) -> Progress<ZeroDpuStep, Option<MachineId>> {
    if facts.mac_addresses@.len() > 0 {
        let mac_address = facts.mac_addresses@[0];
        Progress::Ask(
            ZeroDpuStep::FindingMachineByMac { index: 0, mac_address },
            Request::FindMachineByMac { mac_address },
        )
    } else {
        zero_dpu_identify(facts)
    }
}

/// Nothing exists: the machine gets its id, the known one or one derived from the report.
pub open spec fn zero_dpu_identify(facts: HostFacts) -> Progress<ZeroDpuStep, Option<MachineId>> {
    match facts.machine_id {
        Some(machine_id) => zero_dpu_find(machine_id),
        None => Progress::Ask(ZeroDpuStep::GeneratingId, Request::GenerateMachineId),
    }
}

/// The id must not be taken.
pub open spec fn zero_dpu_find(machine_id: MachineId) -> Progress<ZeroDpuStep, Option<MachineId>> {
    Progress::Ask(
        ZeroDpuStep::FindingMachine { machine_id },
        Request::FindMachine { machine_id, include_predicted_host: true },
    )
}

/// The machine exists now: its boot interface is the declared one, otherwise the first that
/// was retained from an earlier life of the host.
pub open spec fn zero_dpu_settle_primary(facts: HostFacts, machine_id: MachineId) -> Progress<
    ZeroDpuStep,
    Option<MachineId>,
> {
    if facts.declared_primary is None && facts.mac_addresses@.len() > 0 {
        let mac_address = facts.mac_addresses@[0];
        Progress::Ask(
            ZeroDpuStep::FindingRetained { machine_id, index: 0, mac_address },
            Request::FindRetainedBootInterface { mac_address },
        )
    } else {
        zero_dpu_own(facts, machine_id, facts.declared_primary)
    }
}

/// Every interface is brought into the machine's ownership, from the first.
pub open spec fn zero_dpu_own(
    facts: HostFacts,
    machine_id: MachineId,
    primary_mac: Option<MacAddress>,
) -> Progress<ZeroDpuStep, Option<MachineId>> {
    if facts.mac_addresses@.len() > 0 {
        zero_dpu_own_at(facts, machine_id, primary_mac, 0)
    } else {
        Progress::Finished(Some(machine_id))
    }
}

/// The interface at this position is looked up.
pub open spec fn zero_dpu_own_at(
    facts: HostFacts,
    machine_id: MachineId,
    primary_mac: Option<MacAddress>,
    index: usize,
) -> Progress<ZeroDpuStep, Option<MachineId>> {
    let mac_address = facts.mac_addresses@[index as int];
    Progress::Ask(
        ZeroDpuStep::FindingInterface {
            owner: Ownership { machine_id, primary_mac, index, mac_address },
        },
        Request::FindInterface { mac_address },
    )
}

/// The next interface, or the end.
pub open spec fn zero_dpu_own_following(facts: HostFacts, owner: Ownership) -> Progress<
    ZeroDpuStep,
    Option<MachineId>,
> {
    match following(owner.index, facts.mac_addresses@.len()) {
        Some(index) => zero_dpu_own_at(facts, owner.machine_id, owner.primary_mac, index),
        None => Progress::Finished(Some(owner.machine_id)),
    }
}

/// An interface that has a row: a row of this very machine only gets its flag right, and is
/// never primary as a BMC; a row of another machine is a contradiction; a row of nobody gets
/// its flag right and is adopted.
pub open spec fn zero_dpu_settle_row(facts: HostFacts, owner: Ownership, row: InterfaceRow) -> Progress<
    ZeroDpuStep,
    Option<MachineId>,
> {
    match row.machine_id {
        Some(machine_id) => if machine_id.same_as(owner.machine_id) {
            let primary = owner.wants_primary() && !row.is_bmc;
            if row.primary_interface != primary {
                Progress::Ask(
                    ZeroDpuStep::Reconciling { owner },
                    Request::SetPrimaryInterface { interface_id: row.id, primary },
                )
            } else {
                zero_dpu_own_following(facts, owner)
            }
        } else {
            Progress::Failed(
                IngestionError::AlreadyFound {
                    kind: FoundKind::MachineInterface,
                    mac_address: owner.mac_address,
                },
            )
        },
        None => if row.primary_interface != owner.wants_primary() {
            Progress::Ask(
                ZeroDpuStep::Demoting { owner, row },
                Request::SetPrimaryInterface {
                    interface_id: row.id,
                    primary: owner.wants_primary(),
                },
            )
        } else {
            zero_dpu_adopt(owner, row)
        },
    }
}

/// A row of nobody is associated with the machine.
pub open spec fn zero_dpu_adopt(owner: Ownership, row: InterfaceRow) -> Progress<
    ZeroDpuStep,
    Option<MachineId>,
> {
    Progress::Ask(
        ZeroDpuStep::Adopting { owner },
        Request::AssociateWithMachine { interface_id: row.id, machine_id: owner.machine_id },
    )
}

/// What is predicted of an interface that has no row: its declaration goes along, with the
/// primary flag settled if it is the host's own.
pub open spec fn zero_dpu_prediction(facts: HostFacts, owner: Ownership) -> Prediction {
    Prediction {
        machine_id: owner.machine_id,
        mac_address: owner.mac_address,
        boot_interface_id: interface_id_for(facts.interface_ids@, owner.mac_address),
        primary_interface: owner.wants_primary(),
        expected_interface: match declared_interface(facts.host_nics@, owner.mac_address) {
            None => None,
            Some(nic) => if nic.role == ExpectedInterfaceRole::Host {
                Some(ExpectedHostNic { primary: Some(owner.wants_primary()), ..nic })
            } else {
                Some(nic)
            },
        },
    }
}

impl ZeroDpuStep {
    /// How the creation goes on after a reply.
    pub open spec fn next(self, facts: HostFacts, reply: Reply) -> Progress<
        ZeroDpuStep,
        Option<MachineId>,
    > {
        match (self, reply) {
            (ZeroDpuStep::FindingMachineByMac { index, mac_address }, Reply::Found(found)) => if found {
                Progress::Finished(None)
            } else {
                Progress::Ask(
                    ZeroDpuStep::FindingPredictions { index },
                    Request::FindPredictedInterfaces { mac_address },
                )
            },
            (ZeroDpuStep::FindingPredictions { index }, Reply::Found(found)) => if found {
                Progress::Finished(None)
            } else {
                match following(index, facts.mac_addresses@.len()) {
                    Some(index) => {
                        let mac_address = facts.mac_addresses@[index as int];
                        Progress::Ask(
                            ZeroDpuStep::FindingMachineByMac { index, mac_address },
                            Request::FindMachineByMac { mac_address },
                        )
                    },
                    None => zero_dpu_identify(facts),
                }
            },
            (ZeroDpuStep::GeneratingId, Reply::Machine(machine_id)) => zero_dpu_find(machine_id),
            (ZeroDpuStep::FindingMachine { machine_id }, Reply::Found(found)) => if found {
                Progress::Finished(None)
            } else {
                Progress::Ask(
                    ZeroDpuStep::CreatingMachine { machine_id },
                    Request::CreateMachine { machine_id, with_declaration: true },
                )
            },
            (ZeroDpuStep::CreatingMachine { machine_id }, Reply::Config(_)) => zero_dpu_topology(
                facts,
                machine_id,
                topology_start(machine_id, TopologySubject::Host),
            ),
            (ZeroDpuStep::WritingTopology { machine_id, update }, reply) => zero_dpu_topology(
                facts,
                machine_id,
                update.next(reply),
            ),
            (
                ZeroDpuStep::FindingRetained { machine_id, index, mac_address },
                Reply::Found(found),
            ) => if found {
                zero_dpu_own(facts, machine_id, Some(mac_address))
            } else {
                match following(index, facts.mac_addresses@.len()) {
                    Some(index) => {
                        let mac_address = facts.mac_addresses@[index as int];
                        Progress::Ask(
                            ZeroDpuStep::FindingRetained { machine_id, index, mac_address },
                            Request::FindRetainedBootInterface { mac_address },
                        )
                    },
                    None => zero_dpu_own(facts, machine_id, None),
                }
            },
            (ZeroDpuStep::FindingInterface { owner }, Reply::Interface(Some(row))) => Progress::Ask(
                ZeroDpuStep::Capturing { owner, row },
                Request::CaptureExpectedInterface {
                    interface_id: row.id,
                    mac_address: owner.mac_address,
                },
            ),
            (ZeroDpuStep::FindingInterface { owner }, Reply::Interface(None)) => Progress::Ask(
                ZeroDpuStep::Predicting { owner },
                Request::CreatePrediction { prediction: zero_dpu_prediction(facts, owner) },
            ),
            (ZeroDpuStep::Capturing { owner, row }, Reply::Done) => zero_dpu_settle_row(
                facts,
                owner,
                row,
            ),
            (ZeroDpuStep::Reconciling { owner }, Reply::Done) => zero_dpu_own_following(
                facts,
                owner,
            ),
            (ZeroDpuStep::Demoting { owner, row }, Reply::Done) => zero_dpu_adopt(owner, row),
            (ZeroDpuStep::Adopting { owner }, Reply::Done) => zero_dpu_own_following(facts, owner),
            (ZeroDpuStep::Predicting { owner }, Reply::Done) => zero_dpu_own_following(
                facts,
                owner,
            ),
            (_, reply) => Progress::Failed(reply_failure(reply)),
        }
    }
}

/// The creation with its topology under way.
pub open spec fn zero_dpu_topology(
    facts: HostFacts,
    machine_id: MachineId,
    progress: Progress<TopologyUpdate, ()>,
) -> Progress<ZeroDpuStep, Option<MachineId>> {
    match progress {
        Progress::Ask(update, request) => Progress::Ask(
            ZeroDpuStep::WritingTopology { machine_id, update },
            request,
        ),
        Progress::Finished(_) => zero_dpu_settle_primary(facts, machine_id),
        Progress::Failed(error) => Progress::Failed(error),
    }
}

fn identify(facts: &HostFacts) -> (r: Progress<ZeroDpuStep, Option<MachineId>>)
    ensures
        r == zero_dpu_identify(*facts),
{
    match &facts.machine_id {
        Some(machine_id) => find(machine_id.clone()),
        None => Progress::Ask(ZeroDpuStep::GeneratingId, Request::GenerateMachineId),
    }
}

fn find(machine_id: MachineId) -> (r: Progress<ZeroDpuStep, Option<MachineId>>)
    ensures
        r == zero_dpu_find(machine_id),
{
    let id = machine_id.clone();
    Progress::Ask(
        ZeroDpuStep::FindingMachine { machine_id },
        Request::FindMachine { machine_id: id, include_predicted_host: true },
    )
}

fn settle_primary(facts: &HostFacts, machine_id: MachineId) -> (r: Progress<
    ZeroDpuStep,
    Option<MachineId>,
>)
    ensures
        r == zero_dpu_settle_primary(*facts, machine_id),
{
    if facts.declared_primary.is_none() && facts.mac_addresses.len() > 0 {
        let mac_address = facts.mac_addresses[0];
        Progress::Ask(
            ZeroDpuStep::FindingRetained { machine_id, index: 0, mac_address },
            Request::FindRetainedBootInterface { mac_address },
        )
    } else {
        own(facts, machine_id, facts.declared_primary)
    }
}

fn own(facts: &HostFacts, machine_id: MachineId, primary_mac: Option<MacAddress>) -> (r: Progress<
    ZeroDpuStep,
    Option<MachineId>,
>)
    ensures
        r == zero_dpu_own(*facts, machine_id, primary_mac),
{
    if facts.mac_addresses.len() > 0 {
        own_at(facts, machine_id, primary_mac, 0)
    } else {
        Progress::Finished(Some(machine_id))
    }
}

fn own_at(
    facts: &HostFacts,
    machine_id: MachineId,
    primary_mac: Option<MacAddress>,
    index: usize,
) -> (r: Progress<ZeroDpuStep, Option<MachineId>>)
    requires
        index < facts.mac_addresses@.len(),
    ensures
        r == zero_dpu_own_at(*facts, machine_id, primary_mac, index),
{
    let mac_address = facts.mac_addresses[index];
    Progress::Ask(
        ZeroDpuStep::FindingInterface {
            owner: Ownership { machine_id, primary_mac, index, mac_address },
        },
        Request::FindInterface { mac_address },
    )
}

fn own_following(facts: &HostFacts, owner: Ownership) -> (r: Progress<
    ZeroDpuStep,
    Option<MachineId>,
>)
    ensures
        r == zero_dpu_own_following(*facts, owner),
{
    match next_index(owner.index, facts.mac_addresses.len()) {
        Some(index) => own_at(facts, owner.machine_id, owner.primary_mac, index),
        None => Progress::Finished(Some(owner.machine_id)),
    }
}

fn adopt(owner: Ownership, row: InterfaceRow) -> (r: Progress<ZeroDpuStep, Option<MachineId>>)
    ensures
        r == zero_dpu_adopt(owner, row),
{
    let machine_id = owner.machine_id.clone();
    Progress::Ask(
        ZeroDpuStep::Adopting { owner },
        Request::AssociateWithMachine { interface_id: row.id, machine_id },
    )
}

fn settle_row(facts: &HostFacts, owner: Ownership, row: InterfaceRow) -> (r: Progress<
    ZeroDpuStep,
    Option<MachineId>,
>)
    ensures
        r == zero_dpu_settle_row(*facts, owner, row),
{
    let interface_id = row.id;
    match &row.machine_id {
        Some(machine_id) => {
            if machine_id.same(&owner.machine_id) {
                let primary = owner.is_primary() && !row.is_bmc;
                if row.primary_interface != primary {
                    Progress::Ask(
                        ZeroDpuStep::Reconciling { owner },
                        Request::SetPrimaryInterface { interface_id, primary },
                    )
                } else {
                    own_following(facts, owner)
                }
            } else {
                Progress::Failed(
                    IngestionError::AlreadyFound {
                        kind: FoundKind::MachineInterface,
                        mac_address: owner.mac_address,
                    },
                )
            }
        },
        None => {
            let primary = owner.is_primary();
            if row.primary_interface != primary {
                Progress::Ask(
                    ZeroDpuStep::Demoting { owner, row },
                    Request::SetPrimaryInterface { interface_id, primary },
                )
            } else {
                adopt(owner, row)
            }
        },
    }
}

fn predict(facts: &HostFacts, owner: &Ownership) -> (r: Prediction)
    ensures
        r == zero_dpu_prediction(*facts, *owner),
{
    let primary = owner.is_primary();
    Prediction {
        machine_id: owner.machine_id.clone(),
        mac_address: owner.mac_address,
        boot_interface_id: find_interface_id_for_mac(&facts.interface_ids, owner.mac_address),
        primary_interface: primary,
        expected_interface: match find_declared_interface(&facts.host_nics, owner.mac_address) {
            None => None,
            Some(nic) => {
                if nic.role.is_host() {
                    let mut nic = nic;
                    nic.primary = Some(primary);
                    Some(nic)
                } else {
                    Some(nic)
                }
            },
        },
    }
}

fn with_topology(
    facts: &HostFacts,
    machine_id: MachineId,
    progress: Progress<TopologyUpdate, ()>,
) -> (r: Progress<ZeroDpuStep, Option<MachineId>>)
    ensures
        r == zero_dpu_topology(*facts, machine_id, progress),
{
    match progress {
        Progress::Ask(update, request) => Progress::Ask(
            ZeroDpuStep::WritingTopology { machine_id, update },
            request,
        ),
        Progress::Finished(()) => settle_primary(facts, machine_id),
        Progress::Failed(error) => Progress::Failed(error),
    }
}

/// Starts to create the machine of a host without DPUs. It finishes with the machine's id,
/// or with none where a machine or prediction of the host exists already.
pub fn create_zero_dpu_machine(facts: &HostFacts) -> (r: Progress<ZeroDpuStep, Option<MachineId>>)
    ensures
        r == zero_dpu_start(*facts),
{
    if facts.mac_addresses.len() > 0 {
        let mac_address = facts.mac_addresses[0];
        Progress::Ask(
            ZeroDpuStep::FindingMachineByMac { index: 0, mac_address },
            Request::FindMachineByMac { mac_address },
        )
    } else {
        identify(facts)
    }
}

impl ZeroDpuStep {
    /// Goes on after a reply.
    pub fn resume(self, facts: &HostFacts, reply: Reply) -> (r: Progress<
        ZeroDpuStep,
        Option<MachineId>,
    >)
        ensures
            r == self.next(*facts, reply),
    {
        match (self, reply) {
            (ZeroDpuStep::FindingMachineByMac { index, mac_address }, Reply::Found(found)) => {
                if found {
                    Progress::Finished(None)
                } else {
                    Progress::Ask(
                        ZeroDpuStep::FindingPredictions { index },
                        Request::FindPredictedInterfaces { mac_address },
                    )
                }
            },
            (ZeroDpuStep::FindingPredictions { index }, Reply::Found(found)) => {
                if found {
                    Progress::Finished(None)
                } else {
                    match next_index(index, facts.mac_addresses.len()) {
                        Some(index) => {
                            let mac_address = facts.mac_addresses[index];
                            Progress::Ask(
                                ZeroDpuStep::FindingMachineByMac { index, mac_address },
                                Request::FindMachineByMac { mac_address },
                            )
                        },
                        None => identify(facts),
                    }
                }
            },
            (ZeroDpuStep::GeneratingId, Reply::Machine(machine_id)) => find(machine_id),
            (ZeroDpuStep::FindingMachine { machine_id }, Reply::Found(found)) => {
                if found {
                    Progress::Finished(None)
                } else {
                    let id = machine_id.clone();
                    Progress::Ask(
                        ZeroDpuStep::CreatingMachine { machine_id },
                        Request::CreateMachine { machine_id: id, with_declaration: true },
                    )
                }
            },
            (ZeroDpuStep::CreatingMachine { machine_id }, Reply::Config(_)) => {
                let progress = update_machine_topology(&machine_id, TopologySubject::Host);
                with_topology(facts, machine_id, progress)
            },
            (ZeroDpuStep::WritingTopology { machine_id, update }, reply) => with_topology(
                facts,
                machine_id,
                update.resume(reply),
            ),
            (
                ZeroDpuStep::FindingRetained { machine_id, index, mac_address },
                Reply::Found(found),
            ) => {
                if found {
                    own(facts, machine_id, Some(mac_address))
                } else {
                    match next_index(index, facts.mac_addresses.len()) {
                        Some(index) => {
                            let mac_address = facts.mac_addresses[index];
                            Progress::Ask(
                                ZeroDpuStep::FindingRetained { machine_id, index, mac_address },
                                Request::FindRetainedBootInterface { mac_address },
                            )
                        },
                        None => own(facts, machine_id, None),
                    }
                }
            },
            (ZeroDpuStep::FindingInterface { owner }, Reply::Interface(Some(row))) => {
                let interface_id = row.id;
                let mac_address = owner.mac_address;
                Progress::Ask(
                    ZeroDpuStep::Capturing { owner, row },
                    Request::CaptureExpectedInterface { interface_id, mac_address },
                )
            },
            (ZeroDpuStep::FindingInterface { owner }, Reply::Interface(None)) => {
                let prediction = predict(facts, &owner);
                Progress::Ask(
                    ZeroDpuStep::Predicting { owner },
                    Request::CreatePrediction { prediction },
                )
            },
            (ZeroDpuStep::Capturing { owner, row }, Reply::Done) => settle_row(facts, owner, row),
            (ZeroDpuStep::Reconciling { owner }, Reply::Done) => own_following(facts, owner),
            (ZeroDpuStep::Demoting { owner, row }, Reply::Done) => adopt(owner, row),
            (ZeroDpuStep::Adopting { owner }, Reply::Done) => own_following(facts, owner),
            (ZeroDpuStep::Predicting { owner }, Reply::Done) => own_following(facts, owner),
            (_, reply) => Progress::Failed(failure_of(reply)),
        }
    }
}

} // verus!
