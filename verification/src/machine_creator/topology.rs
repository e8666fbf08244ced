//! Writing the topology of a new machine: its hardware data, and its BMC's network data.
use vstd::prelude::*;

use crate::addresses::MachineId;
use crate::machine_creator::requests::{
    failure_of, reply_failure, Progress, Reply, Request, TopologySubject,
};

verus! {

/// How far the writing of a topology has come.
#[derive(Clone, Copy, Debug, PartialEq, Eq, Structural)]
pub enum TopologyStep {
    Writing,
    Marking,
    Enriching,
    WritingBmcNetwork,
}

/// The writing of a machine's topology.
#[derive(Debug)]
pub struct TopologyUpdate {
    pub machine_id: MachineId,
    pub subject: TopologySubject,
    pub step: TopologyStep,
}

/// How writing a topology starts.
pub open spec fn topology_start(machine_id: MachineId, subject: TopologySubject) -> Progress<
    TopologyUpdate,
    (),
> {
    Progress::Ask(
        TopologyUpdate { machine_id, subject, step: TopologyStep::Writing },
        Request::WriteTopology { machine_id, subject },
    )
}

/// Starts to write the topology of a machine.
pub fn update_machine_topology(machine_id: &MachineId, subject: TopologySubject) -> (r: Progress<
    TopologyUpdate,
    (),
>)
    ensures
        r == topology_start(*machine_id, subject),
{
    Progress::Ask(
        TopologyUpdate { machine_id: machine_id.clone(), subject, step: TopologyStep::Writing },
        Request::WriteTopology { machine_id: machine_id.clone(), subject },
    )
}

impl TopologyUpdate {
    /// How the writing goes on after a reply: hardware data, the mark that scout will complete
    /// them, the BMC's MAC address, and the BMC's network data with the interface declared
    /// for that MAC address.
    pub open spec fn next(self, reply: Reply) -> Progress<TopologyUpdate, ()> {
        let TopologyUpdate { machine_id, subject, step } = self;
        match (step, reply) {
            (TopologyStep::Writing, Reply::Done) => Progress::Ask(
                TopologyUpdate { step: TopologyStep::Marking, ..self },
                Request::MarkTopologyUpdateNeeded { machine_id },
            ),
            (TopologyStep::Marking, Reply::Done) => Progress::Ask(
                TopologyUpdate { step: TopologyStep::Enriching, ..self },
                Request::EnrichBmcMac { machine_id, subject },
            ),
            (TopologyStep::Enriching, Reply::Mac(bmc_mac)) => Progress::Ask(
                TopologyUpdate { step: TopologyStep::WritingBmcNetwork, ..self },
                Request::WriteBmcNetwork { machine_id, subject, bmc_mac },
            ),
            (TopologyStep::WritingBmcNetwork, Reply::Done) => Progress::Finished(()),
            (_, reply) => Progress::Failed(reply_failure(reply)),
        }
    }

    /// Goes on after a reply.
    pub fn resume(self, reply: Reply) -> (r: Progress<TopologyUpdate, ()>)
        ensures
            r == self.next(reply),
    {
        let TopologyUpdate { machine_id, subject, step } = self;
        let id = machine_id.clone();
        match (step, reply) {
            (TopologyStep::Writing, Reply::Done) => Progress::Ask(
                TopologyUpdate { machine_id, subject, step: TopologyStep::Marking },
                Request::MarkTopologyUpdateNeeded { machine_id: id },
            ),
            (TopologyStep::Marking, Reply::Done) => Progress::Ask(
                TopologyUpdate { machine_id, subject, step: TopologyStep::Enriching },
                Request::EnrichBmcMac { machine_id: id, subject },
            ),
            (TopologyStep::Enriching, Reply::Mac(bmc_mac)) => Progress::Ask(
                TopologyUpdate { machine_id, subject, step: TopologyStep::WritingBmcNetwork },
                Request::WriteBmcNetwork { machine_id: id, subject, bmc_mac },
            ),
            (TopologyStep::WritingBmcNetwork, Reply::Done) => Progress::Finished(()),
            (_, reply) => Progress::Failed(failure_of(reply)),
        }
    }
}

} // verus!
