//! What the smaller stages of an ingestion are for, over all their runs: writing a topology,
//! giving a DPU its addresses, and settling a host's addresses.
use vstd::prelude::*;

use crate::addresses::{IpAddr, MacAddress, MachineId};
use crate::machine_creator::network_config::{
    dpu_config_start, reconcile_start, DpuConfigStep, DpuMachine, ReconcileStep, Reconciliation,
};
use crate::machine_creator::requests::{Progress, Reply, Request, TopologySubject, VersionedConfig};
use crate::machine_creator::topology::{topology_start, TopologyStep, TopologyUpdate};
use crate::machine_creator::trace::{after, answered, history_grows};

verus! {

/// How the writing of a topology goes on.
pub open spec fn topology_next() -> spec_fn(TopologyUpdate, Reply) -> Progress<TopologyUpdate, ()> {
    |update: TopologyUpdate, reply: Reply| update.next(reply)
}

/// Whether this was asked of the writing of a topology and answered so.
pub open spec fn topology_answered(
    machine_id: MachineId,
    subject: TopologySubject,
    replies: Seq<Reply>,
    request: Request,
    reply: Reply,
) -> bool {
    answered(topology_start(machine_id, subject), topology_next(), replies, request, reply)
}

spec fn topology_holds(machine_id: MachineId, subject: TopologySubject, replies: Seq<Reply>) -> bool {
    let written = topology_answered(
        machine_id,
        subject,
        replies,
        Request::WriteTopology { machine_id, subject },
        Reply::Done,
    );
    let marked = topology_answered(
        machine_id,
        subject,
        replies,
        Request::MarkTopologyUpdateNeeded { machine_id },
        Reply::Done,
    );
    match after(topology_start(machine_id, subject), topology_next(), replies) {
        Progress::Ask(update, request) => {
            &&& update.machine_id == machine_id && update.subject == subject
            &&& match update.step {
                TopologyStep::Writing => request == Request::WriteTopology { machine_id, subject },
                TopologyStep::Marking => written && request
                    == Request::MarkTopologyUpdateNeeded { machine_id },
                TopologyStep::Enriching => written && marked && request
                    == Request::EnrichBmcMac { machine_id, subject },
                TopologyStep::WritingBmcNetwork => written && marked && request
                    is WriteBmcNetwork && {
                    let bmc_mac = request->bmc_mac;
                    &&& topology_answered(
                        machine_id,
                        subject,
                        replies,
                        Request::EnrichBmcMac { machine_id, subject },
                        Reply::Mac(bmc_mac),
                    )
                    &&& request == Request::WriteBmcNetwork { machine_id, subject, bmc_mac }
                },
            }
        },
        Progress::Finished(_) => topology_is_written(machine_id, subject, replies),
        Progress::Failed(_) => true,
    }
}

/// Whether the topology of a machine is written from the subject's data: the hardware data, the
/// mark that they will be completed, and the BMC's network data with the MAC address that was
/// found for it.
pub open spec fn topology_is_written(
    machine_id: MachineId,
    subject: TopologySubject,
    replies: Seq<Reply>,
) -> bool {
    &&& topology_answered(
        machine_id,
        subject,
        replies,
        Request::WriteTopology { machine_id, subject },
        Reply::Done,
    )
    &&& topology_answered(
        machine_id,
        subject,
        replies,
        Request::MarkTopologyUpdateNeeded { machine_id },
        Reply::Done,
    )
    &&& exists|bmc_mac: Option<MacAddress>|
        {
            &&& #[trigger] topology_answered(
                machine_id,
                subject,
                replies,
                Request::EnrichBmcMac { machine_id, subject },
                Reply::Mac(bmc_mac),
            )
            &&& topology_answered(
                machine_id,
                subject,
                replies,
                Request::WriteBmcNetwork { machine_id, subject, bmc_mac },
                Reply::Done,
            )
        }
}

/// Writing a topology finishes only when all of it is written, from the data of its subject.
pub proof fn topologies_are_written_whole(
    machine_id: MachineId,
    subject: TopologySubject,
    replies: Seq<Reply>,
)
    ensures
        after(topology_start(machine_id, subject), topology_next(), replies) is Finished
            ==> topology_is_written(machine_id, subject, replies),
{
    topology_always_holds(machine_id, subject, replies);
}

proof fn topology_always_holds(
    machine_id: MachineId,
    subject: TopologySubject,
    replies: Seq<Reply>,
)
    ensures
        topology_holds(machine_id, subject, replies),
    decreases replies.len(),
{
    if replies.len() > 0 {
        let start = topology_start(machine_id, subject);
        let before = replies.drop_last();
        topology_always_holds(machine_id, subject, before);
        history_grows(start, topology_next(), replies);
        match after(start, topology_next(), before) {
            Progress::Ask(update, request) => {
                if update.step is WritingBmcNetwork {
                    let bmc_mac = request->bmc_mac;
                    assert(topology_answered(
                        machine_id,
                        subject,
                        replies,
                        Request::EnrichBmcMac { machine_id, subject },
                        Reply::Mac(bmc_mac),
                    ));
                }
            },
            Progress::Finished(_) => {
                let bmc_mac = choose|bmc_mac: Option<MacAddress>|
                    {
                        &&& #[trigger] topology_answered(
                            machine_id,
                            subject,
                            before,
                            Request::EnrichBmcMac { machine_id, subject },
                            Reply::Mac(bmc_mac),
                        )
                        &&& topology_answered(
                            machine_id,
                            subject,
                            before,
                            Request::WriteBmcNetwork { machine_id, subject, bmc_mac },
                            Reply::Done,
                        )
                    };
                assert(topology_answered(
                    machine_id,
                    subject,
                    replies,
                    Request::EnrichBmcMac { machine_id, subject },
                    Reply::Mac(bmc_mac),
                ));
            },
            Progress::Failed(_) => {},
        }
    }
}

/// How giving a DPU its addresses goes on.
pub open spec fn config_next(vtep: bool) -> spec_fn(DpuConfigStep, Reply) -> Progress<
    DpuConfigStep,
    (),
> {
    |step: DpuConfigStep, reply: Reply| step.next(vtep, reply)
}

/// Whether this was asked to give a DPU its addresses, and answered so.
pub open spec fn config_answered(
    dpu: DpuMachine,
    vtep: bool,
    replies: Seq<Reply>,
    request: Request,
    reply: Reply,
) -> bool {
    answered(dpu_config_start(dpu, vtep), config_next(vtep), replies, request, reply)
}

/// Whether this is the loopback address that the DPU is to have: the one it has, or else the one
/// that was allocated for it.
pub open spec fn is_own_loopback(
    dpu: DpuMachine,
    vtep: bool,
    replies: Seq<Reply>,
    ip: Option<IpAddr>,
) -> bool {
    match dpu.versioned.config.loopback_ip {
        Some(_) => ip == dpu.versioned.config.loopback_ip,
        None => ip is Some && config_answered(
            dpu,
            vtep,
            replies,
            Request::AllocateLoopbackIp { machine_id: dpu.machine_id },
            Reply::Ip(ip->0),
        ),
    }
}

/// Whether this is the second tunnel address that the DPU is to have: the one it has; where it has
/// none, the one that was allocated for it, if DPUs get one.
pub open spec fn is_own_vtep(
    dpu: DpuMachine,
    vtep: bool,
    replies: Seq<Reply>,
    ip: Option<IpAddr>,
) -> bool {
    match dpu.versioned.config.secondary_overlay_vtep_ip {
        Some(_) => ip == dpu.versioned.config.secondary_overlay_vtep_ip,
        None => if vtep {
            ip is Some && config_answered(
                dpu,
                vtep,
                replies,
                Request::AllocateSecondaryVtepIp { machine_id: dpu.machine_id },
                Reply::Ip(ip->0),
            )
        } else {
            ip is None
        },
    }
}

/// Whether this is what is written for a DPU: its own configuration under the version it was read
/// with, with its addresses, and nothing else changed.
pub open spec fn is_own_config(
    dpu: DpuMachine,
    vtep: bool,
    replies: Seq<Reply>,
    versioned: VersionedConfig,
) -> bool {
    &&& versioned.version == dpu.versioned.version
    &&& versioned.config.remainder == dpu.versioned.config.remainder
    &&& is_own_loopback(dpu, vtep, replies, versioned.config.loopback_ip)
    &&& is_own_vtep(dpu, vtep, replies, versioned.config.secondary_overlay_vtep_ip)
}

spec fn config_holds(dpu: DpuMachine, vtep: bool, replies: Seq<Reply>) -> bool {
    match after(dpu_config_start(dpu, vtep), config_next(vtep), replies) {
        Progress::Ask(step, request) => match step {
            DpuConfigStep::AllocatingLoopback { dpu: same } => {
                &&& same == dpu
                &&& dpu.versioned.config.loopback_ip is None
                &&& request == Request::AllocateLoopbackIp { machine_id: dpu.machine_id }
            },
            DpuConfigStep::AllocatingVtep { dpu: next } => {
                &&& vtep
                &&& dpu.versioned.config.secondary_overlay_vtep_ip is None
                &&& next.machine_id == dpu.machine_id
                &&& next.versioned.version == dpu.versioned.version
                &&& next.versioned.config.remainder == dpu.versioned.config.remainder
                &&& is_own_loopback(dpu, vtep, replies, next.versioned.config.loopback_ip)
                &&& request == Request::AllocateSecondaryVtepIp { machine_id: dpu.machine_id }
            },
            DpuConfigStep::Writing => {
                &&& request is WriteNetworkConfig
                &&& request->WriteNetworkConfig_machine_id == dpu.machine_id
                &&& is_own_config(dpu, vtep, replies, request->versioned)
            },
        },
        Progress::Finished(_) => config_is_written(dpu, vtep, replies),
        Progress::Failed(_) => true,
    }
}

/// Whether the DPU's own configuration is written for the DPU.
pub open spec fn config_is_written(dpu: DpuMachine, vtep: bool, replies: Seq<Reply>) -> bool {
    exists|versioned: VersionedConfig|
        {
            &&& #[trigger] is_own_config(dpu, vtep, replies, versioned)
            &&& config_answered(
                dpu,
                vtep,
                replies,
                Request::WriteNetworkConfig { machine_id: dpu.machine_id, versioned },
                Reply::Done,
            )
        }
}

/// A DPU is given the addresses that it lacks, and keeps those that it has; its configuration is
/// then written with them, under the version it was read with, and nothing else in it changes.
pub proof fn dpus_get_the_addresses_they_lack(dpu: DpuMachine, vtep: bool, replies: Seq<Reply>)
    ensures
        after(dpu_config_start(dpu, vtep), config_next(vtep), replies) is Finished
            ==> config_is_written(dpu, vtep, replies),
        after(dpu_config_start(dpu, vtep), config_next(vtep), replies) matches Progress::Ask(
            _,
            request,
        ) ==> {
            &&& request matches Request::AllocateLoopbackIp { machine_id } ==> machine_id
                == dpu.machine_id && dpu.versioned.config.loopback_ip is None
            &&& request matches Request::AllocateSecondaryVtepIp { machine_id } ==> machine_id
                == dpu.machine_id && vtep && dpu.versioned.config.secondary_overlay_vtep_ip is None
            &&& request matches Request::WriteNetworkConfig { machine_id, versioned } ==> machine_id
                == dpu.machine_id && is_own_config(dpu, vtep, replies, versioned)
        },
{
    config_always_holds(dpu, vtep, replies);
}

proof fn config_always_holds(dpu: DpuMachine, vtep: bool, replies: Seq<Reply>)
    ensures
        config_holds(dpu, vtep, replies),
    decreases replies.len(),
{
    if replies.len() > 0 {
        let start = dpu_config_start(dpu, vtep);
        let before = replies.drop_last();
        config_always_holds(dpu, vtep, before);
        history_grows(start, config_next(vtep), replies);
        match after(start, config_next(vtep), before) {
            Progress::Ask(DpuConfigStep::Writing, request) => {
                let versioned = request->versioned;
                assert(is_own_config(dpu, vtep, before, versioned));
                assert(is_own_config(dpu, vtep, replies, versioned));
            },
            Progress::Finished(_) => {
                let versioned = choose|versioned: VersionedConfig|
                    {
                        &&& #[trigger] is_own_config(dpu, vtep, before, versioned)
                        &&& config_answered(
                            dpu,
                            vtep,
                            before,
                            Request::WriteNetworkConfig { machine_id: dpu.machine_id, versioned },
                            Reply::Done,
                        )
                    };
                assert(is_own_config(dpu, vtep, replies, versioned));
            },
            _ => {},
        }
    }
}

/// How settling a host's addresses goes on.
pub open spec fn reconcile_next() -> spec_fn(Reconciliation, Reply) -> Progress<
    Reconciliation,
    bool,
> {
    |reconciliation: Reconciliation, reply: Reply| reconciliation.next(reply)
}

/// Whether this was asked to settle a host's addresses, and answered so.
pub open spec fn reconcile_answered(
    host: MachineId,
    replies: Seq<Reply>,
    request: Request,
    reply: Reply,
) -> bool {
    answered(reconcile_start(host), reconcile_next(), replies, request, reply)
}

spec fn reconcile_holds(host: MachineId, replies: Seq<Reply>) -> bool {
    let changed = reconcile_answered(
        host,
        replies,
        Request::ReconcileAdminAddresses { machine_id: host },
        Reply::Changed(true),
    );
    match after(reconcile_start(host), reconcile_next(), replies) {
        Progress::Ask(reconciliation, request) => {
            &&& reconciliation.machine_id == host
            &&& match reconciliation.step {
                ReconcileStep::Reconciling => request == Request::ReconcileAdminAddresses {
                    machine_id: host,
                },
                ReconcileStep::Reading => changed && request == Request::ReadNetworkConfig {
                    machine_id: host,
                },
                ReconcileStep::Writing => {
                    &&& changed
                    &&& request is WriteNetworkConfig
                    &&& request->WriteNetworkConfig_machine_id == host
                    &&& reconcile_answered(
                        host,
                        replies,
                        Request::ReadNetworkConfig { machine_id: host },
                        Reply::Config(request->versioned),
                    )
                },
            }
        },
        Progress::Finished(result) => if result {
            changed && config_is_renewed(host, replies)
        } else {
            reconcile_answered(
                host,
                replies,
                Request::ReconcileAdminAddresses { machine_id: host },
                Reply::Changed(false),
            )
        },
        Progress::Failed(_) => true,
    }
}

/// Whether the host's configuration is written again just as it was read.
pub open spec fn config_is_renewed(host: MachineId, replies: Seq<Reply>) -> bool {
    exists|versioned: VersionedConfig|
        {
            &&& #[trigger] reconcile_answered(
                host,
                replies,
                Request::ReadNetworkConfig { machine_id: host },
                Reply::Config(versioned),
            )
            &&& reconcile_answered(
                host,
                replies,
                Request::WriteNetworkConfig { machine_id: host, versioned },
                Reply::Done,
            )
        }
}

/// Settling a host's addresses finishes with whether the active configuration changed. Where it
/// did, the host's configuration is written again just as it was read; where it did not, nothing
/// is written.
pub proof fn changed_addresses_renew_the_configuration(host: MachineId, replies: Seq<Reply>)
    ensures
        after(reconcile_start(host), reconcile_next(), replies) == Progress::<
            Reconciliation,
            bool,
        >::Finished(true) ==> config_is_renewed(host, replies) && reconcile_answered(
            host,
            replies,
            Request::ReconcileAdminAddresses { machine_id: host },
            Reply::Changed(true),
        ),
        after(reconcile_start(host), reconcile_next(), replies) == Progress::<
            Reconciliation,
            bool,
        >::Finished(false) ==> reconcile_answered(
            host,
            replies,
            Request::ReconcileAdminAddresses { machine_id: host },
            Reply::Changed(false),
        ),
        after(reconcile_start(host), reconcile_next(), replies) matches Progress::Ask(_, request)
            && request is WriteNetworkConfig ==> reconcile_answered(
            host,
            replies,
            Request::ReconcileAdminAddresses { machine_id: host },
            Reply::Changed(true),
        ),
{
    reconcile_always_holds(host, replies);
}

proof fn reconcile_always_holds(host: MachineId, replies: Seq<Reply>)
    ensures
        reconcile_holds(host, replies),
    decreases replies.len(),
{
    if replies.len() > 0 {
        let start = reconcile_start(host);
        let before = replies.drop_last();
        reconcile_always_holds(host, before);
        history_grows(start, reconcile_next(), replies);
        match after(start, reconcile_next(), before) {
            Progress::Ask(reconciliation, request) => {
                if reconciliation.step is Writing {
                    assert(reconcile_answered(
                        host,
                        replies,
                        Request::ReadNetworkConfig { machine_id: host },
                        Reply::Config(request->versioned),
                    ));
                }
            },
            Progress::Finished(true) => {
                let versioned = choose|versioned: VersionedConfig|
                    {
                        &&& #[trigger] reconcile_answered(
                            host,
                            before,
                            Request::ReadNetworkConfig { machine_id: host },
                            Reply::Config(versioned),
                        )
                        &&& reconcile_answered(
                            host,
                            before,
                            Request::WriteNetworkConfig { machine_id: host, versioned },
                            Reply::Done,
                        )
                    };
                assert(reconcile_answered(
                    host,
                    replies,
                    Request::ReadNetworkConfig { machine_id: host },
                    Reply::Config(versioned),
                ));
            },
            _ => {},
        }
    }
}

} // verus!
