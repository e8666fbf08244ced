//! Network configurations: the addresses that a new DPU gets, and the new version that a
//! host's gets when its administrative addresses change.
use vstd::prelude::*;

use crate::addresses::{IpAddr, MachineId};
use crate::machine_creator::requests::{
    failure_of, reply_failure, NetworkConfig, Progress, Reply, Request, VersionedConfig,
};

verus! {

/// A new DPU machine with its network configuration.
#[derive(Debug)]
pub struct DpuMachine {
    pub machine_id: MachineId,
    pub versioned: VersionedConfig,
}

impl Clone for DpuMachine {
    fn clone(&self) -> (r: Self)
        ensures
            r == *self,
    {
        DpuMachine { machine_id: self.machine_id.clone(), versioned: self.versioned.clone() }
    }
}

/// What the configuration of a DPU is waiting for.
#[derive(Debug)]
pub enum DpuConfigStep {
    AllocatingLoopback { dpu: DpuMachine },
    AllocatingVtep { dpu: DpuMachine },
    Writing,
}

/// With the loopback address settled: a second tunnel address where one is wanted and
/// missing, then the configuration is written under the version it was read with.
pub open spec fn config_after_loopback(dpu: DpuMachine, allocate_secondary_vtep_ip: bool) -> Progress<
    DpuConfigStep,
    (),
> {
    if allocate_secondary_vtep_ip && dpu.versioned.config.secondary_overlay_vtep_ip is None {
        Progress::Ask(
            DpuConfigStep::AllocatingVtep { dpu },
            Request::AllocateSecondaryVtepIp { machine_id: dpu.machine_id },
        )
    } else {
        config_written(dpu)
    }
}

/// The configuration is written.
pub open spec fn config_written(dpu: DpuMachine) -> Progress<DpuConfigStep, ()> {
    Progress::Ask(
        DpuConfigStep::Writing,
        Request::WriteNetworkConfig { machine_id: dpu.machine_id, versioned: dpu.versioned },
    )
}

/// How configuring a DPU starts: with a loopback address, where it has none.
pub open spec fn dpu_config_start(dpu: DpuMachine, allocate_secondary_vtep_ip: bool) -> Progress<
    DpuConfigStep,
    (),
> {
    if dpu.versioned.config.loopback_ip is None {
        Progress::Ask(
            DpuConfigStep::AllocatingLoopback { dpu },
            Request::AllocateLoopbackIp { machine_id: dpu.machine_id },
        )
    } else {
        config_after_loopback(dpu, allocate_secondary_vtep_ip)
    }
}

/// The DPU with this loopback address and everything else as it was.
pub open spec fn with_loopback(dpu: DpuMachine, ip: IpAddr) -> DpuMachine {
    DpuMachine {
        versioned: VersionedConfig {
            config: NetworkConfig { loopback_ip: Some(ip), ..dpu.versioned.config },
            ..dpu.versioned
        },
        ..dpu
    }
}

/// The DPU with this second tunnel address and everything else as it was.
pub open spec fn with_secondary_vtep(dpu: DpuMachine, ip: IpAddr) -> DpuMachine {
    DpuMachine {
        versioned: VersionedConfig {
            config: NetworkConfig { secondary_overlay_vtep_ip: Some(ip), ..dpu.versioned.config },
            ..dpu.versioned
        },
        ..dpu
    }
}

fn after_loopback(dpu: DpuMachine, allocate_secondary_vtep_ip: bool) -> (r: Progress<
    DpuConfigStep,
    (),
>)
    ensures
        r == config_after_loopback(dpu, allocate_secondary_vtep_ip),
{
    if allocate_secondary_vtep_ip && dpu.versioned.config.secondary_overlay_vtep_ip.is_none() {
        let machine_id = dpu.machine_id.clone();
        Progress::Ask(
            DpuConfigStep::AllocatingVtep { dpu },
            Request::AllocateSecondaryVtepIp { machine_id },
        )
    } else {
        write_config(dpu)
    }
}

fn write_config(dpu: DpuMachine) -> (r: Progress<DpuConfigStep, ()>)
    ensures
        r == config_written(dpu),
{
    Progress::Ask(
        DpuConfigStep::Writing,
        Request::WriteNetworkConfig { machine_id: dpu.machine_id, versioned: dpu.versioned },
    )
}

/// Starts to give a DPU the addresses it lacks.
pub fn update_dpu_network_config(dpu: DpuMachine, allocate_secondary_vtep_ip: bool) -> (r: Progress<
    DpuConfigStep,
    (),
>)
    ensures
        r == dpu_config_start(dpu, allocate_secondary_vtep_ip),
{
    if dpu.versioned.config.loopback_ip.is_none() {
        let machine_id = dpu.machine_id.clone();
        Progress::Ask(
            DpuConfigStep::AllocatingLoopback { dpu },
            Request::AllocateLoopbackIp { machine_id },
        )
    } else {
        after_loopback(dpu, allocate_secondary_vtep_ip)
    }
}

impl DpuConfigStep {
    /// How the configuring goes on after a reply.
    pub open spec fn next(self, allocate_secondary_vtep_ip: bool, reply: Reply) -> Progress<
        DpuConfigStep,
        (),
    > {
        match (self, reply) {
            (DpuConfigStep::AllocatingLoopback { dpu }, Reply::Ip(ip)) => config_after_loopback(
                with_loopback(dpu, ip),
                allocate_secondary_vtep_ip,
            ),
            (DpuConfigStep::AllocatingVtep { dpu }, Reply::Ip(ip)) => config_written(
                with_secondary_vtep(dpu, ip),
            ),
            (DpuConfigStep::Writing, Reply::Done) => Progress::Finished(()),
            (_, reply) => Progress::Failed(reply_failure(reply)),
        }
    }

    /// Goes on after a reply.
    pub fn resume(self, allocate_secondary_vtep_ip: bool, reply: Reply) -> (r: Progress<
        DpuConfigStep,
        (),
    >)
        ensures
            r == self.next(allocate_secondary_vtep_ip, reply),
    {
        match (self, reply) {
            (DpuConfigStep::AllocatingLoopback { dpu }, Reply::Ip(ip)) => {
                let mut dpu = dpu;
                dpu.versioned.config.loopback_ip = Some(ip);
                after_loopback(dpu, allocate_secondary_vtep_ip)
            },
            (DpuConfigStep::AllocatingVtep { dpu }, Reply::Ip(ip)) => {
                let mut dpu = dpu;
                dpu.versioned.config.secondary_overlay_vtep_ip = Some(ip);
                write_config(dpu)
            },
            (DpuConfigStep::Writing, Reply::Done) => Progress::Finished(()),
            (_, reply) => Progress::Failed(failure_of(reply)),
        }
    }
}

/// How far the settling of a host's administrative addresses has come.
#[derive(Clone, Copy, Debug, PartialEq, Eq, Structural)]
pub enum ReconcileStep {
    Reconciling,
    Reading,
    Writing,
}

/// The settling of a host's administrative addresses. It finishes with whether the active
/// configuration changed.
#[derive(Debug)]
pub struct Reconciliation {
    pub machine_id: MachineId,
    pub step: ReconcileStep,
}

/// How the settling starts.
pub open spec fn reconcile_start(machine_id: MachineId) -> Progress<Reconciliation, bool> {
    Progress::Ask(
        Reconciliation { machine_id, step: ReconcileStep::Reconciling },
        Request::ReconcileAdminAddresses { machine_id },
    )
}

/// Starts to settle a host's administrative addresses.
pub fn reconcile_host_admin_addresses(machine_id: MachineId) -> (r: Progress<Reconciliation, bool>)
    ensures
        r == reconcile_start(machine_id),
{
    let id = machine_id.clone();
    Progress::Ask(
        Reconciliation { machine_id, step: ReconcileStep::Reconciling },
        Request::ReconcileAdminAddresses { machine_id: id },
    )
}

impl Reconciliation {
    /// How the settling goes on after a reply: where the active configuration changed, the
    /// host's configuration is written again as it is read, which gives it a new version.
    pub open spec fn next(self, reply: Reply) -> Progress<Reconciliation, bool> {
        let machine_id = self.machine_id;
        match (self.step, reply) {
            (ReconcileStep::Reconciling, Reply::Changed(changed)) => if changed {
                Progress::Ask(
                    Reconciliation { machine_id, step: ReconcileStep::Reading },
                    Request::ReadNetworkConfig { machine_id },
                )
            } else {
                Progress::Finished(false)
            },
            (ReconcileStep::Reading, Reply::Config(versioned)) => Progress::Ask(
                Reconciliation { machine_id, step: ReconcileStep::Writing },
                Request::WriteNetworkConfig { machine_id, versioned },
            ),
            (ReconcileStep::Writing, Reply::Done) => Progress::Finished(true),
            (_, reply) => Progress::Failed(reply_failure(reply)),
        }
    }

    /// Goes on after a reply.
    pub fn resume(self, reply: Reply) -> (r: Progress<Reconciliation, bool>)
        ensures
            r == self.next(reply),
    {
        let Reconciliation { machine_id, step } = self;
        let id = machine_id.clone();
        match (step, reply) {
            (ReconcileStep::Reconciling, Reply::Changed(changed)) => {
                if changed {
                    Progress::Ask(
                        Reconciliation { machine_id, step: ReconcileStep::Reading },
                        Request::ReadNetworkConfig { machine_id: id },
                    )
                } else {
                    Progress::Finished(false)
                }
            },
            (ReconcileStep::Reading, Reply::Config(versioned)) => Progress::Ask(
                Reconciliation { machine_id, step: ReconcileStep::Writing },
                Request::WriteNetworkConfig { machine_id: id, versioned },
            ),
            (ReconcileStep::Writing, Reply::Done) => Progress::Finished(true),
            (_, reply) => Progress::Failed(failure_of(reply)),
        }
    }
}

} // verus!
