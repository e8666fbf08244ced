//! Creating the machine of a DPU, and attaching the DPU to its host.
use vstd::prelude::*;

use crate::addresses::{MacAddress, MachineId, MachineInterfaceId};
use crate::exploration::{dpu_oob_mac_address, oob_mac_of, ExploredDpu};
use crate::machine_creator::network_config::DpuMachine;
use crate::machine_creator::requests::{
    failure_of, reply_failure, IngestionError, Progress, Reply, Request, TopologySubject,
};
use crate::machine_creator::topology::{topology_start, update_machine_topology, TopologyUpdate};

verus! {

/// How far the setup of a DPU's out-of-band interface has come.
#[derive(Clone, Copy, Debug, PartialEq, Eq, Structural)]
pub enum DpuInterfaceStep {
    Finding,
    Capturing { interface_id: MachineInterfaceId },
    Associating { interface_id: MachineInterfaceId },
    Linking,
}

/// The setup of a DPU's out-of-band interface. It finishes with whether the interface got
/// its machine now.
#[derive(Debug)]
pub struct DpuInterfaceSetup {
    pub dpu_machine_id: MachineId,
    pub step: DpuInterfaceStep,
}

/// How the setup starts: with the interface's row, if the DPU has an out-of-band interface.
pub open spec fn dpu_interface_start(dpu: ExploredDpu, dpu_machine_id: MachineId) -> Progress<
    DpuInterfaceSetup,
    bool,
> {
    match oob_mac_of(dpu.systems@) {
        None => Progress::Finished(false),
        Some(mac_address) => Progress::Ask(
            DpuInterfaceSetup { dpu_machine_id, step: DpuInterfaceStep::Finding },
            Request::FindInterface { mac_address },
        ),
    }
}

/// Starts to set up a DPU's out-of-band interface.
pub fn configure_dpu_interface(explored_dpu: &ExploredDpu, dpu_machine_id: &MachineId) -> (r:
    Progress<DpuInterfaceSetup, bool>)
    ensures
        r == dpu_interface_start(*explored_dpu, *dpu_machine_id),
{
    match dpu_oob_mac_address(explored_dpu) {
        None => Progress::Finished(false),
        Some(mac_address) => Progress::Ask(
            DpuInterfaceSetup {
                dpu_machine_id: dpu_machine_id.clone(),
                step: DpuInterfaceStep::Finding,
            },
            Request::FindInterface { mac_address },
        ),
    }
}

impl DpuInterfaceSetup {
    /// How the setup goes on after a reply: a row that has a machine, or no row, is left
    /// alone; a row of nobody is captured and associated with the DPU, as machine and as DPU.
    pub open spec fn next(self, reply: Reply) -> Progress<DpuInterfaceSetup, bool> {
        let dpu_machine_id = self.dpu_machine_id;
        match (self.step, reply) {
            (DpuInterfaceStep::Finding, Reply::Interface(Some(row))) => if row.machine_id is None {
                Progress::Ask(
                    DpuInterfaceSetup {
                        dpu_machine_id,
                        step: DpuInterfaceStep::Capturing { interface_id: row.id },
                    },
                    Request::CaptureExpectedInterface {
                        interface_id: row.id,
                        mac_address: row.mac_address,
                    },
                )
            } else {
                Progress::Finished(false)
            },
            (DpuInterfaceStep::Finding, Reply::Interface(None)) => Progress::Finished(false),
            (DpuInterfaceStep::Capturing { interface_id }, Reply::Done) => Progress::Ask(
                DpuInterfaceSetup {
                    dpu_machine_id,
                    step: DpuInterfaceStep::Associating { interface_id },
                },
                Request::AssociateWithMachine { interface_id, machine_id: dpu_machine_id },
            ),
            (DpuInterfaceStep::Associating { interface_id }, Reply::Done) => Progress::Ask(
                DpuInterfaceSetup { dpu_machine_id, step: DpuInterfaceStep::Linking },
                Request::AssociateWithDpuMachine { interface_id, dpu_machine_id },
            ),
            (DpuInterfaceStep::Linking, Reply::Done) => Progress::Finished(true),
            (_, reply) => Progress::Failed(reply_failure(reply)),
        }
    }

    /// Goes on after a reply.
    pub fn resume(self, reply: Reply) -> (r: Progress<DpuInterfaceSetup, bool>)
        ensures
            r == self.next(reply),
    {
        let DpuInterfaceSetup { dpu_machine_id, step } = self;
        let id = dpu_machine_id.clone();
        match (step, reply) {
            (DpuInterfaceStep::Finding, Reply::Interface(Some(row))) => {
                if row.machine_id.is_none() {
                    Progress::Ask(
                        DpuInterfaceSetup {
                            dpu_machine_id,
                            step: DpuInterfaceStep::Capturing { interface_id: row.id },
                        },
                        Request::CaptureExpectedInterface {
                            interface_id: row.id,
                            mac_address: row.mac_address,
                        },
                    )
                } else {
                    Progress::Finished(false)
                }
            },
            (DpuInterfaceStep::Finding, Reply::Interface(None)) => Progress::Finished(false),
            (DpuInterfaceStep::Capturing { interface_id }, Reply::Done) => Progress::Ask(
                DpuInterfaceSetup {
                    dpu_machine_id,
                    step: DpuInterfaceStep::Associating { interface_id },
                },
                Request::AssociateWithMachine { interface_id, machine_id: id },
            ),
            (DpuInterfaceStep::Associating { interface_id }, Reply::Done) => Progress::Ask(
                DpuInterfaceSetup { dpu_machine_id, step: DpuInterfaceStep::Linking },
                Request::AssociateWithDpuMachine { interface_id, dpu_machine_id: id },
            ),
            (DpuInterfaceStep::Linking, Reply::Done) => Progress::Finished(true),
            (_, reply) => Progress::Failed(failure_of(reply)),
        }
    }
}

/// How far the creation of a DPU's machine has come.
#[derive(Debug)]
pub enum DpuCreationStep {
    Finding { dpu_machine_id: MachineId },
    Creating { dpu_machine_id: MachineId },
    SettingUpInterface { machine: DpuMachine, setup: DpuInterfaceSetup },
    WritingTopology { machine: DpuMachine, update: TopologyUpdate },
}

/// How the creation starts: whether the DPU's machine exists.
pub open spec fn dpu_creation_start(dpu_machine_id: MachineId) -> (DpuCreationStep, Request) {
    (
        DpuCreationStep::Finding { dpu_machine_id },
        Request::FindMachine { machine_id: dpu_machine_id, include_predicted_host: false },
    )
}

/// Starts to create the machine of a DPU. It finishes with the new machine, or with none
/// where the machine exists already.
pub fn create_dpu(dpu_machine_id: &MachineId) -> (r: (DpuCreationStep, Request))
    ensures
        r == dpu_creation_start(*dpu_machine_id),
{
    (
        DpuCreationStep::Finding { dpu_machine_id: dpu_machine_id.clone() },
        Request::FindMachine {
            machine_id: dpu_machine_id.clone(),
            include_predicted_host: false,
        },
    )
}

/// The creation with the setup of the DPU's interface under way; afterwards its topology is
/// written, for which the report must give hardware data.
pub open spec fn dpu_creation_setup(
    dpu: ExploredDpu,
    position: usize,
    machine: DpuMachine,
    progress: Progress<DpuInterfaceSetup, bool>,
) -> Progress<DpuCreationStep, Option<DpuMachine>> {
    match progress {
        Progress::Ask(setup, request) => Progress::Ask(
            DpuCreationStep::SettingUpInterface { machine, setup },
            request,
        ),
        Progress::Finished(_) => match dpu.hardware_info {
            Err(text) => Progress::Failed(IngestionError::InvalidReport(text)),
            Ok(_) => dpu_creation_topology(
                machine,
                topology_start(machine.machine_id, TopologySubject::Dpu(position)),
            ),
        },
        Progress::Failed(error) => Progress::Failed(error),
    }
}

/// The creation with the DPU's topology under way.
pub open spec fn dpu_creation_topology(
    machine: DpuMachine,
    progress: Progress<TopologyUpdate, ()>,
) -> Progress<DpuCreationStep, Option<DpuMachine>> {
    match progress {
        Progress::Ask(update, request) => Progress::Ask(
            DpuCreationStep::WritingTopology { machine, update },
            request,
        ),
        Progress::Finished(_) => Progress::Finished(Some(machine)),
        Progress::Failed(error) => Progress::Failed(error),
    }
}

fn with_setup(
    dpu: &ExploredDpu,
    position: usize,
    machine: DpuMachine,
    progress: Progress<DpuInterfaceSetup, bool>,
) -> (r: Progress<DpuCreationStep, Option<DpuMachine>>)
    ensures
        r == dpu_creation_setup(*dpu, position, machine, progress),
{
    match progress {
        Progress::Ask(setup, request) => Progress::Ask(
            DpuCreationStep::SettingUpInterface { machine, setup },
            request,
        ),
        Progress::Finished(_) => {
            match &dpu.hardware_info {
                Err(text) => Progress::Failed(IngestionError::InvalidReport(text.clone())),
                Ok(_) => {
                    let progress = update_machine_topology(
                        &machine.machine_id,
                        TopologySubject::Dpu(position),
                    );
                    with_topology(machine, progress)
                },
            }
        },
        Progress::Failed(error) => Progress::Failed(error),
    }
}

fn with_topology(machine: DpuMachine, progress: Progress<TopologyUpdate, ()>) -> (r: Progress<
    DpuCreationStep,
    Option<DpuMachine>,
>)
    ensures
        r == dpu_creation_topology(machine, progress),
{
    match progress {
        Progress::Ask(update, request) => Progress::Ask(
            DpuCreationStep::WritingTopology { machine, update },
            request,
        ),
        Progress::Finished(()) => Progress::Finished(Some(machine)),
        Progress::Failed(error) => Progress::Failed(error),
    }
}

impl DpuCreationStep {
    /// How the creation goes on after a reply.
    pub open spec fn next(self, dpu: ExploredDpu, position: usize, reply: Reply) -> Progress<
        DpuCreationStep,
        Option<DpuMachine>,
    > {
        match (self, reply) {
            (DpuCreationStep::Finding { dpu_machine_id }, Reply::Found(found)) => if found {
                Progress::Finished(None)
            } else {
                Progress::Ask(
                    DpuCreationStep::Creating { dpu_machine_id },
                    Request::CreateMachine { machine_id: dpu_machine_id, with_declaration: false },
                )
            },
            (DpuCreationStep::Creating { dpu_machine_id }, Reply::Config(versioned)) => dpu_creation_setup(
                dpu,
                position,
                DpuMachine { machine_id: dpu_machine_id, versioned },
                dpu_interface_start(dpu, dpu_machine_id),
            ),
            (DpuCreationStep::SettingUpInterface { machine, setup }, reply) => dpu_creation_setup(
                dpu,
                position,
                machine,
                setup.next(reply),
            ),
            (DpuCreationStep::WritingTopology { machine, update }, reply) => dpu_creation_topology(
                machine,
                update.next(reply),
            ),
            (_, reply) => Progress::Failed(reply_failure(reply)),
        }
    }

    /// Goes on after a reply.
    pub fn resume(self, dpu: &ExploredDpu, position: usize, reply: Reply) -> (r: Progress<
        DpuCreationStep,
        Option<DpuMachine>,
    >)
        ensures
            r == self.next(*dpu, position, reply),
    {
        match (self, reply) {
            (DpuCreationStep::Finding { dpu_machine_id }, Reply::Found(found)) => {
                if found {
                    Progress::Finished(None)
                } else {
                    let machine_id = dpu_machine_id.clone();
                    Progress::Ask(
                        DpuCreationStep::Creating { dpu_machine_id },
                        Request::CreateMachine { machine_id, with_declaration: false },
                    )
                }
            },
            (DpuCreationStep::Creating { dpu_machine_id }, Reply::Config(versioned)) => {
                let progress = configure_dpu_interface(dpu, &dpu_machine_id);
                with_setup(
                    dpu,
                    position,
                    DpuMachine { machine_id: dpu_machine_id, versioned },
                    progress,
                )
            },
            (DpuCreationStep::SettingUpInterface { machine, setup }, reply) => with_setup(
                dpu,
                position,
                machine,
                setup.resume(reply),
            ),
            (DpuCreationStep::WritingTopology { machine, update }, reply) => with_topology(
                machine,
                update.resume(reply),
            ),
            (_, reply) => Progress::Failed(failure_of(reply)),
        }
    }
}

/// How far the attaching of a DPU to its host has come.
#[derive(Debug)]
pub enum AttachStep {
    FindingInterface { mac_address: MacAddress },
    Capturing { interface_id: MachineInterfaceId },
    Linking { interface_id: MachineInterfaceId },
    Reloading,
    /// The host has its machine: this interface becomes a secondary one.
    SettingSecondary { interface_id: MachineInterfaceId, host_machine_id: MachineId },
    /// The host gets its machine: this interface becomes the primary one.
    CreatingHost { interface_id: MachineInterfaceId, host_machine_id: MachineId },
    WritingTopology {
        interface_id: MachineInterfaceId,
        host_machine_id: MachineId,
        update: TopologyUpdate,
    },
    SettingPrimary { interface_id: MachineInterfaceId, host_machine_id: MachineId },
    Associating { host_machine_id: MachineId },
}

/// How the attaching starts: with the interface by which the host sees the DPU, which the
/// hardware data must name.
pub open spec fn attach_start(dpu: ExploredDpu, dpu_machine_id: MachineId) -> Progress<
    AttachStep,
    MachineId,
> {
    match dpu.hardware_info {
        Err(text) => Progress::Failed(IngestionError::InvalidReport(text)),
        Ok(hardware) => match hardware.factory_mac_address {
            Err(text) => Progress::Failed(IngestionError::FactoryMacMissing(text)),
            Ok(mac_address) => Progress::Ask(
                AttachStep::FindingInterface { mac_address },
                Request::FindOrCreateHostInterface { dpu_machine_id, mac_address },
            ),
        },
    }
}

/// Starts to attach a DPU to its host. It finishes with the host's machine id.
pub fn attach_dpu_to_host(explored_dpu: &ExploredDpu, dpu_machine_id: &MachineId) -> (r: Progress<
    AttachStep,
    MachineId,
>)
    ensures
        r == attach_start(*explored_dpu, *dpu_machine_id),
{
    match &explored_dpu.hardware_info {
        Err(text) => Progress::Failed(IngestionError::InvalidReport(text.clone())),
        Ok(hardware) => match &hardware.factory_mac_address {
            Err(text) => Progress::Failed(IngestionError::FactoryMacMissing(text.clone())),
            Ok(mac_address) => Progress::Ask(
                AttachStep::FindingInterface { mac_address: *mac_address },
                Request::FindOrCreateHostInterface {
                    dpu_machine_id: dpu_machine_id.clone(),
                    mac_address: *mac_address,
                },
            ),
        },
    }
}

/// The host's machine gets the interface: as a secondary one where the host has its machine
/// already; otherwise the machine is created, under the id that the DPU's hardware data give
/// the host, and the interface becomes its primary one.
pub open spec fn host_configured(
    dpu: ExploredDpu,
    host_machine_id: Option<MachineId>,
    interface_id: MachineInterfaceId,
) -> Progress<AttachStep, MachineId> {
    match host_machine_id {
        Some(host_machine_id) => Progress::Ask(
            AttachStep::SettingSecondary { interface_id, host_machine_id },
            Request::SetPrimaryInterface { interface_id, primary: false },
        ),
        None => match dpu.hardware_info {
            Err(text) => Progress::Failed(IngestionError::InvalidReport(text)),
            Ok(hardware) => match hardware.host_machine_id {
                Err(text) => Progress::Failed(IngestionError::HardwareInfoMissing(text)),
                Ok(host_machine_id) => Progress::Ask(
                    AttachStep::CreatingHost { interface_id, host_machine_id },
                    Request::CreateMachine { machine_id: host_machine_id, with_declaration: true },
                ),
            },
        },
    }
}

/// Starts to give the host's machine the interface, creating the machine where the host has
/// none.
pub fn configure_host_machine(
    explored_dpu: &ExploredDpu,
    host_machine_id: &Option<MachineId>,
    interface_id: MachineInterfaceId,
) -> (r: Progress<AttachStep, MachineId>)
    ensures
        r == host_configured(*explored_dpu, *host_machine_id, interface_id),
{
    match host_machine_id {
        Some(host_machine_id) => Progress::Ask(
            AttachStep::SettingSecondary {
                interface_id,
                host_machine_id: host_machine_id.clone(),
            },
            Request::SetPrimaryInterface { interface_id, primary: false },
        ),
        None => match &explored_dpu.hardware_info {
            Err(text) => Progress::Failed(IngestionError::InvalidReport(text.clone())),
            Ok(hardware) => match &hardware.host_machine_id {
                Err(text) => Progress::Failed(IngestionError::HardwareInfoMissing(text.clone())),
                Ok(host_machine_id) => Progress::Ask(
                    AttachStep::CreatingHost {
                        interface_id,
                        host_machine_id: host_machine_id.clone(),
                    },
                    Request::CreateMachine {
                        machine_id: host_machine_id.clone(),
                        with_declaration: true,
                    },
                ),
            },
        },
    }
}

/// The attaching with the host's topology under way.
pub open spec fn attach_topology(
    interface_id: MachineInterfaceId,
    host_machine_id: MachineId,
    progress: Progress<TopologyUpdate, ()>,
) -> Progress<AttachStep, MachineId> {
    match progress {
        Progress::Ask(update, request) => Progress::Ask(
            AttachStep::WritingTopology { interface_id, host_machine_id, update },
            request,
        ),
        Progress::Finished(_) => Progress::Ask(
            AttachStep::SettingPrimary { interface_id, host_machine_id },
            Request::SetPrimaryInterface { interface_id, primary: true },
        ),
        Progress::Failed(error) => Progress::Failed(error),
    }
}

fn attaching_with_topology(
    interface_id: MachineInterfaceId,
    host_machine_id: MachineId,
    progress: Progress<TopologyUpdate, ()>,
) -> (r: Progress<AttachStep, MachineId>)
    ensures
        r == attach_topology(interface_id, host_machine_id, progress),
{
    match progress {
        Progress::Ask(update, request) => Progress::Ask(
            AttachStep::WritingTopology { interface_id, host_machine_id, update },
            request,
        ),
        Progress::Finished(()) => Progress::Ask(
            AttachStep::SettingPrimary { interface_id, host_machine_id },
            Request::SetPrimaryInterface { interface_id, primary: true },
        ),
        Progress::Failed(error) => Progress::Failed(error),
    }
}

/// The interface is associated with the host's machine.
pub open spec fn attach_associated(
    interface_id: MachineInterfaceId,
    host_machine_id: MachineId,
) -> Progress<AttachStep, MachineId> {
    Progress::Ask(
        AttachStep::Associating { host_machine_id },
        Request::AssociateWithMachine { interface_id, machine_id: host_machine_id },
    )
}

fn associate(interface_id: MachineInterfaceId, host_machine_id: MachineId) -> (r: Progress<
    AttachStep,
    MachineId,
>)
    ensures
        r == attach_associated(interface_id, host_machine_id),
{
    let machine_id = host_machine_id.clone();
    Progress::Ask(
        AttachStep::Associating { host_machine_id },
        Request::AssociateWithMachine { interface_id, machine_id },
    )
}

impl AttachStep {
    /// How the attaching goes on after a reply. The interface must belong to no machine yet;
    /// it is captured and linked to the DPU, then the host's machine gets it.
    pub open spec fn next(
        self,
        dpu: ExploredDpu,
        dpu_machine_id: MachineId,
        host_machine_id: Option<MachineId>,
        reply: Reply,
    ) -> Progress<AttachStep, MachineId> {
        match (self, reply) {
            (AttachStep::FindingInterface { mac_address }, Reply::Interface(Some(row))) => if row.machine_id is Some {
                Progress::Failed(IngestionError::HostInterfaceAlreadyOwned { dpu_machine_id })
            } else {
                Progress::Ask(
                    AttachStep::Capturing { interface_id: row.id },
                    Request::CaptureExpectedInterface { interface_id: row.id, mac_address },
                )
            },
            (AttachStep::Capturing { interface_id }, Reply::Done) => Progress::Ask(
                AttachStep::Linking { interface_id },
                Request::AssociateWithDpuMachine { interface_id, dpu_machine_id },
            ),
            (AttachStep::Linking { interface_id }, Reply::Done) => Progress::Ask(
                AttachStep::Reloading,
                Request::ReloadInterface { interface_id },
            ),
            (AttachStep::Reloading, Reply::Interface(Some(row))) => host_configured(
                dpu,
                host_machine_id,
                row.id,
            ),
            (
                AttachStep::SettingSecondary { interface_id, host_machine_id },
                Reply::Done,
            ) => attach_associated(interface_id, host_machine_id),
            (
                AttachStep::CreatingHost { interface_id, host_machine_id },
                Reply::Config(_),
            ) => attach_topology(
                interface_id,
                host_machine_id,
                topology_start(host_machine_id, TopologySubject::Host),
            ),
            (
                AttachStep::WritingTopology { interface_id, host_machine_id, update },
                reply,
            ) => attach_topology(interface_id, host_machine_id, update.next(reply)),
            (
                AttachStep::SettingPrimary { interface_id, host_machine_id },
                Reply::Done,
            ) => attach_associated(interface_id, host_machine_id),
            (AttachStep::Associating { host_machine_id }, Reply::Done) => Progress::Finished(
                host_machine_id,
            ),
            (_, reply) => Progress::Failed(reply_failure(reply)),
        }
    }

    /// Goes on after a reply.
    pub fn resume(
        self,
        dpu: &ExploredDpu,
        dpu_machine_id: &MachineId,
        host_machine_id: &Option<MachineId>,
        reply: Reply,
    ) -> (r: Progress<AttachStep, MachineId>)
        ensures
            r == self.next(*dpu, *dpu_machine_id, *host_machine_id, reply),
    {
        match (self, reply) {
            (AttachStep::FindingInterface { mac_address }, Reply::Interface(Some(row))) => {
                if row.machine_id.is_some() {
                    Progress::Failed(
                        IngestionError::HostInterfaceAlreadyOwned {
                            dpu_machine_id: dpu_machine_id.clone(),
                        },
                    )
                } else {
                    Progress::Ask(
                        AttachStep::Capturing { interface_id: row.id },
                        Request::CaptureExpectedInterface { interface_id: row.id, mac_address },
                    )
                }
            },
            (AttachStep::Capturing { interface_id }, Reply::Done) => Progress::Ask(
                AttachStep::Linking { interface_id },
                Request::AssociateWithDpuMachine {
                    interface_id,
                    dpu_machine_id: dpu_machine_id.clone(),
                },
            ),
            (AttachStep::Linking { interface_id }, Reply::Done) => Progress::Ask(
                AttachStep::Reloading,
                Request::ReloadInterface { interface_id },
            ),
            (AttachStep::Reloading, Reply::Interface(Some(row))) => configure_host_machine(
                dpu,
                host_machine_id,
                row.id,
            ),
            (
                AttachStep::SettingSecondary { interface_id, host_machine_id },
                Reply::Done,
            ) => associate(interface_id, host_machine_id),
            (AttachStep::CreatingHost { interface_id, host_machine_id }, Reply::Config(_)) => {
                let progress = update_machine_topology(&host_machine_id, TopologySubject::Host);
                attaching_with_topology(interface_id, host_machine_id, progress)
            },
            (
                AttachStep::WritingTopology { interface_id, host_machine_id, update },
                reply,
            ) => attaching_with_topology(interface_id, host_machine_id, update.resume(reply)),
            (
                AttachStep::SettingPrimary { interface_id, host_machine_id },
                Reply::Done,
            ) => associate(interface_id, host_machine_id),
            (AttachStep::Associating { host_machine_id }, Reply::Done) => Progress::Finished(
                host_machine_id,
            ),
            (_, reply) => Progress::Failed(failure_of(reply)),
        }
    }
}

} // verus!
