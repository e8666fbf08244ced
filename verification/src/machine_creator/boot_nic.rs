//! Owning a declared integrated boot interface of a host whose DPUs are managed.
use vstd::prelude::*;

use crate::addresses::{MacAddress, MachineId};
use crate::expected_machine_data::ExpectedHostNic;
use crate::exploration::{find_interface_id_for_mac, interface_id_for};
use crate::machine_creator::requests::{
    failure_of, reply_failure, FoundKind, IngestionError, InterfaceRow, Prediction, Progress,
    Reply, Request,
};
use crate::machine_creator::zero_dpu::{declared_interface, find_declared_interface, HostFacts};

verus! {

/// How far the owning of the boot interface has come.
#[derive(Debug)]
pub enum BootNicStep {
    FindingInterface,
    Capturing { row: InterfaceRow },
    Demoting { row: InterfaceRow },
    Promoting { row: InterfaceRow },
    Adopting,
    FindingPrediction,
    Predicting,
}

/// The owning of the interface with this MAC address by this host.
#[derive(Debug)]
pub struct BootNicOwnership {
    pub host_machine_id: MachineId,
    pub mac_address: MacAddress,
    pub step: BootNicStep,
}

/// How the owning starts: there is nothing to do where no interface is declared primary.
pub open spec fn boot_nic_start(facts: HostFacts, host_machine_id: MachineId) -> Progress<
    BootNicOwnership,
    (),
> {
    match facts.declared_primary {
        None => Progress::Finished(()),
        Some(mac_address) => Progress::Ask(
            BootNicOwnership { host_machine_id, mac_address, step: BootNicStep::FindingInterface },
            Request::FindInterface { mac_address },
        ),
    }
}

/// What is predicted of the boot interface: that it is the host's primary one, as its
/// declaration is then made to say.
pub open spec fn boot_nic_prediction(
    facts: HostFacts,
    host_machine_id: MachineId,
    mac_address: MacAddress,
) -> Prediction {
    Prediction {
        machine_id: host_machine_id,
        mac_address,
        boot_interface_id: interface_id_for(facts.interface_ids@, mac_address),
        primary_interface: true,
        expected_interface: match declared_interface(facts.host_nics@, mac_address) {
            None => None,
            Some(nic) => Some(ExpectedHostNic { primary: Some(true), ..nic }),
        },
    }
}

impl BootNicOwnership {
    /// The same owning at another step.
    pub open spec fn at(self, step: BootNicStep) -> Self {
        BootNicOwnership { step, ..self }
    }

    /// The row is associated with the host.
    pub open spec fn adopt(self, row: InterfaceRow) -> Progress<BootNicOwnership, ()> {
        Progress::Ask(
            self.at(BootNicStep::Adopting),
            Request::AssociateWithMachine {
                interface_id: row.id,
                machine_id: self.host_machine_id,
            },
        )
    }

    /// How the owning goes on after a reply. A row of this host stays as it is, a row or
    /// prediction of another machine is a contradiction. A row of nobody becomes the host's
    /// only primary interface. Without a row one is predicted, unless it is already.
    pub open spec fn next(self, facts: HostFacts, reply: Reply) -> Progress<BootNicOwnership, ()> {
        match (self.step, reply) {
            (BootNicStep::FindingInterface, Reply::Interface(Some(row))) => Progress::Ask(
                self.at(BootNicStep::Capturing { row }),
                Request::CaptureExpectedInterface {
                    interface_id: row.id,
                    mac_address: self.mac_address,
                },
            ),
            (BootNicStep::FindingInterface, Reply::Interface(None)) => Progress::Ask(
                self.at(BootNicStep::FindingPrediction),
                Request::FindPrediction { mac_address: self.mac_address },
            ),
            (BootNicStep::Capturing { row }, Reply::Done) => match row.machine_id {
                Some(machine_id) => if machine_id.same_as(self.host_machine_id) {
                    Progress::Finished(())
                } else {
                    Progress::Failed(
                        IngestionError::AlreadyFound {
                            kind: FoundKind::MachineInterface,
                            mac_address: self.mac_address,
                        },
                    )
                },
                None => Progress::Ask(
                    self.at(BootNicStep::Demoting { row }),
                    Request::DemotePrimaryInterfaces { machine_id: self.host_machine_id },
                ),
            },
            (BootNicStep::Demoting { row }, Reply::Done) => if !row.primary_interface {
                Progress::Ask(
                    self.at(BootNicStep::Promoting { row }),
                    Request::SetPrimaryInterface { interface_id: row.id, primary: true },
                )
            } else {
                self.adopt(row)
            },
            (BootNicStep::Promoting { row }, Reply::Done) => self.adopt(row),
            (BootNicStep::Adopting, Reply::Done) => Progress::Finished(()),
            (BootNicStep::FindingPrediction, Reply::PredictedFor(Some(machine_id))) => if machine_id.same_as(
                self.host_machine_id,
            ) {
                Progress::Finished(())
            } else {
                Progress::Failed(
                    IngestionError::AlreadyFound {
                        kind: FoundKind::PredictedMachineInterface,
                        mac_address: self.mac_address,
                    },
                )
            },
            (BootNicStep::FindingPrediction, Reply::PredictedFor(None)) => Progress::Ask(
                self.at(BootNicStep::Predicting),
                Request::CreatePrediction {
                    prediction: boot_nic_prediction(
                        facts,
                        self.host_machine_id,
                        self.mac_address,
                    ),
                },
            ),
            (BootNicStep::Predicting, Reply::Done) => Progress::Finished(()),
            (_, reply) => Progress::Failed(reply_failure(reply)),
        }
    }

    /// Goes on after a reply.
    pub fn resume(self, facts: &HostFacts, reply: Reply) -> (r: Progress<BootNicOwnership, ()>)
        ensures
            r == self.next(*facts, reply),
    {
        let BootNicOwnership { host_machine_id, mac_address, step } = self;
        match (step, reply) {
            (BootNicStep::FindingInterface, Reply::Interface(Some(row))) => {
                let interface_id = row.id;
                Progress::Ask(
                    BootNicOwnership {
                        host_machine_id,
                        mac_address,
                        step: BootNicStep::Capturing { row },
                    },
                    Request::CaptureExpectedInterface { interface_id, mac_address },
                )
            },
            (BootNicStep::FindingInterface, Reply::Interface(None)) => Progress::Ask(
                BootNicOwnership {
                    host_machine_id,
                    mac_address,
                    step: BootNicStep::FindingPrediction,
                },
                Request::FindPrediction { mac_address },
            ),
            (BootNicStep::Capturing { row }, Reply::Done) => {
                match &row.machine_id {
                    Some(machine_id) => {
                        if machine_id.same(&host_machine_id) {
                            Progress::Finished(())
                        } else {
                            Progress::Failed(
                                IngestionError::AlreadyFound {
                                    kind: FoundKind::MachineInterface,
                                    mac_address,
                                },
                            )
                        }
                    },
                    None => {
                        let machine_id = host_machine_id.clone();
                        Progress::Ask(
                            BootNicOwnership {
                                host_machine_id,
                                mac_address,
                                step: BootNicStep::Demoting { row },
                            },
                            Request::DemotePrimaryInterfaces { machine_id },
                        )
                    },
                }
            },
            (BootNicStep::Demoting { row }, Reply::Done) => {
                if !row.primary_interface {
                    let interface_id = row.id;
                    Progress::Ask(
                        BootNicOwnership {
                            host_machine_id,
                            mac_address,
                            step: BootNicStep::Promoting { row },
                        },
                        Request::SetPrimaryInterface { interface_id, primary: true },
                    )
                } else {
                    adopt_row(host_machine_id, mac_address, row)
                }
            },
            (BootNicStep::Promoting { row }, Reply::Done) => adopt_row(
                host_machine_id,
                mac_address,
                row,
            ),
            (BootNicStep::Adopting, Reply::Done) => Progress::Finished(()),
            (BootNicStep::FindingPrediction, Reply::PredictedFor(Some(machine_id))) => {
                if machine_id.same(&host_machine_id) {
                    Progress::Finished(())
                } else {
                    Progress::Failed(
                        IngestionError::AlreadyFound {
                            kind: FoundKind::PredictedMachineInterface,
                            mac_address,
                        },
                    )
                }
            },
            (BootNicStep::FindingPrediction, Reply::PredictedFor(None)) => {
                let prediction = predict_boot_nic(facts, &host_machine_id, mac_address);
                Progress::Ask(
                    BootNicOwnership {
                        host_machine_id,
                        mac_address,
                        step: BootNicStep::Predicting,
                    },
                    Request::CreatePrediction { prediction },
                )
            },
            (BootNicStep::Predicting, Reply::Done) => Progress::Finished(()),
            (_, reply) => Progress::Failed(failure_of(reply)),
        }
    }
}

fn adopt_row(host_machine_id: MachineId, mac_address: MacAddress, row: InterfaceRow) -> (r:
    Progress<BootNicOwnership, ()>)
    ensures
        r == (BootNicOwnership {
            host_machine_id,
            mac_address,
            step: BootNicStep::Adopting,
        }).adopt(row),
{
    let machine_id = host_machine_id.clone();
    Progress::Ask(
        BootNicOwnership { host_machine_id, mac_address, step: BootNicStep::Adopting },
        Request::AssociateWithMachine { interface_id: row.id, machine_id },
    )
}

fn predict_boot_nic(
    facts: &HostFacts,
    host_machine_id: &MachineId,
    mac_address: MacAddress,
) -> (r: Prediction)
    ensures
        r == boot_nic_prediction(*facts, *host_machine_id, mac_address),
{
    Prediction {
        machine_id: host_machine_id.clone(),
        mac_address,
        boot_interface_id: find_interface_id_for_mac(&facts.interface_ids, mac_address),
        primary_interface: true,
        expected_interface: match find_declared_interface(&facts.host_nics, mac_address) {
            None => None,
            Some(nic) => {
                let mut nic = nic;
                nic.primary = Some(true);
                Some(nic)
            },
        },
    }
}

/// Starts to own the interface that is declared primary.
pub fn own_declared_host_boot_nic(facts: &HostFacts, host_machine_id: &MachineId) -> (r: Progress<
    BootNicOwnership,
    (),
>)
    ensures
        r == boot_nic_start(*facts, *host_machine_id),
{
    match facts.declared_primary {
        None => Progress::Finished(()),
        Some(mac_address) => Progress::Ask(
            BootNicOwnership {
                host_machine_id: host_machine_id.clone(),
                mac_address,
                step: BootNicStep::FindingInterface,
            },
            Request::FindInterface { mac_address },
        ),
    }
}

} // verus!
