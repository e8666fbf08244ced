//! What a DPU's BMC reports of secure boot, and what that means for turning it off.
use vstd::prelude::*;

use crate::addresses::MachineId;

verus! {

/// Why the state of secure boot is not known.
#[derive(Debug)]
pub enum StateHandlerError {
    /// The BMC of the machine did not report it.
    MissingData { machine_id: MachineId },
}

/// How a DPU's secure boot is handled.
#[derive(Clone, Copy, Debug, PartialEq, Eq, Structural)]
pub struct DpuMachineStateHandler {
    /// Secure boot is to be turned on, not off.
    pub enable_secure_boot: bool,
    /// The operator knows of BMCs that do not report secure boot.
    pub secure_boot_reporting_optional: bool,
}

/// A handler with these settings.
pub fn handler(
    enable_secure_boot: bool,
    secure_boot_reporting_optional: bool,
) -> (r: DpuMachineStateHandler)
    ensures
        r.enable_secure_boot == enable_secure_boot,
        r.secure_boot_reporting_optional == secure_boot_reporting_optional,
{
    DpuMachineStateHandler { enable_secure_boot, secure_boot_reporting_optional }
}

/// The id of a DPU that serves as an example.
pub fn dpu_machine_id() -> (r: MachineId)
    ensures
        r.text@ == "fm100dtes3rn1npvbtm5qd57dkilaag7ljugl1llmm7rfuq1ov50i0rpl30"@,
{
    MachineId {
        text: "fm100dtes3rn1npvbtm5qd57dkilaag7ljugl1llmm7rfuq1ov50i0rpl30".to_owned(),
    }
}

/// Whether secure boot reads as disabled, where that is known. A reported state counts as it
/// is. An unreported one reads as disabled where secure boot is to be turned off and reporting
/// is optional, and is unknown otherwise.
pub open spec fn reads_as_disabled(
    handler: DpuMachineStateHandler,
    reported_enabled: Option<bool>,
) -> Option<bool> {
    match reported_enabled {
        Some(enabled) => Some(!enabled),
        None => if handler.secure_boot_reporting_optional && !handler.enable_secure_boot {
            Some(true)
        } else {
            None
        },
    }
}

impl DpuMachineStateHandler {
    /// Whether secure boot is disabled, where `reported_enabled` is what the BMC reports.
    pub fn is_secure_boot_disabled(
        &self,
        machine_id: &MachineId,
        reported_enabled: Option<bool>,
    ) -> (r: Result<bool, StateHandlerError>)
        ensures
            match r {
                Ok(disabled) => reads_as_disabled(*self, reported_enabled) == Some(disabled),
                Err(error) => reads_as_disabled(*self, reported_enabled) is None && error == (
                StateHandlerError::MissingData { machine_id: *machine_id }),
            },
    {
        match reported_enabled {
            Some(enabled) => Ok(!enabled),
            None => {
                if self.secure_boot_reporting_optional && !self.enable_secure_boot {
                    Ok(true)
                } else {
                    Err(StateHandlerError::MissingData { machine_id: machine_id.clone() })
                }
            },
        }
    }
}

/// A reported state is read alike whatever the settings, and secure boot that is to be turned
/// on never passes unreported.
pub proof fn settings_do_not_weaken_reports(
    a: DpuMachineStateHandler,
    b: DpuMachineStateHandler,
    enabled: bool,
)
    ensures
        reads_as_disabled(a, Some(enabled)) == reads_as_disabled(b, Some(enabled)),
        a.enable_secure_boot ==> reads_as_disabled(a, None) is None,
{
}

} // verus!
