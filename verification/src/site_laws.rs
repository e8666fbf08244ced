//! What the answers of the vault and the reports of secure boot mean.
use vstd::prelude::*;

use crate::credentials::{
    factory_next, has_password, CredentialKey, CredentialType, Credentials, DpuModel,
    EndpointExplorationError, FactoryLookup, FactoryStep,
};
use crate::secure_boot::{reads_as_disabled, DpuMachineStateHandler};

verus! {

/// Credentials have a password exactly if their password is not the empty text.
pub proof fn passwords_have_characters(username: String, password: String)
    ensures
        !has_password(Credentials::UsernamePassword { username, password }) <==> password@
            == Seq::<char>::empty(),
{
    if password@.len() == 0 {
        assert(password@ =~= Seq::<char>::empty());
    }
}

/// After a lookup of factory credentials that found some, these are taken. After one that found
/// none, the entry for all models is looked up exactly if the entry of a named model was the one
/// looked up; otherwise the documented default is taken.
pub proof fn factory_lookups_fall_back_once(
    model: DpuModel,
    looked_up: FactoryLookup,
    found: Result<Credentials, EndpointExplorationError>,
    documented_default: Credentials,
)
    ensures
        ({
            let step = factory_next(model, looked_up, found, documented_default);
            &&& found matches Ok(credentials) ==> step == FactoryStep::Take { credentials }
            &&& step is LookUpCatchAll <==> found is Err && looked_up is Model && model is Named
            &&& step is LookUpCatchAll ==> step->key == (CredentialKey::DpuRedfish {
                credential_type: CredentialType::DpuHardwareDefault { model: DpuModel::Unknown },
            })
            &&& found is Err && (looked_up is CatchAll || model is Unknown) ==> step
                == (FactoryStep::Take { credentials: documented_default })
        }),
{
}

/// Secure boot reads as disabled exactly if the BMC reports that it is off, or reports nothing and
/// need not, where it is to be off. It reads as enabled exactly if the BMC reports so. It is not
/// known exactly if nothing is reported and that is either not allowed or not enough.
pub proof fn secure_boot_reads_as_reported(
    handler: DpuMachineStateHandler,
    reported_enabled: Option<bool>,
)
    ensures
        reads_as_disabled(handler, reported_enabled) == Some(true) <==> {
            ||| reported_enabled == Some(false)
            ||| reported_enabled is None && handler.secure_boot_reporting_optional
                && !handler.enable_secure_boot
        },
        reads_as_disabled(handler, reported_enabled) == Some(false) <==> reported_enabled == Some(
            true,
        ),
        reads_as_disabled(handler, reported_enabled) is None <==> reported_enabled is None && (
        !handler.secure_boot_reporting_optional || handler.enable_secure_boot),
{
}

} // verus!
