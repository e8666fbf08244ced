//! Credentials of the site: which entry of the vault is asked for, and what its answer means.
use vstd::prelude::*;

use crate::addresses::MacAddress;
use crate::exploration_metrics::SiteExplorationMetrics;
use crate::text::concat2;

verus! {

/// Credentials as the vault holds them.
#[derive(Debug)]
pub enum Credentials {
    UsernamePassword { username: String, password: String },
}

/// The model of a DPU.
#[derive(Debug)]
pub enum DpuModel {
    Unknown,
    Named(String),
}

impl Clone for DpuModel {
    fn clone(&self) -> (r: Self)
        ensures
            r == *self,
    {
        match self {
            DpuModel::Unknown => DpuModel::Unknown,
            DpuModel::Named(name) => DpuModel::Named(name.clone()),
        }
    }
}

/// Which credentials of BMCs are meant.
#[derive(Clone, Copy, Debug, PartialEq, Eq, Structural)]
pub enum BmcCredentialType {
    /// The root user of the BMC with this MAC address.
    BmcRoot { bmc_mac_address: MacAddress },
    /// The root user of all BMCs of the site, in this version.
    SiteWideRoot { version: u32 },
}

/// An entry of the vault.
#[derive(Debug)]
pub enum CredentialKey {
    BmcCredentials { credential_type: BmcCredentialType },
    /// The administrator of a switch's operating system.
    SwitchNvosAdmin { bmc_mac_address: MacAddress },
    /// A user of the DPUs' BMCs.
    DpuRedfish { credential_type: CredentialType },
}

/// Which credentials of machines are meant.
#[derive(Debug)]
pub enum CredentialType {
    /// What a DPU of this model has from the factory.
    DpuHardwareDefault { model: DpuModel },
}

/// An entry of the vault that is to be written.
#[derive(Debug)]
pub struct VaultWrite {
    pub key: CredentialKey,
    pub credentials: Credentials,
}

/// Why an endpoint could not be explored, as far as credentials are concerned.
#[derive(Debug)]
pub enum EndpointExplorationError {
    Other { details: String },
    MissingCredentials { key: String, cause: String },
    SecretsEngineError { cause: String },
    SetCredentials { key: String, cause: String },
}

/// The entry of a BMC's root user.
pub fn get_bmc_root_credential_key(bmc_mac_address: MacAddress) -> (r: CredentialKey)
    ensures
        r == (CredentialKey::BmcCredentials {
            credential_type: BmcCredentialType::BmcRoot { bmc_mac_address },
        }),
{
    CredentialKey::BmcCredentials { credential_type: BmcCredentialType::BmcRoot { bmc_mac_address } }
}

/// The entry of the administrator of a switch's operating system.
pub fn get_bmc_nvos_admin_credential_key(bmc_mac_address: MacAddress) -> (r: CredentialKey)
    ensures
        r == (CredentialKey::SwitchNvosAdmin { bmc_mac_address }),
{
    CredentialKey::SwitchNvosAdmin { bmc_mac_address }
}

/// What the site asks of the vault.
#[derive(Debug)]
pub struct CredentialClient {
    /// The texts of the entries that every site must have, in the order in which they are
    /// looked up.
    pub required_keys: Vec<String>,
}

/// Whether credentials have a password.
pub open spec fn has_password(credentials: Credentials) -> bool {
    credentials->password@.len() > 0
}

impl CredentialClient {
    /// A client for a site that must have these entries.
    pub fn new(required_keys: Vec<String>) -> (r: Self)
        ensures
            r.required_keys == required_keys,
    {
        CredentialClient { required_keys }
    }

    /// Whether credentials have a password.
    pub fn valid_password(credentials: &Credentials) -> (r: bool)
        ensures
            r == has_password(*credentials),
    {
        match credentials {
            Credentials::UsernamePassword { password, .. } => !password.as_str().is_empty(),
        }
    }

    /// What an answer of the vault means, where `key` is the text of the entry: credentials
    /// with a password are there; ones without, none, and a failure are errors of their own.
    pub fn get_credentials(key: &str, answer: Result<Option<Credentials>, String>) -> (r: Result<
        Credentials,
        EndpointExplorationError,
    >)
        ensures
            match answer {
                Ok(Some(credentials)) => if has_password(credentials) {
                    r == Ok::<Credentials, EndpointExplorationError>(credentials)
                } else {
                    r is Err && r->Err_0 is Other && r->Err_0->details@
                        == "vault does not have a valid password entry at "@ + key@
                },
                Ok(None) => r is Err && r->Err_0 is MissingCredentials
                    && r->Err_0->MissingCredentials_key@ == key@
                    && r->Err_0->MissingCredentials_cause@ == "No credentials exists"@,
                Err(cause) => r == Err::<Credentials, EndpointExplorationError>(
                    EndpointExplorationError::SecretsEngineError { cause },
                ),
            },
    {
        match answer {
            Ok(Some(credentials)) => {
                if CredentialClient::valid_password(&credentials) {
                    Ok(credentials)
                } else {
                    Err(
                        EndpointExplorationError::Other {
                            details: concat2("vault does not have a valid password entry at ", key),
                        },
                    )
                }
            },
            Ok(None) => Err(
                EndpointExplorationError::MissingCredentials {
                    key: key.to_owned(),
                    cause: "No credentials exists".to_owned(),
                },
            ),
            Err(cause) => Err(EndpointExplorationError::SecretsEngineError { cause }),
        }
    }

    /// What the answer to storing credentials means, where `key` is the text of the entry.
    pub fn set_credentials(key: &str, answer: Result<(), String>) -> (r: Result<
        (),
        EndpointExplorationError,
    >)
        ensures
            match answer {
                Ok(_) => r is Ok,
                Err(cause) => r is Err && r->Err_0 is SetCredentials
                    && r->Err_0->SetCredentials_key@ == key@ && r->Err_0->SetCredentials_cause
                    == cause,
            },
    {
        match answer {
            Ok(()) => Ok(()),
            Err(cause) => Err(
                EndpointExplorationError::SetCredentials { key: key.to_owned(), cause },
            ),
        }
    }

    /// The entry of the root user of all BMCs, in this version.
    pub fn get_sitewide_bmc_root_credentials(&self, version: u32) -> (r: CredentialKey)
        ensures
            r == (CredentialKey::BmcCredentials {
                credential_type: BmcCredentialType::SiteWideRoot { version },
            }),
    {
        CredentialKey::BmcCredentials {
            credential_type: BmcCredentialType::SiteWideRoot { version },
        }
    }

    /// The entry that is read for a BMC's root user.
    pub fn get_bmc_root_credentials(&self, bmc_mac_address: MacAddress) -> (r: CredentialKey)
        ensures
            r == (CredentialKey::BmcCredentials {
                credential_type: BmcCredentialType::BmcRoot { bmc_mac_address },
            }),
    {
        get_bmc_root_credential_key(bmc_mac_address)
    }

    /// The entry that is read for the administrator of a switch's operating system.
    pub fn get_switch_nvos_admin_credentials(&self, bmc_mac_address: MacAddress) -> (r: CredentialKey)
        ensures
            r == (CredentialKey::SwitchNvosAdmin { bmc_mac_address }),
    {
        get_bmc_nvos_admin_credential_key(bmc_mac_address)
    }

    /// What is written for a BMC's root user.
    pub fn set_bmc_root_credentials(
        &self,
        bmc_mac_address: MacAddress,
        credentials: Credentials,
    ) -> (r: VaultWrite)
        ensures
            r.key == (CredentialKey::BmcCredentials {
                credential_type: BmcCredentialType::BmcRoot { bmc_mac_address },
            }),
            r.credentials == credentials,
    {
        VaultWrite { key: get_bmc_root_credential_key(bmc_mac_address), credentials }
    }

    /// What is written for the administrator of a switch's operating system.
    pub fn set_bmc_nvos_admin_credentials(
        &self,
        bmc_mac_address: MacAddress,
        credentials: Credentials,
    ) -> (r: VaultWrite)
        ensures
            r.key == (CredentialKey::SwitchNvosAdmin { bmc_mac_address }),
            r.credentials == credentials,
    {
        VaultWrite { key: get_bmc_nvos_admin_credential_key(bmc_mac_address), credentials }
    }

    /// What checking the site's required credentials comes to, when the lookups before
    /// `position` succeeded: the entry at this position is looked up; after the last one the
    /// check is satisfied. Nothing of this counts as the exploration of an endpoint.
    pub fn check_preconditions(
        &self,
        metrics: &mut SiteExplorationMetrics,
        position: usize,
    ) -> (r: PreconditionStep)
        ensures
            r == check_from(self.required_keys@, position as nat),
            *final(metrics) == *old(metrics),
    {
        if position < self.required_keys.len() {
            PreconditionStep::LookUp { position }
        } else {
            PreconditionStep::Satisfied
        }
    }

    /// What checking the site's required credentials comes to after the lookup at `position`,
    /// where `failure` is the text of its failure: the first failure ends the check.
    pub fn check_lookup(
        &self,
        metrics: &mut SiteExplorationMetrics,
        position: usize,
        failure: Option<String>,
    ) -> (r: PreconditionStep)
        requires
            position < self.required_keys@.len(),
        ensures
            r == after_check(self.required_keys@, position as nat, failure),
            *final(metrics) == *old(metrics),
    {
        match failure {
            Some(cause) => PreconditionStep::Failed {
                error: EndpointExplorationError::MissingCredentials {
                    key: self.required_keys[position].clone(),
                    cause,
                },
            },
            None => {
                assert(self.required_keys@.len() == self.required_keys.len());
                self.check_preconditions(metrics, position + 1)
            },
        }
    }

    /// Starts to look for the credentials that a DPU of this model has from the factory: the
    /// entry of the model comes first.
    pub fn get_dpu_factory_default_credentials(&self, model: &DpuModel) -> (r: CredentialKey)
        ensures
            r == (CredentialKey::DpuRedfish {
                credential_type: CredentialType::DpuHardwareDefault { model: *model },
            }),
    {
        CredentialKey::DpuRedfish {
            credential_type: CredentialType::DpuHardwareDefault { model: model.clone() },
        }
    }

    /// Goes on after a lookup of factory credentials: found ones are taken; after the entry of
    /// a known model the entry for all models is tried; otherwise the model's documented
    /// default is taken.
    pub fn after_factory_lookup(
        model: &DpuModel,
        looked_up: FactoryLookup,
        found: Result<Credentials, EndpointExplorationError>,
        documented_default: Credentials,
    ) -> (r: FactoryStep)
        ensures
            r == factory_next(*model, looked_up, found, documented_default),
    {
        match found {
            Ok(credentials) => FactoryStep::Take { credentials },
            Err(_) => match (looked_up, model) {
                (FactoryLookup::Model, DpuModel::Named(_)) => FactoryStep::LookUpCatchAll {
                    key: CredentialKey::DpuRedfish {
                        credential_type: CredentialType::DpuHardwareDefault { model: DpuModel::Unknown },
                    },
                },
                _ => FactoryStep::Take { credentials: documented_default },
            },
        }
    }
}

/// What checking the site's required credentials comes to.
#[derive(Debug)]
pub enum PreconditionStep {
    LookUp { position: usize },
    Satisfied,
    Failed { error: EndpointExplorationError },
}

/// The check when the lookups before `position` succeeded.
pub open spec fn check_from(required_keys: Seq<String>, position: nat) -> PreconditionStep {
    if position < required_keys.len() {
        PreconditionStep::LookUp { position: position as usize }
    } else {
        PreconditionStep::Satisfied
    }
}

/// The check after the lookup at `position`, with the text of its failure.
pub open spec fn after_check(
    required_keys: Seq<String>,
    position: nat,
    failure: Option<String>,
) -> PreconditionStep {
    match failure {
        Some(cause) => PreconditionStep::Failed {
            error: EndpointExplorationError::MissingCredentials {
                key: required_keys[position as int],
                cause,
            },
        },
        None => check_from(required_keys, position + 1),
    }
}

/// What the check comes to in the end, where `failures` are the texts of the lookups' failures:
/// it looks entries up one after another until one fails or all have been found.
pub open spec fn check_run(
    required_keys: Seq<String>,
    failures: Seq<Option<String>>,
    step: PreconditionStep,
) -> PreconditionStep
    decreases
            required_keys.len() - (if step is LookUp {
                step->position as int
            } else {
                required_keys.len() as int
            }),
{
    match step {
        PreconditionStep::LookUp { position } => if position < required_keys.len() && position + 1
            <= usize::MAX {
            check_run(
                required_keys,
                failures,
                after_check(required_keys, position as nat, failures[position as int]),
            )
        } else {
            step
        },
        _ => step,
    }
}

/// The check is satisfied exactly if every lookup succeeds, and otherwise it fails with the
/// first entry whose lookup failed.
pub proof fn check_fails_at_the_first_missing_entry(
    required_keys: Seq<String>,
    failures: Seq<Option<String>>,
    position: nat,
)
    requires
        required_keys.len() <= usize::MAX,
        failures.len() == required_keys.len(),
        position <= required_keys.len(),
        forall|i: int| 0 <= i < position ==> (#[trigger] failures[i]) is None,
    ensures
        ({
            let end = check_run(required_keys, failures, check_from(required_keys, position));
            &&& (end is Satisfied <==> forall|i: int|
                0 <= i < failures.len() ==> (#[trigger] failures[i]) is None)
            &&& !(end is Satisfied) ==> exists|i: int|
                {
                    &&& 0 <= i < failures.len()
                    &&& (#[trigger] failures[i]) is Some
                    &&& forall|j: int| 0 <= j < i ==> (#[trigger] failures[j]) is None
                    &&& end == (PreconditionStep::Failed {
                        error: EndpointExplorationError::MissingCredentials {
                            key: required_keys[i],
                            cause: failures[i]->0,
                        },
                    })
                }
        }),
    decreases required_keys.len() - position,
{
    if position < required_keys.len() {
        let i = position as int;
        match failures[i] {
            Some(_) => {
                reveal_with_fuel(check_run, 3);
            },
            None => {
                reveal_with_fuel(check_run, 2);
                check_fails_at_the_first_missing_entry(required_keys, failures, position + 1);
            },
        }
    }
}

/// Which entry for factory credentials was looked up.
#[derive(Clone, Copy, Debug, PartialEq, Eq, Structural)]
pub enum FactoryLookup {
    /// That of the model.
    Model,
    /// That for all models.
    CatchAll,
}

/// What looking for factory credentials comes to.
#[derive(Debug)]
pub enum FactoryStep {
    LookUpCatchAll { key: CredentialKey },
    Take { credentials: Credentials },
}

/// What looking for factory credentials comes to after a lookup.
pub open spec fn factory_next(
    model: DpuModel,
    looked_up: FactoryLookup,
    found: Result<Credentials, EndpointExplorationError>,
    documented_default: Credentials,
) -> FactoryStep {
    match found {
        Ok(credentials) => FactoryStep::Take { credentials },
        Err(_) => if looked_up == FactoryLookup::Model && !(model is Unknown) {
            FactoryStep::LookUpCatchAll {
                key: CredentialKey::DpuRedfish {
                    credential_type: CredentialType::DpuHardwareDefault { model: DpuModel::Unknown },
                },
            }
        } else {
            FactoryStep::Take { credentials: documented_default }
        },
    }
}

/// Looking for factory credentials never fails: it takes those of the model's entry, else,
/// for a known model, those of the entry for all models, else the documented default.
pub proof fn factory_lookup_never_fails(
    model: DpuModel,
    of_model: Result<Credentials, EndpointExplorationError>,
    of_all: Result<Credentials, EndpointExplorationError>,
    documented_default: Credentials,
)
    ensures
        ({
            let taken = match factory_next(
                model,
                FactoryLookup::Model,
                of_model,
                documented_default,
            ) {
                FactoryStep::Take { credentials } => FactoryStep::Take { credentials },
                FactoryStep::LookUpCatchAll { .. } => factory_next(
                    model,
                    FactoryLookup::CatchAll,
                    of_all,
                    documented_default,
                ),
            };
            taken == (FactoryStep::Take {
                credentials: if of_model is Ok {
                    of_model->Ok_0
                } else if !(model is Unknown) && of_all is Ok {
                    of_all->Ok_0
                } else {
                    documented_default
                },
            })
        }),
{
}

} // verus!
