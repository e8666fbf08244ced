//! The configuring state of a switch: its certificate is configured, then the password of its
//! operating system is settled.
use vstd::prelude::*;

use crate::addresses::{mac_text, MacAddress};
use crate::text::{concat2, concat3};

verus! {

/// How far the configuration of a certificate has come.
#[derive(Debug)]
pub enum ConfigureCertificateState {
    Start,
    WaitForComplete { job_id: String },
}

/// What is being configured.
#[derive(Debug)]
pub enum ConfiguringState {
    ConfigureCertificate { configure_certificate: ConfigureCertificateState },
    RotateOsPassword,
}

/// The state of a switch's controller.
#[derive(Debug)]
pub enum SwitchControllerState {
    Configuring { config_state: ConfiguringState },
    FetchInfo,
    Error { cause: String },
    /// A state that the handling of the configuring state does not produce itself.
    Other { name: String },
}

/// What handling a state comes to.
#[derive(Debug)]
pub enum StateHandlerOutcome {
    Transition { next_state: SwitchControllerState },
    Wait { reason: String },
}

/// How handling a state fails.
#[derive(Debug)]
pub enum StateHandlerError {
    /// A request failed.
    Backend(String),
    GenericError(String),
    /// An answer does not fit its request.
    UnexpectedReply,
}

/// The credentials that an operator declared for a switch.
#[derive(Debug)]
pub struct ExpectedSwitch {
    pub nvos_username: Option<String>,
    pub nvos_password: Option<String>,
}

/// How the start of a certificate job ended.
#[derive(Debug)]
pub enum StartConfigureSwitchCertificateResult {
    EarlyTransition(StateHandlerOutcome),
    JobStarted(String),
}

/// How a certificate job stands.
#[derive(Debug)]
pub enum ConfigureSwitchCertificatePollOutcome {
    Completed,
    Failed(String),
    InProgress,
}

/// What a certificate is configured for.
#[derive(Clone, Copy, Debug, PartialEq, Eq, Structural)]
pub enum ConfigureSwitchCertificateMode {
    /// The switch is being brought up.
    BringUp,
}

/// A request that handling the state makes.
#[derive(Debug)]
pub enum ConfiguringRequest {
    StartCertificateJob { mode: ConfigureSwitchCertificateMode },
    PollCertificateJob { job_id: String },
    /// Read the administrator's credentials of the switch's operating system.
    GetNvosCredentials { bmc_mac_address: MacAddress },
    BeginTransaction,
    FindExpectedSwitch { bmc_mac_address: MacAddress },
    Commit,
    /// Store the administrator's credentials of the switch's operating system.
    StoreNvosCredentials { bmc_mac_address: MacAddress, username: String, password: String },
}

/// An answer to a request.
#[derive(Debug)]
pub enum ConfiguringReply {
    Failed(String),
    Done,
    CertificateStart(StartConfigureSwitchCertificateResult),
    CertificatePoll(ConfigureSwitchCertificatePollOutcome),
    /// Whether there are credentials.
    Credentials(bool),
    ExpectedSwitch(Option<ExpectedSwitch>),
}

/// Handling that waits for a reply.
#[derive(Debug)]
pub enum ConfiguringStep {
    StartingCertificate,
    PollingCertificate { job_id: String },
    GettingCredentials { bmc_mac_address: MacAddress },
    Beginning { bmc_mac_address: MacAddress },
    FindingExpected { bmc_mac_address: MacAddress },
    Committing { bmc_mac_address: MacAddress, expected: Option<ExpectedSwitch> },
    Storing,
}

/// Where the handling stands.
#[derive(Debug)]
pub enum ConfiguringProgress {
    Ask(ConfiguringStep, ConfiguringRequest),
    Finished(StateHandlerOutcome),
    Failed(StateHandlerError),
}

/// A switch, as far as its configuration looks at it.
#[derive(Debug)]
pub struct Switch {
    pub controller_state: SwitchControllerState,
    pub bmc_mac_address: Option<MacAddress>,
}

/// The handling ends with a transition to an error with this cause.
pub open spec fn goes_to_error(progress: ConfiguringProgress, cause: Seq<char>) -> bool {
    &&& progress is Finished
    &&& progress->Finished_0 is Transition
    &&& progress->Finished_0->next_state is Error
    &&& progress->Finished_0->next_state->cause@ == cause
}

/// The handling ends with a transition to this state.
pub open spec fn goes_to(state: SwitchControllerState) -> ConfiguringProgress {
    ConfiguringProgress::Finished(StateHandlerOutcome::Transition { next_state: state })
}

/// How settling the password starts: with the vault, for a switch whose BMC is known.
pub open spec fn rotation_starts(
    bmc_mac_address: Option<MacAddress>,
    progress: ConfiguringProgress,
) -> bool {
    match bmc_mac_address {
        None => goes_to_error(progress, "No BMC MAC address on switch"@),
        Some(bmc_mac_address) => progress == ConfiguringProgress::Ask(
            ConfiguringStep::GettingCredentials { bmc_mac_address },
            ConfiguringRequest::GetNvosCredentials { bmc_mac_address },
        ),
    }
}

/// How the handling of the configuring state starts. A certificate that is not yet configured is
/// configured for a switch that is being brought up.
pub open spec fn configuring_starts(
    config_state: ConfiguringState,
    bmc_mac_address: Option<MacAddress>,
    progress: ConfiguringProgress,
) -> bool {
    match config_state {
        ConfiguringState::ConfigureCertificate { configure_certificate } => progress == (
        match configure_certificate {
            ConfigureCertificateState::Start => ConfiguringProgress::Ask(
                ConfiguringStep::StartingCertificate,
                ConfiguringRequest::StartCertificateJob {
                    mode: ConfigureSwitchCertificateMode::BringUp,
                },
            ),
            ConfigureCertificateState::WaitForComplete { job_id } => ConfiguringProgress::Ask(
                ConfiguringStep::PollingCertificate { job_id },
                ConfiguringRequest::PollCertificateJob { job_id },
            ),
        }),
        ConfiguringState::RotateOsPassword => rotation_starts(bmc_mac_address, progress),
    }
}

/// Starts to settle the password of a switch's operating system.
pub fn handle_rotate_os_password(bmc_mac_address: Option<MacAddress>) -> (r: ConfiguringProgress)
    ensures
        rotation_starts(bmc_mac_address, r),
{
    match bmc_mac_address {
        None => ConfiguringProgress::Finished(
            StateHandlerOutcome::Transition {
                next_state: SwitchControllerState::Error {
                    cause: "No BMC MAC address on switch".to_owned(),
                },
            },
        ),
        Some(bmc_mac_address) => ConfiguringProgress::Ask(
            ConfiguringStep::GettingCredentials { bmc_mac_address },
            ConfiguringRequest::GetNvosCredentials { bmc_mac_address },
        ),
    }
}

/// Starts to configure a switch's certificate, or goes on with it.
pub fn handle_configure_certificate(configure_certificate: &ConfigureCertificateState) -> (r:
    ConfiguringProgress)
    ensures
        configuring_starts(
            (ConfiguringState::ConfigureCertificate {
                configure_certificate: *configure_certificate,
            }),
            None,
            r,
        ),
{
    match configure_certificate {
        ConfigureCertificateState::Start => ConfiguringProgress::Ask(
            ConfiguringStep::StartingCertificate,
            ConfiguringRequest::StartCertificateJob {
                mode: ConfigureSwitchCertificateMode::BringUp,
            },
        ),
        ConfigureCertificateState::WaitForComplete { job_id } => ConfiguringProgress::Ask(
            ConfiguringStep::PollingCertificate { job_id: job_id.clone() },
            ConfiguringRequest::PollCertificateJob { job_id: job_id.clone() },
        ),
    }
}

/// Starts to handle the configuring state of a switch.
pub fn handle_configuring(switch: &Switch) -> (r: ConfiguringProgress)
    requires
        switch.controller_state is Configuring,
    ensures
        configuring_starts(
            switch.controller_state->config_state,
            switch.bmc_mac_address,
            r,
        ),
{
    match &switch.controller_state {
        SwitchControllerState::Configuring { config_state } => match config_state {
            ConfiguringState::ConfigureCertificate { configure_certificate } => {
                handle_configure_certificate(configure_certificate)
            },
            ConfiguringState::RotateOsPassword => handle_rotate_os_password(
                switch.bmc_mac_address,
            ),
        },
        _ => ConfiguringProgress::Failed(StateHandlerError::UnexpectedReply),
    }
}

/// The failure that a failed or unfitting reply means.
pub open spec fn configuring_failure(reply: ConfiguringReply) -> StateHandlerError {
    match reply {
        ConfiguringReply::Failed(text) => StateHandlerError::Backend(text),
        _ => StateHandlerError::UnexpectedReply,
    }
}

/// The switch's declaration is known: it must be there. Where it declares both a user and a
/// password for the operating system, they are stored; otherwise there is nothing to do.
pub open spec fn rotation_expected(
    bmc_mac_address: MacAddress,
    expected: Option<ExpectedSwitch>,
    progress: ConfiguringProgress,
) -> bool {
    match expected {
        None => goes_to_error(
            progress,
            "No expected switch found for BMC MAC "@ + mac_text(bmc_mac_address.octets()),
        ),
        Some(expected) => progress == (match (expected.nvos_username, expected.nvos_password) {
            (Some(username), Some(password)) => ConfiguringProgress::Ask(
                ConfiguringStep::Storing,
                ConfiguringRequest::StoreNvosCredentials { bmc_mac_address, username, password },
            ),
            _ => goes_to(SwitchControllerState::FetchInfo),
        }),
    }
}

/// How the handling goes on after a reply. Credentials that are in the vault are left alone,
/// and the switch itself is never touched.
pub open spec fn configuring_next(
    step: ConfiguringStep,
    switch_name: Seq<char>,
    reply: ConfiguringReply,
    progress: ConfiguringProgress,
) -> bool {
    match (step, reply) {
        (
            ConfiguringStep::StartingCertificate,
            ConfiguringReply::CertificateStart(result),
        ) => progress == (match result {
            StartConfigureSwitchCertificateResult::EarlyTransition(
                outcome,
            ) => ConfiguringProgress::Finished(outcome),
            StartConfigureSwitchCertificateResult::JobStarted(job_id) => goes_to(
                SwitchControllerState::Configuring {
                    config_state: ConfiguringState::ConfigureCertificate {
                        configure_certificate: ConfigureCertificateState::WaitForComplete {
                            job_id,
                        },
                    },
                },
            ),
        }),
        (
            ConfiguringStep::PollingCertificate { job_id },
            ConfiguringReply::CertificatePoll(outcome),
        ) => match outcome {
            ConfigureSwitchCertificatePollOutcome::Completed => progress == goes_to(
                SwitchControllerState::Configuring {
                    config_state: ConfiguringState::RotateOsPassword,
                },
            ),
            ConfigureSwitchCertificatePollOutcome::Failed(cause) => progress == goes_to(
                SwitchControllerState::Error { cause },
            ),
            ConfigureSwitchCertificatePollOutcome::InProgress => {
                &&& progress is Finished
                &&& progress->Finished_0 is Wait
                &&& progress->Finished_0->reason@ == "switch certificate job "@ + job_id@
                    + " in progress"@
            },
        },
        (
            ConfiguringStep::GettingCredentials { bmc_mac_address },
            ConfiguringReply::Credentials(found),
        ) => progress == (if found {
            goes_to(SwitchControllerState::FetchInfo)
        } else {
            ConfiguringProgress::Ask(
                ConfiguringStep::Beginning { bmc_mac_address },
                ConfiguringRequest::BeginTransaction,
            )
        }),
        (
            ConfiguringStep::GettingCredentials { bmc_mac_address },
            ConfiguringReply::Failed(_),
        ) => progress == ConfiguringProgress::Ask(
            ConfiguringStep::Beginning { bmc_mac_address },
            ConfiguringRequest::BeginTransaction,
        ),
        (ConfiguringStep::Beginning { bmc_mac_address }, ConfiguringReply::Done) => progress
            == ConfiguringProgress::Ask(
            ConfiguringStep::FindingExpected { bmc_mac_address },
            ConfiguringRequest::FindExpectedSwitch { bmc_mac_address },
        ),
        (
            ConfiguringStep::FindingExpected { bmc_mac_address },
            ConfiguringReply::ExpectedSwitch(expected),
        ) => progress == ConfiguringProgress::Ask(
            ConfiguringStep::Committing { bmc_mac_address, expected },
            ConfiguringRequest::Commit,
        ),
        (
            ConfiguringStep::Committing { bmc_mac_address, expected },
            ConfiguringReply::Done,
        ) => rotation_expected(bmc_mac_address, expected, progress),
        (ConfiguringStep::Storing, ConfiguringReply::Done) => progress == goes_to(
            SwitchControllerState::FetchInfo,
        ),
        (ConfiguringStep::Storing, ConfiguringReply::Failed(error)) => {
            &&& progress is Failed
            &&& progress->Failed_0 is GenericError
            &&& progress->Failed_0->GenericError_0@ == "switch "@ + switch_name
                + ": failed to store NVOS credentials in vault: "@ + error@
        },
        (_, reply) => progress == ConfiguringProgress::Failed(configuring_failure(reply)),
    }
}

fn transition(next_state: SwitchControllerState) -> (r: ConfiguringProgress)
    ensures
        r == goes_to(next_state),
{
    ConfiguringProgress::Finished(StateHandlerOutcome::Transition { next_state })
}

fn with_expected(bmc_mac_address: MacAddress, expected: Option<ExpectedSwitch>) -> (r:
    ConfiguringProgress)
    ensures
        rotation_expected(bmc_mac_address, expected, r),
{
    match expected {
        None => {
            let mac = bmc_mac_address.to_text();
            transition(
                SwitchControllerState::Error {
                    cause: concat2("No expected switch found for BMC MAC ", mac.as_str()),
                },
            )
        },
        Some(expected) => match (expected.nvos_username, expected.nvos_password) {
            (Some(username), Some(password)) => ConfiguringProgress::Ask(
                ConfiguringStep::Storing,
                ConfiguringRequest::StoreNvosCredentials { bmc_mac_address, username, password },
            ),
            _ => transition(SwitchControllerState::FetchInfo),
        },
    }
}

impl ConfiguringStep {
    /// Goes on after a reply. `switch_name` names the switch in failures.
    pub fn resume(self, switch_name: &str, reply: ConfiguringReply) -> (r: ConfiguringProgress)
        ensures
            configuring_next(self, switch_name@, reply, r),
    {
        match (self, reply) {
            (
                ConfiguringStep::StartingCertificate,
                ConfiguringReply::CertificateStart(result),
            ) => match result {
                StartConfigureSwitchCertificateResult::EarlyTransition(outcome) => {
                    ConfiguringProgress::Finished(outcome)
                },
                StartConfigureSwitchCertificateResult::JobStarted(job_id) => transition(
                    SwitchControllerState::Configuring {
                        config_state: ConfiguringState::ConfigureCertificate {
                            configure_certificate: ConfigureCertificateState::WaitForComplete {
                                job_id,
                            },
                        },
                    },
                ),
            },
            (
                ConfiguringStep::PollingCertificate { job_id },
                ConfiguringReply::CertificatePoll(outcome),
            ) => match outcome {
                ConfigureSwitchCertificatePollOutcome::Completed => transition(
                    SwitchControllerState::Configuring {
                        config_state: ConfiguringState::RotateOsPassword,
                    },
                ),
                ConfigureSwitchCertificatePollOutcome::Failed(cause) => transition(
                    SwitchControllerState::Error { cause },
                ),
                ConfigureSwitchCertificatePollOutcome::InProgress => ConfiguringProgress::Finished(
                    StateHandlerOutcome::Wait {
                        reason: concat3(
                            "switch certificate job ",
                            job_id.as_str(),
                            " in progress",
                        ),
                    },
                ),
            },
            (
                ConfiguringStep::GettingCredentials { bmc_mac_address },
                ConfiguringReply::Credentials(found),
            ) => {
                if found {
                    transition(SwitchControllerState::FetchInfo)
                } else {
                    ConfiguringProgress::Ask(
                        ConfiguringStep::Beginning { bmc_mac_address },
                        ConfiguringRequest::BeginTransaction,
                    )
                }
            },
            (
                ConfiguringStep::GettingCredentials { bmc_mac_address },
                ConfiguringReply::Failed(_),
            ) => ConfiguringProgress::Ask(
                ConfiguringStep::Beginning { bmc_mac_address },
                ConfiguringRequest::BeginTransaction,
            ),
            (ConfiguringStep::Beginning { bmc_mac_address }, ConfiguringReply::Done) => {
                ConfiguringProgress::Ask(
                    ConfiguringStep::FindingExpected { bmc_mac_address },
                    ConfiguringRequest::FindExpectedSwitch { bmc_mac_address },
                )
            },
            (
                ConfiguringStep::FindingExpected { bmc_mac_address },
                ConfiguringReply::ExpectedSwitch(expected),
            ) => ConfiguringProgress::Ask(
                ConfiguringStep::Committing { bmc_mac_address, expected },
                ConfiguringRequest::Commit,
            ),
            (
                ConfiguringStep::Committing { bmc_mac_address, expected },
                ConfiguringReply::Done,
            ) => with_expected(bmc_mac_address, expected),
            (ConfiguringStep::Storing, ConfiguringReply::Done) => transition(
                SwitchControllerState::FetchInfo,
            ),
            (ConfiguringStep::Storing, ConfiguringReply::Failed(error)) => {
                let head = concat3(
                    "switch ",
                    switch_name,
                    ": failed to store NVOS credentials in vault: ",
                );
                ConfiguringProgress::Failed(
                    StateHandlerError::GenericError(concat2(head.as_str(), error.as_str())),
                )
            },
            (_, ConfiguringReply::Failed(text)) => ConfiguringProgress::Failed(
                StateHandlerError::Backend(text),
            ),
            _ => ConfiguringProgress::Failed(StateHandlerError::UnexpectedReply),
        }
    }
}

/// Settling the password of the switch with this BMC, from its start: the requests one after
/// another with the step at which each was made, and the replies between them.
pub open spec fn is_rotation(
    bmc_mac_address: MacAddress,
    switch_name: Seq<char>,
    run: Seq<(ConfiguringStep, ConfiguringRequest)>,
    replies: Seq<ConfiguringReply>,
) -> bool {
    &&& run.len() > 0 ==> rotation_starts(
        Some(bmc_mac_address),
        ConfiguringProgress::Ask(run[0].0, run[0].1),
    )
    &&& forall|k: int|
        0 <= k < run.len() - 1 ==> k < replies.len() && configuring_next(
            (#[trigger] run[k]).0,
            switch_name,
            replies[k],
            ConfiguringProgress::Ask(run[k + 1].0, run[k + 1].1),
        )
}

/// The step at which the k-th request of settling a password is made.
spec fn rotation_step(
    bmc_mac_address: MacAddress,
    replies: Seq<ConfiguringReply>,
    k: int,
    step: ConfiguringStep,
) -> bool {
    if k == 0 {
        step == (ConfiguringStep::GettingCredentials { bmc_mac_address })
    } else if k == 1 {
        step == (ConfiguringStep::Beginning { bmc_mac_address })
    } else if k == 2 {
        step == (ConfiguringStep::FindingExpected { bmc_mac_address })
    } else if k == 3 {
        &&& replies[2] is ExpectedSwitch
        &&& step == (ConfiguringStep::Committing {
            bmc_mac_address,
            expected: replies[2]->ExpectedSwitch_0,
        })
    } else {
        k == 4 && step is Storing
    }
}

proof fn rotation_goes_by_steps(
    bmc_mac_address: MacAddress,
    switch_name: Seq<char>,
    run: Seq<(ConfiguringStep, ConfiguringRequest)>,
    replies: Seq<ConfiguringReply>,
    k: int,
)
    requires
        is_rotation(bmc_mac_address, switch_name, run, replies),
        0 <= k < run.len(),
    ensures
        rotation_step(bmc_mac_address, replies, k, run[k].0),
        k >= 1 ==> replies[0] is Failed || replies[0] == ConfiguringReply::Credentials(false),
    decreases k,
{
    if k > 0 {
        rotation_goes_by_steps(bmc_mac_address, switch_name, run, replies, k - 1);
        assert(configuring_next(
            run[k - 1].0,
            switch_name,
            replies[k - 1],
            ConfiguringProgress::Ask(run[k - 1 + 1].0, run[k - 1 + 1].1),
        ));
    }
}

/// Settling the password of a switch stores credentials for that switch only, only after the
/// vault was found to have none, and only those that the switch's declaration gives.
pub proof fn rotation_stores_only_declared_credentials(
    bmc_mac_address: MacAddress,
    switch_name: Seq<char>,
    run: Seq<(ConfiguringStep, ConfiguringRequest)>,
    replies: Seq<ConfiguringReply>,
    k: int,
)
    requires
        is_rotation(bmc_mac_address, switch_name, run, replies),
        0 <= k < run.len(),
        run[k].1 is StoreNvosCredentials,
    ensures
        run[k].1->StoreNvosCredentials_bmc_mac_address == bmc_mac_address,
        replies[0] is Failed || replies[0] == ConfiguringReply::Credentials(false),
        replies[2] is ExpectedSwitch,
        replies[2]->ExpectedSwitch_0 is Some,
        replies[2]->ExpectedSwitch_0->0.nvos_username == Some(run[k].1->username),
        replies[2]->ExpectedSwitch_0->0.nvos_password == Some(run[k].1->password),
{
    rotation_goes_by_steps(bmc_mac_address, switch_name, run, replies, k);
    if k > 0 {
        rotation_goes_by_steps(bmc_mac_address, switch_name, run, replies, k - 1);
        assert(configuring_next(
            run[k - 1].0,
            switch_name,
            replies[k - 1],
            ConfiguringProgress::Ask(run[k - 1 + 1].0, run[k - 1 + 1].1),
        ));
    }
}

/// Handling the configuring state leads on along the configuration only: a finished
/// certificate leads to the password, and the password to fetching information.
pub proof fn configuring_leads_on(
    step: ConfiguringStep,
    switch_name: Seq<char>,
    reply: ConfiguringReply,
    outcome: StateHandlerOutcome,
)
    requires
        configuring_next(step, switch_name, reply, ConfiguringProgress::Finished(outcome)),
        outcome is Transition,
        !(outcome->next_state is Error),
        !(step is StartingCertificate),
    ensures
        step is PollingCertificate ==> outcome->next_state == (SwitchControllerState::Configuring {
            config_state: ConfiguringState::RotateOsPassword,
        }),
        !(step is PollingCertificate) ==> outcome->next_state is FetchInfo,
{
}

} // verus!
