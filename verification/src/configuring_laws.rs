//! What configuring a switch leads to, over its whole course.
use vstd::prelude::*;

use crate::addresses::{mac_text, MacAddress};
use crate::configuring::{
    configuring_next, configuring_starts, is_rotation, ConfigureSwitchCertificateMode,
    ConfigureSwitchCertificatePollOutcome, ConfigureCertificateState, ConfiguringProgress,
    ConfiguringReply, ConfiguringRequest, ConfiguringState, ConfiguringStep, ExpectedSwitch,
    StartConfigureSwitchCertificateResult, StateHandlerError, StateHandlerOutcome,
    SwitchControllerState,
};

verus! {

/// Whether handling ended with the switch in this state.
pub open spec fn leaves_in(progress: ConfiguringProgress, state: SwitchControllerState) -> bool {
    progress == ConfiguringProgress::Finished(
        StateHandlerOutcome::Transition { next_state: state },
    )
}

/// Configuring starts with the certificate of a switch that is brought up; the job that was
/// started is the one that the switch is polled for when it is handled again.
pub proof fn the_started_job_is_polled(
    switch_name: Seq<char>,
    bmc_mac_address: Option<MacAddress>,
    job_id: String,
    first: ConfiguringProgress,
    started: ConfiguringProgress,
    again: ConfiguringProgress,
)
    requires
        configuring_starts(
            ConfiguringState::ConfigureCertificate {
                configure_certificate: ConfigureCertificateState::Start,
            },
            bmc_mac_address,
            first,
        ),
        first is Ask ==> configuring_next(
            first->Ask_0,
            switch_name,
            ConfiguringReply::CertificateStart(
                StartConfigureSwitchCertificateResult::JobStarted(job_id),
            ),
            started,
        ),
        started matches ConfiguringProgress::Finished(
            StateHandlerOutcome::Transition {
                next_state: SwitchControllerState::Configuring { config_state },
            },
        ) ==> configuring_starts(config_state, bmc_mac_address, again),
    ensures
        first is Ask,
        first->Ask_1 == (ConfiguringRequest::StartCertificateJob {
            mode: ConfigureSwitchCertificateMode::BringUp,
        }),
        again is Ask,
        again->Ask_1 == (ConfiguringRequest::PollCertificateJob { job_id }),
{
}

/// A transition that the start of the job asks for is made as it is.
pub proof fn early_transitions_are_made(
    switch_name: Seq<char>,
    outcome: StateHandlerOutcome,
    progress: ConfiguringProgress,
)
    requires
        configuring_next(
            ConfiguringStep::StartingCertificate,
            switch_name,
            ConfiguringReply::CertificateStart(
                StartConfigureSwitchCertificateResult::EarlyTransition(outcome),
            ),
            progress,
        ),
    ensures
        progress == ConfiguringProgress::Finished(outcome),
{
}

/// A completed certificate job leads to the password of the switch's operating system, for which
/// the vault is asked first; a switch whose BMC is not known ends in an error. A failed job ends
/// in an error with the job's cause, and one in progress is waited for by its name.
pub proof fn the_job_decides_what_follows(
    switch_name: Seq<char>,
    bmc_mac_address: Option<MacAddress>,
    job_id: String,
    asked: ConfiguringProgress,
    poll: ConfigureSwitchCertificatePollOutcome,
    progress: ConfiguringProgress,
    again: ConfiguringProgress,
)
    requires
        configuring_starts(
            ConfiguringState::ConfigureCertificate {
                configure_certificate: ConfigureCertificateState::WaitForComplete { job_id },
            },
            bmc_mac_address,
            asked,
        ),
        asked is Ask ==> configuring_next(
            asked->Ask_0,
            switch_name,
            ConfiguringReply::CertificatePoll(poll),
            progress,
        ),
        progress matches ConfiguringProgress::Finished(
            StateHandlerOutcome::Transition {
                next_state: SwitchControllerState::Configuring { config_state },
            },
        ) ==> configuring_starts(config_state, bmc_mac_address, again),
    ensures
        asked is Ask,
        asked->Ask_1 == (ConfiguringRequest::PollCertificateJob { job_id }),
        poll is Completed ==> match bmc_mac_address {
            Some(mac) => again is Ask && again->Ask_1 == (ConfiguringRequest::GetNvosCredentials {
                bmc_mac_address: mac,
            }),
            None => exists|cause: String|
                cause@ == "No BMC MAC address on switch"@ && #[trigger] leaves_in(
                    again,
                    SwitchControllerState::Error { cause },
                ),
        },
        poll matches ConfigureSwitchCertificatePollOutcome::Failed(cause) ==> leaves_in(
            progress,
            SwitchControllerState::Error { cause },
        ),
        poll is InProgress ==> (progress matches ConfiguringProgress::Finished(
            StateHandlerOutcome::Wait { reason },
        ) && reason@ == "switch certificate job "@ + job_id@ + " in progress"@),
{
    if poll is Completed && bmc_mac_address is None {
        assert(leaves_in(
            again,
            SwitchControllerState::Error { cause: again->Finished_0->next_state->cause },
        ));
    }
}

/// Whether settling a password made these requests, in this order.
spec fn goes_by_requests(
    bmc_mac_address: MacAddress,
    replies: Seq<ConfiguringReply>,
    k: int,
    step: ConfiguringStep,
    request: ConfiguringRequest,
) -> bool {
    if k == 0 {
        &&& step == (ConfiguringStep::GettingCredentials { bmc_mac_address })
        &&& request == (ConfiguringRequest::GetNvosCredentials { bmc_mac_address })
    } else {
        &&& replies[0] is Failed || replies[0] == ConfiguringReply::Credentials(false)
        &&& if k == 1 {
            step == (ConfiguringStep::Beginning { bmc_mac_address }) && request is BeginTransaction
        } else if k == 2 {
            &&& step == (ConfiguringStep::FindingExpected { bmc_mac_address })
            &&& request == (ConfiguringRequest::FindExpectedSwitch { bmc_mac_address })
        } else if k == 3 {
            &&& replies[2] is ExpectedSwitch
            &&& step == (ConfiguringStep::Committing {
                bmc_mac_address,
                expected: replies[2]->ExpectedSwitch_0,
            })
            &&& request is Commit
        } else {
            &&& k == 4
            &&& step is Storing
            &&& replies[2] matches ConfiguringReply::ExpectedSwitch(Some(declared))
            &&& declared.nvos_username matches Some(username)
            &&& declared.nvos_password matches Some(password)
            &&& request == (ConfiguringRequest::StoreNvosCredentials {
                bmc_mac_address,
                username,
                password,
            })
        }
    }
}

proof fn rotation_always_goes_by_requests(
    bmc_mac_address: MacAddress,
    switch_name: Seq<char>,
    run: Seq<(ConfiguringStep, ConfiguringRequest)>,
    replies: Seq<ConfiguringReply>,
    k: int,
)
    requires
        is_rotation(bmc_mac_address, switch_name, run, replies),
        0 <= k < run.len(),
    ensures
        goes_by_requests(bmc_mac_address, replies, k, run[k].0, run[k].1),
    decreases k,
{
    if k > 0 {
        rotation_always_goes_by_requests(bmc_mac_address, switch_name, run, replies, k - 1);
        assert(configuring_next(
            run[k - 1].0,
            switch_name,
            replies[k - 1],
            ConfiguringProgress::Ask(run[k - 1 + 1].0, run[k - 1 + 1].1),
        ));
    }
}

/// Whether the declaration that was found gives both a user and a password.
pub open spec fn declares_credentials(reply: ConfiguringReply) -> bool {
    reply matches ConfiguringReply::ExpectedSwitch(Some(declared)) && declared.nvos_username is Some
        && declared.nvos_password is Some
}

/// Settling a password asks the vault, then in a transaction for the switch's declaration, and then
/// stores what is declared. It ends well exactly if the vault has credentials, or nothing is
/// declared, or what is declared was stored.
pub proof fn rotation_ends_well_once_settled(
    bmc_mac_address: MacAddress,
    switch_name: Seq<char>,
    run: Seq<(ConfiguringStep, ConfiguringRequest)>,
    replies: Seq<ConfiguringReply>,
    end: ConfiguringProgress,
)
    requires
        is_rotation(bmc_mac_address, switch_name, run, replies),
        0 < run.len() <= replies.len(),
        configuring_next(run.last().0, switch_name, replies[run.len() - 1], end),
    ensures
        run[0].1 == (ConfiguringRequest::GetNvosCredentials { bmc_mac_address }),
        run.len() > 1 ==> run[1].1 is BeginTransaction,
        run.len() > 2 ==> run[2].1 == (ConfiguringRequest::FindExpectedSwitch { bmc_mac_address }),
        run.len() > 3 ==> run[3].1 is Commit,
        run.len() > 4 ==> run[4].1 is StoreNvosCredentials && declares_credentials(replies[2]),
        run.len() <= 5,
        leaves_in(end, SwitchControllerState::FetchInfo) <==> {
            ||| run.len() == 1 && replies[0] == ConfiguringReply::Credentials(true)
            ||| run.len() == 4 && replies[3] is Done && replies[2]
                != ConfiguringReply::ExpectedSwitch(None) && !declares_credentials(replies[2])
            ||| run.len() == 5 && replies[4] is Done
        },
{
    rotation_always_goes_by_requests(bmc_mac_address, switch_name, run, replies, 0);
    rotation_always_goes_by_requests(bmc_mac_address, switch_name, run, replies, run.len() - 1);
    if run.len() > 1 {
        rotation_always_goes_by_requests(bmc_mac_address, switch_name, run, replies, 1);
    }
    if run.len() > 2 {
        rotation_always_goes_by_requests(bmc_mac_address, switch_name, run, replies, 2);
    }
    if run.len() > 3 {
        rotation_always_goes_by_requests(bmc_mac_address, switch_name, run, replies, 3);
    }
    if run.len() > 4 {
        rotation_always_goes_by_requests(bmc_mac_address, switch_name, run, replies, 4);
    }
}

/// Settling a password ends in an error exactly for a switch that was not declared, named by its
/// BMC. A failed request is the failure of the handling, except that a vault that cannot be asked
/// counts as one without credentials; a failure to store names the switch.
pub proof fn rotation_fails_for_a_reason(
    bmc_mac_address: MacAddress,
    switch_name: Seq<char>,
    run: Seq<(ConfiguringStep, ConfiguringRequest)>,
    replies: Seq<ConfiguringReply>,
    end: ConfiguringProgress,
)
    requires
        is_rotation(bmc_mac_address, switch_name, run, replies),
        0 < run.len() <= replies.len(),
        configuring_next(run.last().0, switch_name, replies[run.len() - 1], end),
    ensures
        (end is Finished && !leaves_in(end, SwitchControllerState::FetchInfo)) <==> {
            run.len() == 4 && replies[3] is Done && replies[2] == ConfiguringReply::ExpectedSwitch(
                None,
            )
        },
        end is Finished && !leaves_in(end, SwitchControllerState::FetchInfo) ==> exists|
            cause: String,
        |
            {
                &&& #[trigger] leaves_in(end, SwitchControllerState::Error { cause })
                &&& cause@ == "No expected switch found for BMC MAC "@ + mac_text(
                    bmc_mac_address.octets(),
                )
            },
        replies[run.len() - 1] matches ConfiguringReply::Failed(text) ==> {
            &&& run.len() == 1 ==> end is Ask && end->Ask_1 is BeginTransaction
            &&& 1 < run.len() < 5 ==> end == ConfiguringProgress::Failed(
                StateHandlerError::Backend(text),
            )
            &&& run.len() == 5 ==> (end matches ConfiguringProgress::Failed(
                StateHandlerError::GenericError(message),
            ) && message@ == "switch "@ + switch_name
                + ": failed to store NVOS credentials in vault: "@ + text@)
        },
{
    rotation_always_goes_by_requests(bmc_mac_address, switch_name, run, replies, run.len() - 1);
    if end is Finished && !leaves_in(end, SwitchControllerState::FetchInfo) {
        assert(leaves_in(
            end,
            SwitchControllerState::Error { cause: end->Finished_0->next_state->cause },
        ));
    }
}

} // verus!
