//! How the failures of an ingestion are reported, and how a run counts its results.
use vstd::prelude::*;

use crate::addresses::mac_text;
use crate::machine_creator::requests::{error_report, ErrorView, FoundKind, IngestionError};
use crate::machine_creator::run::created_count;
use crate::rms_node_type::NodeDescriptorError;

verus! {

/// Whether a failure comes of something that changed meanwhile, so that a retry can help.
pub open spec fn is_worth_a_retry(error: IngestionError) -> bool {
    error is ExpectedMachineChanged || error is ExpectedMachineIdentityChanged || error
        is BmcOwnerChanged || error is BmcOwnerMismatch
}

/// Whether a failure comes of data that somebody gave.
pub open spec fn is_about_given_data(error: IngestionError) -> bool {
    error is FactoryMacMissing || error is HardwareInfoMissing || error is RackProfileMissing
        || error is RackProfileUnknown || error is NodeDescriptor
}

/// A failure is reported as a failed precondition exactly if a retry can help, as an invalid
/// argument exactly if given data are at fault, as found already exactly if a row was, and as one
/// of the backend exactly if a request failed or a report is not valid. All others are internal.
pub proof fn failures_are_reported_in_their_category(
    error: IngestionError,
    address: Seq<char>,
    subject: Seq<char>,
)
    ensures
        error_report(error, address, subject) is FailedPrecondition <==> is_worth_a_retry(error),
        error_report(error, address, subject) is InvalidArgument <==> is_about_given_data(error),
        error_report(error, address, subject) is AlreadyFoundError <==> error is AlreadyFound,
        error_report(error, address, subject) is Backend <==> error is Backend || error
            is InvalidReport,
{
}

/// Whether a text ends with another.
pub open spec fn ends_in(text: Seq<char>, end: Seq<char>) -> bool {
    end.len() <= text.len() && text.subrange(text.len() - end.len(), text.len() as int) == end
}

proof fn last_part_ends(front: Seq<char>, end: Seq<char>)
    ensures
        ends_in(front + end, end),
{
    let text = front + end;
    assert(text.subrange(text.len() - end.len(), text.len() as int) =~= end);
}

/// A failure that is worth a retry says so at its end.
pub proof fn retries_are_asked_for(
    error: IngestionError,
    address: Seq<char>,
    subject: Seq<char>,
)
    requires
        is_worth_a_retry(error),
    ensures
        error_report(error, address, subject) matches ErrorView::FailedPrecondition(text)
            && ends_in(text, "; retry ingestion"@),
{
    reveal_strlit("; retry ingestion");
    reveal_strlit("ExpectedMachine changed before managed-host ingestion; retry ingestion");
    reveal_strlit(
        "ExpectedMachine identity or credential selection changed before managed-host ingestion; retry ingestion",
    );
    reveal_strlit(
        " changed while managed-host ingestion was waiting for network locks; retry ingestion",
    );
    let end = "; retry ingestion"@;
    match error {
        IngestionError::ExpectedMachineChanged => {
            let text = "ExpectedMachine changed before managed-host ingestion; retry ingestion"@;
            assert(text.subrange(text.len() - end.len(), text.len() as int) =~= end);
        },
        IngestionError::ExpectedMachineIdentityChanged => {
            let text =
                "ExpectedMachine identity or credential selection changed before managed-host ingestion; retry ingestion"@;
            assert(text.subrange(text.len() - end.len(), text.len() as int) =~= end);
        },
        IngestionError::BmcOwnerChanged { .. } => {
            let tail =
                " changed while managed-host ingestion was waiting for network locks; retry ingestion"@;
            let text = "BMC interface ownership for "@ + address + tail;
            assert(tail.subrange(tail.len() - end.len(), tail.len() as int) =~= end);
            assert(text.subrange(text.len() - end.len(), text.len() as int) =~= end);
        },
        IngestionError::BmcOwnerMismatch { bmc_mac_address, .. } => {
            last_part_ends(
                "BMC interface ownership for "@ + address
                    + " does not match the locked ExpectedMachine BMC MAC "@ + mac_text(
                    bmc_mac_address.octets(),
                ),
                end,
            );
        },
        _ => {},
    }
}

/// The text of a report with its category put aside.
pub open spec fn report_text(report: ErrorView) -> Seq<char> {
    match report {
        ErrorView::Backend(text) => text,
        ErrorView::FailedPrecondition(text) => text,
        ErrorView::Internal(text) => text,
        ErrorView::InvalidArgument(text) => text,
        ErrorView::AlreadyFoundError { id, .. } => id,
    }
}

/// A report names what the failure is about, each at its place: the failure that a request gave,
/// the address and the BMC, the DPU, the row, or the rack and the machine.
pub proof fn reports_name_what_is_involved(
    error: IngestionError,
    address: Seq<char>,
    subject: Seq<char>,
)
    ensures
        ({
            let text = report_text(error_report(error, address, subject));
            &&& error matches IngestionError::Backend(cause) ==> text == cause@
            &&& error matches IngestionError::InvalidReport(cause) ==> text == cause@
            &&& error is BmcOwnerChanged ==> text == "BMC interface ownership for "@ + address
                + " changed while managed-host ingestion was waiting for network locks; retry ingestion"@
            &&& error matches IngestionError::BmcOwnerMismatch { bmc_mac_address, .. } ==> text
                == "BMC interface ownership for "@ + address
                + " does not match the locked ExpectedMachine BMC MAC "@ + mac_text(
                bmc_mac_address.octets(),
            ) + "; retry ingestion"@
            &&& error is HostIdMissing ==> text == "Failed to get machine ID for host: "@ + subject
            &&& error matches IngestionError::DpuAlreadyFound { dpu_machine_id } ==> text
                == "BUG: DPU machine "@ + dpu_machine_id.text@
                + " was already found, but we already verified that it did not exist?"@
            &&& error matches IngestionError::HostInterfaceAlreadyOwned { dpu_machine_id } ==> text
                == "The host's machine interface for DPU "@ + dpu_machine_id.text@
                + " already has the machine ID set--something is wrong: "@ + subject
            &&& error matches IngestionError::AlreadyFound { mac_address, .. } ==> text == mac_text(
                mac_address.octets(),
            )
            &&& error matches IngestionError::AlreadyFound { kind, .. } ==> (error_report(
                error,
                address,
                subject,
            ) matches ErrorView::AlreadyFoundError { kind: name, .. } && if kind
                == FoundKind::MachineInterface {
                name == "MachineInterface"@
            } else {
                name == "PredictedMachineInterface"@
            })
            &&& error matches IngestionError::FactoryMacMissing(cause) ==> text
                == "DPU hardware info is missing its host factory MAC address: "@ + cause@
            &&& error matches IngestionError::HardwareInfoMissing(cause) ==> text
                == "hardware info missing: "@ + cause@
            &&& error matches IngestionError::RackProfileMissing { rack_id, machine_id } ==> text
                == "rack "@ + rack_id@
                + " has no rack_profile_id for RMS slot and tray lookup for host machine "@
                + machine_id.text@
            &&& error matches IngestionError::RackProfileUnknown { rack_profile_id, machine_id }
                ==> text == "rack profile "@ + rack_profile_id@
                + " is not configured for RMS slot and tray lookup for host machine "@
                + machine_id.text@
            &&& error == IngestionError::NodeDescriptor(NodeDescriptorError::MissingProductFamily)
                ==> text == "rack profile does not identify an RMS product family"@
            &&& error matches IngestionError::NodeDescriptor(
                NodeDescriptorError::VendorMissing { role },
            ) ==> text == "rack profile does not identify an RMS "@ + role@ + " vendor"@
        }),
{
}

/// What a run counts as created are the results that say so, wherever they stand.
pub proof fn runs_count_what_was_created(results: Seq<Option<bool>>)
    ensures
        created_count(results) == results.filter(|result: Option<bool>| result == Some(true)).len(),
    decreases results.len(),
{
    reveal(Seq::filter);
    if results.len() > 0 {
        runs_count_what_was_created(results.drop_last());
    }
}

} // verus!
