//! How the events of the DHCP server and of scout are counted and logged.
use vstd::prelude::*;

use crate::addresses::MachineId;
use crate::dhcp_metrics::{
    comes_without_error, file_initialization_record, file_read_record, file_write_record, label_of,
    packet_dropped_record, reason_of, reply_sent_record, request_received_record, DhcpError,
    DhcpPacketDropped, DhcpReplySent, DhcpRequestReceived, DhcpTimestampFileInitializationFailed,
    DhcpTimestampFileReadFailed, DhcpTimestampFileWriteFailed, DropReason, MessageType,
    TimestampFileOperation,
};
use crate::instrument::{Elapsed, FieldView, LogAt, MetricKind, Outcome, RecordView, Severity};
use crate::scout_metrics::{
    action_handled_record, cleanup_record, download_failed_record, is_cleanup,
    response_dropped_record, scout_action_of, stream_connection_record, stream_reconnect_record,
    Action, ScoutActionHandled, ScoutFirmwareDownloadAttemptFailed, ScoutStorageDeviceCleanup,
    ScoutStreamConnection, ScoutStreamReconnect, ScoutStreamResponseDropped, StorageDeviceType,
};

verus! {

/// Whether an event has this one label and no other.
pub open spec fn has_only_label(record: RecordView, name: Seq<char>, value: Seq<char>) -> bool {
    record.labels.len() == 1 && record.labels[0].0 == name && record.labels[0].1 == value
}

/// Whether the log record of an event has these texts in its context, in this order.
pub open spec fn says(record: RecordView, fields: Seq<(Seq<char>, Seq<char>)>) -> bool {
    &&& record.context.len() == fields.len()
    &&& forall|i: int|
        0 <= i < fields.len() ==> (#[trigger] record.context[i]).0 == fields[i].0
            && record.context[i].1 == FieldView::Text(fields[i].1)
}

/// Whether an event is only counted, and not logged.
pub open spec fn is_only_counted(record: RecordView) -> bool {
    record.metric is Counter && record.log_at is Off && record.context.len() == 0
}

/// Received packets and sent replies are only counted, each in its own counter, by the type of the
/// message; types that the server does not handle count together.
pub proof fn packets_are_counted_by_message_type(message_type: MessageType)
    ensures
        ({
            let label = label_of(message_type);
            let received = request_received_record(DhcpRequestReceived { message_type: label });
            let sent = reply_sent_record(DhcpReplySent { message_type: label });
            let text = match message_type {
                MessageType::Discover => "discover"@,
                MessageType::Request => "request"@,
                MessageType::Offer => "offer"@,
                MessageType::Ack => "ack"@,
                MessageType::Nak => "nak"@,
                MessageType::Release => "release"@,
                MessageType::Decline => "decline"@,
                MessageType::Inform => "inform"@,
                _ => "other"@,
            };
            &&& received.metric_name == "carbide_dhcp_requests_total"@
            &&& sent.metric_name == "carbide_dhcp_replies_sent_total"@
            &&& is_only_counted(received) && is_only_counted(sent)
            &&& has_only_label(received, "message_type"@, text)
            &&& has_only_label(sent, "message_type"@, text)
        }),
{
}

/// A packet that is dropped after an error is counted by the kind of the error, and logged as an
/// error with its text.
pub proof fn drops_are_counted_by_what_went_wrong(error: DhcpError, text: String)
    ensures
        ({
            let record = packet_dropped_record(
                DhcpPacketDropped { reason: reason_of(error), error: text },
            );
            &&& record.metric_name == "carbide_dhcp_dropped_requests_total"@
            &&& record.metric is Counter
            &&& record.log_at == LogAt::Level(Severity::Error)
            &&& record.message == "Dropped a DHCP packet"@
            &&& says(record, seq![("error"@, text@)])
            &&& error is IoError ==> has_only_label(
                record,
                "reason"@,
                "io_error"@,
            )
            &&& error is SerdeYaml ==> has_only_label(
                record,
                "reason"@,
                "config_parse_failure"@,
            )
            &&& error is MissingArgument ==> has_only_label(
                record,
                "reason"@,
                "missing_argument"@,
            )
            &&& error is MissingOption ==> has_only_label(
                record,
                "reason"@,
                "missing_option"@,
            )
            &&& error is UnhandledMessageType ==> has_only_label(
                record,
                "reason"@,
                "unhandled_message_type"@,
            )
            &&& error is DhcpDeclineMessage ==> has_only_label(
                record,
                "reason"@,
                "dhcp_decline_message"@,
            )
            &&& error is MissingRelayCode ==> has_only_label(
                record,
                "reason"@,
                "missing_relay_code"@,
            )
            &&& error is InvalidInput ==> has_only_label(
                record,
                "reason"@,
                "invalid_input"@,
            )
            &&& error is GenericError ==> has_only_label(
                record,
                "reason"@,
                "generic_error"@,
            )
            &&& error is TonicStatusError ==> has_only_label(
                record,
                "reason"@,
                "upstream_api_error"@,
            )
            &&& error is Utf8Error ==> has_only_label(
                record,
                "reason"@,
                "utf8_error"@,
            )
            &&& error is PacketDecodeFailure ==> has_only_label(
                record,
                "reason"@,
                "packet_decode_failure"@,
            )
            &&& error is PacketEncodeFailure ==> has_only_label(
                record,
                "reason"@,
                "packet_encode_failure"@,
            )
            &&& error is AddressParseError ==> has_only_label(
                record,
                "reason"@,
                "address_parse_error"@,
            )
            &&& error is NonRelayedPacket ==> has_only_label(
                record,
                "reason"@,
                "non_relayed_packet"@,
            )
            &&& error is UnknownPacket ==> has_only_label(
                record,
                "reason"@,
                "unknown_packet"@,
            )
            &&& error is NotMyPacket ==> has_only_label(
                record,
                "reason"@,
                "not_my_packet"@,
            )
            &&& error is VendorClassParseError ==> has_only_label(
                record,
                "reason"@,
                "vendor_class_parse_error"@,
            )
            &&& error is MultipleInterfacesProvidedOneSupported ==> has_only_label(
                record,
                "reason"@,
                "multiple_interfaces"@,
            )
        }),
{
}

/// A packet that is dropped without an error is counted by what it was dropped for.
pub proof fn drops_without_error_are_counted_by_their_reason(reason: DropReason, text: String)
    requires
        comes_without_error(reason),
    ensures
        ({
            let record = packet_dropped_record(DhcpPacketDropped { reason, error: text });
            let label = match reason {
                DropReason::RateLimited => "rate_limited"@,
                DropReason::TooShort => "too_short"@,
                DropReason::NotIpv4 => "not_ipv4"@,
                _ => "send_failed"@,
            };
            &&& has_only_label(record, "reason"@, label)
            &&& says(record, seq![("error"@, text@)])
        }),
{
}

/// Failures of the timestamp file are counted together, by what was done with the file. One that
/// keeps the server from starting and one that loses a timestamp are errors, one to read a warning.
/// Each says the file's path and the error, and that of a write the interface.
pub proof fn file_failures_are_counted_by_operation(path: String, interface: String, error: String)
    ensures
        ({
            let initialization = file_initialization_record(
                DhcpTimestampFileInitializationFailed {
                    operation: TimestampFileOperation::Initialize,
                    dhcp_timestamps_path: path,
                    error,
                },
            );
            let write = file_write_record(
                DhcpTimestampFileWriteFailed {
                    operation: TimestampFileOperation::Write,
                    dhcp_timestamps_path: path,
                    host_interface_id: interface,
                    error,
                },
            );
            let read = file_read_record(
                DhcpTimestampFileReadFailed {
                    operation: TimestampFileOperation::Read,
                    dhcp_timestamps_path: path,
                    error,
                },
            );
            let metric = "carbide_dhcp_timestamp_file_failures_total"@;
            &&& initialization.metric_name == metric && write.metric_name == metric
                && read.metric_name == metric
            &&& initialization.metric is Counter && write.metric is Counter
                && read.metric is Counter
            &&& has_only_label(initialization, "operation"@, "initialize"@)
            &&& has_only_label(write, "operation"@, "write"@)
            &&& has_only_label(read, "operation"@, "read"@)
            &&& initialization.log_at == LogAt::Level(Severity::Error)
            &&& write.log_at == LogAt::Level(Severity::Error)
            &&& read.log_at == LogAt::Level(Severity::Warn)
            &&& initialization.message == "Failed to init DHCP timestamps file"@
            &&& write.message == "Failed to write DHCP timestamps file"@
            &&& read.message == "Failed to read DHCP timestamps file"@
            &&& says(initialization, seq![("dhcp_timestamps_path"@, path@), ("error"@, error@)])
            &&& says(
                write,
                seq![
                    ("dhcp_timestamps_path"@, path@),
                    ("host_interface_id"@, interface@),
                    ("error"@, error@),
                ],
            )
            &&& says(read, seq![("dhcp_timestamps_path"@, path@), ("error"@, error@)])
        }),
{
}

/// A handled action is counted by its own name and by how it ended, and logged with a text that
/// says so; its full name and the error are in the log alone.
pub proof fn actions_are_counted_by_name_and_outcome(
    action: Action,
    outcome: Outcome,
    action_name: &'static str,
    error: String,
)
    ensures
        ({
            let record = action_handled_record(
                ScoutActionHandled { action: scout_action_of(action), outcome, action_name, error },
            );
            let name = match action {
                Action::Noop => "noop"@,
                Action::Reset => "reset"@,
                Action::Discovery => "discovery"@,
                Action::Rebuild => "rebuild"@,
                Action::Retry => "retry"@,
                Action::Measure => "measure"@,
                Action::LogError => "log_error"@,
                Action::MachineValidation => "machine_validation"@,
                Action::MlxAction => "mlx_action"@,
                Action::FirmwareUpgrade => "firmware_upgrade"@,
            };
            &&& record.metric_name == "carbide_scout_actions_total"@
            &&& record.metric is Counter
            &&& record.log_at == LogAt::Level(Severity::Info)
            &&& record.labels.len() == 2
            &&& record.labels[0] == ("action"@, name)
            &&& record.labels[1].0 == "outcome"@
            &&& outcome is Success ==> record.labels[1].1 == "ok"@ && record.message
                == "Successfully served action"@
            &&& outcome is Error ==> record.labels[1].1 == "error"@ && record.message
                == "Failed to serve action"@
            &&& says(record, seq![("action_name"@, action_name@), ("error"@, error@)])
        }),
{
}

/// Attempts to connect the stream are only counted, by how they ended. A reconnection is a warning
/// and a response that is lost an error, each with the endpoint and the machine.
pub proof fn streams_are_counted_and_their_losses_logged(
    outcome: Outcome,
    api_endpoint: String,
    machine_id: MachineId,
    error: String,
)
    ensures
        ({
            let connection = stream_connection_record(ScoutStreamConnection { outcome });
            let reconnect = stream_reconnect_record(
                ScoutStreamReconnect { api_endpoint, machine_id },
            );
            let dropped = response_dropped_record(
                ScoutStreamResponseDropped { api_endpoint, machine_id, error },
            );
            &&& connection.metric_name == "carbide_scout_stream_connections_total"@
            &&& is_only_counted(connection)
            &&& outcome is Success ==> has_only_label(connection, "outcome"@, "ok"@)
            &&& outcome is Error ==> has_only_label(connection, "outcome"@, "error"@)
            &&& reconnect.metric_name == "carbide_scout_stream_reconnects_total"@
            &&& reconnect.metric is Counter && reconnect.labels.len() == 0
            &&& reconnect.log_at == LogAt::Level(Severity::Warn)
            &&& reconnect.message == "scout stream reconnecting after 10s delay"@
            &&& says(
                reconnect,
                seq![("api_endpoint"@, api_endpoint@), ("machine_id"@, machine_id.text@)],
            )
            &&& dropped.metric_name == "carbide_scout_stream_responses_dropped_total"@
            &&& dropped.metric is Counter && dropped.labels.len() == 0
            &&& dropped.log_at == LogAt::Level(Severity::Error)
            &&& dropped.message == "scout stream failed to send response"@
            &&& says(
                dropped,
                seq![
                    ("api_endpoint"@, api_endpoint@),
                    ("machine_id"@, machine_id.text@),
                    ("error"@, error@),
                ],
            )
        }),
{
}

/// A failed download is counted by what was downloaded and by what comes next, and logged as a
/// warning with the attempt, the address, the error and the delay.
pub proof fn downloads_are_counted_by_kind_and_next_action(
    event: ScoutFirmwareDownloadAttemptFailed,
)
    ensures
        ({
            let record = download_failed_record(event);
            &&& record.metric_name == "carbide_scout_firmware_download_attempt_failures_total"@
            &&& record.metric is Counter
            &&& record.log_at == LogAt::Level(Severity::Warn)
            &&& record.labels.len() == 2
            &&& record.labels[0].0 == "kind"@ && record.labels[1].0 == "next_action"@
            &&& event.kind is Script ==> record.labels[0].1 == "script"@
            &&& event.kind is Artifact ==> record.labels[0].1 == "artifact"@
            &&& event.next_action is Retry ==> record.labels[1].1 == "retry"@
            &&& event.next_action is GiveUp ==> record.labels[1].1 == "give_up"@
            &&& record.context.len() == 4
            &&& record.context[0] == ("attempt"@, FieldView::Integer(event.attempt as int))
            &&& record.context[1] == ("url"@, FieldView::Text(event.url@))
            &&& record.context[2] == ("error"@, FieldView::Text(event.error@))
            &&& record.context[3] == (
                "retry_delay_seconds"@,
                FieldView::Number(event.retry_delay_seconds@),
            )
        }),
{
}

/// A cleanup is observed with the time it took, by the kind of device and by how it ended: one that
/// failed is an error and says why, any other is for information and says no error.
pub proof fn cleanups_are_observed_by_device_and_outcome(
    device_type: StorageDeviceType,
    took: Elapsed,
    duration: Seq<char>,
    result: Result<(), String>,
    event: ScoutStorageDeviceCleanup,
)
    requires
        is_cleanup(device_type, took, duration, result, event),
    ensures
        ({
            let record = cleanup_record(event);
            &&& record.metric_name == "carbide_scout_storage_device_cleanup_duration_seconds"@
            &&& record.metric == MetricKind::Histogram { observed: took }
            &&& record.labels.len() == 2
            &&& record.labels[0].0 == "device_type"@ && record.labels[1].0 == "outcome"@
            &&& device_type is Nvme ==> record.labels[0].1 == "nvme"@
            &&& device_type is HddSas ==> record.labels[0].1 == "hdd_sas"@
            &&& record.context.len() == 2
            &&& record.context[0] == ("duration"@, FieldView::Text(duration))
            &&& record.context[1].0 == "error"@
            &&& result is Ok ==> {
                &&& record.labels[1].1 == "ok"@
                &&& record.log_at == LogAt::Level(Severity::Info)
                &&& record.message == "Cleanup completed successfully"@
                &&& record.context[1].1 == FieldView::Text(""@)
            }
            &&& result matches Err(error) ==> {
                &&& record.labels[1].1 == "error"@
                &&& record.log_at == LogAt::Level(Severity::Error)
                &&& record.message == "Cleanup failed"@
                &&& record.context[1].1 == FieldView::Text(error@)
            }
        }),
{
}

} // verus!
