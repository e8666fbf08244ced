use nico::dhcp_metrics::{
    DhcpError, DhcpPacketDropped, DhcpReplySent, DhcpRequestReceived,
    DhcpTimestampFileInitializationFailed, DhcpTimestampFileReadFailed,
    DhcpTimestampFileWriteFailed, DropReason, MessageType, MessageTypeLabel,
    TimestampFileOperation,
};
use nico::instrument::{EventRecord, FieldValue, LogAt, MetricKind, Severity};

const TIMESTAMP_FILE_FAILURE_METRIC: &str = "carbide_dhcp_timestamp_file_failures_total";

/// By how much the event moves a counter.
fn counter_delta(record: &EventRecord, metric: &str, labels: &[(&str, &str)]) -> f64 {
    if record.metric == MetricKind::Counter
        && record.metric_name == metric
        && record.labels.as_slice() == labels
    {
        1.0
    } else {
        0.0
    }
}

/// The field of the event's log record.
fn field(record: &EventRecord, name: &str) -> Option<String> {
    if name == "event_name" {
        return Some(record.event_name.to_string());
    }
    if name == "metric_name" {
        return Some(record.metric_name.to_string());
    }
    for (key, value) in &record.labels {
        if *key == name {
            return Some(value.to_string());
        }
    }
    for (key, value) in &record.context {
        if *key == name {
            return match value {
                FieldValue::Text(text) => Some(text.clone()),
                other => panic!("{name} is a text, not {other:?}"),
            };
        }
    }
    None
}

fn check_timestamp_file_failure(
    record: &EventRecord,
    operation: &str,
    level: Severity,
    event_name: &str,
    message: &str,
    dhcp_timestamps_path: &str,
    host_interface_id: Option<&str>,
    error: &str,
) {
    for (label, moves) in [
        ("initialize", operation == "initialize"),
        ("write", operation == "write"),
        ("read", operation == "read"),
    ] {
        assert_eq!(
            counter_delta(record, TIMESTAMP_FILE_FAILURE_METRIC, &[("operation", label)]),
            if moves { 1.0 } else { 0.0 }
        );
    }
    assert_eq!(record.log_at, LogAt::Level(level));
    assert_eq!(record.event_name, event_name);
    assert_eq!(record.message, message);
    assert_eq!(record.component, "nico-dhcp");
    assert_eq!(field(record, "event_name").as_deref(), Some(event_name));
    assert_eq!(
        field(record, "metric_name").as_deref(),
        Some(TIMESTAMP_FILE_FAILURE_METRIC)
    );
    assert_eq!(field(record, "operation").as_deref(), Some(operation));
    assert_eq!(
        field(record, "dhcp_timestamps_path").as_deref(),
        Some(dhcp_timestamps_path)
    );
    assert_eq!(field(record, "host_interface_id").as_deref(), host_interface_id);
    assert_eq!(field(record, "error").as_deref(), Some(error));
}

#[test]
fn timestamp_file_failures_log_and_count_by_operation() {
    check_timestamp_file_failure(
        &DhcpTimestampFileInitializationFailed::new(
            "/var/support/forge-dhcp/logs/dhcp_timestamps.json.tmp".to_string(),
            "permission denied".to_string(),
        )
        .record(),
        "initialize",
        Severity::Error,
        "dhcp_timestamp_file_initialization_failed",
        "Failed to init DHCP timestamps file",
        "/var/support/forge-dhcp/logs/dhcp_timestamps.json.tmp",
        None,
        "permission denied",
    );
    check_timestamp_file_failure(
        &DhcpTimestampFileWriteFailed::new(
            "/var/support/forge-dhcp/logs/dhcp_timestamps.json.tmp".to_string(),
            "60cef902-9779-4666-8362-c9bb4b37185f".to_string(),
            "read-only file system".to_string(),
        )
        .record(),
        "write",
        Severity::Error,
        "dhcp_timestamp_file_write_failed",
        "Failed to write DHCP timestamps file",
        "/var/support/forge-dhcp/logs/dhcp_timestamps.json.tmp",
        Some("60cef902-9779-4666-8362-c9bb4b37185f"),
        "read-only file system",
    );
    check_timestamp_file_failure(
        &DhcpTimestampFileReadFailed::new(
            "/var/support/forge-dhcp/logs/dhcp_timestamps.json".to_string(),
            "file not found".to_string(),
        )
        .record(),
        "read",
        Severity::Warn,
        "dhcp_timestamp_file_read_failed",
        "Failed to read DHCP timestamps file",
        "/var/support/forge-dhcp/logs/dhcp_timestamps.json",
        None,
        "file not found",
    );
}

#[test]
fn message_type_label_maps_the_rfc2131_set_and_buckets_the_rest() {
    for (input, expect) in [
        (MessageType::Discover, MessageTypeLabel::Discover),
        (MessageType::Request, MessageTypeLabel::Request),
        (MessageType::Offer, MessageTypeLabel::Offer),
        (MessageType::Ack, MessageTypeLabel::Ack),
        (MessageType::Nak, MessageTypeLabel::Nak),
        (MessageType::Release, MessageTypeLabel::Release),
        (MessageType::Decline, MessageTypeLabel::Decline),
        (MessageType::Inform, MessageTypeLabel::Inform),
        (MessageType::LeaseQuery, MessageTypeLabel::Other),
        (MessageType::Unknown(250), MessageTypeLabel::Other),
    ] {
        assert_eq!(MessageTypeLabel::from(input), expect);
    }
}

#[test]
fn drop_reason_covers_every_dhcp_error_variant() {
    let lone_continuation_byte: Vec<u8> = vec![0x80];
    let utf8_error = std::str::from_utf8(&lone_continuation_byte).unwrap_err();
    for (input, expect) in [
        (
            DhcpError::IoError(std::io::Error::other("read failed").to_string()),
            DropReason::IoError,
        ),
        (
            DhcpError::SerdeYaml("did not find expected node content".to_string()),
            DropReason::ConfigParseFailure,
        ),
        (
            DhcpError::MissingArgument("interface".to_string()),
            DropReason::MissingArgument,
        ),
        (
            DhcpError::MissingOption(u8::from(dhcproto::v4::OptionCode::MessageType)),
            DropReason::MissingOption,
        ),
        (
            DhcpError::UnhandledMessageType(MessageType::Offer),
            DropReason::UnhandledMessageType,
        ),
        (
            DhcpError::DhcpDeclineMessage(
                "10.0.0.1".to_string(),
                "aa:bb:cc:dd:ee:ff".to_string(),
            ),
            DropReason::DhcpDeclineMessage,
        ),
        (
            DhcpError::MissingRelayCode(u8::from(dhcproto::v4::relay::RelayCode::LinkSelection)),
            DropReason::MissingRelayCode,
        ),
        (DhcpError::InvalidInput("bad".to_string()), DropReason::InvalidInput),
        (DhcpError::GenericError("oops".to_string()), DropReason::GenericError),
        (
            DhcpError::TonicStatusError("api down".to_string()),
            DropReason::UpstreamApiError,
        ),
        (DhcpError::Utf8Error(utf8_error.to_string()), DropReason::Utf8Error),
        (
            DhcpError::PacketDecodeFailure(
                dhcproto::error::DecodeError::NotEnoughBytes.to_string(),
            ),
            DropReason::PacketDecodeFailure,
        ),
        (
            DhcpError::PacketEncodeFailure(dhcproto::error::EncodeError::AddOverflow.to_string()),
            DropReason::PacketEncodeFailure,
        ),
        (
            DhcpError::AddressParseError("invalid IPv4 address syntax".to_string()),
            DropReason::AddressParseError,
        ),
        (
            DhcpError::NonRelayedPacket(0),
            DropReason::NonRelayedPacket,
        ),
        (DhcpError::UnknownPacket(2), DropReason::UnknownPacket),
        (DhcpError::NotMyPacket("10.0.0.2".to_string()), DropReason::NotMyPacket),
        (
            DhcpError::VendorClassParseError("garbled".to_string()),
            DropReason::VendorClassParseError,
        ),
        (
            DhcpError::MultipleInterfacesProvidedOneSupported(2),
            DropReason::MultipleInterfaces,
        ),
    ] {
        assert_eq!(DropReason::from(&input), expect);
    }
}

#[test]
fn packet_events_count_per_label_and_drops_log_at_error() {
    let error = DhcpError::TonicStatusError("status: Unavailable, message: api down".to_string());
    let detail = match &error {
        DhcpError::TonicStatusError(text) => text.clone(),
        _ => unreachable!(),
    };
    let records = vec![
        DhcpRequestReceived { message_type: MessageTypeLabel::Release }.record(),
        DhcpRequestReceived { message_type: MessageTypeLabel::Release }.record(),
        DhcpReplySent { message_type: MessageTypeLabel::Nak }.record(),
        DhcpPacketDropped {
            reason: DropReason::RateLimited,
            error: "parallel packet handling limit reached".to_string(),
        }
        .record(),
        DhcpPacketDropped { reason: DropReason::from(&error), error: detail }.record(),
    ];

    let logged: Vec<&EventRecord> = records.iter().filter(|r| r.log_at != LogAt::Off).collect();
    assert_eq!(logged.len(), 2, "each drop writes one error line, and nothing else is logged");
    for record in &logged {
        assert!(record.message.contains("Dropped a DHCP packet"));
        assert_eq!(record.log_at, LogAt::Level(Severity::Error));
    }
    assert_eq!(field(logged[0], "reason").as_deref(), Some("rate_limited"));
    assert!(field(logged[1], "error").is_some_and(|error| error.contains("api down")));

    let total = |metric: &str, labels: &[(&str, &str)]| -> f64 {
        records.iter().map(|r| counter_delta(r, metric, labels)).sum()
    };
    assert_eq!(total("carbide_dhcp_requests_total", &[("message_type", "release")]), 2.0);
    assert_eq!(total("carbide_dhcp_replies_sent_total", &[("message_type", "nak")]), 1.0);
    assert_eq!(
        total("carbide_dhcp_dropped_requests_total", &[("reason", "rate_limited")]),
        1.0
    );
    assert_eq!(
        total("carbide_dhcp_dropped_requests_total", &[("reason", "upstream_api_error")]),
        1.0
    );
}

#[test]
fn dhcp_label_values_are_snake_case() {
    assert_eq!(MessageTypeLabel::Discover.label_value(), "discover");
    assert_eq!(MessageTypeLabel::Other.label_value(), "other");
    assert_eq!(DropReason::NotIpv4.label_value(), "not_ipv4");
    assert_eq!(DropReason::Utf8Error.label_value(), "utf8_error");
    assert_eq!(DropReason::VendorClassParseError.label_value(), "vendor_class_parse_error");
    assert_eq!(TimestampFileOperation::Initialize.label_value(), "initialize");
}

#[test]
fn drops_without_an_error_have_reasons_of_their_own() {
    let of_error = DropReason::from(&DhcpError::UnknownPacket(7));
    for reason in [
        DropReason::RateLimited,
        DropReason::TooShort,
        DropReason::NotIpv4,
        DropReason::SendFailed,
    ] {
        assert_ne!(reason, of_error);
    }
    let same = DropReason::from(&DhcpError::UnknownPacket(9));
    assert_eq!(of_error, same, "what an error carries does not matter");
}
