//! The events of the DHCP server: packets by message type, drops by reason, and failures of
//! the timestamp file by operation.
//!
//! Received packets and sent replies are only counted. A drop is an operational error, so its
//! event is logged too. Paths, interfaces and errors are context of the log and never labels.
use vstd::prelude::*;
use vstd::std_specs::convert::FromSpecImpl;

use crate::instrument::{
    EventRecord, FieldValue, FieldView, LogAt, MetricKind, RecordView, Severity,
};

verus! {

/// The message type of a DHCP packet.
#[derive(Clone, Copy, Debug, PartialEq, Eq, Structural)]
pub enum MessageType {
    Discover,
    Offer,
    Request,
    Decline,
    Ack,
    Nak,
    Release,
    Inform,
    ForceRenew,
    LeaseQuery,
    LeaseUnassigned,
    LeaseUnknown,
    LeaseActive,
    BulkLeaseQuery,
    LeaseQueryDone,
    ActiveLeaseQuery,
    LeaseQueryStatus,
    Tls,
    Unknown(u8),
}

/// The message type of a packet as a bounded label: the types that the server handles, and one
/// for all others.
#[derive(Clone, Copy, Debug, PartialEq, Eq, Structural)]
pub enum MessageTypeLabel {
    Discover,
    Request,
    Offer,
    Ack,
    Nak,
    Release,
    Decline,
    Inform,
    Other,
}

/// The label value of a message type.
pub open spec fn message_type_text(value: MessageTypeLabel) -> Seq<char> {
    match value {
        MessageTypeLabel::Discover => "discover"@,
        MessageTypeLabel::Request => "request"@,
        MessageTypeLabel::Offer => "offer"@,
        MessageTypeLabel::Ack => "ack"@,
        MessageTypeLabel::Nak => "nak"@,
        MessageTypeLabel::Release => "release"@,
        MessageTypeLabel::Decline => "decline"@,
        MessageTypeLabel::Inform => "inform"@,
        MessageTypeLabel::Other => "other"@,
    }
}

impl MessageTypeLabel {
    /// The label value of a message type.
    pub fn label_value(self) -> (r: &'static str)
        ensures
            r@ == message_type_text(self),
    {
        match self {
            MessageTypeLabel::Discover => "discover",
            MessageTypeLabel::Request => "request",
            MessageTypeLabel::Offer => "offer",
            MessageTypeLabel::Ack => "ack",
            MessageTypeLabel::Nak => "nak",
            MessageTypeLabel::Release => "release",
            MessageTypeLabel::Decline => "decline",
            MessageTypeLabel::Inform => "inform",
            MessageTypeLabel::Other => "other",
        }
    }
}

/// The label of a message type.
pub open spec fn label_of(message_type: MessageType) -> MessageTypeLabel {
    match message_type {
        MessageType::Discover => MessageTypeLabel::Discover,
        MessageType::Request => MessageTypeLabel::Request,
        MessageType::Offer => MessageTypeLabel::Offer,
        MessageType::Ack => MessageTypeLabel::Ack,
        MessageType::Nak => MessageTypeLabel::Nak,
        MessageType::Release => MessageTypeLabel::Release,
        MessageType::Decline => MessageTypeLabel::Decline,
        MessageType::Inform => MessageTypeLabel::Inform,
        _ => MessageTypeLabel::Other,
    }
}

impl From<MessageType> for MessageTypeLabel {
    fn from(message_type: MessageType) -> (r: Self) {
        match message_type {
            MessageType::Discover => MessageTypeLabel::Discover,
            MessageType::Request => MessageTypeLabel::Request,
            MessageType::Offer => MessageTypeLabel::Offer,
            MessageType::Ack => MessageTypeLabel::Ack,
            MessageType::Nak => MessageTypeLabel::Nak,
            MessageType::Release => MessageTypeLabel::Release,
            MessageType::Decline => MessageTypeLabel::Decline,
            MessageType::Inform => MessageTypeLabel::Inform,
            _ => MessageTypeLabel::Other,
        }
    }
}

impl FromSpecImpl<MessageType> for MessageTypeLabel {
    open spec fn obeys_from_spec() -> bool {
        true
    }

    open spec fn from_spec(message_type: MessageType) -> Self {
        label_of(message_type)
    }
}

/// Why a packet was dropped, as a bounded label: one reason for each error, and those of drops
/// that come without an error.
#[derive(Clone, Copy, Debug, PartialEq, Eq, Structural)]
pub enum DropReason {
    RateLimited,
    TooShort,
    NotIpv4,
    SendFailed,
    IoError,
    ConfigParseFailure,
    MissingArgument,
    MissingOption,
    UnhandledMessageType,
    DhcpDeclineMessage,
    MissingRelayCode,
    InvalidInput,
    GenericError,
    UpstreamApiError,
    Utf8Error,
    PacketDecodeFailure,
    PacketEncodeFailure,
    AddressParseError,
    NonRelayedPacket,
    UnknownPacket,
    NotMyPacket,
    VendorClassParseError,
    MultipleInterfaces,
}

/// The label value of a reason.
pub open spec fn drop_reason_text(value: DropReason) -> Seq<char> {
    match value {
        DropReason::RateLimited => "rate_limited"@,
        DropReason::TooShort => "too_short"@,
        DropReason::NotIpv4 => "not_ipv4"@,
        DropReason::SendFailed => "send_failed"@,
        DropReason::IoError => "io_error"@,
        DropReason::ConfigParseFailure => "config_parse_failure"@,
        DropReason::MissingArgument => "missing_argument"@,
        DropReason::MissingOption => "missing_option"@,
        DropReason::UnhandledMessageType => "unhandled_message_type"@,
        DropReason::DhcpDeclineMessage => "dhcp_decline_message"@,
        DropReason::MissingRelayCode => "missing_relay_code"@,
        DropReason::InvalidInput => "invalid_input"@,
        DropReason::GenericError => "generic_error"@,
        DropReason::UpstreamApiError => "upstream_api_error"@,
        DropReason::Utf8Error => "utf8_error"@,
        DropReason::PacketDecodeFailure => "packet_decode_failure"@,
        DropReason::PacketEncodeFailure => "packet_encode_failure"@,
        DropReason::AddressParseError => "address_parse_error"@,
        DropReason::NonRelayedPacket => "non_relayed_packet"@,
        DropReason::UnknownPacket => "unknown_packet"@,
        DropReason::NotMyPacket => "not_my_packet"@,
        DropReason::VendorClassParseError => "vendor_class_parse_error"@,
        DropReason::MultipleInterfaces => "multiple_interfaces"@,
    }
}

impl DropReason {
    /// The label value of a reason.
    pub fn label_value(self) -> (r: &'static str)
        ensures
            r@ == drop_reason_text(self),
    {
        match self {
            DropReason::RateLimited => "rate_limited",
            DropReason::TooShort => "too_short",
            DropReason::NotIpv4 => "not_ipv4",
            DropReason::SendFailed => "send_failed",
            DropReason::IoError => "io_error",
            DropReason::ConfigParseFailure => "config_parse_failure",
            DropReason::MissingArgument => "missing_argument",
            DropReason::MissingOption => "missing_option",
            DropReason::UnhandledMessageType => "unhandled_message_type",
            DropReason::DhcpDeclineMessage => "dhcp_decline_message",
            DropReason::MissingRelayCode => "missing_relay_code",
            DropReason::InvalidInput => "invalid_input",
            DropReason::GenericError => "generic_error",
            DropReason::UpstreamApiError => "upstream_api_error",
            DropReason::Utf8Error => "utf8_error",
            DropReason::PacketDecodeFailure => "packet_decode_failure",
            DropReason::PacketEncodeFailure => "packet_encode_failure",
            DropReason::AddressParseError => "address_parse_error",
            DropReason::NonRelayedPacket => "non_relayed_packet",
            DropReason::UnknownPacket => "unknown_packet",
            DropReason::NotMyPacket => "not_my_packet",
            DropReason::VendorClassParseError => "vendor_class_parse_error",
            DropReason::MultipleInterfaces => "multiple_interfaces",
        }
    }
}

/// An error in the handling of a DHCP packet. Texts are those of the underlying errors; option
/// and relay codes are their numbers, and an IPv4 address is its number.
#[derive(Debug)]
pub enum DhcpError {
    IoError(String),
    SerdeYaml(String),
    MissingArgument(String),
    MissingOption(u8),
    UnhandledMessageType(MessageType),
    DhcpDeclineMessage(String, String),
    MissingRelayCode(u8),
    InvalidInput(String),
    GenericError(String),
    TonicStatusError(String),
    Utf8Error(String),
    PacketDecodeFailure(String),
    PacketEncodeFailure(String),
    AddressParseError(String),
    NonRelayedPacket(u32),
    UnknownPacket(u8),
    NotMyPacket(String),
    VendorClassParseError(String),
    MultipleInterfacesProvidedOneSupported(usize),
}

/// The reason for which a packet is dropped after an error.
pub open spec fn reason_of(error: DhcpError) -> DropReason {
    match error {
        DhcpError::IoError(_) => DropReason::IoError,
        DhcpError::SerdeYaml(_) => DropReason::ConfigParseFailure,
        DhcpError::MissingArgument(_) => DropReason::MissingArgument,
        DhcpError::MissingOption(_) => DropReason::MissingOption,
        DhcpError::UnhandledMessageType(_) => DropReason::UnhandledMessageType,
        DhcpError::DhcpDeclineMessage(_, _) => DropReason::DhcpDeclineMessage,
        DhcpError::MissingRelayCode(_) => DropReason::MissingRelayCode,
        DhcpError::InvalidInput(_) => DropReason::InvalidInput,
        DhcpError::GenericError(_) => DropReason::GenericError,
        DhcpError::TonicStatusError(_) => DropReason::UpstreamApiError,
        DhcpError::Utf8Error(_) => DropReason::Utf8Error,
        DhcpError::PacketDecodeFailure(_) => DropReason::PacketDecodeFailure,
        DhcpError::PacketEncodeFailure(_) => DropReason::PacketEncodeFailure,
        DhcpError::AddressParseError(_) => DropReason::AddressParseError,
        DhcpError::NonRelayedPacket(_) => DropReason::NonRelayedPacket,
        DhcpError::UnknownPacket(_) => DropReason::UnknownPacket,
        DhcpError::NotMyPacket(_) => DropReason::NotMyPacket,
        DhcpError::VendorClassParseError(_) => DropReason::VendorClassParseError,
        DhcpError::MultipleInterfacesProvidedOneSupported(_) => DropReason::MultipleInterfaces,
    }
}

impl From<&DhcpError> for DropReason {
    fn from(error: &DhcpError) -> (r: Self) {
        match error {
            DhcpError::IoError(_) => DropReason::IoError,
            DhcpError::SerdeYaml(_) => DropReason::ConfigParseFailure,
            DhcpError::MissingArgument(_) => DropReason::MissingArgument,
            DhcpError::MissingOption(_) => DropReason::MissingOption,
            DhcpError::UnhandledMessageType(_) => DropReason::UnhandledMessageType,
            DhcpError::DhcpDeclineMessage(_, _) => DropReason::DhcpDeclineMessage,
            DhcpError::MissingRelayCode(_) => DropReason::MissingRelayCode,
            DhcpError::InvalidInput(_) => DropReason::InvalidInput,
            DhcpError::GenericError(_) => DropReason::GenericError,
            DhcpError::TonicStatusError(_) => DropReason::UpstreamApiError,
            DhcpError::Utf8Error(_) => DropReason::Utf8Error,
            DhcpError::PacketDecodeFailure(_) => DropReason::PacketDecodeFailure,
            DhcpError::PacketEncodeFailure(_) => DropReason::PacketEncodeFailure,
            DhcpError::AddressParseError(_) => DropReason::AddressParseError,
            DhcpError::NonRelayedPacket(_) => DropReason::NonRelayedPacket,
            DhcpError::UnknownPacket(_) => DropReason::UnknownPacket,
            DhcpError::NotMyPacket(_) => DropReason::NotMyPacket,
            DhcpError::VendorClassParseError(_) => DropReason::VendorClassParseError,
            DhcpError::MultipleInterfacesProvidedOneSupported(_) => DropReason::MultipleInterfaces,
        }
    }
}

impl FromSpecImpl<&DhcpError> for DropReason {
    open spec fn obeys_from_spec() -> bool {
        true
    }

    open spec fn from_spec(error: &DhcpError) -> Self {
        reason_of(*error)
    }
}

/// Whether a reason belongs to a drop that comes without an error.
pub open spec fn comes_without_error(reason: DropReason) -> bool {
    reason == DropReason::RateLimited || reason == DropReason::TooShort || reason
        == DropReason::NotIpv4 || reason == DropReason::SendFailed
}

/// Every error has a reason of its own, and none of those that come without an error: the
/// reason of an error tells which error it was.
pub proof fn reasons_tell_errors_apart(a: DhcpError, b: DhcpError)
    ensures
        !comes_without_error(reason_of(a)),
        reason_of(a) == reason_of(b) ==> same_error(a, b),
{
}

/// Whether two errors are of one kind, whatever they carry.
pub open spec fn same_error(a: DhcpError, b: DhcpError) -> bool {
    match a {
        DhcpError::IoError(_) => b is IoError,
        DhcpError::SerdeYaml(_) => b is SerdeYaml,
        DhcpError::MissingArgument(_) => b is MissingArgument,
        DhcpError::MissingOption(_) => b is MissingOption,
        DhcpError::UnhandledMessageType(_) => b is UnhandledMessageType,
        DhcpError::DhcpDeclineMessage(_, _) => b is DhcpDeclineMessage,
        DhcpError::MissingRelayCode(_) => b is MissingRelayCode,
        DhcpError::InvalidInput(_) => b is InvalidInput,
        DhcpError::GenericError(_) => b is GenericError,
        DhcpError::TonicStatusError(_) => b is TonicStatusError,
        DhcpError::Utf8Error(_) => b is Utf8Error,
        DhcpError::PacketDecodeFailure(_) => b is PacketDecodeFailure,
        DhcpError::PacketEncodeFailure(_) => b is PacketEncodeFailure,
        DhcpError::AddressParseError(_) => b is AddressParseError,
        DhcpError::NonRelayedPacket(_) => b is NonRelayedPacket,
        DhcpError::UnknownPacket(_) => b is UnknownPacket,
        DhcpError::NotMyPacket(_) => b is NotMyPacket,
        DhcpError::VendorClassParseError(_) => b is VendorClassParseError,
        DhcpError::MultipleInterfacesProvidedOneSupported(_) => b is MultipleInterfacesProvidedOneSupported,
    }
}

/// What was done with the timestamp file.
#[derive(Clone, Copy, Debug, PartialEq, Eq, Structural)]
pub enum TimestampFileOperation {
    Initialize,
    Write,
    Read,
}

/// The label value of an operation.
pub open spec fn file_operation_text(value: TimestampFileOperation) -> Seq<char> {
    match value {
        TimestampFileOperation::Initialize => "initialize"@,
        TimestampFileOperation::Write => "write"@,
        TimestampFileOperation::Read => "read"@,
    }
}

impl TimestampFileOperation {
    /// The label value of an operation.
    pub fn label_value(self) -> (r: &'static str)
        ensures
            r@ == file_operation_text(self),
    {
        match self {
            TimestampFileOperation::Initialize => "initialize",
            TimestampFileOperation::Write => "write",
            TimestampFileOperation::Read => "read",
        }
    }
}

/// A DHCP packet was decoded, whatever becomes of it.
#[derive(Debug)]
pub struct DhcpRequestReceived {
    pub message_type: MessageTypeLabel,
}

/// The event as it is emitted.
pub open spec fn request_received_record(event: DhcpRequestReceived) -> RecordView {
    RecordView {
        event_name: "dhcp_server_request_received"@,
        metric_name: "carbide_dhcp_requests_total"@,
        description: "Number of DHCP packets received and decoded, by DHCP message type."@,
        component: "nico-dhcp"@,
        metric: MetricKind::Counter,
        log_at: LogAt::Off,
        message: ""@,
        labels: seq![("message_type"@, message_type_text(event.message_type))],
        context: seq![],
    }
}

impl DhcpRequestReceived {
    /// The event as it is emitted.
    pub fn record(&self) -> (r: EventRecord)
        ensures
            r@ == request_received_record(*self),
    {
        let mut labels: Vec<(&'static str, &'static str)> = Vec::new();
        labels.push(("message_type", self.message_type.label_value()));
        let mut context: Vec<(&'static str, FieldValue)> = Vec::new();
        let r = EventRecord {
            event_name: "dhcp_server_request_received",
            metric_name: "carbide_dhcp_requests_total",
            description: "Number of DHCP packets received and decoded, by DHCP message type.",
            component: "nico-dhcp",
            metric: MetricKind::Counter,
            log_at: LogAt::Off,
            message: "",
            labels,
            context,
        };
        assert(r@ =~= request_received_record(*self));
        r
    }
}

/// A packet was dropped without a reply reaching the client.
#[derive(Debug)]
pub struct DhcpPacketDropped {
    pub reason: DropReason,
    pub error: String,
}

/// The event as it is emitted.
pub open spec fn packet_dropped_record(event: DhcpPacketDropped) -> RecordView {
    RecordView {
        event_name: "dhcp_server_packet_dropped"@,
        metric_name: "carbide_dhcp_dropped_requests_total"@,
        description: "Number of DHCP packets dropped without a reply, by drop reason."@,
        component: "nico-dhcp"@,
        metric: MetricKind::Counter,
        log_at: LogAt::Level(Severity::Error),
        message: "Dropped a DHCP packet"@,
        labels: seq![("reason"@, drop_reason_text(event.reason))],
        context: seq![("error"@, FieldView::Text(event.error@))],
    }
}

impl DhcpPacketDropped {
    /// The event as it is emitted.
    pub fn record(&self) -> (r: EventRecord)
        ensures
            r@ == packet_dropped_record(*self),
    {
        let mut labels: Vec<(&'static str, &'static str)> = Vec::new();
        labels.push(("reason", self.reason.label_value()));
        let mut context: Vec<(&'static str, FieldValue)> = Vec::new();
        context.push(("error", FieldValue::Text(self.error.clone())));
        let r = EventRecord {
            event_name: "dhcp_server_packet_dropped",
            metric_name: "carbide_dhcp_dropped_requests_total",
            description: "Number of DHCP packets dropped without a reply, by drop reason.",
            component: "nico-dhcp",
            metric: MetricKind::Counter,
            log_at: LogAt::Level(Severity::Error),
            message: "Dropped a DHCP packet",
            labels,
            context,
        };
        assert(r@ =~= packet_dropped_record(*self));
        r
    }
}

/// A DHCP reply was sent.
#[derive(Debug)]
pub struct DhcpReplySent {
    pub message_type: MessageTypeLabel,
}

/// The event as it is emitted.
pub open spec fn reply_sent_record(event: DhcpReplySent) -> RecordView {
    RecordView {
        event_name: "dhcp_server_reply_sent"@,
        metric_name: "carbide_dhcp_replies_sent_total"@,
        description: "Number of DHCP replies sent, by reply message type."@,
        component: "nico-dhcp"@,
        metric: MetricKind::Counter,
        log_at: LogAt::Off,
        message: ""@,
        labels: seq![("message_type"@, message_type_text(event.message_type))],
        context: seq![],
    }
}

impl DhcpReplySent {
    /// The event as it is emitted.
    pub fn record(&self) -> (r: EventRecord)
        ensures
            r@ == reply_sent_record(*self),
    {
        let mut labels: Vec<(&'static str, &'static str)> = Vec::new();
        labels.push(("message_type", self.message_type.label_value()));
        let mut context: Vec<(&'static str, FieldValue)> = Vec::new();
        let r = EventRecord {
            event_name: "dhcp_server_reply_sent",
            metric_name: "carbide_dhcp_replies_sent_total",
            description: "Number of DHCP replies sent, by reply message type.",
            component: "nico-dhcp",
            metric: MetricKind::Counter,
            log_at: LogAt::Off,
            message: "",
            labels,
            context,
        };
        assert(r@ =~= reply_sent_record(*self));
        r
    }
}

/// The timestamp file could not be initialized, so the server does not start.
#[derive(Debug)]
pub struct DhcpTimestampFileInitializationFailed {
    pub operation: TimestampFileOperation,
    pub dhcp_timestamps_path: String,
    pub error: String,
}

/// The event as it is emitted.
pub open spec fn file_initialization_record(event: DhcpTimestampFileInitializationFailed) -> RecordView {
    RecordView {
        event_name: "dhcp_timestamp_file_initialization_failed"@,
        metric_name: "carbide_dhcp_timestamp_file_failures_total"@,
        description: "Number of DHCP timestamp file failures, by operation"@,
        component: "nico-dhcp"@,
        metric: MetricKind::Counter,
        log_at: LogAt::Level(Severity::Error),
        message: "Failed to init DHCP timestamps file"@,
        labels: seq![("operation"@, file_operation_text(event.operation))],
        context: seq![("dhcp_timestamps_path"@, FieldView::Text(event.dhcp_timestamps_path@)), ("error"@, FieldView::Text(event.error@))],
    }
}

impl DhcpTimestampFileInitializationFailed {
    /// The failure of this operation.
    pub fn new(dhcp_timestamps_path: String, error: String) -> (r: Self)
        ensures
            r == (DhcpTimestampFileInitializationFailed {
                operation: TimestampFileOperation::Initialize,
                dhcp_timestamps_path,
                error,
            }),
    {
        DhcpTimestampFileInitializationFailed {
            operation: TimestampFileOperation::Initialize,
            dhcp_timestamps_path,
            error,
        }
    }

    /// The event as it is emitted.
    pub fn record(&self) -> (r: EventRecord)
        ensures
            r@ == file_initialization_record(*self),
    {
        let mut labels: Vec<(&'static str, &'static str)> = Vec::new();
        labels.push(("operation", self.operation.label_value()));
        let mut context: Vec<(&'static str, FieldValue)> = Vec::new();
        context.push(("dhcp_timestamps_path", FieldValue::Text(self.dhcp_timestamps_path.clone())));
        context.push(("error", FieldValue::Text(self.error.clone())));
        let r = EventRecord {
            event_name: "dhcp_timestamp_file_initialization_failed",
            metric_name: "carbide_dhcp_timestamp_file_failures_total",
            description: "Number of DHCP timestamp file failures, by operation",
            component: "nico-dhcp",
            metric: MetricKind::Counter,
            log_at: LogAt::Level(Severity::Error),
            message: "Failed to init DHCP timestamps file",
            labels,
            context,
        };
        assert(r@ =~= file_initialization_record(*self));
        r
    }
}

/// The timestamp file could not be written; packets are handled on.
#[derive(Debug)]
pub struct DhcpTimestampFileWriteFailed {
    pub operation: TimestampFileOperation,
    pub dhcp_timestamps_path: String,
    pub host_interface_id: String,
    pub error: String,
}

/// The event as it is emitted.
pub open spec fn file_write_record(event: DhcpTimestampFileWriteFailed) -> RecordView {
    RecordView {
        event_name: "dhcp_timestamp_file_write_failed"@,
        metric_name: "carbide_dhcp_timestamp_file_failures_total"@,
        description: "Number of DHCP timestamp file failures, by operation"@,
        component: "nico-dhcp"@,
        metric: MetricKind::Counter,
        log_at: LogAt::Level(Severity::Error),
        message: "Failed to write DHCP timestamps file"@,
        labels: seq![("operation"@, file_operation_text(event.operation))],
        context: seq![("dhcp_timestamps_path"@, FieldView::Text(event.dhcp_timestamps_path@)), ("host_interface_id"@, FieldView::Text(event.host_interface_id@)), ("error"@, FieldView::Text(event.error@))],
    }
}

impl DhcpTimestampFileWriteFailed {
    /// The failure of this operation.
    pub fn new(dhcp_timestamps_path: String, host_interface_id: String, error: String) -> (r: Self)
        ensures
            r == (DhcpTimestampFileWriteFailed {
                operation: TimestampFileOperation::Write,
                dhcp_timestamps_path,
                host_interface_id,
                error,
            }),
    {
        DhcpTimestampFileWriteFailed {
            operation: TimestampFileOperation::Write,
            dhcp_timestamps_path,
            host_interface_id,
            error,
        }
    }

    /// The event as it is emitted.
    pub fn record(&self) -> (r: EventRecord)
        ensures
            r@ == file_write_record(*self),
    {
        let mut labels: Vec<(&'static str, &'static str)> = Vec::new();
        labels.push(("operation", self.operation.label_value()));
        let mut context: Vec<(&'static str, FieldValue)> = Vec::new();
        context.push(("dhcp_timestamps_path", FieldValue::Text(self.dhcp_timestamps_path.clone())));
        context.push(("host_interface_id", FieldValue::Text(self.host_interface_id.clone())));
        context.push(("error", FieldValue::Text(self.error.clone())));
        let r = EventRecord {
            event_name: "dhcp_timestamp_file_write_failed",
            metric_name: "carbide_dhcp_timestamp_file_failures_total",
            description: "Number of DHCP timestamp file failures, by operation",
            component: "nico-dhcp",
            metric: MetricKind::Counter,
            log_at: LogAt::Level(Severity::Error),
            message: "Failed to write DHCP timestamps file",
            labels,
            context,
        };
        assert(r@ =~= file_write_record(*self));
        r
    }
}

/// The timestamp file could not be read, which counts as no requests yet.
#[derive(Debug)]
pub struct DhcpTimestampFileReadFailed {
    pub operation: TimestampFileOperation,
    pub dhcp_timestamps_path: String,
    pub error: String,
}

/// The event as it is emitted.
pub open spec fn file_read_record(event: DhcpTimestampFileReadFailed) -> RecordView {
    RecordView {
        event_name: "dhcp_timestamp_file_read_failed"@,
        metric_name: "carbide_dhcp_timestamp_file_failures_total"@,
        description: "Number of DHCP timestamp file failures, by operation"@,
        component: "nico-dhcp"@,
        metric: MetricKind::Counter,
        log_at: LogAt::Level(Severity::Warn),
        message: "Failed to read DHCP timestamps file"@,
        labels: seq![("operation"@, file_operation_text(event.operation))],
        context: seq![("dhcp_timestamps_path"@, FieldView::Text(event.dhcp_timestamps_path@)), ("error"@, FieldView::Text(event.error@))],
    }
}

impl DhcpTimestampFileReadFailed {
    /// The failure of this operation.
    pub fn new(dhcp_timestamps_path: String, error: String) -> (r: Self)
        ensures
            r == (DhcpTimestampFileReadFailed {
                operation: TimestampFileOperation::Read,
                dhcp_timestamps_path,
                error,
            }),
    {
        DhcpTimestampFileReadFailed {
            operation: TimestampFileOperation::Read,
            dhcp_timestamps_path,
            error,
        }
    }

    /// The event as it is emitted.
    pub fn record(&self) -> (r: EventRecord)
        ensures
            r@ == file_read_record(*self),
    {
        let mut labels: Vec<(&'static str, &'static str)> = Vec::new();
        labels.push(("operation", self.operation.label_value()));
        let mut context: Vec<(&'static str, FieldValue)> = Vec::new();
        context.push(("dhcp_timestamps_path", FieldValue::Text(self.dhcp_timestamps_path.clone())));
        context.push(("error", FieldValue::Text(self.error.clone())));
        let r = EventRecord {
            event_name: "dhcp_timestamp_file_read_failed",
            metric_name: "carbide_dhcp_timestamp_file_failures_total",
            description: "Number of DHCP timestamp file failures, by operation",
            component: "nico-dhcp",
            metric: MetricKind::Counter,
            log_at: LogAt::Level(Severity::Warn),
            message: "Failed to read DHCP timestamps file",
            labels,
            context,
        };
        assert(r@ =~= file_read_record(*self));
        r
    }
}

/// Failures of the timestamp file share one metric, in which only the operation tells them
/// apart: paths, interfaces and errors are in the log alone.
pub proof fn timestamp_failures_share_a_metric(
    initialization: DhcpTimestampFileInitializationFailed,
    write: DhcpTimestampFileWriteFailed,
    read: DhcpTimestampFileReadFailed,
)
    ensures
        file_initialization_record(initialization).metric_name == file_write_record(
            write,
        ).metric_name,
        file_write_record(write).metric_name == file_read_record(read).metric_name,
        file_initialization_record(initialization).labels == seq![
            ("operation"@, file_operation_text(initialization.operation)),
        ],
        file_write_record(write).labels == seq![
            ("operation"@, file_operation_text(write.operation)),
        ],
        file_read_record(read).labels == seq![("operation"@, file_operation_text(read.operation))],
{
}

} // verus!
