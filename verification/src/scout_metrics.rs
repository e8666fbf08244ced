//! The events of scout's control loop, stream, firmware downloads and storage cleanup.
use vstd::prelude::*;
use vstd::std_specs::convert::FromSpecImpl;

use crate::addresses::MachineId;
use crate::instrument::{
    outcome_label, Elapsed, EventRecord, FieldValue, FieldView, LogAt, MetricKind, Outcome,
    RecordView, Severity,
};
use crate::outside::{duration_debug, format_duration};

verus! {

/// An action that the service loop can dispatch.
#[derive(Clone, Copy, Debug, PartialEq, Eq, Structural)]
pub enum Action {
    Noop,
    Reset,
    Discovery,
    Rebuild,
    Retry,
    Measure,
    LogError,
    MachineValidation,
    MlxAction,
    FirmwareUpgrade,
}

/// The action that scout handled, as a bounded label: one for each action it can dispatch.
#[derive(Clone, Copy, Debug, PartialEq, Eq, Structural)]
pub enum ScoutAction {
    Noop,
    Reset,
    Discovery,
    Rebuild,
    Retry,
    Measure,
    LogError,
    MachineValidation,
    MlxAction,
    FirmwareUpgrade,
}

/// The label value of an action.
pub open spec fn scout_action_text(value: ScoutAction) -> Seq<char> {
    match value {
        ScoutAction::Noop => "noop"@,
        ScoutAction::Reset => "reset"@,
        ScoutAction::Discovery => "discovery"@,
        ScoutAction::Rebuild => "rebuild"@,
        ScoutAction::Retry => "retry"@,
        ScoutAction::Measure => "measure"@,
        ScoutAction::LogError => "log_error"@,
        ScoutAction::MachineValidation => "machine_validation"@,
        ScoutAction::MlxAction => "mlx_action"@,
        ScoutAction::FirmwareUpgrade => "firmware_upgrade"@,
    }
}

impl ScoutAction {
    /// The label value of an action.
    pub fn label_value(self) -> (r: &'static str)
        ensures
            r@ == scout_action_text(self),
    {
        match self {
            ScoutAction::Noop => "noop",
            ScoutAction::Reset => "reset",
            ScoutAction::Discovery => "discovery",
            ScoutAction::Rebuild => "rebuild",
            ScoutAction::Retry => "retry",
            ScoutAction::Measure => "measure",
            ScoutAction::LogError => "log_error",
            ScoutAction::MachineValidation => "machine_validation",
            ScoutAction::MlxAction => "mlx_action",
            ScoutAction::FirmwareUpgrade => "firmware_upgrade",
        }
    }
}

/// The label of an action.
pub open spec fn scout_action_of(action: Action) -> ScoutAction {
    match action {
        Action::Noop => ScoutAction::Noop,
        Action::Reset => ScoutAction::Reset,
        Action::Discovery => ScoutAction::Discovery,
        Action::Rebuild => ScoutAction::Rebuild,
        Action::Retry => ScoutAction::Retry,
        Action::Measure => ScoutAction::Measure,
        Action::LogError => ScoutAction::LogError,
        Action::MachineValidation => ScoutAction::MachineValidation,
        Action::MlxAction => ScoutAction::MlxAction,
        Action::FirmwareUpgrade => ScoutAction::FirmwareUpgrade,
    }
}

impl From<&Action> for ScoutAction {
    fn from(action: &Action) -> (r: Self) {
        match action {
            Action::Noop => ScoutAction::Noop,
            Action::Reset => ScoutAction::Reset,
            Action::Discovery => ScoutAction::Discovery,
            Action::Rebuild => ScoutAction::Rebuild,
            Action::Retry => ScoutAction::Retry,
            Action::Measure => ScoutAction::Measure,
            Action::LogError => ScoutAction::LogError,
            Action::MachineValidation => ScoutAction::MachineValidation,
            Action::MlxAction => ScoutAction::MlxAction,
            Action::FirmwareUpgrade => ScoutAction::FirmwareUpgrade,
        }
    }
}

impl FromSpecImpl<&Action> for ScoutAction {
    open spec fn obeys_from_spec() -> bool {
        true
    }

    open spec fn from_spec(action: &Action) -> Self {
        scout_action_of(*action)
    }
}

/// Every action has a label of its own.
pub proof fn action_labels_tell_actions_apart(a: Action, b: Action)
    ensures
        scout_action_of(a) == scout_action_of(b) ==> a == b,
{
}

/// The text with which a handled action is logged.
pub open spec fn action_message(outcome: Outcome) -> Seq<char> {
    match outcome {
        Outcome::Success => "Successfully served action"@,
        Outcome::Error => "Failed to serve action"@,
    }
}

/// A control-loop action was completed. `action_name` is the action's name in upper case, and
/// `error` is empty for an action that succeeded.
#[derive(Debug)]
pub struct ScoutActionHandled {
    pub action: ScoutAction,
    pub outcome: Outcome,
    pub action_name: &'static str,
    pub error: String,
}

/// The event as it is emitted.
pub open spec fn action_handled_record(event: ScoutActionHandled) -> RecordView {
    RecordView {
        event_name: "scout_action_handled"@,
        metric_name: "carbide_scout_actions_total"@,
        description: "Number of scout control-loop actions handled, by action and outcome."@,
        component: "nico-scout"@,
        metric: MetricKind::Counter,
        log_at: LogAt::Level(Severity::Info),
        message: action_message(event.outcome),
        labels: seq![("action"@, scout_action_text(event.action)), ("outcome"@, outcome_label(event.outcome))],
        context: seq![("action_name"@, FieldView::Text(event.action_name@)), ("error"@, FieldView::Text(event.error@))],
    }
}

impl ScoutActionHandled {
    /// The text with which the action is logged.
    pub fn message(&self) -> (r: &'static str)
        ensures
            r@ == action_message(self.outcome),
    {
        match self.outcome {
            Outcome::Success => "Successfully served action",
            Outcome::Error => "Failed to serve action",
        }
    }

    /// The event as it is emitted.
    pub fn record(&self) -> (r: EventRecord)
        ensures
            r@ == action_handled_record(*self),
    {
        let mut labels: Vec<(&'static str, &'static str)> = Vec::new();
        labels.push(("action", self.action.label_value()));
        labels.push(("outcome", self.outcome.label_value()));
        let mut context: Vec<(&'static str, FieldValue)> = Vec::new();
        context.push(("action_name", FieldValue::Text(self.action_name.to_owned())));
        context.push(("error", FieldValue::Text(self.error.clone())));
        let r = EventRecord {
            event_name: "scout_action_handled",
            metric_name: "carbide_scout_actions_total",
            description: "Number of scout control-loop actions handled, by action and outcome.",
            component: "nico-scout",
            metric: MetricKind::Counter,
            log_at: LogAt::Level(Severity::Info),
            message: self.message(),
            labels,
            context,
        };
        assert(r@ =~= action_handled_record(*self));
        r
    }
}

/// Scout tried to establish its stream.
#[derive(Debug)]
pub struct ScoutStreamConnection {
    pub outcome: Outcome,
}

/// The event as it is emitted.
pub open spec fn stream_connection_record(event: ScoutStreamConnection) -> RecordView {
    RecordView {
        event_name: "scout_stream_connection"@,
        metric_name: "carbide_scout_stream_connections_total"@,
        description: "Number of scout stream connection attempts, by outcome."@,
        component: "nico-scout"@,
        metric: MetricKind::Counter,
        log_at: LogAt::Off,
        message: ""@,
        labels: seq![("outcome"@, outcome_label(event.outcome))],
        context: seq![],
    }
}

impl ScoutStreamConnection {
    /// The event as it is emitted.
    pub fn record(&self) -> (r: EventRecord)
        ensures
            r@ == stream_connection_record(*self),
    {
        let mut labels: Vec<(&'static str, &'static str)> = Vec::new();
        labels.push(("outcome", self.outcome.label_value()));
        let mut context: Vec<(&'static str, FieldValue)> = Vec::new();
        let r = EventRecord {
            event_name: "scout_stream_connection",
            metric_name: "carbide_scout_stream_connections_total",
            description: "Number of scout stream connection attempts, by outcome.",
            component: "nico-scout",
            metric: MetricKind::Counter,
            log_at: LogAt::Off,
            message: "",
            labels,
            context,
        };
        assert(r@ =~= stream_connection_record(*self));
        r
    }
}

/// Scout reconnects after its stream closed or failed.
#[derive(Debug)]
pub struct ScoutStreamReconnect {
    pub api_endpoint: String,
    pub machine_id: MachineId,
}

/// The event as it is emitted.
pub open spec fn stream_reconnect_record(event: ScoutStreamReconnect) -> RecordView {
    RecordView {
        event_name: "scout_stream_reconnect"@,
        metric_name: "carbide_scout_stream_reconnects_total"@,
        description: "Number of scout stream reconnect cycles after a stream closed or errored."@,
        component: "nico-scout"@,
        metric: MetricKind::Counter,
        log_at: LogAt::Level(Severity::Warn),
        message: "scout stream reconnecting after 10s delay"@,
        labels: seq![],
        context: seq![("api_endpoint"@, FieldView::Text(event.api_endpoint@)), ("machine_id"@, FieldView::Text(event.machine_id.text@))],
    }
}

impl ScoutStreamReconnect {
    /// The event as it is emitted.
    pub fn record(&self) -> (r: EventRecord)
        ensures
            r@ == stream_reconnect_record(*self),
    {
        let mut labels: Vec<(&'static str, &'static str)> = Vec::new();
        let mut context: Vec<(&'static str, FieldValue)> = Vec::new();
        context.push(("api_endpoint", FieldValue::Text(self.api_endpoint.clone())));
        context.push(("machine_id", FieldValue::Text(self.machine_id.text.clone())));
        let r = EventRecord {
            event_name: "scout_stream_reconnect",
            metric_name: "carbide_scout_stream_reconnects_total",
            description: "Number of scout stream reconnect cycles after a stream closed or errored.",
            component: "nico-scout",
            metric: MetricKind::Counter,
            log_at: LogAt::Level(Severity::Warn),
            message: "scout stream reconnecting after 10s delay",
            labels,
            context,
        };
        assert(r@ =~= stream_reconnect_record(*self));
        r
    }
}

/// Scout could not return a response because its request stream had closed.
#[derive(Debug)]
pub struct ScoutStreamResponseDropped {
    pub api_endpoint: String,
    pub machine_id: MachineId,
    pub error: String,
}

/// The event as it is emitted.
pub open spec fn response_dropped_record(event: ScoutStreamResponseDropped) -> RecordView {
    RecordView {
        event_name: "scout_stream_response_dropped"@,
        metric_name: "carbide_scout_stream_responses_dropped_total"@,
        description: "Number of scout stream responses dropped after the outbound request stream closed."@,
        component: "nico-scout"@,
        metric: MetricKind::Counter,
        log_at: LogAt::Level(Severity::Error),
        message: "scout stream failed to send response"@,
        labels: seq![],
        context: seq![("api_endpoint"@, FieldView::Text(event.api_endpoint@)), ("machine_id"@, FieldView::Text(event.machine_id.text@)), ("error"@, FieldView::Text(event.error@))],
    }
}

impl ScoutStreamResponseDropped {
    /// The event as it is emitted.
    pub fn record(&self) -> (r: EventRecord)
        ensures
            r@ == response_dropped_record(*self),
    {
        let mut labels: Vec<(&'static str, &'static str)> = Vec::new();
        let mut context: Vec<(&'static str, FieldValue)> = Vec::new();
        context.push(("api_endpoint", FieldValue::Text(self.api_endpoint.clone())));
        context.push(("machine_id", FieldValue::Text(self.machine_id.text.clone())));
        context.push(("error", FieldValue::Text(self.error.clone())));
        let r = EventRecord {
            event_name: "scout_stream_response_dropped",
            metric_name: "carbide_scout_stream_responses_dropped_total",
            description: "Number of scout stream responses dropped after the outbound request stream closed.",
            component: "nico-scout",
            metric: MetricKind::Counter,
            log_at: LogAt::Level(Severity::Error),
            message: "scout stream failed to send response",
            labels,
            context,
        };
        assert(r@ =~= response_dropped_record(*self));
        r
    }
}

/// What is downloaded for a firmware upgrade.
#[derive(Clone, Copy, Debug, PartialEq, Eq, Structural)]
pub enum FirmwareDownloadKind {
    Script,
    Artifact,
}

/// The label value of a download.
pub open spec fn download_kind_text(value: FirmwareDownloadKind) -> Seq<char> {
    match value {
        FirmwareDownloadKind::Script => "script"@,
        FirmwareDownloadKind::Artifact => "artifact"@,
    }
}

impl FirmwareDownloadKind {
    /// The label value of a download.
    pub fn label_value(self) -> (r: &'static str)
        ensures
            r@ == download_kind_text(self),
    {
        match self {
            FirmwareDownloadKind::Script => "script",
            FirmwareDownloadKind::Artifact => "artifact",
        }
    }
}

/// What scout does after a failed download.
#[derive(Clone, Copy, Debug, PartialEq, Eq, Structural)]
pub enum FirmwareDownloadNextAction {
    Retry,
    GiveUp,
}

/// The label value of an action.
pub open spec fn next_action_text(value: FirmwareDownloadNextAction) -> Seq<char> {
    match value {
        FirmwareDownloadNextAction::Retry => "retry"@,
        FirmwareDownloadNextAction::GiveUp => "give_up"@,
    }
}

impl FirmwareDownloadNextAction {
    /// The label value of an action.
    pub fn label_value(self) -> (r: &'static str)
        ensures
            r@ == next_action_text(self),
    {
        match self {
            FirmwareDownloadNextAction::Retry => "retry",
            FirmwareDownloadNextAction::GiveUp => "give_up",
        }
    }
}

/// An attempt to download firmware failed. `retry_delay_seconds` is the text of the delay.
#[derive(Debug)]
pub struct ScoutFirmwareDownloadAttemptFailed {
    pub kind: FirmwareDownloadKind,
    pub next_action: FirmwareDownloadNextAction,
    pub attempt: i64,
    pub url: String,
    pub error: String,
    pub retry_delay_seconds: String,
}

/// The event as it is emitted.
pub open spec fn download_failed_record(event: ScoutFirmwareDownloadAttemptFailed) -> RecordView {
    RecordView {
        event_name: "scout_firmware_download_attempt_failed"@,
        metric_name: "carbide_scout_firmware_download_attempt_failures_total"@,
        description: "Number of failed Scout firmware download attempts, by download kind and next action."@,
        component: "nico-scout"@,
        metric: MetricKind::Counter,
        log_at: LogAt::Level(Severity::Warn),
        message: "[firmware_upgrade] download attempt failed; retrying"@,
        labels: seq![("kind"@, download_kind_text(event.kind)), ("next_action"@, next_action_text(event.next_action))],
        context: seq![("attempt"@, FieldView::Integer(event.attempt as int)), ("url"@, FieldView::Text(event.url@)), ("error"@, FieldView::Text(event.error@)), ("retry_delay_seconds"@, FieldView::Number(event.retry_delay_seconds@))],
    }
}

impl ScoutFirmwareDownloadAttemptFailed {
    /// The event as it is emitted.
    pub fn record(&self) -> (r: EventRecord)
        ensures
            r@ == download_failed_record(*self),
    {
        let mut labels: Vec<(&'static str, &'static str)> = Vec::new();
        labels.push(("kind", self.kind.label_value()));
        labels.push(("next_action", self.next_action.label_value()));
        let mut context: Vec<(&'static str, FieldValue)> = Vec::new();
        context.push(("attempt", FieldValue::Integer(self.attempt)));
        context.push(("url", FieldValue::Text(self.url.clone())));
        context.push(("error", FieldValue::Text(self.error.clone())));
        context.push(("retry_delay_seconds", FieldValue::Number(self.retry_delay_seconds.clone())));
        let r = EventRecord {
            event_name: "scout_firmware_download_attempt_failed",
            metric_name: "carbide_scout_firmware_download_attempt_failures_total",
            description: "Number of failed Scout firmware download attempts, by download kind and next action.",
            component: "nico-scout",
            metric: MetricKind::Counter,
            log_at: LogAt::Level(Severity::Warn),
            message: "[firmware_upgrade] download attempt failed; retrying",
            labels,
            context,
        };
        assert(r@ =~= download_failed_record(*self));
        r
    }
}

/// Which kind of device was cleaned up.
#[derive(Clone, Copy, Debug, PartialEq, Eq, Structural)]
pub enum StorageDeviceType {
    Nvme,
    HddSas,
}

/// The label value of a kind of device.
pub open spec fn device_type_text(value: StorageDeviceType) -> Seq<char> {
    match value {
        StorageDeviceType::Nvme => "nvme"@,
        StorageDeviceType::HddSas => "hdd_sas"@,
    }
}

impl StorageDeviceType {
    /// The label value of a kind of device.
    pub fn label_value(self) -> (r: &'static str)
        ensures
            r@ == device_type_text(self),
    {
        match self {
            StorageDeviceType::Nvme => "nvme",
            StorageDeviceType::HddSas => "hdd_sas",
        }
    }
}

/// How a cleanup is logged.
pub open spec fn cleanup_log_at(outcome: Outcome) -> LogAt {
    match outcome {
        Outcome::Success => LogAt::Level(Severity::Info),
        Outcome::Error => LogAt::Level(Severity::Error),
    }
}

/// The text with which a cleanup is logged.
pub open spec fn cleanup_message(outcome: Outcome) -> Seq<char> {
    match outcome {
        Outcome::Success => "Cleanup completed successfully"@,
        Outcome::Error => "Cleanup failed"@,
    }
}

/// The cleanup of one device ended. `took` is what the histogram records, `duration` its text;
/// `error` is empty for a cleanup that succeeded.
#[derive(Debug)]
pub struct ScoutStorageDeviceCleanup {
    pub device_type: StorageDeviceType,
    pub outcome: Outcome,
    pub took: Elapsed,
    pub duration: String,
    pub error: String,
}

/// The cleanup with this result.
pub open spec fn is_cleanup(
    device_type: StorageDeviceType,
    took: Elapsed,
    duration: Seq<char>,
    result: Result<(), String>,
    r: ScoutStorageDeviceCleanup,
) -> bool {
    &&& r.device_type == device_type
    &&& r.took == took
    &&& r.duration@ == duration
    &&& match result {
        Ok(_) => r.outcome == Outcome::Success && r.error@ == ""@,
        Err(error) => r.outcome == Outcome::Error && r.error == error,
    }
}

/// The event as it is emitted.
pub open spec fn cleanup_record(event: ScoutStorageDeviceCleanup) -> RecordView {
    RecordView {
        event_name: "scout_storage_device_cleanup"@,
        metric_name: "carbide_scout_storage_device_cleanup_duration_seconds"@,
        description: "Duration of per-device scout storage cleanup operations, by device type and outcome."@,
        component: "nico-scout"@,
        metric: MetricKind::Histogram { observed: event.took },
        log_at: cleanup_log_at(event.outcome),
        message: cleanup_message(event.outcome),
        labels: seq![("device_type"@, device_type_text(event.device_type)), ("outcome"@, outcome_label(event.outcome))],
        context: seq![("duration"@, FieldView::Text(event.duration@)), ("error"@, FieldView::Text(event.error@))],
    }
}

impl ScoutStorageDeviceCleanup {
    /// The cleanup of a device that took this long, with its result.
    pub fn new(
        device_type: StorageDeviceType,
        took: Elapsed,
        result: &Result<(), String>,
    ) -> (r: Self)
        requires
            took.nanoseconds < 1_000_000_000,
        ensures
            is_cleanup(
                device_type,
                took,
                duration_debug(took.seconds, took.nanoseconds),
                *result,
                r,
            ),
    {
        let duration = format_duration(took.seconds, took.nanoseconds);
        ScoutStorageDeviceCleanup::with_duration_text(device_type, took, duration, result)
    }

    /// The cleanup of a device with its result, where `duration` is the text of its time.
    pub fn with_duration_text(
        device_type: StorageDeviceType,
        took: Elapsed,
        duration: String,
        result: &Result<(), String>,
    ) -> (r: Self)
        ensures
            is_cleanup(device_type, took, duration@, *result, r),
    {
        ScoutStorageDeviceCleanup {
            device_type,
            outcome: Outcome::from_result(result),
            took,
            duration,
            error: match result {
                Ok(()) => "".to_owned(),
                Err(error) => error.clone(),
            },
        }
    }

    /// How the cleanup is logged.
    pub fn log_at(&self) -> (r: LogAt)
        ensures
            r == cleanup_log_at(self.outcome),
    {
        match self.outcome {
            Outcome::Success => LogAt::Level(Severity::Info),
            Outcome::Error => LogAt::Level(Severity::Error),
        }
    }

    /// The text with which the cleanup is logged.
    pub fn message(&self) -> (r: &'static str)
        ensures
            r@ == cleanup_message(self.outcome),
    {
        match self.outcome {
            Outcome::Success => "Cleanup completed successfully",
            Outcome::Error => "Cleanup failed",
        }
    }

    /// The event as it is emitted.
    pub fn record(&self) -> (r: EventRecord)
        ensures
            r@ == cleanup_record(*self),
    {
        let mut labels: Vec<(&'static str, &'static str)> = Vec::new();
        labels.push(("device_type", self.device_type.label_value()));
        labels.push(("outcome", self.outcome.label_value()));
        let mut context: Vec<(&'static str, FieldValue)> = Vec::new();
        context.push(("duration", FieldValue::Text(self.duration.clone())));
        context.push(("error", FieldValue::Text(self.error.clone())));
        let r = EventRecord {
            event_name: "scout_storage_device_cleanup",
            metric_name: "carbide_scout_storage_device_cleanup_duration_seconds",
            description: "Duration of per-device scout storage cleanup operations, by device type and outcome.",
            component: "nico-scout",
            metric: MetricKind::Histogram { observed: self.took },
            log_at: self.log_at(),
            message: self.message(),
            labels,
            context,
        };
        assert(r@ =~= cleanup_record(*self));
        r
    }
}

} // verus!
