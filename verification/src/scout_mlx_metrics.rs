//! The failures of scout's MLX operations. They all feed one counter, by operation, stage and
//! kind of failure; what else is known of a failure is context of its log record.
//!
//! A failure is made by a named constructor for its operation and stage. Its kind follows from
//! the stage, so no contradictory series can be made.
use vstd::prelude::*;

use crate::instrument::{
    EventRecord, FieldValue, FieldView, LogAt, MetricKind, RecordView, Severity,
};

verus! {

/// An operation that can fail.
#[derive(Clone, Copy, Debug, PartialEq, Eq, Structural)]
pub enum ScoutMlxOperation {
    DeviceReportPublish,
    InfoReport,
    ObservationReport,
    Reconciliation,
    ReconciliationLock,
    ReconciliationUnlock,
    ProfileSync,
    ProfileCompare,
    ProfileApply,
    ProfileReset,
    LockdownLock,
    LockdownUnlock,
    LockdownStatus,
    DeviceInfo,
    RegistryShow,
    ConfigQuery,
    ConfigCompare,
    ConfigSet,
    ConfigSync,
    FirmwareFlash,
}

/// The label value of an operation.
pub open spec fn operation_text(value: ScoutMlxOperation) -> Seq<char> {
    match value {
        ScoutMlxOperation::DeviceReportPublish => "device_report_publish"@,
        ScoutMlxOperation::InfoReport => "info_report"@,
        ScoutMlxOperation::ObservationReport => "observation_report"@,
        ScoutMlxOperation::Reconciliation => "reconciliation"@,
        ScoutMlxOperation::ReconciliationLock => "reconciliation_lock"@,
        ScoutMlxOperation::ReconciliationUnlock => "reconciliation_unlock"@,
        ScoutMlxOperation::ProfileSync => "profile_sync"@,
        ScoutMlxOperation::ProfileCompare => "profile_compare"@,
        ScoutMlxOperation::ProfileApply => "profile_apply"@,
        ScoutMlxOperation::ProfileReset => "profile_reset"@,
        ScoutMlxOperation::LockdownLock => "lockdown_lock"@,
        ScoutMlxOperation::LockdownUnlock => "lockdown_unlock"@,
        ScoutMlxOperation::LockdownStatus => "lockdown_status"@,
        ScoutMlxOperation::DeviceInfo => "device_info"@,
        ScoutMlxOperation::RegistryShow => "registry_show"@,
        ScoutMlxOperation::ConfigQuery => "config_query"@,
        ScoutMlxOperation::ConfigCompare => "config_compare"@,
        ScoutMlxOperation::ConfigSet => "config_set"@,
        ScoutMlxOperation::ConfigSync => "config_sync"@,
        ScoutMlxOperation::FirmwareFlash => "firmware_flash"@,
    }
}

impl ScoutMlxOperation {
    /// The label value of an operation.
    pub fn label_value(self) -> (r: &'static str)
        ensures
            r@ == operation_text(self),
    {
        match self {
            ScoutMlxOperation::DeviceReportPublish => "device_report_publish",
            ScoutMlxOperation::InfoReport => "info_report",
            ScoutMlxOperation::ObservationReport => "observation_report",
            ScoutMlxOperation::Reconciliation => "reconciliation",
            ScoutMlxOperation::ReconciliationLock => "reconciliation_lock",
            ScoutMlxOperation::ReconciliationUnlock => "reconciliation_unlock",
            ScoutMlxOperation::ProfileSync => "profile_sync",
            ScoutMlxOperation::ProfileCompare => "profile_compare",
            ScoutMlxOperation::ProfileApply => "profile_apply",
            ScoutMlxOperation::ProfileReset => "profile_reset",
            ScoutMlxOperation::LockdownLock => "lockdown_lock",
            ScoutMlxOperation::LockdownUnlock => "lockdown_unlock",
            ScoutMlxOperation::LockdownStatus => "lockdown_status",
            ScoutMlxOperation::DeviceInfo => "device_info",
            ScoutMlxOperation::RegistryShow => "registry_show",
            ScoutMlxOperation::ConfigQuery => "config_query",
            ScoutMlxOperation::ConfigCompare => "config_compare",
            ScoutMlxOperation::ConfigSet => "config_set",
            ScoutMlxOperation::ConfigSync => "config_sync",
            ScoutMlxOperation::FirmwareFlash => "firmware_flash",
        }
    }
}

/// Where an operation failed.
#[derive(Clone, Copy, Debug, PartialEq, Eq, Structural)]
pub enum ScoutMlxFailureStage {
    Create,
    Publish,
    Decode,
    Validate,
    Discover,
    Initialize,
    Lookup,
    Execute,
    Serialize,
}

/// The label value of a stage.
pub open spec fn stage_text(value: ScoutMlxFailureStage) -> Seq<char> {
    match value {
        ScoutMlxFailureStage::Create => "create"@,
        ScoutMlxFailureStage::Publish => "publish"@,
        ScoutMlxFailureStage::Decode => "decode"@,
        ScoutMlxFailureStage::Validate => "validate"@,
        ScoutMlxFailureStage::Discover => "discover"@,
        ScoutMlxFailureStage::Initialize => "initialize"@,
        ScoutMlxFailureStage::Lookup => "lookup"@,
        ScoutMlxFailureStage::Execute => "execute"@,
        ScoutMlxFailureStage::Serialize => "serialize"@,
    }
}

impl ScoutMlxFailureStage {
    /// The label value of a stage.
    pub fn label_value(self) -> (r: &'static str)
        ensures
            r@ == stage_text(self),
    {
        match self {
            ScoutMlxFailureStage::Create => "create",
            ScoutMlxFailureStage::Publish => "publish",
            ScoutMlxFailureStage::Decode => "decode",
            ScoutMlxFailureStage::Validate => "validate",
            ScoutMlxFailureStage::Discover => "discover",
            ScoutMlxFailureStage::Initialize => "initialize",
            ScoutMlxFailureStage::Lookup => "lookup",
            ScoutMlxFailureStage::Execute => "execute",
            ScoutMlxFailureStage::Serialize => "serialize",
        }
    }
}

/// The class of a failure.
#[derive(Clone, Copy, Debug, PartialEq, Eq, Structural)]
pub enum ScoutMlxFailureKind {
    InvalidRequest,
    NotFound,
    Backend,
    Serialization,
    Rpc,
}

/// The label value of a class of failures.
pub open spec fn kind_text(value: ScoutMlxFailureKind) -> Seq<char> {
    match value {
        ScoutMlxFailureKind::InvalidRequest => "invalid_request"@,
        ScoutMlxFailureKind::NotFound => "not_found"@,
        ScoutMlxFailureKind::Backend => "backend"@,
        ScoutMlxFailureKind::Serialization => "serialization"@,
        ScoutMlxFailureKind::Rpc => "rpc"@,
    }
}

impl ScoutMlxFailureKind {
    /// The label value of a class of failures.
    pub fn label_value(self) -> (r: &'static str)
        ensures
            r@ == kind_text(self),
    {
        match self {
            ScoutMlxFailureKind::InvalidRequest => "invalid_request",
            ScoutMlxFailureKind::NotFound => "not_found",
            ScoutMlxFailureKind::Backend => "backend",
            ScoutMlxFailureKind::Serialization => "serialization",
            ScoutMlxFailureKind::Rpc => "rpc",
        }
    }
}

/// The class of the failures at a stage.
pub open spec fn kind_of(stage: ScoutMlxFailureStage) -> ScoutMlxFailureKind {
    match stage {
        ScoutMlxFailureStage::Create => ScoutMlxFailureKind::Backend,
        ScoutMlxFailureStage::Publish => ScoutMlxFailureKind::Rpc,
        ScoutMlxFailureStage::Decode => ScoutMlxFailureKind::InvalidRequest,
        ScoutMlxFailureStage::Validate => ScoutMlxFailureKind::InvalidRequest,
        ScoutMlxFailureStage::Discover => ScoutMlxFailureKind::Backend,
        ScoutMlxFailureStage::Initialize => ScoutMlxFailureKind::Backend,
        ScoutMlxFailureStage::Lookup => ScoutMlxFailureKind::NotFound,
        ScoutMlxFailureStage::Execute => ScoutMlxFailureKind::Backend,
        ScoutMlxFailureStage::Serialize => ScoutMlxFailureKind::Serialization,
    }
}

impl ScoutMlxFailureStage {
    /// The class of the failures at this stage.
    pub fn failure_kind(self) -> (r: ScoutMlxFailureKind)
        ensures
            r == kind_of(self),
    {
        match self {
            ScoutMlxFailureStage::Create
            | ScoutMlxFailureStage::Discover
            | ScoutMlxFailureStage::Initialize
            | ScoutMlxFailureStage::Execute => ScoutMlxFailureKind::Backend,
            ScoutMlxFailureStage::Publish => ScoutMlxFailureKind::Rpc,
            ScoutMlxFailureStage::Decode
            | ScoutMlxFailureStage::Validate => ScoutMlxFailureKind::InvalidRequest,
            ScoutMlxFailureStage::Lookup => ScoutMlxFailureKind::NotFound,
            ScoutMlxFailureStage::Serialize => ScoutMlxFailureKind::Serialization,
        }
    }
}

/// A failure: what failed where, and the context of its log record by name.
#[verifier::ext_equal]
pub struct MlxFailureView {
    pub operation: ScoutMlxOperation,
    pub failure_stage: ScoutMlxFailureStage,
    pub failure_kind: ScoutMlxFailureKind,
    pub context: Seq<(Seq<char>, Seq<char>)>,
}

/// The failure of an operation at a stage; its kind follows from the stage.
pub open spec fn mlx_failure(
    operation: ScoutMlxOperation,
    failure_stage: ScoutMlxFailureStage,
    context: Seq<(Seq<char>, Seq<char>)>,
) -> MlxFailureView {
    MlxFailureView { operation, failure_stage, failure_kind: kind_of(failure_stage), context }
}

/// The context of a log record where every field is a text.
pub open spec fn text_fields(context: Seq<(Seq<char>, Seq<char>)>) -> Seq<(Seq<char>, FieldView)> {
    context.map_values(|field: (Seq<char>, Seq<char>)| (field.0, FieldView::Text(field.1)))
}

/// A failure as it is emitted: its labels are operation, stage and the kind that follows from
/// the stage, and nothing of its context is among them.
pub open spec fn mlx_record(
    event_name: Seq<char>,
    log_at: LogAt,
    message: Seq<char>,
    failure: MlxFailureView,
) -> RecordView {
    RecordView {
        event_name,
        metric_name: "carbide_scout_mlx_failures_total"@,
        description: "Number of Scout MLX observation, read, mutation, and recovery failures, by operation, failure stage, and failure kind."@,
        component: "nico-scout"@,
        metric: MetricKind::Counter,
        log_at,
        message,
        labels: seq![
            ("operation"@, operation_text(failure.operation)),
            ("failure_stage"@, stage_text(failure.failure_stage)),
            ("failure_kind"@, kind_text(kind_of(failure.failure_stage))),
        ],
        context: text_fields(failure.context),
    }
}

fn labels_of(
    operation: ScoutMlxOperation,
    failure_stage: ScoutMlxFailureStage,
    failure_kind: ScoutMlxFailureKind,
) -> (r: Vec<(&'static str, &'static str)>)
    ensures
        r@.map_values(|label: (&'static str, &'static str)| (label.0@, label.1@)) == seq![
            ("operation"@, operation_text(operation)),
            ("failure_stage"@, stage_text(failure_stage)),
            ("failure_kind"@, kind_text(failure_kind)),
        ],
{
    let mut labels: Vec<(&'static str, &'static str)> = Vec::new();
    labels.push(("operation", operation.label_value()));
    labels.push(("failure_stage", failure_stage.label_value()));
    labels.push(("failure_kind", failure_kind.label_value()));
    assert(labels@.map_values(|label: (&'static str, &'static str)| (label.0@, label.1@)) =~= seq![
        ("operation"@, operation_text(operation)),
        ("failure_stage"@, stage_text(failure_stage)),
        ("failure_kind"@, kind_text(failure_kind)),
    ]);
    labels
}

/// The text with which such a failure is logged.
pub open spec fn operation_message(operation: ScoutMlxOperation, stage: ScoutMlxFailureStage) -> Seq<char> {
    match (operation, stage) {
        (ScoutMlxOperation::DeviceReportPublish, ScoutMlxFailureStage::Create) =>
            "failed to create PublishMlxDeviceReportRequest"@,
        (ScoutMlxOperation::DeviceReportPublish, ScoutMlxFailureStage::Publish) =>
            "failed to publish PublishMlxDeviceReportRequest"@,
        (ScoutMlxOperation::ObservationReport, ScoutMlxFailureStage::Publish) =>
            "Error from publish_mlx_observation_report"@,
        (ScoutMlxOperation::ProfileCompare, ScoutMlxFailureStage::Decode) =>
            "[scout_stream::mlx_device] failed to parse profile"@,
        (ScoutMlxOperation::ProfileSync, ScoutMlxFailureStage::Decode) =>
            "[scout_stream::mlx_device] failed to parse profile"@,
        (ScoutMlxOperation::ProfileCompare, ScoutMlxFailureStage::Serialize) =>
            "[scout_stream::mlx_device] profile compare result failed to serialize"@,
        (ScoutMlxOperation::ProfileSync, ScoutMlxFailureStage::Serialize) =>
            "[scout_stream::mlx_device] profile sync result failed to serialize"@,
        (ScoutMlxOperation::LockdownLock, ScoutMlxFailureStage::Initialize) =>
            "[scout_stream::mlx_device] lockdown manager initialization failed"@,
        (ScoutMlxOperation::LockdownUnlock, ScoutMlxFailureStage::Initialize) =>
            "[scout_stream::mlx_device] lockdown manager initialization failed"@,
        (ScoutMlxOperation::LockdownStatus, ScoutMlxFailureStage::Initialize) =>
            "[scout_stream::mlx_device] lockdown manager initialization failed"@,
        (ScoutMlxOperation::InfoReport, ScoutMlxFailureStage::Decode) =>
            "[scout_stream::mlx_device] device report request failed to parse filters"@,
        (ScoutMlxOperation::InfoReport, ScoutMlxFailureStage::Execute) =>
            "[scout_stream::mlx_device] device report generation failed"@,
        _ => "Scout MLX operation failed"@,
    }
}

/// How such a failure is logged: a report that could not be published is a warning.
pub open spec fn operation_log_at(
    operation: ScoutMlxOperation,
    stage: ScoutMlxFailureStage,
) -> LogAt {
    if operation == ScoutMlxOperation::DeviceReportPublish && (stage == ScoutMlxFailureStage::Create
        || stage == ScoutMlxFailureStage::Publish) {
        LogAt::Level(Severity::Warn)
    } else {
        LogAt::Level(Severity::Error)
    }
}

/// A failure of which only an error is known.
#[derive(Debug)]
pub struct ScoutMlxOperationFailed {
    operation: ScoutMlxOperation,
    failure_stage: ScoutMlxFailureStage,
    failure_kind: ScoutMlxFailureKind,
    error: String,
}

impl View for ScoutMlxOperationFailed {
    type V = MlxFailureView;

    closed spec fn view(&self) -> MlxFailureView {
        MlxFailureView {
            operation: self.operation,
            failure_stage: self.failure_stage,
            failure_kind: self.failure_kind,
            context: seq![("error"@, self.error@)],
        }
    }
}

impl ScoutMlxOperationFailed {
    #[verifier::type_invariant]
    spec fn kind_follows_from_stage(self) -> bool {
        self.failure_kind == kind_of(self.failure_stage)
    }

    /// The failure of this operation at this stage.
    pub fn new(
        operation: ScoutMlxOperation,
        failure_stage: ScoutMlxFailureStage,
        error: String,
    ) -> (r: Self)
        ensures
            r@ == mlx_failure(operation, failure_stage, seq![("error"@, error@)]),
    {
        ScoutMlxOperationFailed {
            operation,
            failure_stage,
            failure_kind: failure_stage.failure_kind(),
            error,
        }
    }

    /// The failure of `device_report_publish` at stage `create`.
    pub fn device_report_create(error: String) -> (r: Self)
        ensures
            r@ == mlx_failure(
                ScoutMlxOperation::DeviceReportPublish,
                ScoutMlxFailureStage::Create,
                seq![("error"@, error@)],
            ),
    {
        ScoutMlxOperationFailed::new(ScoutMlxOperation::DeviceReportPublish, ScoutMlxFailureStage::Create, error)
    }

    /// The failure of `device_report_publish` at stage `publish`.
    pub fn device_report_publish(error: String) -> (r: Self)
        ensures
            r@ == mlx_failure(
                ScoutMlxOperation::DeviceReportPublish,
                ScoutMlxFailureStage::Publish,
                seq![("error"@, error@)],
            ),
    {
        ScoutMlxOperationFailed::new(ScoutMlxOperation::DeviceReportPublish, ScoutMlxFailureStage::Publish, error)
    }

    /// The failure of `observation_report` at stage `publish`.
    pub fn observation_report_publish(error: String) -> (r: Self)
        ensures
            r@ == mlx_failure(
                ScoutMlxOperation::ObservationReport,
                ScoutMlxFailureStage::Publish,
                seq![("error"@, error@)],
            ),
    {
        ScoutMlxOperationFailed::new(ScoutMlxOperation::ObservationReport, ScoutMlxFailureStage::Publish, error)
    }

    /// The failure of `profile_compare` at stage `decode`.
    pub fn profile_compare_decode(error: String) -> (r: Self)
        ensures
            r@ == mlx_failure(
                ScoutMlxOperation::ProfileCompare,
                ScoutMlxFailureStage::Decode,
                seq![("error"@, error@)],
            ),
    {
        ScoutMlxOperationFailed::new(ScoutMlxOperation::ProfileCompare, ScoutMlxFailureStage::Decode, error)
    }

    /// The failure of `profile_sync` at stage `decode`.
    pub fn profile_sync_decode(error: String) -> (r: Self)
        ensures
            r@ == mlx_failure(
                ScoutMlxOperation::ProfileSync,
                ScoutMlxFailureStage::Decode,
                seq![("error"@, error@)],
            ),
    {
        ScoutMlxOperationFailed::new(ScoutMlxOperation::ProfileSync, ScoutMlxFailureStage::Decode, error)
    }

    /// The failure of `profile_compare` at stage `serialize`.
    pub fn profile_compare_serialize(error: String) -> (r: Self)
        ensures
            r@ == mlx_failure(
                ScoutMlxOperation::ProfileCompare,
                ScoutMlxFailureStage::Serialize,
                seq![("error"@, error@)],
            ),
    {
        ScoutMlxOperationFailed::new(ScoutMlxOperation::ProfileCompare, ScoutMlxFailureStage::Serialize, error)
    }

    /// The failure of `profile_sync` at stage `serialize`.
    pub fn profile_sync_serialize(error: String) -> (r: Self)
        ensures
            r@ == mlx_failure(
                ScoutMlxOperation::ProfileSync,
                ScoutMlxFailureStage::Serialize,
                seq![("error"@, error@)],
            ),
    {
        ScoutMlxOperationFailed::new(ScoutMlxOperation::ProfileSync, ScoutMlxFailureStage::Serialize, error)
    }

    /// The failure of `lockdown_lock` at stage `initialize`.
    pub fn lockdown_lock_initialize(error: String) -> (r: Self)
        ensures
            r@ == mlx_failure(
                ScoutMlxOperation::LockdownLock,
                ScoutMlxFailureStage::Initialize,
                seq![("error"@, error@)],
            ),
    {
        ScoutMlxOperationFailed::new(ScoutMlxOperation::LockdownLock, ScoutMlxFailureStage::Initialize, error)
    }

    /// The failure of `lockdown_unlock` at stage `initialize`.
    pub fn lockdown_unlock_initialize(error: String) -> (r: Self)
        ensures
            r@ == mlx_failure(
                ScoutMlxOperation::LockdownUnlock,
                ScoutMlxFailureStage::Initialize,
                seq![("error"@, error@)],
            ),
    {
        ScoutMlxOperationFailed::new(ScoutMlxOperation::LockdownUnlock, ScoutMlxFailureStage::Initialize, error)
    }

    /// The failure of `lockdown_status` at stage `initialize`.
    pub fn lockdown_status_initialize(error: String) -> (r: Self)
        ensures
            r@ == mlx_failure(
                ScoutMlxOperation::LockdownStatus,
                ScoutMlxFailureStage::Initialize,
                seq![("error"@, error@)],
            ),
    {
        ScoutMlxOperationFailed::new(ScoutMlxOperation::LockdownStatus, ScoutMlxFailureStage::Initialize, error)
    }

    /// The failure of `info_report` at stage `decode`.
    pub fn info_report_decode(error: String) -> (r: Self)
        ensures
            r@ == mlx_failure(
                ScoutMlxOperation::InfoReport,
                ScoutMlxFailureStage::Decode,
                seq![("error"@, error@)],
            ),
    {
        ScoutMlxOperationFailed::new(ScoutMlxOperation::InfoReport, ScoutMlxFailureStage::Decode, error)
    }

    /// The failure of `info_report` at stage `execute`.
    pub fn info_report_execute(error: String) -> (r: Self)
        ensures
            r@ == mlx_failure(
                ScoutMlxOperation::InfoReport,
                ScoutMlxFailureStage::Execute,
                seq![("error"@, error@)],
            ),
    {
        ScoutMlxOperationFailed::new(ScoutMlxOperation::InfoReport, ScoutMlxFailureStage::Execute, error)
    }

    /// How the failure is logged.
    pub fn log_at(&self) -> (r: LogAt)
        ensures
            r == operation_log_at(self@.operation, self@.failure_stage),
    {
        match (self.operation, self.failure_stage) {
            (
                ScoutMlxOperation::DeviceReportPublish,
                ScoutMlxFailureStage::Create | ScoutMlxFailureStage::Publish,
            ) => LogAt::Level(Severity::Warn),
            _ => LogAt::Level(Severity::Error),
        }
    }

    /// The text with which the failure is logged.
    pub fn message(&self) -> (r: &'static str)
        ensures
            r@ == operation_message(self@.operation, self@.failure_stage),
    {
        match (self.operation, self.failure_stage) {
            (ScoutMlxOperation::DeviceReportPublish, ScoutMlxFailureStage::Create) => {
                "failed to create PublishMlxDeviceReportRequest"
            },
            (ScoutMlxOperation::DeviceReportPublish, ScoutMlxFailureStage::Publish) => {
                "failed to publish PublishMlxDeviceReportRequest"
            },
            (ScoutMlxOperation::ObservationReport, ScoutMlxFailureStage::Publish) => {
                "Error from publish_mlx_observation_report"
            },
            (ScoutMlxOperation::ProfileCompare, ScoutMlxFailureStage::Decode) => {
                "[scout_stream::mlx_device] failed to parse profile"
            },
            (ScoutMlxOperation::ProfileSync, ScoutMlxFailureStage::Decode) => {
                "[scout_stream::mlx_device] failed to parse profile"
            },
            (ScoutMlxOperation::ProfileCompare, ScoutMlxFailureStage::Serialize) => {
                "[scout_stream::mlx_device] profile compare result failed to serialize"
            },
            (ScoutMlxOperation::ProfileSync, ScoutMlxFailureStage::Serialize) => {
                "[scout_stream::mlx_device] profile sync result failed to serialize"
            },
            (ScoutMlxOperation::LockdownLock, ScoutMlxFailureStage::Initialize) => {
                "[scout_stream::mlx_device] lockdown manager initialization failed"
            },
            (ScoutMlxOperation::LockdownUnlock, ScoutMlxFailureStage::Initialize) => {
                "[scout_stream::mlx_device] lockdown manager initialization failed"
            },
            (ScoutMlxOperation::LockdownStatus, ScoutMlxFailureStage::Initialize) => {
                "[scout_stream::mlx_device] lockdown manager initialization failed"
            },
            (ScoutMlxOperation::InfoReport, ScoutMlxFailureStage::Decode) => {
                "[scout_stream::mlx_device] device report request failed to parse filters"
            },
            (ScoutMlxOperation::InfoReport, ScoutMlxFailureStage::Execute) => {
                "[scout_stream::mlx_device] device report generation failed"
            },
            _ => "Scout MLX operation failed",
        }
    }

    /// The failure as it is emitted.
    pub fn record(&self) -> (r: EventRecord)
        ensures
            r@ == mlx_record(
                "scout_mlx_operation_failed"@,
                operation_log_at(self@.operation, self@.failure_stage),
                operation_message(self@.operation, self@.failure_stage),
                self@,
            ),
    {
        proof {
            use_type_invariant(self);
        }
        let labels = labels_of(self.operation, self.failure_stage, self.failure_kind);
        let mut context: Vec<(&'static str, FieldValue)> = Vec::new();
        context.push(("error", FieldValue::Text(self.error.clone())));
        let r = EventRecord {
            event_name: "scout_mlx_operation_failed",
            metric_name: "carbide_scout_mlx_failures_total",
            description: "Number of Scout MLX observation, read, mutation, and recovery failures, by operation, failure stage, and failure kind.",
            component: "nico-scout",
            metric: MetricKind::Counter,
            log_at: self.log_at(),
            message: self.message(),
            labels,
            context,
        };
        assert(r@.context =~= text_fields(self@.context));
        r
    }
}

/// The text with which such a failure is logged.
pub open spec fn request_message(operation: ScoutMlxOperation, stage: ScoutMlxFailureStage) -> Seq<char> {
    match (operation, stage) {
        (ScoutMlxOperation::ProfileCompare, _) =>
            "no serializable profile data in message"@,
        (ScoutMlxOperation::ProfileSync, _) =>
            "no serializable profile data in message"@,
        (ScoutMlxOperation::Reconciliation, _) =>
            "handle_mlxreport_action dev_pci_name empty"@,
        _ => "Scout MLX request rejected"@,
    }
}

/// How such a failure is logged: missing profile data is only counted, an empty device name is
/// an error.
pub open spec fn request_log_at(
    operation: ScoutMlxOperation,
    stage: ScoutMlxFailureStage,
) -> LogAt {
    match operation {
        ScoutMlxOperation::ProfileCompare => LogAt::Off,
        ScoutMlxOperation::ProfileSync => LogAt::Off,
        ScoutMlxOperation::Reconciliation => LogAt::Level(Severity::Error),
        _ => LogAt::Level(Severity::Warn),
    }
}

/// A request that was refused before anything else was known of it.
#[derive(Debug)]
pub struct ScoutMlxRequestRejected {
    operation: ScoutMlxOperation,
    failure_stage: ScoutMlxFailureStage,
    failure_kind: ScoutMlxFailureKind,
}

impl View for ScoutMlxRequestRejected {
    type V = MlxFailureView;

    closed spec fn view(&self) -> MlxFailureView {
        MlxFailureView {
            operation: self.operation,
            failure_stage: self.failure_stage,
            failure_kind: self.failure_kind,
            context: seq![],
        }
    }
}

impl ScoutMlxRequestRejected {
    #[verifier::type_invariant]
    spec fn kind_follows_from_stage(self) -> bool {
        self.failure_kind == kind_of(self.failure_stage)
    }

    /// The failure of this operation.
    pub fn new(operation: ScoutMlxOperation) -> (r: Self)
        ensures
            r@ == mlx_failure(operation, ScoutMlxFailureStage::Validate, seq![]),
    {
        let failure_stage = ScoutMlxFailureStage::Validate;
        ScoutMlxRequestRejected {
            operation: operation,
            failure_stage,
            failure_kind: failure_stage.failure_kind(),
        }
    }

    /// The failure of `profile_compare` at stage `validate`.
    pub fn profile_compare() -> (r: Self)
        ensures
            r@ == mlx_failure(
                ScoutMlxOperation::ProfileCompare,
                ScoutMlxFailureStage::Validate,
                seq![],
            ),
    {
        ScoutMlxRequestRejected::new(ScoutMlxOperation::ProfileCompare)
    }

    /// The failure of `profile_sync` at stage `validate`.
    pub fn profile_sync() -> (r: Self)
        ensures
            r@ == mlx_failure(
                ScoutMlxOperation::ProfileSync,
                ScoutMlxFailureStage::Validate,
                seq![],
            ),
    {
        ScoutMlxRequestRejected::new(ScoutMlxOperation::ProfileSync)
    }

    /// The failure of `reconciliation` at stage `validate`.
    pub fn reconciliation() -> (r: Self)
        ensures
            r@ == mlx_failure(
                ScoutMlxOperation::Reconciliation,
                ScoutMlxFailureStage::Validate,
                seq![],
            ),
    {
        ScoutMlxRequestRejected::new(ScoutMlxOperation::Reconciliation)
    }

    /// How the failure is logged.
    pub fn log_at(&self) -> (r: LogAt)
        ensures
            r == request_log_at(self@.operation, self@.failure_stage),
    {
        match self.operation {
            ScoutMlxOperation::ProfileCompare | ScoutMlxOperation::ProfileSync => LogAt::Off,
            ScoutMlxOperation::Reconciliation => LogAt::Level(Severity::Error),
            _ => LogAt::Level(Severity::Warn),
        }
    }

    /// The text with which the failure is logged.
    pub fn message(&self) -> (r: &'static str)
        ensures
            r@ == request_message(self@.operation, self@.failure_stage),
    {
        match (self.operation, self.failure_stage) {
            (ScoutMlxOperation::ProfileCompare, _) => {
                "no serializable profile data in message"
            },
            (ScoutMlxOperation::ProfileSync, _) => {
                "no serializable profile data in message"
            },
            (ScoutMlxOperation::Reconciliation, _) => {
                "handle_mlxreport_action dev_pci_name empty"
            },
            _ => "Scout MLX request rejected",
        }
    }

    /// The failure as it is emitted.
    pub fn record(&self) -> (r: EventRecord)
        ensures
            r@ == mlx_record(
                "scout_mlx_request_rejected"@,
                request_log_at(self@.operation, self@.failure_stage),
                request_message(self@.operation, self@.failure_stage),
                self@,
            ),
    {
        proof {
            use_type_invariant(self);
        }
        let labels = labels_of(self.operation, self.failure_stage, self.failure_kind);
        let context: Vec<(&'static str, FieldValue)> = Vec::new();
        let r = EventRecord {
            event_name: "scout_mlx_request_rejected",
            metric_name: "carbide_scout_mlx_failures_total",
            description: "Number of Scout MLX observation, read, mutation, and recovery failures, by operation, failure stage, and failure kind.",
            component: "nico-scout",
            metric: MetricKind::Counter,
            log_at: self.log_at(),
            message: self.message(),
            labels,
            context,
        };
        assert(r@.context =~= text_fields(self@.context));
        r
    }
}

/// The text with which such a failure is logged.
pub open spec fn device_message(operation: ScoutMlxOperation, stage: ScoutMlxFailureStage) -> Seq<char> {
    match (operation, stage) {
        (ScoutMlxOperation::LockdownStatus, ScoutMlxFailureStage::Execute) =>
            "[scout_stream::mlx_device] lockdown status check failed"@,
        (ScoutMlxOperation::LockdownLock, ScoutMlxFailureStage::Execute) =>
            "[scout_stream::mlx_device] lockdown lock failed"@,
        (ScoutMlxOperation::LockdownUnlock, ScoutMlxFailureStage::Execute) =>
            "[scout_stream::mlx_device] lockdown unlock failed"@,
        (ScoutMlxOperation::DeviceInfo, ScoutMlxFailureStage::Discover) =>
            "[scout_stream::mlx_device] device info request failed"@,
        _ => "[scout_stream::mlx_device] device operation failed"@,
    }
}

/// An operation on a device failed.
#[derive(Debug)]
pub struct ScoutMlxDeviceOperationFailed {
    operation: ScoutMlxOperation,
    failure_stage: ScoutMlxFailureStage,
    failure_kind: ScoutMlxFailureKind,
    device_id: String,
    error: String,
}

impl View for ScoutMlxDeviceOperationFailed {
    type V = MlxFailureView;

    closed spec fn view(&self) -> MlxFailureView {
        MlxFailureView {
            operation: self.operation,
            failure_stage: self.failure_stage,
            failure_kind: self.failure_kind,
            context: seq![("device_id"@, self.device_id@), ("error"@, self.error@)],
        }
    }
}

impl ScoutMlxDeviceOperationFailed {
    #[verifier::type_invariant]
    spec fn kind_follows_from_stage(self) -> bool {
        self.failure_kind == kind_of(self.failure_stage)
    }

    /// The failure of this operation at this stage.
    pub fn new(
        operation: ScoutMlxOperation,
        failure_stage: ScoutMlxFailureStage,
        device_id: String,
        error: String,
    ) -> (r: Self)
        ensures
            r@ == mlx_failure(operation, failure_stage, seq![("device_id"@, device_id@), ("error"@, error@)]),
    {
        ScoutMlxDeviceOperationFailed {
            operation,
            failure_stage,
            failure_kind: failure_stage.failure_kind(),
            device_id,
            error,
        }
    }

    /// The failure of `lockdown_status` at stage `execute`.
    pub fn lockdown_status_execute(device_id: String, error: String) -> (r: Self)
        ensures
            r@ == mlx_failure(
                ScoutMlxOperation::LockdownStatus,
                ScoutMlxFailureStage::Execute,
                seq![("device_id"@, device_id@), ("error"@, error@)],
            ),
    {
        ScoutMlxDeviceOperationFailed::new(ScoutMlxOperation::LockdownStatus, ScoutMlxFailureStage::Execute, device_id, error)
    }

    /// The failure of `lockdown_lock` at stage `execute`.
    pub fn lockdown_lock_execute(device_id: String, error: String) -> (r: Self)
        ensures
            r@ == mlx_failure(
                ScoutMlxOperation::LockdownLock,
                ScoutMlxFailureStage::Execute,
                seq![("device_id"@, device_id@), ("error"@, error@)],
            ),
    {
        ScoutMlxDeviceOperationFailed::new(ScoutMlxOperation::LockdownLock, ScoutMlxFailureStage::Execute, device_id, error)
    }

    /// The failure of `lockdown_unlock` at stage `execute`.
    pub fn lockdown_unlock_execute(device_id: String, error: String) -> (r: Self)
        ensures
            r@ == mlx_failure(
                ScoutMlxOperation::LockdownUnlock,
                ScoutMlxFailureStage::Execute,
                seq![("device_id"@, device_id@), ("error"@, error@)],
            ),
    {
        ScoutMlxDeviceOperationFailed::new(ScoutMlxOperation::LockdownUnlock, ScoutMlxFailureStage::Execute, device_id, error)
    }

    /// The failure of `device_info` at stage `discover`.
    pub fn device_info_discover(device_id: String, error: String) -> (r: Self)
        ensures
            r@ == mlx_failure(
                ScoutMlxOperation::DeviceInfo,
                ScoutMlxFailureStage::Discover,
                seq![("device_id"@, device_id@), ("error"@, error@)],
            ),
    {
        ScoutMlxDeviceOperationFailed::new(ScoutMlxOperation::DeviceInfo, ScoutMlxFailureStage::Discover, device_id, error)
    }

    /// The text with which the failure is logged.
    pub fn message(&self) -> (r: &'static str)
        ensures
            r@ == device_message(self@.operation, self@.failure_stage),
    {
        match (self.operation, self.failure_stage) {
            (ScoutMlxOperation::LockdownStatus, ScoutMlxFailureStage::Execute) => {
                "[scout_stream::mlx_device] lockdown status check failed"
            },
            (ScoutMlxOperation::LockdownLock, ScoutMlxFailureStage::Execute) => {
                "[scout_stream::mlx_device] lockdown lock failed"
            },
            (ScoutMlxOperation::LockdownUnlock, ScoutMlxFailureStage::Execute) => {
                "[scout_stream::mlx_device] lockdown unlock failed"
            },
            (ScoutMlxOperation::DeviceInfo, ScoutMlxFailureStage::Discover) => {
                "[scout_stream::mlx_device] device info request failed"
            },
            _ => "[scout_stream::mlx_device] device operation failed",
        }
    }

    /// The failure as it is emitted.
    pub fn record(&self) -> (r: EventRecord)
        ensures
            r@ == mlx_record(
                "scout_mlx_device_operation_failed"@,
                LogAt::Level(Severity::Error),
                device_message(self@.operation, self@.failure_stage),
                self@,
            ),
    {
        proof {
            use_type_invariant(self);
        }
        let labels = labels_of(self.operation, self.failure_stage, self.failure_kind);
        let mut context: Vec<(&'static str, FieldValue)> = Vec::new();
        context.push(("device_id", FieldValue::Text(self.device_id.clone())));
        context.push(("error", FieldValue::Text(self.error.clone())));
        let r = EventRecord {
            event_name: "scout_mlx_device_operation_failed",
            metric_name: "carbide_scout_mlx_failures_total",
            description: "Number of Scout MLX observation, read, mutation, and recovery failures, by operation, failure stage, and failure kind.",
            component: "nico-scout",
            metric: MetricKind::Counter,
            log_at: LogAt::Level(Severity::Error),
            message: self.message(),
            labels,
            context,
        };
        assert(r@.context =~= text_fields(self@.context));
        r
    }
}

/// The text with which such a failure is logged.
pub open spec fn profile_message(operation: ScoutMlxOperation, stage: ScoutMlxFailureStage) -> Seq<char> {
    match (operation, stage) {
        (ScoutMlxOperation::ProfileCompare, _) =>
            "[scout_stream::mlx_device] profile compare against device failed"@,
        (ScoutMlxOperation::ProfileSync, _) =>
            "[scout_stream::mlx_device] profile sync to device failed"@,
        _ => "[scout_stream::mlx_device] profile operation failed"@,
    }
}

/// An operation with a profile on a device failed.
#[derive(Debug)]
pub struct ScoutMlxProfileOperationFailed {
    operation: ScoutMlxOperation,
    failure_stage: ScoutMlxFailureStage,
    failure_kind: ScoutMlxFailureKind,
    device_id: String,
    profile_name: String,
    error: String,
}

impl View for ScoutMlxProfileOperationFailed {
    type V = MlxFailureView;

    closed spec fn view(&self) -> MlxFailureView {
        MlxFailureView {
            operation: self.operation,
            failure_stage: self.failure_stage,
            failure_kind: self.failure_kind,
            context: seq![("device_id"@, self.device_id@), ("profile_name"@, self.profile_name@), ("error"@, self.error@)],
        }
    }
}

impl ScoutMlxProfileOperationFailed {
    #[verifier::type_invariant]
    spec fn kind_follows_from_stage(self) -> bool {
        self.failure_kind == kind_of(self.failure_stage)
    }

    /// The failure of `profile_compare` at stage `execute`.
    pub fn profile_compare_execute(device_id: String, profile_name: String, error: String) -> (r: Self)
        ensures
            r@ == mlx_failure(
                ScoutMlxOperation::ProfileCompare,
                ScoutMlxFailureStage::Execute,
                seq![("device_id"@, device_id@), ("profile_name"@, profile_name@), ("error"@, error@)],
            ),
    {
        let failure_stage = ScoutMlxFailureStage::Execute;
        ScoutMlxProfileOperationFailed {
            operation: ScoutMlxOperation::ProfileCompare,
            failure_stage,
            failure_kind: failure_stage.failure_kind(),
            device_id,
            profile_name,
            error,
        }
    }

    /// The failure of `profile_sync` at stage `execute`.
    pub fn profile_sync_execute(device_id: String, profile_name: String, error: String) -> (r: Self)
        ensures
            r@ == mlx_failure(
                ScoutMlxOperation::ProfileSync,
                ScoutMlxFailureStage::Execute,
                seq![("device_id"@, device_id@), ("profile_name"@, profile_name@), ("error"@, error@)],
            ),
    {
        let failure_stage = ScoutMlxFailureStage::Execute;
        ScoutMlxProfileOperationFailed {
            operation: ScoutMlxOperation::ProfileSync,
            failure_stage,
            failure_kind: failure_stage.failure_kind(),
            device_id,
            profile_name,
            error,
        }
    }

    /// The text with which the failure is logged.
    pub fn message(&self) -> (r: &'static str)
        ensures
            r@ == profile_message(self@.operation, self@.failure_stage),
    {
        match (self.operation, self.failure_stage) {
            (ScoutMlxOperation::ProfileCompare, _) => {
                "[scout_stream::mlx_device] profile compare against device failed"
            },
            (ScoutMlxOperation::ProfileSync, _) => {
                "[scout_stream::mlx_device] profile sync to device failed"
            },
            _ => "[scout_stream::mlx_device] profile operation failed",
        }
    }

    /// The failure as it is emitted.
    pub fn record(&self) -> (r: EventRecord)
        ensures
            r@ == mlx_record(
                "scout_mlx_profile_operation_failed"@,
                LogAt::Level(Severity::Error),
                profile_message(self@.operation, self@.failure_stage),
                self@,
            ),
    {
        proof {
            use_type_invariant(self);
        }
        let labels = labels_of(self.operation, self.failure_stage, self.failure_kind);
        let mut context: Vec<(&'static str, FieldValue)> = Vec::new();
        context.push(("device_id", FieldValue::Text(self.device_id.clone())));
        context.push(("profile_name", FieldValue::Text(self.profile_name.clone())));
        context.push(("error", FieldValue::Text(self.error.clone())));
        let r = EventRecord {
            event_name: "scout_mlx_profile_operation_failed",
            metric_name: "carbide_scout_mlx_failures_total",
            description: "Number of Scout MLX observation, read, mutation, and recovery failures, by operation, failure stage, and failure kind.",
            component: "nico-scout",
            metric: MetricKind::Counter,
            log_at: LogAt::Level(Severity::Error),
            message: self.message(),
            labels,
            context,
        };
        assert(r@.context =~= text_fields(self@.context));
        r
    }
}

/// A request named a registry that is not known.
#[derive(Debug)]
pub struct ScoutMlxRegistryLookupFailed {
    operation: ScoutMlxOperation,
    failure_stage: ScoutMlxFailureStage,
    failure_kind: ScoutMlxFailureKind,
    registry_name: String,
}

impl View for ScoutMlxRegistryLookupFailed {
    type V = MlxFailureView;

    closed spec fn view(&self) -> MlxFailureView {
        MlxFailureView {
            operation: self.operation,
            failure_stage: self.failure_stage,
            failure_kind: self.failure_kind,
            context: seq![("registry_name"@, self.registry_name@)],
        }
    }
}

impl ScoutMlxRegistryLookupFailed {
    #[verifier::type_invariant]
    spec fn kind_follows_from_stage(self) -> bool {
        self.failure_kind == kind_of(self.failure_stage)
    }

    /// The failure of `registry_show` at stage `lookup`.
    pub fn registry_show_lookup(registry_name: String) -> (r: Self)
        ensures
            r@ == mlx_failure(
                ScoutMlxOperation::RegistryShow,
                ScoutMlxFailureStage::Lookup,
                seq![("registry_name"@, registry_name@)],
            ),
    {
        let failure_stage = ScoutMlxFailureStage::Lookup;
        ScoutMlxRegistryLookupFailed {
            operation: ScoutMlxOperation::RegistryShow,
            failure_stage,
            failure_kind: failure_stage.failure_kind(),
            registry_name,
        }
    }

    /// The failure as it is emitted.
    pub fn record(&self) -> (r: EventRecord)
        ensures
            r@ == mlx_record(
                "scout_mlx_registry_lookup_failed"@,
                LogAt::Level(Severity::Error),
                "[scout_stream::mlx_device] variable registry not found"@,
                self@,
            ),
    {
        proof {
            use_type_invariant(self);
        }
        let labels = labels_of(self.operation, self.failure_stage, self.failure_kind);
        let mut context: Vec<(&'static str, FieldValue)> = Vec::new();
        context.push(("registry_name", FieldValue::Text(self.registry_name.clone())));
        let r = EventRecord {
            event_name: "scout_mlx_registry_lookup_failed",
            metric_name: "carbide_scout_mlx_failures_total",
            description: "Number of Scout MLX observation, read, mutation, and recovery failures, by operation, failure stage, and failure kind.",
            component: "nico-scout",
            metric: MetricKind::Counter,
            log_at: LogAt::Level(Severity::Error),
            message: "[scout_stream::mlx_device] variable registry not found",
            labels,
            context,
        };
        assert(r@.context =~= text_fields(self@.context));
        r
    }
}

/// A request about a device's configuration named a registry that is not known.
#[derive(Debug)]
pub struct ScoutMlxConfigRegistryLookupFailed {
    operation: ScoutMlxOperation,
    failure_stage: ScoutMlxFailureStage,
    failure_kind: ScoutMlxFailureKind,
    device_id: String,
    registry_name: String,
}

impl View for ScoutMlxConfigRegistryLookupFailed {
    type V = MlxFailureView;

    closed spec fn view(&self) -> MlxFailureView {
        MlxFailureView {
            operation: self.operation,
            failure_stage: self.failure_stage,
            failure_kind: self.failure_kind,
            context: seq![("device_id"@, self.device_id@), ("registry_name"@, self.registry_name@)],
        }
    }
}

impl ScoutMlxConfigRegistryLookupFailed {
    #[verifier::type_invariant]
    spec fn kind_follows_from_stage(self) -> bool {
        self.failure_kind == kind_of(self.failure_stage)
    }

    /// The failure of this operation.
    pub fn new(operation: ScoutMlxOperation, device_id: String, registry_name: String) -> (r: Self)
        ensures
            r@ == mlx_failure(operation, ScoutMlxFailureStage::Lookup, seq![("device_id"@, device_id@), ("registry_name"@, registry_name@)]),
    {
        let failure_stage = ScoutMlxFailureStage::Lookup;
        ScoutMlxConfigRegistryLookupFailed {
            operation: operation,
            failure_stage,
            failure_kind: failure_stage.failure_kind(),
            device_id,
            registry_name,
        }
    }

    /// The failure of `config_query` at stage `lookup`.
    pub fn config_query_lookup(device_id: String, registry_name: String) -> (r: Self)
        ensures
            r@ == mlx_failure(
                ScoutMlxOperation::ConfigQuery,
                ScoutMlxFailureStage::Lookup,
                seq![("device_id"@, device_id@), ("registry_name"@, registry_name@)],
            ),
    {
        ScoutMlxConfigRegistryLookupFailed::new(ScoutMlxOperation::ConfigQuery, device_id, registry_name)
    }

    /// The failure of `config_compare` at stage `lookup`.
    pub fn config_compare_lookup(device_id: String, registry_name: String) -> (r: Self)
        ensures
            r@ == mlx_failure(
                ScoutMlxOperation::ConfigCompare,
                ScoutMlxFailureStage::Lookup,
                seq![("device_id"@, device_id@), ("registry_name"@, registry_name@)],
            ),
    {
        ScoutMlxConfigRegistryLookupFailed::new(ScoutMlxOperation::ConfigCompare, device_id, registry_name)
    }

    /// The failure of `config_set` at stage `lookup`.
    pub fn config_set_lookup(device_id: String, registry_name: String) -> (r: Self)
        ensures
            r@ == mlx_failure(
                ScoutMlxOperation::ConfigSet,
                ScoutMlxFailureStage::Lookup,
                seq![("device_id"@, device_id@), ("registry_name"@, registry_name@)],
            ),
    {
        ScoutMlxConfigRegistryLookupFailed::new(ScoutMlxOperation::ConfigSet, device_id, registry_name)
    }

    /// The failure of `config_sync` at stage `lookup`.
    pub fn config_sync_lookup(device_id: String, registry_name: String) -> (r: Self)
        ensures
            r@ == mlx_failure(
                ScoutMlxOperation::ConfigSync,
                ScoutMlxFailureStage::Lookup,
                seq![("device_id"@, device_id@), ("registry_name"@, registry_name@)],
            ),
    {
        ScoutMlxConfigRegistryLookupFailed::new(ScoutMlxOperation::ConfigSync, device_id, registry_name)
    }

    /// The failure as it is emitted.
    pub fn record(&self) -> (r: EventRecord)
        ensures
            r@ == mlx_record(
                "scout_mlx_config_registry_lookup_failed"@,
                LogAt::Level(Severity::Warn),
                "[scout_stream::mlx_device] config registry not found"@,
                self@,
            ),
    {
        proof {
            use_type_invariant(self);
        }
        let labels = labels_of(self.operation, self.failure_stage, self.failure_kind);
        let mut context: Vec<(&'static str, FieldValue)> = Vec::new();
        context.push(("device_id", FieldValue::Text(self.device_id.clone())));
        context.push(("registry_name", FieldValue::Text(self.registry_name.clone())));
        let r = EventRecord {
            event_name: "scout_mlx_config_registry_lookup_failed",
            metric_name: "carbide_scout_mlx_failures_total",
            description: "Number of Scout MLX observation, read, mutation, and recovery failures, by operation, failure stage, and failure kind.",
            component: "nico-scout",
            metric: MetricKind::Counter,
            log_at: LogAt::Level(Severity::Warn),
            message: "[scout_stream::mlx_device] config registry not found",
            labels,
            context,
        };
        assert(r@.context =~= text_fields(self@.context));
        r
    }
}

/// The text with which such a failure is logged.
pub open spec fn config_message(operation: ScoutMlxOperation, stage: ScoutMlxFailureStage) -> Seq<char> {
    match (operation, stage) {
        (ScoutMlxOperation::ConfigQuery, ScoutMlxFailureStage::Serialize) =>
            "[scout_stream::mlx_device] config query result failed to serialize"@,
        (ScoutMlxOperation::ConfigQuery, ScoutMlxFailureStage::Execute) =>
            "[scout_stream::mlx_device] config query against device failed"@,
        (ScoutMlxOperation::ConfigCompare, ScoutMlxFailureStage::Serialize) =>
            "[scout_stream::mlx_device] config compare result failed to serialize"@,
        (ScoutMlxOperation::ConfigCompare, ScoutMlxFailureStage::Execute) =>
            "[scout_stream::mlx_device] config compare against device failed"@,
        (ScoutMlxOperation::ConfigSet, ScoutMlxFailureStage::Execute) =>
            "[scout_stream::mlx_device] config set to device failed"@,
        (ScoutMlxOperation::ConfigSync, ScoutMlxFailureStage::Serialize) =>
            "[scout_stream::mlx_device] config sync result failed to serialize"@,
        (ScoutMlxOperation::ConfigSync, ScoutMlxFailureStage::Execute) =>
            "[scout_stream::mlx_device] config sync to device failed"@,
        _ => "[scout_stream::mlx_device] config operation failed"@,
    }
}

/// An operation on a device's configuration failed.
#[derive(Debug)]
pub struct ScoutMlxConfigOperationFailed {
    operation: ScoutMlxOperation,
    failure_stage: ScoutMlxFailureStage,
    failure_kind: ScoutMlxFailureKind,
    device_id: String,
    registry_name: String,
    error: String,
}

impl View for ScoutMlxConfigOperationFailed {
    type V = MlxFailureView;

    closed spec fn view(&self) -> MlxFailureView {
        MlxFailureView {
            operation: self.operation,
            failure_stage: self.failure_stage,
            failure_kind: self.failure_kind,
            context: seq![("device_id"@, self.device_id@), ("registry_name"@, self.registry_name@), ("error"@, self.error@)],
        }
    }
}

impl ScoutMlxConfigOperationFailed {
    #[verifier::type_invariant]
    spec fn kind_follows_from_stage(self) -> bool {
        self.failure_kind == kind_of(self.failure_stage)
    }

    /// The failure of this operation at this stage.
    pub fn new(
        operation: ScoutMlxOperation,
        failure_stage: ScoutMlxFailureStage,
        device_id: String,
        registry_name: String,
        error: String,
    ) -> (r: Self)
        ensures
            r@ == mlx_failure(operation, failure_stage, seq![("device_id"@, device_id@), ("registry_name"@, registry_name@), ("error"@, error@)]),
    {
        ScoutMlxConfigOperationFailed {
            operation,
            failure_stage,
            failure_kind: failure_stage.failure_kind(),
            device_id,
            registry_name,
            error,
        }
    }

    /// The failure of `config_query` at stage `serialize`.
    pub fn config_query_serialize(device_id: String, registry_name: String, error: String) -> (r: Self)
        ensures
            r@ == mlx_failure(
                ScoutMlxOperation::ConfigQuery,
                ScoutMlxFailureStage::Serialize,
                seq![("device_id"@, device_id@), ("registry_name"@, registry_name@), ("error"@, error@)],
            ),
    {
        ScoutMlxConfigOperationFailed::new(ScoutMlxOperation::ConfigQuery, ScoutMlxFailureStage::Serialize, device_id, registry_name, error)
    }

    /// The failure of `config_query` at stage `execute`.
    pub fn config_query_execute(device_id: String, registry_name: String, error: String) -> (r: Self)
        ensures
            r@ == mlx_failure(
                ScoutMlxOperation::ConfigQuery,
                ScoutMlxFailureStage::Execute,
                seq![("device_id"@, device_id@), ("registry_name"@, registry_name@), ("error"@, error@)],
            ),
    {
        ScoutMlxConfigOperationFailed::new(ScoutMlxOperation::ConfigQuery, ScoutMlxFailureStage::Execute, device_id, registry_name, error)
    }

    /// The failure of `config_compare` at stage `serialize`.
    pub fn config_compare_serialize(device_id: String, registry_name: String, error: String) -> (r: Self)
        ensures
            r@ == mlx_failure(
                ScoutMlxOperation::ConfigCompare,
                ScoutMlxFailureStage::Serialize,
                seq![("device_id"@, device_id@), ("registry_name"@, registry_name@), ("error"@, error@)],
            ),
    {
        ScoutMlxConfigOperationFailed::new(ScoutMlxOperation::ConfigCompare, ScoutMlxFailureStage::Serialize, device_id, registry_name, error)
    }

    /// The failure of `config_compare` at stage `execute`.
    pub fn config_compare_execute(device_id: String, registry_name: String, error: String) -> (r: Self)
        ensures
            r@ == mlx_failure(
                ScoutMlxOperation::ConfigCompare,
                ScoutMlxFailureStage::Execute,
                seq![("device_id"@, device_id@), ("registry_name"@, registry_name@), ("error"@, error@)],
            ),
    {
        ScoutMlxConfigOperationFailed::new(ScoutMlxOperation::ConfigCompare, ScoutMlxFailureStage::Execute, device_id, registry_name, error)
    }

    /// The failure of `config_set` at stage `execute`.
    pub fn config_set_execute(device_id: String, registry_name: String, error: String) -> (r: Self)
        ensures
            r@ == mlx_failure(
                ScoutMlxOperation::ConfigSet,
                ScoutMlxFailureStage::Execute,
                seq![("device_id"@, device_id@), ("registry_name"@, registry_name@), ("error"@, error@)],
            ),
    {
        ScoutMlxConfigOperationFailed::new(ScoutMlxOperation::ConfigSet, ScoutMlxFailureStage::Execute, device_id, registry_name, error)
    }

    /// The failure of `config_sync` at stage `serialize`.
    pub fn config_sync_serialize(device_id: String, registry_name: String, error: String) -> (r: Self)
        ensures
            r@ == mlx_failure(
                ScoutMlxOperation::ConfigSync,
                ScoutMlxFailureStage::Serialize,
                seq![("device_id"@, device_id@), ("registry_name"@, registry_name@), ("error"@, error@)],
            ),
    {
        ScoutMlxConfigOperationFailed::new(ScoutMlxOperation::ConfigSync, ScoutMlxFailureStage::Serialize, device_id, registry_name, error)
    }

    /// The failure of `config_sync` at stage `execute`.
    pub fn config_sync_execute(device_id: String, registry_name: String, error: String) -> (r: Self)
        ensures
            r@ == mlx_failure(
                ScoutMlxOperation::ConfigSync,
                ScoutMlxFailureStage::Execute,
                seq![("device_id"@, device_id@), ("registry_name"@, registry_name@), ("error"@, error@)],
            ),
    {
        ScoutMlxConfigOperationFailed::new(ScoutMlxOperation::ConfigSync, ScoutMlxFailureStage::Execute, device_id, registry_name, error)
    }

    /// The text with which the failure is logged.
    pub fn message(&self) -> (r: &'static str)
        ensures
            r@ == config_message(self@.operation, self@.failure_stage),
    {
        match (self.operation, self.failure_stage) {
            (ScoutMlxOperation::ConfigQuery, ScoutMlxFailureStage::Serialize) => {
                "[scout_stream::mlx_device] config query result failed to serialize"
            },
            (ScoutMlxOperation::ConfigQuery, ScoutMlxFailureStage::Execute) => {
                "[scout_stream::mlx_device] config query against device failed"
            },
            (ScoutMlxOperation::ConfigCompare, ScoutMlxFailureStage::Serialize) => {
                "[scout_stream::mlx_device] config compare result failed to serialize"
            },
            (ScoutMlxOperation::ConfigCompare, ScoutMlxFailureStage::Execute) => {
                "[scout_stream::mlx_device] config compare against device failed"
            },
            (ScoutMlxOperation::ConfigSet, ScoutMlxFailureStage::Execute) => {
                "[scout_stream::mlx_device] config set to device failed"
            },
            (ScoutMlxOperation::ConfigSync, ScoutMlxFailureStage::Serialize) => {
                "[scout_stream::mlx_device] config sync result failed to serialize"
            },
            (ScoutMlxOperation::ConfigSync, ScoutMlxFailureStage::Execute) => {
                "[scout_stream::mlx_device] config sync to device failed"
            },
            _ => "[scout_stream::mlx_device] config operation failed",
        }
    }

    /// The failure as it is emitted.
    pub fn record(&self) -> (r: EventRecord)
        ensures
            r@ == mlx_record(
                "scout_mlx_config_operation_failed"@,
                LogAt::Level(Severity::Error),
                config_message(self@.operation, self@.failure_stage),
                self@,
            ),
    {
        proof {
            use_type_invariant(self);
        }
        let labels = labels_of(self.operation, self.failure_stage, self.failure_kind);
        let mut context: Vec<(&'static str, FieldValue)> = Vec::new();
        context.push(("device_id", FieldValue::Text(self.device_id.clone())));
        context.push(("registry_name", FieldValue::Text(self.registry_name.clone())));
        context.push(("error", FieldValue::Text(self.error.clone())));
        let r = EventRecord {
            event_name: "scout_mlx_config_operation_failed",
            metric_name: "carbide_scout_mlx_failures_total",
            description: "Number of Scout MLX observation, read, mutation, and recovery failures, by operation, failure stage, and failure kind.",
            component: "nico-scout",
            metric: MetricKind::Counter,
            log_at: LogAt::Level(Severity::Error),
            message: self.message(),
            labels,
            context,
        };
        assert(r@.context =~= text_fields(self@.context));
        r
    }
}

/// A device's configuration could not be reset to its defaults.
#[derive(Debug)]
pub struct ScoutMlxProfileResetFailed {
    operation: ScoutMlxOperation,
    failure_stage: ScoutMlxFailureStage,
    failure_kind: ScoutMlxFailureKind,
    device: String,
    error: String,
}

impl View for ScoutMlxProfileResetFailed {
    type V = MlxFailureView;

    closed spec fn view(&self) -> MlxFailureView {
        MlxFailureView {
            operation: self.operation,
            failure_stage: self.failure_stage,
            failure_kind: self.failure_kind,
            context: seq![("device"@, self.device@), ("error"@, self.error@)],
        }
    }
}

impl ScoutMlxProfileResetFailed {
    #[verifier::type_invariant]
    spec fn kind_follows_from_stage(self) -> bool {
        self.failure_kind == kind_of(self.failure_stage)
    }

    /// The failure of `profile_reset` at stage `execute`.
    pub fn execute(device: String, error: String) -> (r: Self)
        ensures
            r@ == mlx_failure(
                ScoutMlxOperation::ProfileReset,
                ScoutMlxFailureStage::Execute,
                seq![("device"@, device@), ("error"@, error@)],
            ),
    {
        let failure_stage = ScoutMlxFailureStage::Execute;
        ScoutMlxProfileResetFailed {
            operation: ScoutMlxOperation::ProfileReset,
            failure_stage,
            failure_kind: failure_stage.failure_kind(),
            device,
            error,
        }
    }

    /// The failure as it is emitted.
    pub fn record(&self) -> (r: EventRecord)
        ensures
            r@ == mlx_record(
                "scout_mlx_profile_reset_failed"@,
                LogAt::Level(Severity::Error),
                "mlxconfig reset failed"@,
                self@,
            ),
    {
        proof {
            use_type_invariant(self);
        }
        let labels = labels_of(self.operation, self.failure_stage, self.failure_kind);
        let mut context: Vec<(&'static str, FieldValue)> = Vec::new();
        context.push(("device", FieldValue::Text(self.device.clone())));
        context.push(("error", FieldValue::Text(self.error.clone())));
        let r = EventRecord {
            event_name: "scout_mlx_profile_reset_failed",
            metric_name: "carbide_scout_mlx_failures_total",
            description: "Number of Scout MLX observation, read, mutation, and recovery failures, by operation, failure stage, and failure kind.",
            component: "nico-scout",
            metric: MetricKind::Counter,
            log_at: LogAt::Level(Severity::Error),
            message: "mlxconfig reset failed",
            labels,
            context,
        };
        assert(r@.context =~= text_fields(self@.context));
        r
    }
}

/// A tenant's profile could not be applied after the reset of its device.
#[derive(Debug)]
pub struct ScoutMlxProfileApplyFailed {
    operation: ScoutMlxOperation,
    failure_stage: ScoutMlxFailureStage,
    failure_kind: ScoutMlxFailureKind,
    device: String,
    profile: String,
    error: String,
}

impl View for ScoutMlxProfileApplyFailed {
    type V = MlxFailureView;

    closed spec fn view(&self) -> MlxFailureView {
        MlxFailureView {
            operation: self.operation,
            failure_stage: self.failure_stage,
            failure_kind: self.failure_kind,
            context: seq![("device"@, self.device@), ("profile"@, self.profile@), ("error"@, self.error@)],
        }
    }
}

impl ScoutMlxProfileApplyFailed {
    #[verifier::type_invariant]
    spec fn kind_follows_from_stage(self) -> bool {
        self.failure_kind == kind_of(self.failure_stage)
    }

    /// The failure of `profile_apply` at stage `execute`.
    pub fn execute(device: String, profile: String, error: String) -> (r: Self)
        ensures
            r@ == mlx_failure(
                ScoutMlxOperation::ProfileApply,
                ScoutMlxFailureStage::Execute,
                seq![("device"@, device@), ("profile"@, profile@), ("error"@, error@)],
            ),
    {
        let failure_stage = ScoutMlxFailureStage::Execute;
        ScoutMlxProfileApplyFailed {
            operation: ScoutMlxOperation::ProfileApply,
            failure_stage,
            failure_kind: failure_stage.failure_kind(),
            device,
            profile,
            error,
        }
    }

    /// The failure as it is emitted.
    pub fn record(&self) -> (r: EventRecord)
        ensures
            r@ == mlx_record(
                "scout_mlx_profile_apply_failed"@,
                LogAt::Level(Severity::Error),
                "mlxconfig profile sync failed"@,
                self@,
            ),
    {
        proof {
            use_type_invariant(self);
        }
        let labels = labels_of(self.operation, self.failure_stage, self.failure_kind);
        let mut context: Vec<(&'static str, FieldValue)> = Vec::new();
        context.push(("device", FieldValue::Text(self.device.clone())));
        context.push(("profile", FieldValue::Text(self.profile.clone())));
        context.push(("error", FieldValue::Text(self.error.clone())));
        let r = EventRecord {
            event_name: "scout_mlx_profile_apply_failed",
            metric_name: "carbide_scout_mlx_failures_total",
            description: "Number of Scout MLX observation, read, mutation, and recovery failures, by operation, failure stage, and failure kind.",
            component: "nico-scout",
            metric: MetricKind::Counter,
            log_at: LogAt::Level(Severity::Error),
            message: "mlxconfig profile sync failed",
            labels,
            context,
        };
        assert(r@.context =~= text_fields(self@.context));
        r
    }
}

/// No firmware flasher could be made for a device.
#[derive(Debug)]
pub struct ScoutMlxFirmwareFlasherInitializationFailed {
    operation: ScoutMlxOperation,
    failure_stage: ScoutMlxFailureStage,
    failure_kind: ScoutMlxFailureKind,
    device: String,
    part_number: String,
    psid: String,
    error: String,
}

impl View for ScoutMlxFirmwareFlasherInitializationFailed {
    type V = MlxFailureView;

    closed spec fn view(&self) -> MlxFailureView {
        MlxFailureView {
            operation: self.operation,
            failure_stage: self.failure_stage,
            failure_kind: self.failure_kind,
            context: seq![("device"@, self.device@), ("part_number"@, self.part_number@), ("psid"@, self.psid@), ("error"@, self.error@)],
        }
    }
}

impl ScoutMlxFirmwareFlasherInitializationFailed {
    #[verifier::type_invariant]
    spec fn kind_follows_from_stage(self) -> bool {
        self.failure_kind == kind_of(self.failure_stage)
    }

    /// The failure of `firmware_flash` at stage `initialize`.
    pub fn new(device: String, part_number: String, psid: String, error: String) -> (r: Self)
        ensures
            r@ == mlx_failure(
                ScoutMlxOperation::FirmwareFlash,
                ScoutMlxFailureStage::Initialize,
                seq![("device"@, device@), ("part_number"@, part_number@), ("psid"@, psid@), ("error"@, error@)],
            ),
    {
        let failure_stage = ScoutMlxFailureStage::Initialize;
        ScoutMlxFirmwareFlasherInitializationFailed {
            operation: ScoutMlxOperation::FirmwareFlash,
            failure_stage,
            failure_kind: failure_stage.failure_kind(),
            device,
            part_number,
            psid,
            error,
        }
    }

    /// The failure as it is emitted.
    pub fn record(&self) -> (r: EventRecord)
        ensures
            r@ == mlx_record(
                "scout_mlx_firmware_flasher_initialization_failed"@,
                LogAt::Level(Severity::Error),
                "failed to create FirmwareFlasher"@,
                self@,
            ),
    {
        proof {
            use_type_invariant(self);
        }
        let labels = labels_of(self.operation, self.failure_stage, self.failure_kind);
        let mut context: Vec<(&'static str, FieldValue)> = Vec::new();
        context.push(("device", FieldValue::Text(self.device.clone())));
        context.push(("part_number", FieldValue::Text(self.part_number.clone())));
        context.push(("psid", FieldValue::Text(self.psid.clone())));
        context.push(("error", FieldValue::Text(self.error.clone())));
        let r = EventRecord {
            event_name: "scout_mlx_firmware_flasher_initialization_failed",
            metric_name: "carbide_scout_mlx_failures_total",
            description: "Number of Scout MLX observation, read, mutation, and recovery failures, by operation, failure stage, and failure kind.",
            component: "nico-scout",
            metric: MetricKind::Counter,
            log_at: LogAt::Level(Severity::Error),
            message: "failed to create FirmwareFlasher",
            labels,
            context,
        };
        assert(r@.context =~= text_fields(self@.context));
        r
    }
}

/// A firmware flasher could not apply its profile.
#[derive(Debug)]
pub struct ScoutMlxFirmwareFlashFailed {
    operation: ScoutMlxOperation,
    failure_stage: ScoutMlxFailureStage,
    failure_kind: ScoutMlxFailureKind,
    device: String,
    part_number: String,
    psid: String,
    firmware_url: String,
    target_version: String,
    error: String,
}

impl View for ScoutMlxFirmwareFlashFailed {
    type V = MlxFailureView;

    closed spec fn view(&self) -> MlxFailureView {
        MlxFailureView {
            operation: self.operation,
            failure_stage: self.failure_stage,
            failure_kind: self.failure_kind,
            context: seq![("device"@, self.device@), ("part_number"@, self.part_number@), ("psid"@, self.psid@), ("firmware_url"@, self.firmware_url@), ("target_version"@, self.target_version@), ("error"@, self.error@)],
        }
    }
}

impl ScoutMlxFirmwareFlashFailed {
    #[verifier::type_invariant]
    spec fn kind_follows_from_stage(self) -> bool {
        self.failure_kind == kind_of(self.failure_stage)
    }

    /// The failure of `firmware_flash` at stage `execute`.
    pub fn execute(device: String, part_number: String, psid: String, firmware_url: String, target_version: String, error: String) -> (r: Self)
        ensures
            r@ == mlx_failure(
                ScoutMlxOperation::FirmwareFlash,
                ScoutMlxFailureStage::Execute,
                seq![("device"@, device@), ("part_number"@, part_number@), ("psid"@, psid@), ("firmware_url"@, firmware_url@), ("target_version"@, target_version@), ("error"@, error@)],
            ),
    {
        let failure_stage = ScoutMlxFailureStage::Execute;
        ScoutMlxFirmwareFlashFailed {
            operation: ScoutMlxOperation::FirmwareFlash,
            failure_stage,
            failure_kind: failure_stage.failure_kind(),
            device,
            part_number,
            psid,
            firmware_url,
            target_version,
            error,
        }
    }

    /// The failure as it is emitted.
    pub fn record(&self) -> (r: EventRecord)
        ensures
            r@ == mlx_record(
                "scout_mlx_firmware_flash_failed"@,
                LogAt::Level(Severity::Error),
                "firmware flash failed"@,
                self@,
            ),
    {
        proof {
            use_type_invariant(self);
        }
        let labels = labels_of(self.operation, self.failure_stage, self.failure_kind);
        let mut context: Vec<(&'static str, FieldValue)> = Vec::new();
        context.push(("device", FieldValue::Text(self.device.clone())));
        context.push(("part_number", FieldValue::Text(self.part_number.clone())));
        context.push(("psid", FieldValue::Text(self.psid.clone())));
        context.push(("firmware_url", FieldValue::Text(self.firmware_url.clone())));
        context.push(("target_version", FieldValue::Text(self.target_version.clone())));
        context.push(("error", FieldValue::Text(self.error.clone())));
        let r = EventRecord {
            event_name: "scout_mlx_firmware_flash_failed",
            metric_name: "carbide_scout_mlx_failures_total",
            description: "Number of Scout MLX observation, read, mutation, and recovery failures, by operation, failure stage, and failure kind.",
            component: "nico-scout",
            metric: MetricKind::Counter,
            log_at: LogAt::Level(Severity::Error),
            message: "firmware flash failed",
            labels,
            context,
        };
        assert(r@.context =~= text_fields(self@.context));
        r
    }
}

/// The text with which such a failure is logged.
pub open spec fn reconciliation_message(operation: ScoutMlxOperation, stage: ScoutMlxFailureStage) -> Seq<char> {
    match (operation, stage) {
        (ScoutMlxOperation::Reconciliation, ScoutMlxFailureStage::Decode) =>
            "handle_mlxreport_action error decoding command"@,
        (ScoutMlxOperation::Reconciliation, ScoutMlxFailureStage::Discover) =>
            "handle_mlxreport_action error from discover_device::from_str"@,
        (ScoutMlxOperation::ReconciliationLock, ScoutMlxFailureStage::Execute) =>
            "handle_mlxreport_action error from lock_device"@,
        (ScoutMlxOperation::ReconciliationUnlock, ScoutMlxFailureStage::Execute) =>
            "handle_mlxreport_action error from unlock_device"@,
        _ => "handle_mlxreport_action failed"@,
    }
}

/// How such a failure is logged: a device that could not be locked or unlocked is no error.
pub open spec fn reconciliation_log_at(
    operation: ScoutMlxOperation,
    stage: ScoutMlxFailureStage,
) -> LogAt {
    if (operation == ScoutMlxOperation::ReconciliationLock || operation
        == ScoutMlxOperation::ReconciliationUnlock) && stage == ScoutMlxFailureStage::Execute {
        LogAt::Level(Severity::Info)
    } else {
        LogAt::Level(Severity::Error)
    }
}

/// A command could not be reconciled with its device.
#[derive(Debug)]
pub struct ScoutMlxReconciliationFailed {
    operation: ScoutMlxOperation,
    failure_stage: ScoutMlxFailureStage,
    failure_kind: ScoutMlxFailureKind,
    pci_name: String,
    error: String,
}

impl View for ScoutMlxReconciliationFailed {
    type V = MlxFailureView;

    closed spec fn view(&self) -> MlxFailureView {
        MlxFailureView {
            operation: self.operation,
            failure_stage: self.failure_stage,
            failure_kind: self.failure_kind,
            context: seq![("pci_name"@, self.pci_name@), ("error"@, self.error@)],
        }
    }
}

impl ScoutMlxReconciliationFailed {
    #[verifier::type_invariant]
    spec fn kind_follows_from_stage(self) -> bool {
        self.failure_kind == kind_of(self.failure_stage)
    }

    /// The failure of this operation at this stage.
    pub fn new(
        operation: ScoutMlxOperation,
        failure_stage: ScoutMlxFailureStage,
        pci_name: String,
        error: String,
    ) -> (r: Self)
        ensures
            r@ == mlx_failure(operation, failure_stage, seq![("pci_name"@, pci_name@), ("error"@, error@)]),
    {
        ScoutMlxReconciliationFailed {
            operation,
            failure_stage,
            failure_kind: failure_stage.failure_kind(),
            pci_name,
            error,
        }
    }

    /// The failure of `reconciliation` at stage `decode`.
    pub fn decode(pci_name: String, error: String) -> (r: Self)
        ensures
            r@ == mlx_failure(
                ScoutMlxOperation::Reconciliation,
                ScoutMlxFailureStage::Decode,
                seq![("pci_name"@, pci_name@), ("error"@, error@)],
            ),
    {
        ScoutMlxReconciliationFailed::new(ScoutMlxOperation::Reconciliation, ScoutMlxFailureStage::Decode, pci_name, error)
    }

    /// The failure of `reconciliation` at stage `discover`.
    pub fn discover(pci_name: String, error: String) -> (r: Self)
        ensures
            r@ == mlx_failure(
                ScoutMlxOperation::Reconciliation,
                ScoutMlxFailureStage::Discover,
                seq![("pci_name"@, pci_name@), ("error"@, error@)],
            ),
    {
        ScoutMlxReconciliationFailed::new(ScoutMlxOperation::Reconciliation, ScoutMlxFailureStage::Discover, pci_name, error)
    }

    /// The failure of `reconciliation_lock` at stage `execute`.
    pub fn lock(pci_name: String, error: String) -> (r: Self)
        ensures
            r@ == mlx_failure(
                ScoutMlxOperation::ReconciliationLock,
                ScoutMlxFailureStage::Execute,
                seq![("pci_name"@, pci_name@), ("error"@, error@)],
            ),
    {
        ScoutMlxReconciliationFailed::new(ScoutMlxOperation::ReconciliationLock, ScoutMlxFailureStage::Execute, pci_name, error)
    }

    /// The failure of `reconciliation_unlock` at stage `execute`.
    pub fn unlock(pci_name: String, error: String) -> (r: Self)
        ensures
            r@ == mlx_failure(
                ScoutMlxOperation::ReconciliationUnlock,
                ScoutMlxFailureStage::Execute,
                seq![("pci_name"@, pci_name@), ("error"@, error@)],
            ),
    {
        ScoutMlxReconciliationFailed::new(ScoutMlxOperation::ReconciliationUnlock, ScoutMlxFailureStage::Execute, pci_name, error)
    }

    /// How the failure is logged.
    pub fn log_at(&self) -> (r: LogAt)
        ensures
            r == reconciliation_log_at(self@.operation, self@.failure_stage),
    {
        match (self.operation, self.failure_stage) {
            (
                ScoutMlxOperation::ReconciliationLock | ScoutMlxOperation::ReconciliationUnlock,
                ScoutMlxFailureStage::Execute,
            ) => LogAt::Level(Severity::Info),
            _ => LogAt::Level(Severity::Error),
        }
    }

    /// The text with which the failure is logged.
    pub fn message(&self) -> (r: &'static str)
        ensures
            r@ == reconciliation_message(self@.operation, self@.failure_stage),
    {
        match (self.operation, self.failure_stage) {
            (ScoutMlxOperation::Reconciliation, ScoutMlxFailureStage::Decode) => {
                "handle_mlxreport_action error decoding command"
            },
            (ScoutMlxOperation::Reconciliation, ScoutMlxFailureStage::Discover) => {
                "handle_mlxreport_action error from discover_device::from_str"
            },
            (ScoutMlxOperation::ReconciliationLock, ScoutMlxFailureStage::Execute) => {
                "handle_mlxreport_action error from lock_device"
            },
            (ScoutMlxOperation::ReconciliationUnlock, ScoutMlxFailureStage::Execute) => {
                "handle_mlxreport_action error from unlock_device"
            },
            _ => "handle_mlxreport_action failed",
        }
    }

    /// The failure as it is emitted.
    pub fn record(&self) -> (r: EventRecord)
        ensures
            r@ == mlx_record(
                "scout_mlx_reconciliation_failed"@,
                reconciliation_log_at(self@.operation, self@.failure_stage),
                reconciliation_message(self@.operation, self@.failure_stage),
                self@,
            ),
    {
        proof {
            use_type_invariant(self);
        }
        let labels = labels_of(self.operation, self.failure_stage, self.failure_kind);
        let mut context: Vec<(&'static str, FieldValue)> = Vec::new();
        context.push(("pci_name", FieldValue::Text(self.pci_name.clone())));
        context.push(("error", FieldValue::Text(self.error.clone())));
        let r = EventRecord {
            event_name: "scout_mlx_reconciliation_failed",
            metric_name: "carbide_scout_mlx_failures_total",
            description: "Number of Scout MLX observation, read, mutation, and recovery failures, by operation, failure stage, and failure kind.",
            component: "nico-scout",
            metric: MetricKind::Counter,
            log_at: self.log_at(),
            message: self.message(),
            labels,
            context,
        };
        assert(r@.context =~= text_fields(self@.context));
        r
    }
}

/// Every failure counts in one metric under three labels, whatever its context: failures of
/// the same operation at the same stage count in the same series.
pub proof fn failures_count_by_operation_and_stage(
    event_a: Seq<char>,
    event_b: Seq<char>,
    log_a: LogAt,
    log_b: LogAt,
    message_a: Seq<char>,
    message_b: Seq<char>,
    a: MlxFailureView,
    b: MlxFailureView,
)
    requires
        a.operation == b.operation,
        a.failure_stage == b.failure_stage,
    ensures
        mlx_record(event_a, log_a, message_a, a).metric_name == mlx_record(
            event_b,
            log_b,
            message_b,
            b,
        ).metric_name,
        mlx_record(event_a, log_a, message_a, a).labels == mlx_record(
            event_b,
            log_b,
            message_b,
            b,
        ).labels,
        mlx_record(event_a, log_a, message_a, a).labels.len() == 3,
{
}

} // verus!
