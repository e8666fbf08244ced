//! How the failures of scout's MLX operations are counted and logged.
use vstd::prelude::*;

use crate::instrument::{FieldView, LogAt, Severity};
use crate::scout_mlx_metrics::{
    config_message, device_message, mlx_failure, mlx_record, operation_log_at, operation_message,
    profile_message, reconciliation_log_at, reconciliation_message, request_log_at, request_message,
    MlxFailureView, ScoutMlxFailureStage, ScoutMlxOperation,
};

verus! {

/// A failure counts in one counter under three labels: the operation, the stage, and the kind of
/// failure that the stage stands for. What was published and failed is a failure of the remote
/// call, what was decoded or validated an invalid request, what was looked up not found, what was
/// serialized a failure of that; all others are failures of the backend.
pub proof fn failures_are_labelled_by_operation_stage_and_kind(
    event_name: Seq<char>,
    log_at: LogAt,
    message: Seq<char>,
    failure: MlxFailureView,
)
    ensures
        ({
            let record = mlx_record(event_name, log_at, message, failure);
            let operation = failure.operation;
            let stage = failure.failure_stage;
            &&& record.metric_name == "carbide_scout_mlx_failures_total"@
            &&& record.metric is Counter
            &&& record.labels.len() == 3
            &&& record.labels[0].0 == "operation"@
            &&& record.labels[1].0 == "failure_stage"@
            &&& record.labels[2].0 == "failure_kind"@
            &&& operation is DeviceReportPublish ==> record.labels[0].1 == "device_report_publish"@
            &&& operation is InfoReport ==> record.labels[0].1 == "info_report"@
            &&& operation is ObservationReport ==> record.labels[0].1 == "observation_report"@
            &&& operation is Reconciliation ==> record.labels[0].1 == "reconciliation"@
            &&& operation is ReconciliationLock ==> record.labels[0].1 == "reconciliation_lock"@
            &&& operation is ReconciliationUnlock ==> record.labels[0].1 == "reconciliation_unlock"@
            &&& operation is ProfileSync ==> record.labels[0].1 == "profile_sync"@
            &&& operation is ProfileCompare ==> record.labels[0].1 == "profile_compare"@
            &&& operation is ProfileApply ==> record.labels[0].1 == "profile_apply"@
            &&& operation is ProfileReset ==> record.labels[0].1 == "profile_reset"@
            &&& operation is LockdownLock ==> record.labels[0].1 == "lockdown_lock"@
            &&& operation is LockdownUnlock ==> record.labels[0].1 == "lockdown_unlock"@
            &&& operation is LockdownStatus ==> record.labels[0].1 == "lockdown_status"@
            &&& operation is DeviceInfo ==> record.labels[0].1 == "device_info"@
            &&& operation is RegistryShow ==> record.labels[0].1 == "registry_show"@
            &&& operation is ConfigQuery ==> record.labels[0].1 == "config_query"@
            &&& operation is ConfigCompare ==> record.labels[0].1 == "config_compare"@
            &&& operation is ConfigSet ==> record.labels[0].1 == "config_set"@
            &&& operation is ConfigSync ==> record.labels[0].1 == "config_sync"@
            &&& operation is FirmwareFlash ==> record.labels[0].1 == "firmware_flash"@
            &&& stage is Create ==> record.labels[1].1 == "create"@
            &&& stage is Publish ==> record.labels[1].1 == "publish"@
            &&& stage is Decode ==> record.labels[1].1 == "decode"@
            &&& stage is Validate ==> record.labels[1].1 == "validate"@
            &&& stage is Discover ==> record.labels[1].1 == "discover"@
            &&& stage is Initialize ==> record.labels[1].1 == "initialize"@
            &&& stage is Lookup ==> record.labels[1].1 == "lookup"@
            &&& stage is Execute ==> record.labels[1].1 == "execute"@
            &&& stage is Serialize ==> record.labels[1].1 == "serialize"@
            &&& stage is Create || stage is Discover || stage is Initialize || stage is Execute ==> record.labels[2].1 == "backend"@
            &&& stage is Publish ==> record.labels[2].1 == "rpc"@
            &&& stage is Decode || stage is Validate ==> record.labels[2].1 == "invalid_request"@
            &&& stage is Lookup ==> record.labels[2].1 == "not_found"@
            &&& stage is Serialize ==> record.labels[2].1 == "serialization"@
        }),
{
}

/// A failure's log record has the event, level and text it is given, and says what is known of the
/// failure under the names it is known by, in order; nothing of that is a label.
pub proof fn failures_are_logged_with_their_context(
    event_name: Seq<char>,
    log_at: LogAt,
    message: Seq<char>,
    operation: ScoutMlxOperation,
    stage: ScoutMlxFailureStage,
    context: Seq<(Seq<char>, Seq<char>)>,
    i: int,
)
    requires
        0 <= i < context.len(),
    ensures
        ({
            let record = mlx_record(
                event_name,
                log_at,
                message,
                mlx_failure(operation, stage, context),
            );
            &&& record.event_name == event_name
            &&& record.log_at == log_at
            &&& record.message == message
            &&& record.component == "nico-scout"@
            &&& record.context.len() == context.len()
            &&& record.context[i].0 == context[i].0
            &&& record.context[i].1 == FieldView::Text(context[i].1)
        }),
{
}

/// Most failures are logged as errors. A device report that could not be made or published is a
/// warning. A device that could not be locked or unlocked in a reconciliation is for information.
/// A request without profile data is only counted.
pub proof fn failures_are_logged_by_their_weight(
    operation: ScoutMlxOperation,
    stage: ScoutMlxFailureStage,
)
    ensures
        operation_log_at(operation, stage) == LogAt::Level(Severity::Warn) <==> operation
            is DeviceReportPublish && (stage is Create || stage is Publish),
        operation_log_at(operation, stage) == LogAt::Level(Severity::Error) <==> !(operation
            is DeviceReportPublish && (stage is Create || stage is Publish)),
        reconciliation_log_at(operation, stage) == LogAt::Level(Severity::Info) <==> stage
            is Execute && (operation is ReconciliationLock || operation is ReconciliationUnlock),
        reconciliation_log_at(operation, stage) == LogAt::Level(Severity::Error) <==> !(stage
            is Execute && (operation is ReconciliationLock || operation is ReconciliationUnlock)),
        request_log_at(operation, stage) == LogAt::Off <==> operation is ProfileCompare || operation
            is ProfileSync,
        request_log_at(operation, stage) == LogAt::Level(Severity::Error) <==> operation
            is Reconciliation,
        request_log_at(operation, stage) == LogAt::Level(Severity::Warn) <==> !(operation
            is ProfileCompare || operation is ProfileSync || operation is Reconciliation),
{
}

/// The text of a failed operation says what failed at which stage.
pub proof fn operations_say_what_failed(operation: ScoutMlxOperation, stage: ScoutMlxFailureStage)
    ensures
        operation is DeviceReportPublish && stage is Create ==> operation_message(operation, stage)
            == "failed to create PublishMlxDeviceReportRequest"@,
        operation is DeviceReportPublish && stage is Publish ==> operation_message(operation, stage)
            == "failed to publish PublishMlxDeviceReportRequest"@,
        operation is ObservationReport && stage is Publish ==> operation_message(operation, stage)
            == "Error from publish_mlx_observation_report"@,
        operation is ProfileCompare && stage is Decode ==> operation_message(operation, stage)
            == "[scout_stream::mlx_device] failed to parse profile"@,
        operation is ProfileSync && stage is Decode ==> operation_message(operation, stage)
            == "[scout_stream::mlx_device] failed to parse profile"@,
        operation is ProfileCompare && stage is Serialize ==> operation_message(operation, stage)
            == "[scout_stream::mlx_device] profile compare result failed to serialize"@,
        operation is ProfileSync && stage is Serialize ==> operation_message(operation, stage)
            == "[scout_stream::mlx_device] profile sync result failed to serialize"@,
        operation is LockdownLock && stage is Initialize ==> operation_message(operation, stage)
            == "[scout_stream::mlx_device] lockdown manager initialization failed"@,
        operation is LockdownUnlock && stage is Initialize ==> operation_message(operation, stage)
            == "[scout_stream::mlx_device] lockdown manager initialization failed"@,
        operation is LockdownStatus && stage is Initialize ==> operation_message(operation, stage)
            == "[scout_stream::mlx_device] lockdown manager initialization failed"@,
        operation is InfoReport && stage is Decode ==> operation_message(operation, stage)
            == "[scout_stream::mlx_device] device report request failed to parse filters"@,
        operation is InfoReport && stage is Execute ==> operation_message(operation, stage)
            == "[scout_stream::mlx_device] device report generation failed"@,
        !((operation is DeviceReportPublish && stage is Create)
            || (operation is DeviceReportPublish && stage is Publish)
            || (operation is ObservationReport && stage is Publish)
            || (operation is ProfileCompare && stage is Decode)
            || (operation is ProfileSync && stage is Decode)
            || (operation is ProfileCompare && stage is Serialize)
            || (operation is ProfileSync && stage is Serialize)
            || (operation is LockdownLock && stage is Initialize)
            || (operation is LockdownUnlock && stage is Initialize)
            || (operation is LockdownStatus && stage is Initialize)
            || (operation is InfoReport && stage is Decode)
            || (operation is InfoReport && stage is Execute)) ==> operation_message(operation, stage)
            == "Scout MLX operation failed"@,
{
}

/// The text of a rejected request says what it lacks, whatever the stage.
pub proof fn rejections_say_what_is_missing(operation: ScoutMlxOperation, stage: ScoutMlxFailureStage)
    ensures
        operation is ProfileCompare ==> request_message(operation, stage)
            == "no serializable profile data in message"@,
        operation is ProfileSync ==> request_message(operation, stage)
            == "no serializable profile data in message"@,
        operation is Reconciliation ==> request_message(operation, stage)
            == "handle_mlxreport_action dev_pci_name empty"@,
        !(operation is ProfileCompare
            || operation is ProfileSync
            || operation is Reconciliation) ==> request_message(operation, stage)
            == "Scout MLX request rejected"@,
{
}

/// The text of a failed operation on a device says which one it was.
pub proof fn device_failures_say_what_failed(operation: ScoutMlxOperation, stage: ScoutMlxFailureStage)
    ensures
        operation is LockdownStatus && stage is Execute ==> device_message(operation, stage)
            == "[scout_stream::mlx_device] lockdown status check failed"@,
        operation is LockdownLock && stage is Execute ==> device_message(operation, stage)
            == "[scout_stream::mlx_device] lockdown lock failed"@,
        operation is LockdownUnlock && stage is Execute ==> device_message(operation, stage)
            == "[scout_stream::mlx_device] lockdown unlock failed"@,
        operation is DeviceInfo && stage is Discover ==> device_message(operation, stage)
            == "[scout_stream::mlx_device] device info request failed"@,
        !((operation is LockdownStatus && stage is Execute)
            || (operation is LockdownLock && stage is Execute)
            || (operation is LockdownUnlock && stage is Execute)
            || (operation is DeviceInfo && stage is Discover)) ==> device_message(operation, stage)
            == "[scout_stream::mlx_device] device operation failed"@,
{
}

/// The text of a failed operation with a profile says which one it was.
pub proof fn profile_failures_say_what_failed(operation: ScoutMlxOperation, stage: ScoutMlxFailureStage)
    ensures
        operation is ProfileCompare ==> profile_message(operation, stage)
            == "[scout_stream::mlx_device] profile compare against device failed"@,
        operation is ProfileSync ==> profile_message(operation, stage)
            == "[scout_stream::mlx_device] profile sync to device failed"@,
        !(operation is ProfileCompare
            || operation is ProfileSync) ==> profile_message(operation, stage)
            == "[scout_stream::mlx_device] profile operation failed"@,
{
}

/// The text of a failed operation on a configuration says which one it was, and whether it or its
/// result failed.
pub proof fn config_failures_say_what_failed(operation: ScoutMlxOperation, stage: ScoutMlxFailureStage)
    ensures
        operation is ConfigQuery && stage is Serialize ==> config_message(operation, stage)
            == "[scout_stream::mlx_device] config query result failed to serialize"@,
        operation is ConfigQuery && stage is Execute ==> config_message(operation, stage)
            == "[scout_stream::mlx_device] config query against device failed"@,
        operation is ConfigCompare && stage is Serialize ==> config_message(operation, stage)
            == "[scout_stream::mlx_device] config compare result failed to serialize"@,
        operation is ConfigCompare && stage is Execute ==> config_message(operation, stage)
            == "[scout_stream::mlx_device] config compare against device failed"@,
        operation is ConfigSet && stage is Execute ==> config_message(operation, stage)
            == "[scout_stream::mlx_device] config set to device failed"@,
        operation is ConfigSync && stage is Serialize ==> config_message(operation, stage)
            == "[scout_stream::mlx_device] config sync result failed to serialize"@,
        operation is ConfigSync && stage is Execute ==> config_message(operation, stage)
            == "[scout_stream::mlx_device] config sync to device failed"@,
        !((operation is ConfigQuery && stage is Serialize)
            || (operation is ConfigQuery && stage is Execute)
            || (operation is ConfigCompare && stage is Serialize)
            || (operation is ConfigCompare && stage is Execute)
            || (operation is ConfigSet && stage is Execute)
            || (operation is ConfigSync && stage is Serialize)
            || (operation is ConfigSync && stage is Execute)) ==> config_message(operation, stage)
            == "[scout_stream::mlx_device] config operation failed"@,
{
}

/// The text of a failed reconciliation says where it failed.
pub proof fn reconciliation_failures_say_what_failed(operation: ScoutMlxOperation, stage: ScoutMlxFailureStage)
    ensures
        operation is Reconciliation && stage is Decode ==> reconciliation_message(operation, stage)
            == "handle_mlxreport_action error decoding command"@,
        operation is Reconciliation && stage is Discover ==> reconciliation_message(operation, stage)
            == "handle_mlxreport_action error from discover_device::from_str"@,
        operation is ReconciliationLock && stage is Execute ==> reconciliation_message(operation, stage)
            == "handle_mlxreport_action error from lock_device"@,
        operation is ReconciliationUnlock && stage is Execute ==> reconciliation_message(operation, stage)
            == "handle_mlxreport_action error from unlock_device"@,
        !((operation is Reconciliation && stage is Decode)
            || (operation is Reconciliation && stage is Discover)
            || (operation is ReconciliationLock && stage is Execute)
            || (operation is ReconciliationUnlock && stage is Execute)) ==> reconciliation_message(operation, stage)
            == "handle_mlxreport_action failed"@,
{
}

} // verus!
