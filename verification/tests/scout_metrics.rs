use nico::addresses::MachineId;
use nico::instrument::{
    Elapsed, EventRecord, FieldValue, LogAt, MetricKind, Outcome, Severity,
};
use nico::scout_metrics::{
    Action, FirmwareDownloadKind, FirmwareDownloadNextAction, ScoutAction,
    ScoutActionHandled, ScoutFirmwareDownloadAttemptFailed, ScoutStorageDeviceCleanup,
    ScoutStreamConnection, ScoutStreamReconnect, ScoutStreamResponseDropped, StorageDeviceType,
};
use nico::scout_mlx_metrics::{
    ScoutMlxConfigOperationFailed, ScoutMlxConfigRegistryLookupFailed,
    ScoutMlxDeviceOperationFailed, ScoutMlxFailureKind, ScoutMlxFailureStage,
    ScoutMlxFirmwareFlashFailed, ScoutMlxFirmwareFlasherInitializationFailed, ScoutMlxOperation,
    ScoutMlxOperationFailed, ScoutMlxProfileApplyFailed, ScoutMlxProfileOperationFailed,
    ScoutMlxProfileResetFailed, ScoutMlxReconciliationFailed, ScoutMlxRegistryLookupFailed,
    ScoutMlxRequestRejected,
};

/// By how much the event moves a counter.
fn counter_delta(record: &EventRecord, metric: &str, labels: &[(&str, &str)]) -> f64 {
    if record.metric == MetricKind::Counter
        && record.metric_name == metric
        && record.labels.as_slice() == labels
    {
        1.0
    } else {
        0.0
    }
}

/// The field of the event's log record.
fn field(record: &EventRecord, name: &str) -> Option<String> {
    if name == "event_name" {
        return Some(record.event_name.to_string());
    }
    if name == "metric_name" {
        return Some(record.metric_name.to_string());
    }
    for (key, value) in &record.labels {
        if *key == name {
            return Some(value.to_string());
        }
    }
    for (key, value) in &record.context {
        if *key == name {
            return Some(match value {
                FieldValue::Text(text) | FieldValue::Number(text) => text.clone(),
                FieldValue::Integer(value) => value.to_string(),
            });
        }
    }
    None
}

fn text(value: &str) -> FieldValue {
    FieldValue::Text(value.to_string())
}

#[test]
fn firmware_download_attempt_failures_share_one_bounded_metric() {
    for (kind, kind_label, next_action, next_action_label, delay, url, expected_delay) in [
        (
            FirmwareDownloadKind::Script,
            "script",
            FirmwareDownloadNextAction::Retry,
            "retry",
            4.0_f64,
            "https://firmware.example/script.sh",
            "4",
        ),
        (
            FirmwareDownloadKind::Artifact,
            "artifact",
            FirmwareDownloadNextAction::GiveUp,
            "give_up",
            0.0_f64,
            "https://firmware.example/image.bin",
            "0",
        ),
    ] {
        let record = ScoutFirmwareDownloadAttemptFailed {
            kind,
            next_action,
            attempt: 2,
            url: url.to_string(),
            error: "HTTP 503".to_string(),
            retry_delay_seconds: delay.to_string(),
        }
        .record();
        assert_eq!(
            counter_delta(
                &record,
                "carbide_scout_firmware_download_attempt_failures_total",
                &[("kind", kind_label), ("next_action", next_action_label)],
            ),
            1.0
        );
        assert_eq!(record.log_at, LogAt::Level(Severity::Warn));
        assert_eq!(record.message, "[firmware_upgrade] download attempt failed; retrying");
        assert_eq!(field(&record, "kind").as_deref(), Some(kind_label));
        assert_eq!(field(&record, "next_action").as_deref(), Some(next_action_label));
        assert_eq!(field(&record, "attempt").as_deref(), Some("2"));
        assert_eq!(field(&record, "url").as_deref(), Some(url));
        assert_eq!(field(&record, "error").as_deref(), Some("HTTP 503"));
        assert_eq!(field(&record, "retry_delay_seconds").as_deref(), Some(expected_delay));
        assert_eq!(
            record.context,
            vec![
                ("attempt", FieldValue::Integer(2)),
                ("url", text(url)),
                ("error", text("HTTP 503")),
                ("retry_delay_seconds", FieldValue::Number(expected_delay.to_string())),
            ]
        );
    }
}

#[test]
fn mlx_failure_stages_derive_one_failure_kind() {
    for (input, expect) in [
        (ScoutMlxFailureStage::Create, ScoutMlxFailureKind::Backend),
        (ScoutMlxFailureStage::Publish, ScoutMlxFailureKind::Rpc),
        (ScoutMlxFailureStage::Decode, ScoutMlxFailureKind::InvalidRequest),
        (ScoutMlxFailureStage::Validate, ScoutMlxFailureKind::InvalidRequest),
        (ScoutMlxFailureStage::Discover, ScoutMlxFailureKind::Backend),
        (ScoutMlxFailureStage::Initialize, ScoutMlxFailureKind::Backend),
        (ScoutMlxFailureStage::Lookup, ScoutMlxFailureKind::NotFound),
        (ScoutMlxFailureStage::Execute, ScoutMlxFailureKind::Backend),
        (ScoutMlxFailureStage::Serialize, ScoutMlxFailureKind::Serialization),
    ] {
        assert_eq!(input.failure_kind(), expect);
    }
}

#[test]
fn mlx_dynamic_contracts_preserve_existing_severity_and_messages() {
    for (record, log_at, message) in [
        (
            ScoutMlxOperationFailed::device_report_create("failure".to_string()).record(),
            LogAt::Level(Severity::Warn),
            "failed to create PublishMlxDeviceReportRequest",
        ),
        (
            ScoutMlxOperationFailed::device_report_publish("failure".to_string()).record(),
            LogAt::Level(Severity::Warn),
            "failed to publish PublishMlxDeviceReportRequest",
        ),
        (
            ScoutMlxOperationFailed::observation_report_publish("failure".to_string()).record(),
            LogAt::Level(Severity::Error),
            "Error from publish_mlx_observation_report",
        ),
        (
            ScoutMlxOperationFailed::profile_compare_decode("failure".to_string()).record(),
            LogAt::Level(Severity::Error),
            "[scout_stream::mlx_device] failed to parse profile",
        ),
        (
            ScoutMlxOperationFailed::profile_compare_serialize("failure".to_string()).record(),
            LogAt::Level(Severity::Error),
            "[scout_stream::mlx_device] profile compare result failed to serialize",
        ),
        (
            ScoutMlxOperationFailed::profile_sync_decode("failure".to_string()).record(),
            LogAt::Level(Severity::Error),
            "[scout_stream::mlx_device] failed to parse profile",
        ),
        (
            ScoutMlxOperationFailed::profile_sync_serialize("failure".to_string()).record(),
            LogAt::Level(Severity::Error),
            "[scout_stream::mlx_device] profile sync result failed to serialize",
        ),
        (
            ScoutMlxOperationFailed::lockdown_status_initialize("failure".to_string()).record(),
            LogAt::Level(Severity::Error),
            "[scout_stream::mlx_device] lockdown manager initialization failed",
        ),
        (
            ScoutMlxOperationFailed::lockdown_lock_initialize("failure".to_string()).record(),
            LogAt::Level(Severity::Error),
            "[scout_stream::mlx_device] lockdown manager initialization failed",
        ),
        (
            ScoutMlxOperationFailed::lockdown_unlock_initialize("failure".to_string()).record(),
            LogAt::Level(Severity::Error),
            "[scout_stream::mlx_device] lockdown manager initialization failed",
        ),
        (
            ScoutMlxOperationFailed::info_report_decode("failure".to_string()).record(),
            LogAt::Level(Severity::Error),
            "[scout_stream::mlx_device] device report request failed to parse filters",
        ),
        (
            ScoutMlxOperationFailed::info_report_execute("failure".to_string()).record(),
            LogAt::Level(Severity::Error),
            "[scout_stream::mlx_device] device report generation failed",
        ),
        (
            ScoutMlxRequestRejected::reconciliation().record(),
            LogAt::Level(Severity::Error),
            "handle_mlxreport_action dev_pci_name empty",
        ),
        (
            ScoutMlxDeviceOperationFailed::lockdown_status_execute("device".to_string(), "failure".to_string()).record(),
            LogAt::Level(Severity::Error),
            "[scout_stream::mlx_device] lockdown status check failed",
        ),
        (
            ScoutMlxDeviceOperationFailed::lockdown_lock_execute("device".to_string(), "failure".to_string()).record(),
            LogAt::Level(Severity::Error),
            "[scout_stream::mlx_device] lockdown lock failed",
        ),
        (
            ScoutMlxDeviceOperationFailed::lockdown_unlock_execute("device".to_string(), "failure".to_string()).record(),
            LogAt::Level(Severity::Error),
            "[scout_stream::mlx_device] lockdown unlock failed",
        ),
        (
            ScoutMlxDeviceOperationFailed::device_info_discover("device".to_string(), "failure".to_string()).record(),
            LogAt::Level(Severity::Error),
            "[scout_stream::mlx_device] device info request failed",
        ),
        (
            ScoutMlxProfileOperationFailed::profile_sync_execute("device".to_string(), "profile".to_string(), "failure".to_string()).record(),
            LogAt::Level(Severity::Error),
            "[scout_stream::mlx_device] profile sync to device failed",
        ),
        (
            ScoutMlxProfileOperationFailed::profile_compare_execute("device".to_string(), "profile".to_string(), "failure".to_string()).record(),
            LogAt::Level(Severity::Error),
            "[scout_stream::mlx_device] profile compare against device failed",
        ),
        (
            ScoutMlxConfigOperationFailed::config_query_serialize("device".to_string(), "registry".to_string(), "failure".to_string()).record(),
            LogAt::Level(Severity::Error),
            "[scout_stream::mlx_device] config query result failed to serialize",
        ),
        (
            ScoutMlxConfigOperationFailed::config_query_execute("device".to_string(), "registry".to_string(), "failure".to_string()).record(),
            LogAt::Level(Severity::Error),
            "[scout_stream::mlx_device] config query against device failed",
        ),
        (
            ScoutMlxConfigOperationFailed::config_compare_serialize("device".to_string(), "registry".to_string(), "failure".to_string()).record(),
            LogAt::Level(Severity::Error),
            "[scout_stream::mlx_device] config compare result failed to serialize",
        ),
        (
            ScoutMlxConfigOperationFailed::config_compare_execute("device".to_string(), "registry".to_string(), "failure".to_string()).record(),
            LogAt::Level(Severity::Error),
            "[scout_stream::mlx_device] config compare against device failed",
        ),
        (
            ScoutMlxConfigOperationFailed::config_set_execute("device".to_string(), "registry".to_string(), "failure".to_string()).record(),
            LogAt::Level(Severity::Error),
            "[scout_stream::mlx_device] config set to device failed",
        ),
        (
            ScoutMlxConfigOperationFailed::config_sync_serialize("device".to_string(), "registry".to_string(), "failure".to_string()).record(),
            LogAt::Level(Severity::Error),
            "[scout_stream::mlx_device] config sync result failed to serialize",
        ),
        (
            ScoutMlxConfigOperationFailed::config_sync_execute("device".to_string(), "registry".to_string(), "failure".to_string()).record(),
            LogAt::Level(Severity::Error),
            "[scout_stream::mlx_device] config sync to device failed",
        ),
        (
            ScoutMlxReconciliationFailed::decode("device".to_string(), "failure".to_string()).record(),
            LogAt::Level(Severity::Error),
            "handle_mlxreport_action error decoding command",
        ),
        (
            ScoutMlxReconciliationFailed::discover("device".to_string(), "failure".to_string()).record(),
            LogAt::Level(Severity::Error),
            "handle_mlxreport_action error from discover_device::from_str",
        ),
        (
            ScoutMlxReconciliationFailed::lock("device".to_string(), "failure".to_string()).record(),
            LogAt::Level(Severity::Info),
            "handle_mlxreport_action error from lock_device",
        ),
        (
            ScoutMlxReconciliationFailed::unlock("device".to_string(), "failure".to_string()).record(),
            LogAt::Level(Severity::Info),
            "handle_mlxreport_action error from unlock_device",
        ),
        (
            ScoutMlxOperationFailed::new(ScoutMlxOperation::ConfigQuery, ScoutMlxFailureStage::Create, "failure".to_string()).record(),
            LogAt::Level(Severity::Error),
            "Scout MLX operation failed",
        ),
        (
            ScoutMlxRequestRejected::new(ScoutMlxOperation::ConfigQuery).record(),
            LogAt::Level(Severity::Warn),
            "Scout MLX request rejected",
        ),
        (
            ScoutMlxDeviceOperationFailed::new(ScoutMlxOperation::ConfigQuery, ScoutMlxFailureStage::Create, "device".to_string(), "failure".to_string()).record(),
            LogAt::Level(Severity::Error),
            "[scout_stream::mlx_device] device operation failed",
        ),
        (
            ScoutMlxConfigOperationFailed::new(ScoutMlxOperation::DeviceInfo, ScoutMlxFailureStage::Publish, "device".to_string(), "registry".to_string(), "failure".to_string()).record(),
            LogAt::Level(Severity::Error),
            "[scout_stream::mlx_device] config operation failed",
        ),
        (
            ScoutMlxReconciliationFailed::new(ScoutMlxOperation::Reconciliation, ScoutMlxFailureStage::Serialize, "device".to_string(), "failure".to_string()).record(),
            LogAt::Level(Severity::Error),
            "handle_mlxreport_action failed",
        ),
        (
            ScoutMlxRequestRejected::profile_compare().record(),
            LogAt::Off,
            "no serializable profile data in message",
        ),
        (
            ScoutMlxRequestRejected::profile_sync().record(),
            LogAt::Off,
            "no serializable profile data in message",
        ),
    ] {
        assert_eq!(record.log_at, log_at, "{message}");
        assert_eq!(record.message, message);
    }
}

#[test]
fn mlx_request_rejections_count_with_existing_diagnostics() {
    for (event, operation, logs) in [
        (ScoutMlxRequestRejected::profile_compare(), "profile_compare", None),
        (ScoutMlxRequestRejected::profile_sync(), "profile_sync", None),
        (
            ScoutMlxRequestRejected::reconciliation(),
            "reconciliation",
            Some((Severity::Error, "handle_mlxreport_action dev_pci_name empty")),
        ),
    ] {
        let record = event.record();
        assert_eq!(
            counter_delta(
                &record,
                "carbide_scout_mlx_failures_total",
                &[
                    ("operation", operation),
                    ("failure_stage", "validate"),
                    ("failure_kind", "invalid_request"),
                ],
            ),
            1.0
        );
        match logs {
            None => assert_eq!(record.log_at, LogAt::Off),
            Some((level, message)) => {
                assert_eq!(record.log_at, LogAt::Level(level));
                assert_eq!(record.message, message);
            }
        }
    }
}

#[test]
fn mlx_mutation_events_keep_context_out_of_metric_labels() {
    for (record, operation, failure_stage, event_name, message, context) in [
        (
            ScoutMlxProfileResetFailed::execute("device".to_string(), "failure".to_string())
                .record(),
            "profile_reset",
            "execute",
            "scout_mlx_profile_reset_failed",
            "mlxconfig reset failed",
            vec![("device", "device"), ("error", "failure")],
        ),
        (
            ScoutMlxProfileApplyFailed::execute(
                "device".to_string(),
                "profile".to_string(),
                "failure".to_string(),
            )
            .record(),
            "profile_apply",
            "execute",
            "scout_mlx_profile_apply_failed",
            "mlxconfig profile sync failed",
            vec![("device", "device"), ("profile", "profile"), ("error", "failure")],
        ),
        (
            ScoutMlxFirmwareFlasherInitializationFailed::new(
                "device".to_string(),
                "part-number".to_string(),
                "psid".to_string(),
                "failure".to_string(),
            )
            .record(),
            "firmware_flash",
            "initialize",
            "scout_mlx_firmware_flasher_initialization_failed",
            "failed to create FirmwareFlasher",
            vec![
                ("device", "device"),
                ("part_number", "part-number"),
                ("psid", "psid"),
                ("error", "failure"),
            ],
        ),
        (
            ScoutMlxFirmwareFlashFailed::execute(
                "device".to_string(),
                "part-number".to_string(),
                "psid".to_string(),
                "https://firmware.example/fw.bin".to_string(),
                "1.2.3".to_string(),
                "failure".to_string(),
            )
            .record(),
            "firmware_flash",
            "execute",
            "scout_mlx_firmware_flash_failed",
            "firmware flash failed",
            vec![
                ("device", "device"),
                ("part_number", "part-number"),
                ("psid", "psid"),
                ("firmware_url", "https://firmware.example/fw.bin"),
                ("target_version", "1.2.3"),
                ("error", "failure"),
            ],
        ),
    ] {
        assert_eq!(
            counter_delta(
                &record,
                "carbide_scout_mlx_failures_total",
                &[
                    ("operation", operation),
                    ("failure_stage", failure_stage),
                    ("failure_kind", "backend"),
                ],
            ),
            1.0
        );
        assert_eq!(record.log_at, LogAt::Level(Severity::Error));
        assert_eq!(field(&record, "event_name").as_deref(), Some(event_name));
        assert_eq!(record.message, message);
        let expected: Vec<(&str, FieldValue)> =
            context.iter().map(|(name, value)| (*name, text(value))).collect();
        assert_eq!(record.context, expected);
    }
}

#[test]
fn scout_action_maps_every_dispatchable_action() {
    for (input, expect) in [
        (Action::Noop, ScoutAction::Noop),
        (Action::Reset, ScoutAction::Reset),
        (Action::Discovery, ScoutAction::Discovery),
        (Action::Rebuild, ScoutAction::Rebuild),
        (Action::Retry, ScoutAction::Retry),
        (Action::Measure, ScoutAction::Measure),
        (Action::LogError, ScoutAction::LogError),
        (Action::MachineValidation, ScoutAction::MachineValidation),
        (Action::MlxAction, ScoutAction::MlxAction),
        (Action::FirmwareUpgrade, ScoutAction::FirmwareUpgrade),
    ] {
        assert_eq!(ScoutAction::from(&input), expect);
    }
}

#[test]
fn scout_action_outcomes_log_and_count() {
    for (action, outcome, action_name, error, action_label, outcome_label, message) in [
        (
            ScoutAction::FirmwareUpgrade,
            Outcome::Success,
            "FIRMWARE_UPGRADE",
            "",
            "firmware_upgrade",
            "ok",
            "Successfully served action",
        ),
        (
            ScoutAction::MachineValidation,
            Outcome::Error,
            "MACHINE_VALIDATION",
            "validation command failed",
            "machine_validation",
            "error",
            "Failed to serve action",
        ),
    ] {
        let record = ScoutActionHandled {
            action,
            outcome,
            action_name,
            error: error.to_string(),
        }
        .record();
        assert_eq!(record.event_name, "scout_action_handled");
        assert_eq!(record.log_at, LogAt::Level(Severity::Info));
        assert_eq!(record.message, message);
        assert_eq!(field(&record, "metric_name").as_deref(), Some("carbide_scout_actions_total"));
        assert_eq!(field(&record, "action").as_deref(), Some(action_label));
        assert_eq!(field(&record, "outcome").as_deref(), Some(outcome_label));
        assert_eq!(field(&record, "action_name").as_deref(), Some(action_name));
        assert_eq!(field(&record, "error").as_deref(), Some(error));
        assert_eq!(
            counter_delta(
                &record,
                "carbide_scout_actions_total",
                &[("action", action_label), ("outcome", outcome_label)],
            ),
            1.0
        );
    }
}

#[test]
fn scout_stream_connection_counter_moves_per_outcome() {
    for (outcome, outcome_label) in [(Outcome::Success, "ok"), (Outcome::Error, "error")] {
        let record = ScoutStreamConnection { outcome }.record();
        assert_eq!(record.log_at, LogAt::Off);
        assert_eq!(
            counter_delta(
                &record,
                "carbide_scout_stream_connections_total",
                &[("outcome", outcome_label)],
            ),
            1.0
        );
    }
}

fn machine_id() -> MachineId {
    MachineId {
        text: "fm100htes3rn1npvbtm5qd57dkilaag7ljugl1llmm7rfuq1ov50i0rpl30".to_string(),
    }
}

#[test]
fn scout_stream_reconnect_logs_and_counts() {
    let record = ScoutStreamReconnect {
        api_endpoint: "https://[::1]:1079".to_string(),
        machine_id: machine_id(),
    }
    .record();
    assert_eq!(record.event_name, "scout_stream_reconnect");
    assert_eq!(record.log_at, LogAt::Level(Severity::Warn));
    assert_eq!(record.message, "scout stream reconnecting after 10s delay");
    assert_eq!(field(&record, "metric_name").as_deref(), Some("carbide_scout_stream_reconnects_total"));
    assert_eq!(field(&record, "api_endpoint").as_deref(), Some("https://[::1]:1079"));
    assert_eq!(field(&record, "machine_id").as_deref(), Some(machine_id().text.as_str()));
    assert_eq!(counter_delta(&record, "carbide_scout_stream_reconnects_total", &[]), 1.0);
}

#[test]
fn scout_stream_response_drop_logs_and_counts() {
    let record = ScoutStreamResponseDropped {
        api_endpoint: "https://[::1]:1079".to_string(),
        machine_id: machine_id(),
        error: "request stream closed".to_string(),
    }
    .record();
    assert_eq!(record.event_name, "scout_stream_response_dropped");
    assert_eq!(record.log_at, LogAt::Level(Severity::Error));
    assert_eq!(record.message, "scout stream failed to send response");
    assert_eq!(
        field(&record, "metric_name").as_deref(),
        Some("carbide_scout_stream_responses_dropped_total")
    );
    assert_eq!(field(&record, "api_endpoint").as_deref(), Some("https://[::1]:1079"));
    assert_eq!(field(&record, "machine_id").as_deref(), Some(machine_id().text.as_str()));
    assert_eq!(field(&record, "error").as_deref(), Some("request stream closed"));
    assert_eq!(
        counter_delta(&record, "carbide_scout_stream_responses_dropped_total", &[]),
        1.0
    );
}

#[test]
fn storage_device_cleanup_logs_and_records_duration() {
    for (device_type, millis, error, level, message, device_label, outcome, duration, seconds) in [
        (
            StorageDeviceType::Nvme,
            250_u64,
            None,
            Severity::Info,
            "Cleanup completed successfully",
            "nvme",
            "ok",
            "250ms",
            0.25_f64,
        ),
        (
            StorageDeviceType::Nvme,
            500,
            Some("NVMe sanitize command failed"),
            Severity::Error,
            "Cleanup failed",
            "nvme",
            "error",
            "500ms",
            0.5,
        ),
        (
            StorageDeviceType::HddSas,
            750,
            None,
            Severity::Info,
            "Cleanup completed successfully",
            "hdd_sas",
            "ok",
            "750ms",
            0.75,
        ),
        (
            StorageDeviceType::HddSas,
            1000,
            Some("HDD security erase failed"),
            Severity::Error,
            "Cleanup failed",
            "hdd_sas",
            "error",
            "1s",
            1.0,
        ),
    ] {
        let took = Elapsed {
            seconds: millis / 1000,
            nanoseconds: (millis % 1000) as u32 * 1_000_000,
        };
        let result: Result<(), String> = match error {
            None => Ok(()),
            Some(error) => Err(error.to_string()),
        };
        let event = ScoutStorageDeviceCleanup::new(device_type, took, &result);
        let record = event.record();
        let observed = match record.metric {
            MetricKind::Histogram { observed } => observed,
            MetricKind::Counter => panic!("a cleanup is observed by a histogram"),
        };
        assert_eq!(observed, took);
        assert_eq!(observed.seconds as f64 + observed.nanoseconds as f64 / 1e9, seconds);
        assert_eq!(record.event_name, "scout_storage_device_cleanup");
        assert_eq!(record.log_at, LogAt::Level(level));
        assert_eq!(record.message, message);
        assert_eq!(
            field(&record, "metric_name").as_deref(),
            Some("carbide_scout_storage_device_cleanup_duration_seconds")
        );
        assert_eq!(record.labels, vec![("device_type", device_label), ("outcome", outcome)]);
        assert_eq!(field(&record, "device_type").as_deref(), Some(device_label));
        assert_eq!(field(&record, "outcome").as_deref(), Some(outcome));
        assert_eq!(field(&record, "duration").as_deref(), Some(duration));
        assert_eq!(field(&record, "error").as_deref(), Some(error.unwrap_or("")));
        assert_eq!(
            record.context,
            vec![("duration", text(duration)), ("error", text(error.unwrap_or("")))]
        );
    }
}

#[test]
fn cleanup_takes_the_duration_text_it_is_given() {
    let took = Elapsed { seconds: 3, nanoseconds: 0 };
    let event = ScoutStorageDeviceCleanup::with_duration_text(
        StorageDeviceType::Nvme,
        took,
        "3s".to_string(),
        &Ok(()),
    );
    assert_eq!(event.duration, "3s");
    assert_eq!(event.outcome, Outcome::Success);
    assert_eq!(event.error, "");
}

#[test]
fn failed_attempts_are_integers() {
    for attempt in [i64::MIN, 0, -7, 120] {
        let record = ScoutFirmwareDownloadAttemptFailed {
            kind: FirmwareDownloadKind::Script,
            next_action: FirmwareDownloadNextAction::Retry,
            attempt,
            url: String::new(),
            error: String::new(),
            retry_delay_seconds: String::new(),
        }
        .record();
        assert_eq!(record.context[0], ("attempt", FieldValue::Integer(attempt)));
    }
}

#[test]
fn every_mlx_failure_counts_in_one_metric() {
    let s = |text: &str| text.to_string();
    for (record, labels, level) in [
        (
            ScoutMlxRegistryLookupFailed::registry_show_lookup(s("registry")).record(),
            ["registry_show", "lookup", "not_found"],
            Severity::Error,
        ),
        (
            ScoutMlxConfigRegistryLookupFailed::config_query_lookup(s("d"), s("r")).record(),
            ["config_query", "lookup", "not_found"],
            Severity::Warn,
        ),
        (
            ScoutMlxConfigRegistryLookupFailed::config_compare_lookup(s("d"), s("r")).record(),
            ["config_compare", "lookup", "not_found"],
            Severity::Warn,
        ),
        (
            ScoutMlxConfigRegistryLookupFailed::config_set_lookup(s("d"), s("r")).record(),
            ["config_set", "lookup", "not_found"],
            Severity::Warn,
        ),
        (
            ScoutMlxConfigRegistryLookupFailed::config_sync_lookup(s("d"), s("r")).record(),
            ["config_sync", "lookup", "not_found"],
            Severity::Warn,
        ),
        (
            ScoutMlxConfigOperationFailed::config_query_serialize(s("d"), s("r"), s("e")).record(),
            ["config_query", "serialize", "serialization"],
            Severity::Error,
        ),
        (
            ScoutMlxOperationFailed::observation_report_publish(s("e")).record(),
            ["observation_report", "publish", "rpc"],
            Severity::Error,
        ),
    ] {
        assert_eq!(
            counter_delta(
                &record,
                "carbide_scout_mlx_failures_total",
                &[
                    ("operation", labels[0]),
                    ("failure_stage", labels[1]),
                    ("failure_kind", labels[2]),
                ],
            ),
            1.0
        );
        assert_eq!(record.log_at, LogAt::Level(level));
    }
    let one = ScoutMlxDeviceOperationFailed::device_info_discover(s("a"), s("x")).record();
    let other = ScoutMlxDeviceOperationFailed::device_info_discover(s("b"), s("y")).record();
    assert_eq!(one.labels, other.labels, "context does not make another series");
}
