//! Tests of status classification, the transport conversion, and the
//! configuration builders.

use pollers::commands::{
    complete_execution_completion, complete_timer_completion, schedule_activity_cmd,
    ActivityCancellationType, StartTimerCommand, WorkflowCommand,
};
use pollers::gateway::{get_integ_server_options, get_integ_telem_options};
use pollers::starter::CoreWfStarter;
use pollers::status::{
    code_from_value, status_code, status_to_terminal_error, StatusCode, TerminalError,
};

#[test]
fn wire_values_map_to_codes() {
    let expected = [
        StatusCode::Okay,
        StatusCode::Cancelled,
        StatusCode::Unknown,
        StatusCode::InvalidArgument,
        StatusCode::DeadlineExceeded,
        StatusCode::NotFound,
        StatusCode::AlreadyExists,
        StatusCode::PermissionDenied,
        StatusCode::ResourceExhausted,
        StatusCode::FailedPrecondition,
        StatusCode::Aborted,
        StatusCode::OutOfRange,
        StatusCode::Unimplemented,
        StatusCode::Internal,
        StatusCode::Unavailable,
        StatusCode::DataLoss,
        StatusCode::Unauthenticated,
    ];
    for (v, want) in expected.iter().enumerate() {
        assert_eq!(code_from_value(v as u32), *want);
    }
}

#[test]
fn transport_status_keeps_code_and_message() {
    let pairs = [
        (tonic::Code::NotFound, StatusCode::NotFound),
        (tonic::Code::Unavailable, StatusCode::Unavailable),
        (tonic::Code::DataLoss, StatusCode::DataLoss),
        (tonic::Code::InvalidArgument, StatusCode::InvalidArgument),
        (tonic::Code::ResourceExhausted, StatusCode::ResourceExhausted),
        (tonic::Code::Ok, StatusCode::Okay),
    ];
    for (wire, want) in pairs {
        let status = tonic::Status::new(wire, "queue vanished");
        assert_eq!(status_code(&status), want);
        let err = status_to_terminal_error(&status);
        assert_eq!(err.code, want);
        assert_eq!(err.message, "queue vanished");
    }
}

#[test]
fn terminal_error_holds_its_parts() {
    let e = TerminalError::new(StatusCode::PermissionDenied, String::from("denied"));
    assert_eq!(e.code, StatusCode::PermissionDenied);
    assert_eq!(e.message, "denied");
}

#[test]
fn starter_salts_the_task_queue() {
    let starter = CoreWfStarter::new("my_test");
    let q = starter.get_task_queue();
    // name, underscore, eight base64 characters of the six salt bytes
    assert_eq!(q.len(), "my_test".len() + 1 + 8);
    assert!(q.starts_with("my_test_"));
    assert_eq!(starter.get_wf_id(), "my_test");
    assert_eq!(starter.worker_config.max_cached_workflows, 1000);
    assert!(starter.wft_timeout_ms.is_none());
    // Two starters for the same test name almost surely differ in salt;
    // equal names would mean the salt ignores the random bytes.
    let other = CoreWfStarter::new("my_test");
    assert_ne!(q, other.get_task_queue());
}

#[test]
fn starter_setters_update_the_config() {
    let mut starter = CoreWfStarter::new("t");
    starter.max_cached_workflows(7);
    starter.max_wft(11);
    starter.max_at(13);
    starter.max_at_polls(17);
    starter.wft_timeout(19_000);
    assert_eq!(starter.worker_config.max_cached_workflows, 7);
    assert_eq!(starter.worker_config.max_outstanding_workflow_tasks, 11);
    assert_eq!(starter.worker_config.max_outstanding_activities, 13);
    assert_eq!(starter.worker_config.max_concurrent_at_polls, 17);
    assert_eq!(starter.wft_timeout_ms, Some(19_000));
}

#[test]
fn schedule_activity_cmd_fills_every_field() {
    let cmd = schedule_activity_cmd(
        1,
        "queue",
        "act-1",
        ActivityCancellationType::TryCancel,
        60_000,
        60_000,
    );
    match cmd {
        WorkflowCommand::ScheduleActivity(c) => {
            assert_eq!(c.seq, 1);
            assert_eq!(c.activity_id, "act-1");
            assert_eq!(c.activity_type, "test_activity");
            assert_eq!(c.namespace, "default");
            assert_eq!(c.task_queue, "queue");
            assert_eq!(c.schedule_to_start_timeout_ms, 60_000);
            assert_eq!(c.start_to_close_timeout_ms, 60_000);
            assert_eq!(c.schedule_to_close_timeout_ms, 60_000);
            assert_eq!(c.heartbeat_timeout_ms, 60_000);
            assert_eq!(c.cancellation_type, ActivityCancellationType::TryCancel);
        }
        other => panic!("expected a schedule-activity command, got {:?}", other),
    }
}

#[test]
fn completions_carry_their_commands() {
    let done = complete_execution_completion("q", "run-1");
    assert_eq!(done.task_queue, "q");
    assert_eq!(done.run_id, "run-1");
    assert_eq!(
        done.commands,
        vec![WorkflowCommand::CompleteWorkflowExecution]
    );
    let timer = complete_timer_completion("q", "run-1", 3, 1_000);
    assert_eq!(
        timer.commands,
        vec![WorkflowCommand::StartTimer(StartTimerCommand {
            seq: 3,
            start_to_fire_timeout_ms: 1_000,
        })]
    );
}

#[test]
fn integ_options_hold_the_test_identity() {
    let gw = get_integ_server_options(String::from("http://localhost:7233"));
    assert_eq!(gw.namespace, "default");
    assert_eq!(gw.identity, "integ_tester");
    assert_eq!(gw.worker_binary_id, "fakebinaryid");
    assert_eq!(gw.target_url, "http://localhost:7233");
    assert_eq!(gw.client_name, "temporal-core");
    assert_eq!(gw.client_version, "0.1.0");
    let telem = get_integ_telem_options(Some(String::from("http://otel:4317")), Some(9090));
    assert_eq!(telem.otel_collector_url.as_deref(), Some("http://otel:4317"));
    assert_eq!(telem.prometheus_export_port, Some(9090));
    assert_eq!(telem.tracing_filter, "temporal_sdk_core=INFO");
    assert!(telem.log_forwarding_off);
    let quiet = get_integ_telem_options(None, None);
    assert!(quiet.otel_collector_url.is_none());
    assert!(quiet.prometheus_export_port.is_none());
}
