use execgo_runtime::cli::WaitArgs;
use execgo_runtime::error::AppError;
use execgo_runtime::repo::{
    clamp_count, completion_event, decode_error_code, decode_event_type, decode_status,
    duplicate_task_error, encode_error_code, encode_event_type, encode_status, event_message,
    generate_task_id, CompletionUpdate, MetricsSnapshot, NewTaskRecord, Repository, TaskRow,
};
use execgo_runtime::server::{healthz, readyz};
use execgo_runtime::types::{
    validate_task_id, ErrorCode, EventType, ExecutionKind, ExecutionSpec, ResourceLimits,
    RuntimeErrorInfo, SandboxPolicy, SubmitTaskRequest, TaskStatus,
};
use std::time::Duration;

const STATUSES: [TaskStatus; 5] = [
    TaskStatus::Accepted,
    TaskStatus::Running,
    TaskStatus::Success,
    TaskStatus::Failed,
    TaskStatus::Cancelled,
];

#[test]
fn status_text_round_trips() {
    let texts = ["accepted", "running", "success", "failed", "cancelled"];
    for (s, t) in STATUSES.iter().zip(texts.iter()) {
        assert_eq!(encode_status(*s), *t);
        assert_eq!(decode_status(t), Some(*s));
    }
    assert_eq!(decode_status("Accepted"), None);
    assert_eq!(decode_status(""), None);
}

#[test]
fn error_code_text_round_trips() {
    let codes = [
        (ErrorCode::InvalidInput, "invalid_input"),
        (ErrorCode::LaunchFailed, "launch_failed"),
        (ErrorCode::Timeout, "timeout"),
        (ErrorCode::Cancelled, "cancelled"),
        (ErrorCode::MemoryLimitExceeded, "memory_limit_exceeded"),
        (ErrorCode::CpuLimitExceeded, "cpu_limit_exceeded"),
        (ErrorCode::ResourceLimitExceeded, "resource_limit_exceeded"),
        (ErrorCode::SandboxSetupFailed, "sandbox_setup_failed"),
        (ErrorCode::ExitNonZero, "exit_nonzero"),
        (ErrorCode::Internal, "internal"),
        (ErrorCode::UnsupportedCapability, "unsupported_capability"),
        (ErrorCode::InsufficientResources, "insufficient_resources"),
    ];
    for (c, t) in codes {
        assert_eq!(encode_error_code(c), t);
        assert_eq!(decode_error_code(t), Some(c));
    }
    assert_eq!(decode_error_code("oom"), None);
}

#[test]
fn event_type_text_round_trips() {
    let events = [
        (EventType::Submitted, "submitted", "task submitted"),
        (EventType::Accepted, "accepted", "task accepted"),
        (EventType::Started, "started", "task started"),
        (EventType::KillRequested, "kill_requested", "kill requested"),
        (EventType::TimeoutTriggered, "timeout_triggered", "timeout triggered"),
        (EventType::Finished, "finished", "task finished"),
        (EventType::Failed, "failed", "task failed"),
        (EventType::Cancelled, "cancelled", "task cancelled"),
        (EventType::Recovered, "recovered", "task recovered"),
    ];
    for (e, t, m) in events {
        assert_eq!(encode_event_type(e), t);
        assert_eq!(decode_event_type(t), Some(e));
        assert_eq!(event_message(e), m);
    }
    assert_eq!(decode_event_type("planned"), None);
}

#[test]
fn completion_records_matching_event() {
    assert_eq!(completion_event(TaskStatus::Success), EventType::Finished);
    assert_eq!(completion_event(TaskStatus::Failed), EventType::Failed);
    assert_eq!(completion_event(TaskStatus::Cancelled), EventType::Cancelled);
    assert_eq!(completion_event(TaskStatus::Running), EventType::Finished);
    assert_eq!(completion_event(TaskStatus::Accepted), EventType::Finished);
}

#[test]
fn recovery_lost_is_an_internal_failure() {
    let u = Repository::recovery_lost_update(1234);
    assert_eq!(u.status, TaskStatus::Failed);
    assert_eq!(u.finished_at_ms, 1234);
    assert_eq!(u.duration_ms, Some(0));
    let err = u.error.clone().unwrap();
    assert_eq!(err.code, ErrorCode::Internal);
    assert_eq!(err.message, "recovery_lost");
    let v = u.completion_values().unwrap();
    assert_eq!(v.status, "failed");
    assert_eq!(v.duration_ms, Some(0));
    assert_eq!(v.error_code, Some("internal"));
    assert_eq!(v.event, EventType::Failed);
    assert_eq!(v.message, "task failed");
}

#[test]
fn completion_rejects_unstorable_duration() {
    let u = CompletionUpdate {
        status: TaskStatus::Success,
        finished_at_ms: 0,
        duration_ms: Some(u64::MAX),
        exit_code: Some(0),
        exit_signal: None,
        error: None,
        usage: None,
        result_json: None,
    };
    assert_eq!(
        u.completion_values().unwrap_err(),
        AppError::InvalidInput("duration_ms is too large to persist".into())
    );
}

fn request(stdout_max: u64) -> SubmitTaskRequest {
    SubmitTaskRequest {
        task_id: Some("t-1".into()),
        execution: ExecutionSpec {
            kind: ExecutionKind::Command,
            program: Some("/bin/sh".into()),
            args: vec!["-c".into(), "echo hi".into()],
            script: None,
            interpreter: None,
            env: Vec::new(),
        },
        limits: ResourceLimits { stdout_max_bytes: stdout_max, ..ResourceLimits::default() },
        sandbox: SandboxPolicy::default(),
        metadata: vec![("source".into(), "tests".into())],
    }
}

fn new_task(stdout_max: u64) -> NewTaskRecord {
    NewTaskRecord {
        task_id: "t-1".into(),
        request: request(stdout_max),
        task_dir: "/d/tasks/t-1".into(),
        workspace_dir: "/d/tasks/t-1/workspace".into(),
        request_path: "/d/tasks/t-1/request.json".into(),
        result_path: "/d/tasks/t-1/result.json".into(),
        stdout_path: "/d/tasks/t-1/stdout.log".into(),
        stderr_path: "/d/tasks/t-1/stderr.log".into(),
        script_path: None,
    }
}

#[test]
fn new_tasks_are_stored_accepted_with_two_events() {
    let v = new_task(65536).insert_values().unwrap();
    assert_eq!(v.handle_id, "t-1");
    assert_eq!(v.status, "accepted");
    assert_eq!(v.stdout_max_bytes, 65536);
    assert_eq!(v.stderr_max_bytes, 4194304);
    assert_eq!(v.events, vec![EventType::Submitted, EventType::Accepted]);
    assert_eq!(
        new_task(1 << 63).insert_values().unwrap_err(),
        AppError::InvalidInput("stdout_max_bytes is too large".into())
    );
    assert_eq!(
        duplicate_task_error("t-1"),
        AppError::Conflict("task t-1 already exists".into())
    );
}

fn row(status: &str, error_code: Option<&str>) -> TaskRow {
    let req = request(10);
    TaskRow {
        task_id: "t-1".into(),
        handle_id: "t-1".into(),
        status: status.into(),
        execution: req.execution,
        limits: req.limits,
        sandbox: req.sandbox,
        metadata: req.metadata,
        created_at_ms: 10,
        updated_at_ms: 20,
        started_at_ms: Some(15),
        finished_at_ms: None,
        duration_ms: Some(-5),
        shim_pid: Some(4294967296 + 7),
        pid: Some(42),
        pgid: Some(42),
        exit_code: None,
        exit_signal: None,
        error_code: error_code.map(|s| s.to_string()),
        error: error_code.map(|_| RuntimeErrorInfo {
            code: ErrorCode::Timeout,
            message: "timed out".into(),
            details: None,
        }),
        usage: None,
        task_dir: "/d".into(),
        workspace_dir: "/d/workspace".into(),
        request_path: "/d/request.json".into(),
        result_path: "/d/result.json".into(),
        stdout_path: "/d/stdout.log".into(),
        stderr_path: "/d/stderr.log".into(),
        script_path: None,
        stdout_max_bytes: -1,
        stderr_max_bytes: 99,
        kill_requested: 2,
        kill_requested_at_ms: Some(18),
        timeout_triggered: 0,
        result_json: None,
    }
}

#[test]
fn rows_decode_into_records() {
    let rec = row("running", Some("timeout")).into_record().unwrap();
    assert_eq!(rec.status, TaskStatus::Running);
    assert_eq!(rec.error_code, Some(ErrorCode::Timeout));
    assert_eq!(rec.duration_ms, Some(0));
    assert_eq!(rec.shim_pid, Some(7));
    assert_eq!(rec.pid, Some(42));
    assert_eq!(rec.stdout_max_bytes, 0);
    assert_eq!(rec.stderr_max_bytes, 99);
    assert!(rec.kill_requested);
    assert!(!rec.timeout_triggered);
    assert_eq!(rec.created_at_ms, 10);
    assert_eq!(row("paused", None).into_record().unwrap_err(), "paused");
    assert_eq!(row("failed", Some("oom")).into_record().unwrap_err(), "oom");
}

#[test]
fn counts_are_never_negative() {
    assert_eq!(clamp_count(-3), 0);
    assert_eq!(clamp_count(0), 0);
    assert_eq!(clamp_count(17), 17);
    let m = MetricsSnapshot::default();
    assert!(m.by_status.is_empty() && m.by_error_code.is_empty() && m.finished_durations_ms.is_empty());
}

#[test]
fn generated_task_ids_are_valid_uuid_v4() {
    for _ in 0..32 {
        let id = generate_task_id();
        assert_eq!(id.len(), 36);
        let chars: Vec<char> = id.chars().collect();
        for (i, c) in chars.iter().enumerate() {
            if [8, 13, 18, 23].contains(&i) {
                assert_eq!(*c, '-');
            } else {
                assert!(c.is_ascii_digit() || ('a'..='f').contains(c));
            }
        }
        assert_eq!(chars[14], '4');
        assert!(['8', '9', 'a', 'b'].contains(&chars[19]));
        assert_eq!(validate_task_id(&id), Ok(()));
    }
    assert_ne!(generate_task_id(), generate_task_id());
}

#[test]
fn repository_keeps_its_path() {
    let r = Repository::new("/data/runtime.db".to_string());
    assert_eq!(r.db_path(), "/data/runtime.db");
}

#[test]
fn health_bodies() {
    let h = healthz("1.1.0");
    assert_eq!((h.status.as_str(), h.version.as_str()), ("ok", "1.1.0"));
    let r = readyz("1.1.0");
    assert_eq!((r.status.as_str(), r.version.as_str()), ("ready", "1.1.0"));
}

#[test]
fn wait_timeout_in_millis() {
    let mut w = WaitArgs { server: "http://127.0.0.1:8080".into(), task_id: "t".into(), timeout_ms: Some(1500), poll_interval_ms: 500 };
    assert_eq!(w.timeout(), Some(Duration::from_millis(1500)));
    w.timeout_ms = None;
    assert_eq!(w.timeout(), None);
}

#[test]
fn queued_cancellation_values() {
    let err = RuntimeErrorInfo { code: ErrorCode::Cancelled, message: "cancelled before start".into(), details: None };
    let u = Repository::cancellation_update(99, err.clone(), "{}".into());
    assert_eq!(u.status, TaskStatus::Cancelled);
    assert_eq!(u.duration_ms, Some(0));
    assert_eq!(u.error, Some(err));
    let v = u.completion_values().unwrap();
    assert_eq!(v.status, "cancelled");
    assert_eq!(v.error_code, Some("cancelled"));
    assert_eq!(v.event, EventType::Cancelled);
    assert_eq!(v.message, "task cancelled");
}

#[test]
fn cancellation_result_document() {
    let err = RuntimeErrorInfo { code: ErrorCode::Cancelled, message: "cancelled".into(), details: None };
    let r = Repository::cancellation_result("t-9", 1700000000000, err.clone());
    assert_eq!(r.task_id, "t-9");
    assert_eq!(r.handle_id, "t-9");
    assert_eq!(r.status, TaskStatus::Cancelled);
    assert_eq!(r.finished_at_ms, 1700000000000);
    assert_eq!(r.error, err);
}
