//! The task store's own logic: how statuses, error codes and event kinds are
//! written as text and read back, which events each change records, how a
//! stored row becomes a task record, and how task ids are made.
use vstd::prelude::*;

use crate::error::{AppError, AppErrorView};
use crate::text::{is_ws, str_equals, trim, trim_end, trim_start};
use crate::types::{
    task_id_char, task_id_check, ErrorCode, EventType, ExecutionSpec, ResourceLimits,
    ResourceUsage, RuntimeErrorInfo, SandboxPolicy, SubmitTaskRequest, TaskStatus,
};

verus! {

/// Where the task database lives.
#[derive(Debug, Clone)]
pub struct Repository {
    db_path: String,
}

impl Repository {
    /// The path of the database file.
    pub closed spec fn path(self) -> Seq<char> {
        self.db_path@
    }

    /// A repository backed by the database at `db_path`.
    pub fn new(db_path: String) -> (r: Self)
        ensures
            r.path() == db_path@,
    {
        Repository { db_path }
    }

    /// The path of the database file.
    pub fn db_path(&self) -> (p: &str)
        ensures
            p@ == self.path(),
    {
        self.db_path.as_str()
    }
}

/// The stored text of each status.
pub open spec fn status_text(s: TaskStatus) -> Seq<char> {
    match s {
        TaskStatus::Accepted => "accepted"@,
        TaskStatus::Running => "running"@,
        TaskStatus::Success => "success"@,
        TaskStatus::Failed => "failed"@,
        TaskStatus::Cancelled => "cancelled"@,
    }
}

/// The status a stored text stands for, if any.
pub open spec fn status_from_text(t: Seq<char>) -> Option<TaskStatus> {
    if t == "accepted"@ {
        Some(TaskStatus::Accepted)
    } else if t == "running"@ {
        Some(TaskStatus::Running)
    } else if t == "success"@ {
        Some(TaskStatus::Success)
    } else if t == "failed"@ {
        Some(TaskStatus::Failed)
    } else if t == "cancelled"@ {
        Some(TaskStatus::Cancelled)
    } else {
        None
    }
}

/// The stored text of a status.
pub fn encode_status(status: TaskStatus) -> (t: &'static str)
    ensures
        t@ == status_text(status),
{
    match status {
        TaskStatus::Accepted => "accepted",
        TaskStatus::Running => "running",
        TaskStatus::Success => "success",
        TaskStatus::Failed => "failed",
        TaskStatus::Cancelled => "cancelled",
    }
}

/// The status a stored text stands for; `None` for an unknown text.
pub fn decode_status(value: &str) -> (s: Option<TaskStatus>)
    ensures
        s == status_from_text(value@),
{
    if str_equals(value, "accepted") {
        Some(TaskStatus::Accepted)
    } else if str_equals(value, "running") {
        Some(TaskStatus::Running)
    } else if str_equals(value, "success") {
        Some(TaskStatus::Success)
    } else if str_equals(value, "failed") {
        Some(TaskStatus::Failed)
    } else if str_equals(value, "cancelled") {
        Some(TaskStatus::Cancelled)
    } else {
        None
    }
}

/// The stored text of each error code.
pub open spec fn error_code_text(c: ErrorCode) -> Seq<char> {
    match c {
        ErrorCode::InvalidInput => "invalid_input"@,
        ErrorCode::LaunchFailed => "launch_failed"@,
        ErrorCode::Timeout => "timeout"@,
        ErrorCode::Cancelled => "cancelled"@,
        ErrorCode::MemoryLimitExceeded => "memory_limit_exceeded"@,
        ErrorCode::CpuLimitExceeded => "cpu_limit_exceeded"@,
        ErrorCode::ResourceLimitExceeded => "resource_limit_exceeded"@,
        ErrorCode::SandboxSetupFailed => "sandbox_setup_failed"@,
        ErrorCode::ExitNonZero => "exit_nonzero"@,
        ErrorCode::Internal => "internal"@,
        ErrorCode::UnsupportedCapability => "unsupported_capability"@,
        ErrorCode::InsufficientResources => "insufficient_resources"@,
    }
}

/// The error code a stored text stands for, if any.
pub open spec fn error_code_from_text(t: Seq<char>) -> Option<ErrorCode> {
    if t == "invalid_input"@ {
        Some(ErrorCode::InvalidInput)
    } else if t == "launch_failed"@ {
        Some(ErrorCode::LaunchFailed)
    } else if t == "timeout"@ {
        Some(ErrorCode::Timeout)
    } else if t == "cancelled"@ {
        Some(ErrorCode::Cancelled)
    } else if t == "memory_limit_exceeded"@ {
        Some(ErrorCode::MemoryLimitExceeded)
    } else if t == "cpu_limit_exceeded"@ {
        Some(ErrorCode::CpuLimitExceeded)
    } else if t == "resource_limit_exceeded"@ {
        Some(ErrorCode::ResourceLimitExceeded)
    } else if t == "sandbox_setup_failed"@ {
        Some(ErrorCode::SandboxSetupFailed)
    } else if t == "exit_nonzero"@ {
        Some(ErrorCode::ExitNonZero)
    } else if t == "internal"@ {
        Some(ErrorCode::Internal)
    } else if t == "unsupported_capability"@ {
        Some(ErrorCode::UnsupportedCapability)
    } else if t == "insufficient_resources"@ {
        Some(ErrorCode::InsufficientResources)
    } else {
        None
    }
}

/// The stored text of an error code.
pub fn encode_error_code(code: ErrorCode) -> (t: &'static str)
    ensures
        t@ == error_code_text(code),
{
    match code {
        ErrorCode::InvalidInput => "invalid_input",
        ErrorCode::LaunchFailed => "launch_failed",
        ErrorCode::Timeout => "timeout",
        ErrorCode::Cancelled => "cancelled",
        ErrorCode::MemoryLimitExceeded => "memory_limit_exceeded",
        ErrorCode::CpuLimitExceeded => "cpu_limit_exceeded",
        ErrorCode::ResourceLimitExceeded => "resource_limit_exceeded",
        ErrorCode::SandboxSetupFailed => "sandbox_setup_failed",
        ErrorCode::ExitNonZero => "exit_nonzero",
        ErrorCode::Internal => "internal",
        ErrorCode::UnsupportedCapability => "unsupported_capability",
        ErrorCode::InsufficientResources => "insufficient_resources",
    }
}

/// The error code a stored text stands for; `None` for an unknown text.
pub fn decode_error_code(value: &str) -> (c: Option<ErrorCode>)
    ensures
        c == error_code_from_text(value@),
{
    if str_equals(value, "invalid_input") {
        Some(ErrorCode::InvalidInput)
    } else if str_equals(value, "launch_failed") {
        Some(ErrorCode::LaunchFailed)
    } else if str_equals(value, "timeout") {
        Some(ErrorCode::Timeout)
    } else if str_equals(value, "cancelled") {
        Some(ErrorCode::Cancelled)
    } else if str_equals(value, "memory_limit_exceeded") {
        Some(ErrorCode::MemoryLimitExceeded)
    } else if str_equals(value, "cpu_limit_exceeded") {
        Some(ErrorCode::CpuLimitExceeded)
    } else if str_equals(value, "resource_limit_exceeded") {
        Some(ErrorCode::ResourceLimitExceeded)
    } else if str_equals(value, "sandbox_setup_failed") {
        Some(ErrorCode::SandboxSetupFailed)
    } else if str_equals(value, "exit_nonzero") {
        Some(ErrorCode::ExitNonZero)
    } else if str_equals(value, "internal") {
        Some(ErrorCode::Internal)
    } else if str_equals(value, "unsupported_capability") {
        Some(ErrorCode::UnsupportedCapability)
    } else if str_equals(value, "insufficient_resources") {
        Some(ErrorCode::InsufficientResources)
    } else {
        None
    }
}

/// The stored text of each event kind.
pub open spec fn event_type_text(e: EventType) -> Seq<char> {
    match e {
        EventType::Submitted => "submitted"@,
        EventType::Accepted => "accepted"@,
        EventType::Started => "started"@,
        EventType::KillRequested => "kill_requested"@,
        EventType::TimeoutTriggered => "timeout_triggered"@,
        EventType::Finished => "finished"@,
        EventType::Failed => "failed"@,
        EventType::Cancelled => "cancelled"@,
        EventType::Recovered => "recovered"@,
    }
}

/// The event kind a stored text stands for, if any.
pub open spec fn event_type_from_text(t: Seq<char>) -> Option<EventType> {
    if t == "submitted"@ {
        Some(EventType::Submitted)
    } else if t == "accepted"@ {
        Some(EventType::Accepted)
    } else if t == "started"@ {
        Some(EventType::Started)
    } else if t == "kill_requested"@ {
        Some(EventType::KillRequested)
    } else if t == "timeout_triggered"@ {
        Some(EventType::TimeoutTriggered)
    } else if t == "finished"@ {
        Some(EventType::Finished)
    } else if t == "failed"@ {
        Some(EventType::Failed)
    } else if t == "cancelled"@ {
        Some(EventType::Cancelled)
    } else if t == "recovered"@ {
        Some(EventType::Recovered)
    } else {
        None
    }
}

/// The stored text of an event kind.
pub fn encode_event_type(event_type: EventType) -> (t: &'static str)
    ensures
        t@ == event_type_text(event_type),
{
    match event_type {
        EventType::Submitted => "submitted",
        EventType::Accepted => "accepted",
        EventType::Started => "started",
        EventType::KillRequested => "kill_requested",
        EventType::TimeoutTriggered => "timeout_triggered",
        EventType::Finished => "finished",
        EventType::Failed => "failed",
        EventType::Cancelled => "cancelled",
        EventType::Recovered => "recovered",
    }
}

/// The event kind a stored text stands for; `None` for an unknown text.
pub fn decode_event_type(value: &str) -> (e: Option<EventType>)
    ensures
        e == event_type_from_text(value@),
{
    if str_equals(value, "submitted") {
        Some(EventType::Submitted)
    } else if str_equals(value, "accepted") {
        Some(EventType::Accepted)
    } else if str_equals(value, "started") {
        Some(EventType::Started)
    } else if str_equals(value, "kill_requested") {
        Some(EventType::KillRequested)
    } else if str_equals(value, "timeout_triggered") {
        Some(EventType::TimeoutTriggered)
    } else if str_equals(value, "finished") {
        Some(EventType::Finished)
    } else if str_equals(value, "failed") {
        Some(EventType::Failed)
    } else if str_equals(value, "cancelled") {
        Some(EventType::Cancelled)
    } else if str_equals(value, "recovered") {
        Some(EventType::Recovered)
    } else {
        None
    }
}

/// Every status reads back as itself from its stored text.
pub proof fn law_status_round_trip(s: TaskStatus)
    ensures
        status_from_text(status_text(s)) == Some(s),
{
    reveal_strlit("accepted");
    reveal_strlit("running");
    reveal_strlit("success");
    reveal_strlit("failed");
    reveal_strlit("cancelled");
    match s {
        TaskStatus::Accepted => {
        },
        TaskStatus::Running => {
            assert("running"@.len() != "accepted"@.len());
        },
        TaskStatus::Success => {
            assert("success"@.len() != "accepted"@.len());
            assert("success"@[0] != "running"@[0]);
        },
        TaskStatus::Failed => {
            assert("failed"@.len() != "accepted"@.len());
            assert("failed"@.len() != "running"@.len());
            assert("failed"@.len() != "success"@.len());
        },
        TaskStatus::Cancelled => {
            assert("cancelled"@.len() != "accepted"@.len());
            assert("cancelled"@.len() != "running"@.len());
            assert("cancelled"@.len() != "success"@.len());
            assert("cancelled"@.len() != "failed"@.len());
        },
    }
}

/// A text that reads as a status is that status's stored text.
pub proof fn law_status_text_is_canonical(t: Seq<char>)
    ensures
        status_from_text(t) matches Some(s) ==> status_text(s) == t,
{
}

/// Every error code reads back as itself from its stored text.
pub proof fn law_error_code_round_trip(c: ErrorCode)
    ensures
        error_code_from_text(error_code_text(c)) == Some(c),
{
    reveal_strlit("invalid_input");
    reveal_strlit("launch_failed");
    reveal_strlit("timeout");
    reveal_strlit("cancelled");
    reveal_strlit("memory_limit_exceeded");
    reveal_strlit("cpu_limit_exceeded");
    reveal_strlit("resource_limit_exceeded");
    reveal_strlit("sandbox_setup_failed");
    reveal_strlit("exit_nonzero");
    reveal_strlit("internal");
    reveal_strlit("unsupported_capability");
    reveal_strlit("insufficient_resources");
    match c {
        ErrorCode::InvalidInput => {
        },
        ErrorCode::LaunchFailed => {
            assert("launch_failed"@[0] != "invalid_input"@[0]);
        },
        ErrorCode::Timeout => {
            assert("timeout"@.len() != "invalid_input"@.len());
            assert("timeout"@.len() != "launch_failed"@.len());
        },
        ErrorCode::Cancelled => {
            assert("cancelled"@.len() != "invalid_input"@.len());
            assert("cancelled"@.len() != "launch_failed"@.len());
            assert("cancelled"@.len() != "timeout"@.len());
        },
        ErrorCode::MemoryLimitExceeded => {
            assert("memory_limit_exceeded"@.len() != "invalid_input"@.len());
            assert("memory_limit_exceeded"@.len() != "launch_failed"@.len());
            assert("memory_limit_exceeded"@.len() != "timeout"@.len());
            assert("memory_limit_exceeded"@.len() != "cancelled"@.len());
        },
        ErrorCode::CpuLimitExceeded => {
            assert("cpu_limit_exceeded"@.len() != "invalid_input"@.len());
            assert("cpu_limit_exceeded"@.len() != "launch_failed"@.len());
            assert("cpu_limit_exceeded"@.len() != "timeout"@.len());
            assert("cpu_limit_exceeded"@.len() != "cancelled"@.len());
            assert("cpu_limit_exceeded"@.len() != "memory_limit_exceeded"@.len());
        },
        ErrorCode::ResourceLimitExceeded => {
            assert("resource_limit_exceeded"@.len() != "invalid_input"@.len());
            assert("resource_limit_exceeded"@.len() != "launch_failed"@.len());
            assert("resource_limit_exceeded"@.len() != "timeout"@.len());
            assert("resource_limit_exceeded"@.len() != "cancelled"@.len());
            assert("resource_limit_exceeded"@.len() != "memory_limit_exceeded"@.len());
            assert("resource_limit_exceeded"@.len() != "cpu_limit_exceeded"@.len());
        },
        ErrorCode::SandboxSetupFailed => {
            assert("sandbox_setup_failed"@.len() != "invalid_input"@.len());
            assert("sandbox_setup_failed"@.len() != "launch_failed"@.len());
            assert("sandbox_setup_failed"@.len() != "timeout"@.len());
            assert("sandbox_setup_failed"@.len() != "cancelled"@.len());
            assert("sandbox_setup_failed"@.len() != "memory_limit_exceeded"@.len());
            assert("sandbox_setup_failed"@.len() != "cpu_limit_exceeded"@.len());
            assert("sandbox_setup_failed"@.len() != "resource_limit_exceeded"@.len());
        },
        ErrorCode::ExitNonZero => {
            assert("exit_nonzero"@.len() != "invalid_input"@.len());
            assert("exit_nonzero"@.len() != "launch_failed"@.len());
            assert("exit_nonzero"@.len() != "timeout"@.len());
            assert("exit_nonzero"@.len() != "cancelled"@.len());
            assert("exit_nonzero"@.len() != "memory_limit_exceeded"@.len());
            assert("exit_nonzero"@.len() != "cpu_limit_exceeded"@.len());
            assert("exit_nonzero"@.len() != "resource_limit_exceeded"@.len());
            assert("exit_nonzero"@.len() != "sandbox_setup_failed"@.len());
        },
        ErrorCode::Internal => {
            assert("internal"@.len() != "invalid_input"@.len());
            assert("internal"@.len() != "launch_failed"@.len());
            assert("internal"@.len() != "timeout"@.len());
            assert("internal"@.len() != "cancelled"@.len());
            assert("internal"@.len() != "memory_limit_exceeded"@.len());
            assert("internal"@.len() != "cpu_limit_exceeded"@.len());
            assert("internal"@.len() != "resource_limit_exceeded"@.len());
            assert("internal"@.len() != "sandbox_setup_failed"@.len());
            assert("internal"@.len() != "exit_nonzero"@.len());
        },
        ErrorCode::UnsupportedCapability => {
            assert("unsupported_capability"@.len() != "invalid_input"@.len());
            assert("unsupported_capability"@.len() != "launch_failed"@.len());
            assert("unsupported_capability"@.len() != "timeout"@.len());
            assert("unsupported_capability"@.len() != "cancelled"@.len());
            assert("unsupported_capability"@.len() != "memory_limit_exceeded"@.len());
            assert("unsupported_capability"@.len() != "cpu_limit_exceeded"@.len());
            assert("unsupported_capability"@.len() != "resource_limit_exceeded"@.len());
            assert("unsupported_capability"@.len() != "sandbox_setup_failed"@.len());
            assert("unsupported_capability"@.len() != "exit_nonzero"@.len());
            assert("unsupported_capability"@.len() != "internal"@.len());
        },
        ErrorCode::InsufficientResources => {
            assert("insufficient_resources"@.len() != "invalid_input"@.len());
            assert("insufficient_resources"@.len() != "launch_failed"@.len());
            assert("insufficient_resources"@.len() != "timeout"@.len());
            assert("insufficient_resources"@.len() != "cancelled"@.len());
            assert("insufficient_resources"@.len() != "memory_limit_exceeded"@.len());
            assert("insufficient_resources"@.len() != "cpu_limit_exceeded"@.len());
            assert("insufficient_resources"@.len() != "resource_limit_exceeded"@.len());
            assert("insufficient_resources"@.len() != "sandbox_setup_failed"@.len());
            assert("insufficient_resources"@.len() != "exit_nonzero"@.len());
            assert("insufficient_resources"@.len() != "internal"@.len());
            assert("insufficient_resources"@[0] != "unsupported_capability"@[0]);
        },
    }
}

/// A text that reads as an error code is that code's stored text.
pub proof fn law_error_code_text_is_canonical(t: Seq<char>)
    ensures
        error_code_from_text(t) matches Some(c) ==> error_code_text(c) == t,
{
}

/// Every event kind reads back as itself from its stored text.
pub proof fn law_event_type_round_trip(e: EventType)
    ensures
        event_type_from_text(event_type_text(e)) == Some(e),
{
    reveal_strlit("submitted");
    reveal_strlit("accepted");
    reveal_strlit("started");
    reveal_strlit("kill_requested");
    reveal_strlit("timeout_triggered");
    reveal_strlit("finished");
    reveal_strlit("failed");
    reveal_strlit("cancelled");
    reveal_strlit("recovered");
    match e {
        EventType::Submitted => {
        },
        EventType::Accepted => {
            assert("accepted"@.len() != "submitted"@.len());
        },
        EventType::Started => {
            assert("started"@.len() != "submitted"@.len());
            assert("started"@.len() != "accepted"@.len());
        },
        EventType::KillRequested => {
            assert("kill_requested"@.len() != "submitted"@.len());
            assert("kill_requested"@.len() != "accepted"@.len());
            assert("kill_requested"@.len() != "started"@.len());
        },
        EventType::TimeoutTriggered => {
            assert("timeout_triggered"@.len() != "submitted"@.len());
            assert("timeout_triggered"@.len() != "accepted"@.len());
            assert("timeout_triggered"@.len() != "started"@.len());
            assert("timeout_triggered"@.len() != "kill_requested"@.len());
        },
        EventType::Finished => {
            assert("finished"@.len() != "submitted"@.len());
            assert("finished"@[0] != "accepted"@[0]);
            assert("finished"@.len() != "started"@.len());
            assert("finished"@.len() != "kill_requested"@.len());
            assert("finished"@.len() != "timeout_triggered"@.len());
        },
        EventType::Failed => {
            assert("failed"@.len() != "submitted"@.len());
            assert("failed"@.len() != "accepted"@.len());
            assert("failed"@.len() != "started"@.len());
            assert("failed"@.len() != "kill_requested"@.len());
            assert("failed"@.len() != "timeout_triggered"@.len());
            assert("failed"@.len() != "finished"@.len());
        },
        EventType::Cancelled => {
            assert("cancelled"@[0] != "submitted"@[0]);
            assert("cancelled"@.len() != "accepted"@.len());
            assert("cancelled"@.len() != "started"@.len());
            assert("cancelled"@.len() != "kill_requested"@.len());
            assert("cancelled"@.len() != "timeout_triggered"@.len());
            assert("cancelled"@.len() != "finished"@.len());
            assert("cancelled"@.len() != "failed"@.len());
        },
        EventType::Recovered => {
            assert("recovered"@[0] != "submitted"@[0]);
            assert("recovered"@.len() != "accepted"@.len());
            assert("recovered"@.len() != "started"@.len());
            assert("recovered"@.len() != "kill_requested"@.len());
            assert("recovered"@.len() != "timeout_triggered"@.len());
            assert("recovered"@.len() != "finished"@.len());
            assert("recovered"@.len() != "failed"@.len());
            assert("recovered"@[0] != "cancelled"@[0]);
        },
    }
}

/// A text that reads as an event kind is that kind's stored text.
pub proof fn law_event_type_text_is_canonical(t: Seq<char>)
    ensures
        event_type_from_text(t) matches Some(e) ==> event_type_text(e) == t,
{
}

/// The message recorded with each kind of event.
pub open spec fn event_message_text(e: EventType) -> Seq<char> {
    match e {
        EventType::Submitted => "task submitted"@,
        EventType::Accepted => "task accepted"@,
        EventType::Started => "task started"@,
        EventType::KillRequested => "kill requested"@,
        EventType::TimeoutTriggered => "timeout triggered"@,
        EventType::Finished => "task finished"@,
        EventType::Failed => "task failed"@,
        EventType::Cancelled => "task cancelled"@,
        EventType::Recovered => "task recovered"@,
    }
}

/// The message recorded with an event of the given kind.
pub fn event_message(event_type: EventType) -> (m: &'static str)
    ensures
        m@ == event_message_text(event_type),
{
    match event_type {
        EventType::Submitted => "task submitted",
        EventType::Accepted => "task accepted",
        EventType::Started => "task started",
        EventType::KillRequested => "kill requested",
        EventType::TimeoutTriggered => "timeout triggered",
        EventType::Finished => "task finished",
        EventType::Failed => "task failed",
        EventType::Cancelled => "task cancelled",
        EventType::Recovered => "task recovered",
    }
}

/// The event that completing a task with the given status records.
pub open spec fn completion_event_of(s: TaskStatus) -> EventType {
    match s {
        TaskStatus::Success => EventType::Finished,
        TaskStatus::Failed => EventType::Failed,
        TaskStatus::Cancelled => EventType::Cancelled,
        TaskStatus::Accepted | TaskStatus::Running => EventType::Finished,
    }
}

/// The event that completing a task with the given status records.
pub fn completion_event(status: TaskStatus) -> (e: EventType)
    ensures
        e == completion_event_of(status),
{
    match status {
        TaskStatus::Success => EventType::Finished,
        TaskStatus::Failed => EventType::Failed,
        TaskStatus::Cancelled => EventType::Cancelled,
        TaskStatus::Accepted | TaskStatus::Running => EventType::Finished,
    }
}

/// A stored count, never below zero.
pub fn clamp_count(value: i64) -> (r: u64)
    ensures
        r == if value < 0 { 0 } else { value },
{
    if value < 0 {
        0
    } else {
        value as u64
    }
}

/// An unsigned amount as the signed integer the database holds, if it fits.
pub fn u64_to_i64(value: u64) -> (r: Option<i64>)
    ensures
        r matches Some(v) ==> v == value,
        r is None <==> value > i64::MAX,
{
    if value <= i64::MAX as u64 {
        Some(value as i64)
    } else {
        None
    }
}

/// A task about to be stored: its request and the paths of its files.
#[derive(Debug, Clone)]
pub struct NewTaskRecord {
    pub task_id: String,
    pub request: SubmitTaskRequest,
    pub task_dir: String,
    pub workspace_dir: String,
    pub request_path: String,
    pub result_path: String,
    pub stdout_path: String,
    pub stderr_path: String,
    pub script_path: Option<String>,
}

/// The values that storing a new task writes beside its request: the
/// handle id, the initial status, the output caps as stored integers, and
/// the events it records, in order.
#[derive(Debug)]
pub struct TaskInsert {
    pub handle_id: String,
    pub status: &'static str,
    pub stdout_max_bytes: i64,
    pub stderr_max_bytes: i64,
    pub events: Vec<EventType>,
}

impl NewTaskRecord {
    /// The outcome of `insert_values`: an error when an output cap does not
    /// fit in the database's integers.
    pub open spec fn insert_check(self) -> Result<(), AppErrorView> {
        if self.request.limits.stdout_max_bytes > i64::MAX {
            Err(AppErrorView::InvalidInput("stdout_max_bytes is too large"@))
        } else if self.request.limits.stderr_max_bytes > i64::MAX {
            Err(AppErrorView::InvalidInput("stderr_max_bytes is too large"@))
        } else {
            Ok(())
        }
    }

    /// The row values and events that a new task starts with.
    /// It starts accepted, with its id as handle, and records a submission
    /// then an acceptance.
    pub fn insert_values(&self) -> (r: Result<TaskInsert, AppError>)
        ensures
            match r {
                Ok(v) => {
                    &&& self.insert_check() is Ok
                    &&& v.handle_id@ == self.task_id@
                    &&& v.status@ == status_text(TaskStatus::Accepted)
                    &&& v.stdout_max_bytes == self.request.limits.stdout_max_bytes
                    &&& v.stderr_max_bytes == self.request.limits.stderr_max_bytes
                    &&& v.events@ == seq![EventType::Submitted, EventType::Accepted]
                },
                Err(e) => self.insert_check() == Err::<(), AppErrorView>(e@),
            },
    {
        let stdout_max_bytes = match u64_to_i64(self.request.limits.stdout_max_bytes) {
            Some(v) => v,
            None => {
                return Err(AppError::InvalidInput(String::from_str("stdout_max_bytes is too large")))
            },
        };
        let stderr_max_bytes = match u64_to_i64(self.request.limits.stderr_max_bytes) {
            Some(v) => v,
            None => {
                return Err(AppError::InvalidInput(String::from_str("stderr_max_bytes is too large")))
            },
        };
        let mut events: Vec<EventType> = Vec::new();
        events.push(EventType::Submitted);
        events.push(EventType::Accepted);
        assert(events@ =~= seq![EventType::Submitted, EventType::Accepted]);
        Ok(
            TaskInsert {
                handle_id: self.task_id.clone(),
                status: encode_status(TaskStatus::Accepted),
                stdout_max_bytes,
                stderr_max_bytes,
                events,
            },
        )
    }
}

/// The error for a task id that is already stored.
pub fn duplicate_task_error(task_id: &str) -> (e: AppError)
    ensures
        e@ == AppErrorView::Conflict("task "@ + task_id@ + " already exists"@),
{
    AppError::Conflict(String::from_str("task ").concat(task_id).concat(" already exists"))
}

/// How a task ended. `finished_at_ms` is milliseconds since the Unix epoch;
/// `result_json` is the final status document as JSON text.
#[derive(Debug, Clone)]
pub struct CompletionUpdate {
    pub status: TaskStatus,
    pub finished_at_ms: i64,
    pub duration_ms: Option<u64>,
    pub exit_code: Option<i32>,
    pub exit_signal: Option<i32>,
    pub error: Option<RuntimeErrorInfo>,
    pub usage: Option<ResourceUsage>,
    pub result_json: Option<String>,
}

/// The final status document of a task cancelled while still queued.
/// `finished_at_ms` is milliseconds since the Unix epoch.
#[derive(Debug, Clone)]
pub struct CancellationResult {
    pub task_id: String,
    pub handle_id: String,
    pub status: TaskStatus,
    pub finished_at_ms: i64,
    pub error: RuntimeErrorInfo,
}

/// The values that completing a task writes beside the update's own fields.
#[derive(Debug)]
pub struct CompletionValues {
    pub status: &'static str,
    pub duration_ms: Option<i64>,
    pub error_code: Option<&'static str>,
    pub event: EventType,
    pub message: &'static str,
}

impl CompletionUpdate {
    /// The outcome of `completion_values`.
    pub open spec fn completion_check(self) -> Result<(), AppErrorView> {
        if self.duration_ms matches Some(d) && d > i64::MAX {
            Err(AppErrorView::InvalidInput("duration_ms is too large to persist"@))
        } else {
            Ok(())
        }
    }

    /// What completing a task with this update writes: the status text, the
    /// duration as a stored integer, the error's code text, and the event
    /// (with its message) that the completion records.
    pub fn completion_values(&self) -> (r: Result<CompletionValues, AppError>)
        ensures
            match r {
                Ok(v) => {
                    &&& self.completion_check() is Ok
                    &&& v.status@ == status_text(self.status)
                    &&& v.duration_ms == match self.duration_ms {
                        Some(d) => Some(d as i64),
                        None => None::<i64>,
                    }
                    &&& v.error_code is Some == self.error is Some
                    &&& (v.error_code matches Some(t) ==> t@ == error_code_text(
                        self.error->0.code,
                    ))
                    &&& v.event == completion_event_of(self.status)
                    &&& v.message@ == event_message_text(completion_event_of(self.status))
                },
                Err(e) => self.completion_check() == Err::<(), AppErrorView>(e@),
            },
    {
        let duration_ms = match self.duration_ms {
            Some(d) => match u64_to_i64(d) {
                Some(v) => Some(v),
                None => {
                    return Err(
                        AppError::InvalidInput(
                            String::from_str("duration_ms is too large to persist"),
                        ),
                    )
                },
            },
            None => None,
        };
        let error_code = match &self.error {
            Some(e) => Some(encode_error_code(e.code)),
            None => None,
        };
        let event = completion_event(self.status);
        Ok(
            CompletionValues {
                status: encode_status(self.status),
                duration_ms,
                error_code,
                event,
                message: event_message(event),
            },
        )
    }
}

impl Repository {
    /// The final status document of a task cancelled while still queued:
    /// its id (also as handle), status cancelled, when it was cancelled, and
    /// why.
    pub fn cancellation_result(task_id: &str, finished_at_ms: i64, error: RuntimeErrorInfo) -> (r: CancellationResult)
        ensures
            r.task_id@ == task_id@,
            r.handle_id@ == task_id@,
            r.status == TaskStatus::Cancelled,
            r.finished_at_ms == finished_at_ms,
            r.error == error,
    {
        CancellationResult {
            task_id: String::from_str(task_id),
            handle_id: String::from_str(task_id),
            status: TaskStatus::Cancelled,
            finished_at_ms,
            error,
        }
    }

    /// The update that cancels a task still waiting in the queue: cancelled
    /// at `finished_at_ms` after no run time, with the given error and final
    /// status document, and no exit code, signal or usage.
    pub fn cancellation_update(finished_at_ms: i64, error: RuntimeErrorInfo, result_json: String) -> (u: CompletionUpdate)
        ensures
            u.status == TaskStatus::Cancelled,
            u.finished_at_ms == finished_at_ms,
            u.duration_ms == Some(0u64),
            u.exit_code is None,
            u.exit_signal is None,
            u.error == Some(error),
            u.usage is None,
            u.result_json == Some(result_json),
    {
        CompletionUpdate {
            status: TaskStatus::Cancelled,
            finished_at_ms,
            duration_ms: Some(0),
            exit_code: None,
            exit_signal: None,
            error: Some(error),
            usage: None,
            result_json: Some(result_json),
        }
    }

    /// The update that marks a task whose shim vanished across a restart as
    /// failed: no exit code or signal, no usage, zero duration, and an
    /// internal error `recovery_lost`.
    pub fn recovery_lost_update(finished_at_ms: i64) -> (u: CompletionUpdate)
        ensures
            u.status == TaskStatus::Failed,
            u.finished_at_ms == finished_at_ms,
            u.duration_ms == Some(0u64),
            u.exit_code is None,
            u.exit_signal is None,
            u.error matches Some(e) && e.code == ErrorCode::Internal && e.message@
                == "recovery_lost"@ && e.details is None,
            u.usage is None,
            u.result_json is None,
    {
        CompletionUpdate {
            status: TaskStatus::Failed,
            finished_at_ms,
            duration_ms: Some(0),
            exit_code: None,
            exit_signal: None,
            error: Some(
                RuntimeErrorInfo {
                    code: ErrorCode::Internal,
                    message: String::from_str("recovery_lost"),
                    details: None,
                },
            ),
            usage: None,
            result_json: None,
        }
    }
}

/// A stored task as the database returns it. The JSON columns
/// (execution, limits, sandbox, metadata, error, usage) come already parsed;
/// times are milliseconds since the Unix epoch.
#[derive(Debug, Clone)]
pub struct TaskRow {
    pub task_id: String,
    pub handle_id: String,
    pub status: String,
    pub execution: ExecutionSpec,
    pub limits: ResourceLimits,
    pub sandbox: SandboxPolicy,
    pub metadata: Vec<(String, String)>,
    pub created_at_ms: i64,
    pub updated_at_ms: i64,
    pub started_at_ms: Option<i64>,
    pub finished_at_ms: Option<i64>,
    pub duration_ms: Option<i64>,
    pub shim_pid: Option<i64>,
    pub pid: Option<i64>,
    pub pgid: Option<i32>,
    pub exit_code: Option<i32>,
    pub exit_signal: Option<i32>,
    pub error_code: Option<String>,
    pub error: Option<RuntimeErrorInfo>,
    pub usage: Option<ResourceUsage>,
    pub task_dir: String,
    pub workspace_dir: String,
    pub request_path: String,
    pub result_path: String,
    pub stdout_path: String,
    pub stderr_path: String,
    pub script_path: Option<String>,
    pub stdout_max_bytes: i64,
    pub stderr_max_bytes: i64,
    pub kill_requested: i64,
    pub kill_requested_at_ms: Option<i64>,
    pub timeout_triggered: i64,
    pub result_json: Option<String>,
}

/// A stored task. Times are milliseconds since the Unix epoch;
/// `result_json` is the final status document as JSON text.
#[derive(Debug, Clone)]
pub struct TaskRecord {
    pub task_id: String,
    pub handle_id: String,
    pub status: TaskStatus,
    pub execution: ExecutionSpec,
    pub limits: ResourceLimits,
    pub sandbox: SandboxPolicy,
    pub metadata: Vec<(String, String)>,
    pub created_at_ms: i64,
    pub updated_at_ms: i64,
    pub started_at_ms: Option<i64>,
    pub finished_at_ms: Option<i64>,
    pub duration_ms: Option<u64>,
    pub shim_pid: Option<u32>,
    pub pid: Option<u32>,
    pub pgid: Option<i32>,
    pub exit_code: Option<i32>,
    pub exit_signal: Option<i32>,
    pub error_code: Option<ErrorCode>,
    pub error: Option<RuntimeErrorInfo>,
    pub usage: Option<ResourceUsage>,
    pub task_dir: String,
    pub workspace_dir: String,
    pub request_path: String,
    pub result_path: String,
    pub stdout_path: String,
    pub stderr_path: String,
    pub script_path: Option<String>,
    pub stdout_max_bytes: u64,
    pub stderr_max_bytes: u64,
    pub kill_requested: bool,
    pub kill_requested_at_ms: Option<i64>,
    pub timeout_triggered: bool,
    pub result_json: Option<String>,
}

/// A stored signed amount read as unsigned, negative values as zero.
pub open spec fn clamped(v: i64) -> u64 {
    if v < 0 { 0 } else { v as u64 }
}

/// A stored process id read as `u32`, keeping its low 32 bits.
pub open spec fn low_u32(v: i64) -> u32 {
    v as u32
}

fn clamp_opt(v: Option<i64>) -> (r: Option<u64>)
    ensures
        r == match v {
            Some(x) => Some(clamped(x)),
            None => None::<u64>,
        },
{
    match v {
        Some(x) => Some(clamp_count(x)),
        None => None,
    }
}

fn low_u32_opt(v: Option<i64>) -> (r: Option<u32>)
    ensures
        r == match v {
            Some(x) => Some(low_u32(x)),
            None => None::<u32>,
        },
{
    match v {
        Some(x) => Some(#[verifier::truncate] (x as u32)),
        None => None,
    }
}

impl TaskRow {
    /// The outcome of `into_record`: the first stored text that names no
    /// known status or error code, if any.
    pub open spec fn unknown_text(self) -> Option<Seq<char>> {
        if status_from_text(self.status@) is None {
            Some(self.status@)
        } else if self.error_code matches Some(c) && error_code_from_text(c@) is None {
            Some(self.error_code->0@)
        } else {
            None
        }
    }

    /// Reads the row as a task record: the status and error code are decoded
    /// from their text, stored amounts below zero read as zero, process ids
    /// keep their low 32 bits, and the flags are set when non-zero. A status
    /// or error code text that names nothing known is returned as the error.
    pub fn into_record(self) -> (r: Result<TaskRecord, String>)
        ensures
            match r {
                Err(t) => self.unknown_text() == Some(t@),
                Ok(rec) => {
                    &&& self.unknown_text() is None
                    &&& rec.task_id == self.task_id
                    &&& rec.handle_id == self.handle_id
                    &&& Some(rec.status) == status_from_text(self.status@)
                    &&& rec.execution == self.execution
                    &&& rec.limits == self.limits
                    &&& rec.sandbox == self.sandbox
                    &&& rec.metadata == self.metadata
                    &&& rec.created_at_ms == self.created_at_ms
                    &&& rec.updated_at_ms == self.updated_at_ms
                    &&& rec.started_at_ms == self.started_at_ms
                    &&& rec.finished_at_ms == self.finished_at_ms
                    &&& rec.duration_ms == match self.duration_ms {
                        Some(x) => Some(clamped(x)),
                        None => None::<u64>,
                    }
                    &&& rec.shim_pid == match self.shim_pid {
                        Some(x) => Some(low_u32(x)),
                        None => None::<u32>,
                    }
                    &&& rec.pid == match self.pid {
                        Some(x) => Some(low_u32(x)),
                        None => None::<u32>,
                    }
                    &&& rec.pgid == self.pgid
                    &&& rec.exit_code == self.exit_code
                    &&& rec.exit_signal == self.exit_signal
                    &&& rec.error_code == match self.error_code {
                        Some(c) => error_code_from_text(c@),
                        None => None::<ErrorCode>,
                    }
                    &&& rec.error == self.error
                    &&& rec.usage == self.usage
                    &&& rec.task_dir == self.task_dir
                    &&& rec.workspace_dir == self.workspace_dir
                    &&& rec.request_path == self.request_path
                    &&& rec.result_path == self.result_path
                    &&& rec.stdout_path == self.stdout_path
                    &&& rec.stderr_path == self.stderr_path
                    &&& rec.script_path == self.script_path
                    &&& rec.stdout_max_bytes == clamped(self.stdout_max_bytes)
                    &&& rec.stderr_max_bytes == clamped(self.stderr_max_bytes)
                    &&& rec.kill_requested == (self.kill_requested != 0)
                    &&& rec.kill_requested_at_ms == self.kill_requested_at_ms
                    &&& rec.timeout_triggered == (self.timeout_triggered != 0)
                    &&& rec.result_json == self.result_json
                },
            },
    {
        let status = match decode_status(self.status.as_str()) {
            Some(s) => s,
            None => return Err(self.status),
        };
        let error_code = match &self.error_code {
            Some(c) => match decode_error_code(c.as_str()) {
                Some(code) => Some(code),
                None => return Err(c.clone()),
            },
            None => None,
        };
        let duration_ms = clamp_opt(self.duration_ms);
        let shim_pid = low_u32_opt(self.shim_pid);
        let pid = low_u32_opt(self.pid);
        let stdout_max_bytes = clamp_count(self.stdout_max_bytes);
        let stderr_max_bytes = clamp_count(self.stderr_max_bytes);
        Ok(
            TaskRecord {
                task_id: self.task_id,
                handle_id: self.handle_id,
                status,
                execution: self.execution,
                limits: self.limits,
                sandbox: self.sandbox,
                metadata: self.metadata,
                created_at_ms: self.created_at_ms,
                updated_at_ms: self.updated_at_ms,
                started_at_ms: self.started_at_ms,
                finished_at_ms: self.finished_at_ms,
                duration_ms,
                shim_pid,
                pid,
                pgid: self.pgid,
                exit_code: self.exit_code,
                exit_signal: self.exit_signal,
                error_code,
                error: self.error,
                usage: self.usage,
                task_dir: self.task_dir,
                workspace_dir: self.workspace_dir,
                request_path: self.request_path,
                result_path: self.result_path,
                stdout_path: self.stdout_path,
                stderr_path: self.stderr_path,
                script_path: self.script_path,
                stdout_max_bytes,
                stderr_max_bytes,
                kill_requested: self.kill_requested != 0,
                kill_requested_at_ms: self.kill_requested_at_ms,
                timeout_triggered: self.timeout_triggered != 0,
                result_json: self.result_json,
            },
        )
    }
}

/// Counts of tasks by status text and by error code text, and the durations
/// of the tasks that have one.
#[derive(Debug, Clone)]
pub struct MetricsSnapshot {
    pub by_status: Vec<(String, u64)>,
    pub by_error_code: Vec<(String, u64)>,
    pub finished_durations_ms: Vec<u64>,
}

impl Default for MetricsSnapshot {
    fn default() -> (r: Self)
        ensures
            r.by_status@.len() == 0,
            r.by_error_code@.len() == 0,
            r.finished_durations_ms@.len() == 0,
    {
        MetricsSnapshot {
            by_status: Vec::new(),
            by_error_code: Vec::new(),
            finished_durations_ms: Vec::new(),
        }
    }
}

/// A lowercase hexadecimal digit.
pub open spec fn hex_lower(c: char) -> bool {
    let u = c as u32;
    (0x30 <= u <= 0x39) || (0x61 <= u <= 0x66)
}

/// Positions of the hyphens in a hyphenated UUID.
pub open spec fn uuid_hyphen_at(i: int) -> bool {
    i == 8 || i == 13 || i == 18 || i == 23
}

/// The hyphenated lowercase text of a version-4, RFC 9562 variant UUID:
/// 36 characters, hyphens at 8, 13, 18 and 23, hex digits elsewhere, the
/// version digit `4` at 14 and a variant digit among `8`, `9`, `a`, `b` at 19.
pub open spec fn is_uuid_v4_text(s: Seq<char>) -> bool {
    &&& s.len() == 36
    &&& forall|i: int|
        0 <= i < 36 ==> if uuid_hyphen_at(i) {
            #[trigger] s[i] == '-'
        } else {
            hex_lower(s[i])
        }
    &&& s[14] == '4'
    &&& (s[19] == '8' || s[19] == '9' || s[19] == 'a' || s[19] == 'b')
}

/// Calls `uuid::Uuid::new_v4` and writes the UUID with its `Display` impl.
/// Claimed of the outside code: `new_v4` masks random bits so that the
/// version is 4 and the variant is RFC 9562, and `Display` writes the
/// lowercase hyphenated form. Not claimed: which UUID comes out (it is
/// random), nor that the call returns (it panics when the operating
/// system's random source fails).
#[verifier::external_body]
fn new_v4_text() -> (s: String)
    ensures
        is_uuid_v4_text(s@),
{
    uuid::Uuid::new_v4().to_string()
}

/// A fresh random task id: a hyphenated version-4 UUID, which is always a
/// valid task id.
pub fn generate_task_id() -> (s: String)
    ensures
        is_uuid_v4_text(s@),
        task_id_check(s@) is Ok,
{
    let s = new_v4_text();
    proof {
        law_uuid_text_is_valid_task_id(s@);
    }
    s
}

/// Every hyphenated version-4 UUID text passes the task id check.
pub proof fn law_uuid_text_is_valid_task_id(s: Seq<char>)
    requires
        is_uuid_v4_text(s),
    ensures
        task_id_check(s) is Ok,
{
    assert(!uuid_hyphen_at(0));
    assert(hex_lower(s[0]));
    assert(!is_ws(s[0]));
    assert(trim_start(s) == s);
    assert(!uuid_hyphen_at(35));
    assert(hex_lower(s[35]));
    assert(s.last() == s[35]);
    assert(!is_ws(s.last()));
    assert(trim_end(s) == s);
    assert(trim(s) == s);
    assert forall|i: int| 0 <= i < s.len() implies task_id_char(#[trigger] s[i]) by {
        if uuid_hyphen_at(i) {
            assert(s[i] == '-');
        } else {
            assert(hex_lower(s[i]));
        }
    }
}

/// A stored signed amount reads as itself when it is not negative and as
/// zero otherwise; a stored process id reads as its value modulo 2^32.
pub proof fn law_stored_numbers_read_back(v: i64)
    ensures
        clamped(v) as int == if v < 0 {
            0
        } else {
            v as int
        },
        low_u32(v) as int == v % 0x1_0000_0000,
{
    assert(low_u32(v) as int == v % 0x1_0000_0000) by (bit_vector);
}

} // verus!
