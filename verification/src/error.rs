//! The runtime's error type, its wire code, HTTP status and message.
use vstd::prelude::*;

use crate::types::{ErrorCode, RuntimeErrorInfo};

verus! {

/// The result type of fallible runtime operations.
pub type AppResult<T> = Result<T, AppError>;

/// Errors raised by the runtime. The variants that wrap a failure of the
/// file system, the database, JSON or HTTP carry that failure's message.
#[derive(Debug, Clone, PartialEq, Eq)]
pub enum AppError {
    InvalidInput(String),
    NotFound(String),
    QueueFull,
    Conflict(String),
    LaunchFailed(String),
    SandboxSetup(String),
    UnsupportedCapability(String),
    InsufficientResources(String),
    Io(String),
    Sqlite(String),
    Json(String),
    Http(String),
    Internal(String),
}

/// `AppError` with its messages taken as character sequences.
pub enum AppErrorView {
    InvalidInput(Seq<char>),
    NotFound(Seq<char>),
    QueueFull,
    Conflict(Seq<char>),
    LaunchFailed(Seq<char>),
    SandboxSetup(Seq<char>),
    UnsupportedCapability(Seq<char>),
    InsufficientResources(Seq<char>),
    Io(Seq<char>),
    Sqlite(Seq<char>),
    Json(Seq<char>),
    Http(Seq<char>),
    Internal(Seq<char>),
}

impl View for AppError {
    type V = AppErrorView;

    open spec fn view(&self) -> AppErrorView {
        match self {
            AppError::InvalidInput(m) => AppErrorView::InvalidInput(m@),
            AppError::NotFound(m) => AppErrorView::NotFound(m@),
            AppError::QueueFull => AppErrorView::QueueFull,
            AppError::Conflict(m) => AppErrorView::Conflict(m@),
            AppError::LaunchFailed(m) => AppErrorView::LaunchFailed(m@),
            AppError::SandboxSetup(m) => AppErrorView::SandboxSetup(m@),
            AppError::UnsupportedCapability(m) => AppErrorView::UnsupportedCapability(m@),
            AppError::InsufficientResources(m) => AppErrorView::InsufficientResources(m@),
            AppError::Io(m) => AppErrorView::Io(m@),
            AppError::Sqlite(m) => AppErrorView::Sqlite(m@),
            AppError::Json(m) => AppErrorView::Json(m@),
            AppError::Http(m) => AppErrorView::Http(m@),
            AppError::Internal(m) => AppErrorView::Internal(m@),
        }
    }
}

/// A unit result taken by its view.
pub open spec fn unit_result_view(r: Result<(), AppError>) -> Result<(), AppErrorView> {
    match r {
        Ok(()) => Ok(()),
        Err(e) => Err(e@),
    }
}

/// The wire error code of each error.
pub open spec fn error_code_of(e: AppErrorView) -> ErrorCode {
    match e {
        AppErrorView::InvalidInput(_) => ErrorCode::InvalidInput,
        AppErrorView::NotFound(_) => ErrorCode::Internal,
        AppErrorView::QueueFull => ErrorCode::ResourceLimitExceeded,
        AppErrorView::Conflict(_) => ErrorCode::Internal,
        AppErrorView::LaunchFailed(_) => ErrorCode::LaunchFailed,
        AppErrorView::SandboxSetup(_) => ErrorCode::SandboxSetupFailed,
        AppErrorView::UnsupportedCapability(_) => ErrorCode::UnsupportedCapability,
        AppErrorView::InsufficientResources(_) => ErrorCode::InsufficientResources,
        AppErrorView::Io(_) | AppErrorView::Sqlite(_) | AppErrorView::Json(_)
        | AppErrorView::Http(_) => ErrorCode::Internal,
        AppErrorView::Internal(_) => ErrorCode::Internal,
    }
}

/// The HTTP status of each error.
pub open spec fn http_status_of(e: AppErrorView) -> u16 {
    match e {
        AppErrorView::InvalidInput(_) => 400,
        AppErrorView::NotFound(_) => 404,
        AppErrorView::QueueFull => 429,
        AppErrorView::Conflict(_) => 409,
        AppErrorView::LaunchFailed(_) | AppErrorView::SandboxSetup(_)
        | AppErrorView::UnsupportedCapability(_) | AppErrorView::InsufficientResources(_) => 400,
        AppErrorView::Io(_) | AppErrorView::Sqlite(_) | AppErrorView::Json(_)
        | AppErrorView::Http(_) | AppErrorView::Internal(_) => 500,
    }
}

/// The human-readable message of each error.
pub open spec fn error_message(e: AppErrorView) -> Seq<char> {
    match e {
        AppErrorView::InvalidInput(m) => "invalid input: "@ + m,
        AppErrorView::NotFound(m) => "task not found: "@ + m,
        AppErrorView::QueueFull => "queue is full"@,
        AppErrorView::Conflict(m) => "task is already terminal: "@ + m,
        AppErrorView::LaunchFailed(m) => "launch failed: "@ + m,
        AppErrorView::SandboxSetup(m) => "sandbox setup failed: "@ + m,
        AppErrorView::UnsupportedCapability(m) => "unsupported capability: "@ + m,
        AppErrorView::InsufficientResources(m) => "insufficient resources: "@ + m,
        AppErrorView::Io(m) => "io error: "@ + m,
        AppErrorView::Sqlite(m) => "sqlite error: "@ + m,
        AppErrorView::Json(m) => "json error: "@ + m,
        AppErrorView::Http(m) => "http error: "@ + m,
        AppErrorView::Internal(m) => "internal error: "@ + m,
    }
}

fn prefixed(prefix: &str, m: &String) -> (r: String)
    ensures
        r@ == prefix@ + m@,
{
    let s = String::from_str(prefix);
    s.concat(m.as_str())
}

impl AppError {
    /// The wire error code of this error.
    pub fn code(&self) -> (c: ErrorCode)
        ensures
            c == error_code_of(self@),
    {
        match self {
            AppError::InvalidInput(_) => ErrorCode::InvalidInput,
            AppError::NotFound(_) => ErrorCode::Internal,
            AppError::QueueFull => ErrorCode::ResourceLimitExceeded,
            AppError::Conflict(_) => ErrorCode::Internal,
            AppError::LaunchFailed(_) => ErrorCode::LaunchFailed,
            AppError::SandboxSetup(_) => ErrorCode::SandboxSetupFailed,
            AppError::UnsupportedCapability(_) => ErrorCode::UnsupportedCapability,
            AppError::InsufficientResources(_) => ErrorCode::InsufficientResources,
            AppError::Io(_) | AppError::Sqlite(_) | AppError::Json(_) | AppError::Http(_) => {
                ErrorCode::Internal
            },
            AppError::Internal(_) => ErrorCode::Internal,
        }
    }

    /// The HTTP status code of this error.
    pub fn status_code(&self) -> (s: u16)
        ensures
            s == http_status_of(self@),
    {
        match self {
            AppError::InvalidInput(_) => 400,
            AppError::NotFound(_) => 404,
            AppError::QueueFull => 429,
            AppError::Conflict(_) => 409,
            AppError::LaunchFailed(_)
            | AppError::SandboxSetup(_)
            | AppError::UnsupportedCapability(_)
            | AppError::InsufficientResources(_) => 400,
            AppError::Io(_)
            | AppError::Sqlite(_)
            | AppError::Json(_)
            | AppError::Http(_)
            | AppError::Internal(_) => 500,
        }
    }

    /// The human-readable message of this error.
    pub fn message(&self) -> (r: String)
        ensures
            r@ == error_message(self@),
    {
        match self {
            AppError::InvalidInput(m) => prefixed("invalid input: ", m),
            AppError::NotFound(m) => prefixed("task not found: ", m),
            AppError::QueueFull => String::from_str("queue is full"),
            AppError::Conflict(m) => prefixed("task is already terminal: ", m),
            AppError::LaunchFailed(m) => prefixed("launch failed: ", m),
            AppError::SandboxSetup(m) => prefixed("sandbox setup failed: ", m),
            AppError::UnsupportedCapability(m) => prefixed("unsupported capability: ", m),
            AppError::InsufficientResources(m) => prefixed("insufficient resources: ", m),
            AppError::Io(m) => prefixed("io error: ", m),
            AppError::Sqlite(m) => prefixed("sqlite error: ", m),
            AppError::Json(m) => prefixed("json error: ", m),
            AppError::Http(m) => prefixed("http error: ", m),
            AppError::Internal(m) => prefixed("internal error: ", m),
        }
    }

    /// The error as it is reported to clients: its code and message, no details.
    pub fn as_runtime_error(&self) -> (r: RuntimeErrorInfo)
        ensures
            r.code == error_code_of(self@),
            r.message@ == error_message(self@),
            r.details is None,
    {
        RuntimeErrorInfo { code: self.code(), message: self.message(), details: None }
    }
}

} // verus!
