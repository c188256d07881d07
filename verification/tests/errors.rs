use execgo_runtime::error::AppError;
use execgo_runtime::types::ErrorCode;

#[test]
fn error_codes_statuses_and_messages() {
    let cases = vec![
        (AppError::InvalidInput("x".into()), ErrorCode::InvalidInput, 400, "invalid input: x"),
        (AppError::NotFound("t1".into()), ErrorCode::Internal, 404, "task not found: t1"),
        (AppError::QueueFull, ErrorCode::ResourceLimitExceeded, 429, "queue is full"),
        (AppError::Conflict("c".into()), ErrorCode::Internal, 409, "task is already terminal: c"),
        (AppError::LaunchFailed("l".into()), ErrorCode::LaunchFailed, 400, "launch failed: l"),
        (AppError::SandboxSetup("s".into()), ErrorCode::SandboxSetupFailed, 400, "sandbox setup failed: s"),
        (AppError::UnsupportedCapability("u".into()), ErrorCode::UnsupportedCapability, 400, "unsupported capability: u"),
        (AppError::InsufficientResources("r".into()), ErrorCode::InsufficientResources, 400, "insufficient resources: r"),
        (AppError::Io("e".into()), ErrorCode::Internal, 500, "io error: e"),
        (AppError::Sqlite("e".into()), ErrorCode::Internal, 500, "sqlite error: e"),
        (AppError::Json("e".into()), ErrorCode::Internal, 500, "json error: e"),
        (AppError::Http("e".into()), ErrorCode::Internal, 500, "http error: e"),
        (AppError::Internal("e".into()), ErrorCode::Internal, 500, "internal error: e"),
    ];
    for (err, code, status, message) in cases {
        assert_eq!(err.code(), code);
        assert_eq!(err.status_code(), status);
        assert_eq!(err.message(), message);
        let info = err.as_runtime_error();
        assert_eq!(info.code, code);
        assert_eq!(info.message, message);
        assert_eq!(info.details, None);
    }
}
