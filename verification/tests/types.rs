use execgo_runtime::error::AppError;
use execgo_runtime::types::{
    default_output_inline_bytes, default_true, default_wall_time_ms, resolve_workspace_dir,
    validate_task_id, ExecutionKind, ExecutionSpec, NamespaceConfig, ResourceLimits,
    SandboxPolicy, SandboxProfile, SubmitTaskRequest, TaskStatus,
};

fn invalid(msg: &str) -> Result<(), AppError> {
    Err(AppError::InvalidInput(msg.to_string()))
}

fn command(program: Option<&str>) -> ExecutionSpec {
    ExecutionSpec {
        kind: ExecutionKind::Command,
        program: program.map(|p| p.to_string()),
        args: vec![],
        script: None,
        interpreter: None,
        env: Vec::new(),
    }
}

#[test]
fn validates_command_execution() {
    let spec = ExecutionSpec {
        kind: ExecutionKind::Command,
        program: Some("echo".into()),
        args: vec!["ok".into()],
        script: None,
        interpreter: None,
        env: Vec::new(),
    };
    assert!(spec.validate().is_ok());
}

#[test]
fn rejects_absolute_workspace_subdir() {
    let sandbox = SandboxPolicy {
        profile: SandboxProfile::Process,
        workspace_subdir: Some("/tmp".into()),
        rootfs: None,
        chroot: false,
        namespaces: None,
    };
    assert!(sandbox.validate(true).is_err());
}

#[test]
fn execution_rules_by_kind() {
    assert_eq!(command(None).validate(), invalid("execution.program is required for command tasks"));
    assert_eq!(command(Some(" \t\u{3000}")).validate(), invalid("execution.program is required for command tasks"));
    let mut with_script = command(Some("sh"));
    with_script.script = Some("echo hi".into());
    assert_eq!(with_script.validate(), invalid("execution.script must be empty for command tasks"));
    with_script.script = Some("   ".into());
    assert_eq!(with_script.validate(), Ok(()));

    let mut script = ExecutionSpec {
        kind: ExecutionKind::Script,
        program: None,
        args: vec![],
        script: Some("echo hi".into()),
        interpreter: None,
        env: Vec::new(),
    };
    assert_eq!(script.validate(), Ok(()));
    script.program = Some("sh".into());
    assert_eq!(script.validate(), invalid("execution.program must be empty for script tasks"));
    script.program = None;
    script.interpreter = Some(vec![]);
    assert_eq!(script.validate(), invalid("execution.interpreter must contain at least one non-empty value"));
    script.interpreter = Some(vec![" ".into(), "-c".into()]);
    assert_eq!(script.validate(), invalid("execution.interpreter must contain at least one non-empty value"));
    script.interpreter = Some(vec!["/bin/sh".into()]);
    assert_eq!(script.validate(), Ok(()));
    script.script = Some("\n".into());
    assert_eq!(script.validate(), invalid("execution.script is required for script tasks"));
}

#[test]
fn env_keys_must_be_named_without_equals() {
    let mut spec = command(Some("env"));
    spec.env = vec![("GREETING".into(), "hello".into())];
    assert_eq!(spec.validate(), Ok(()));
    spec.env.push(("A=B".into(), "x".into()));
    assert_eq!(spec.validate(), invalid("execution.env keys must be non-empty and cannot contain '='"));
    spec.env = vec![(" ".into(), "x".into())];
    assert_eq!(spec.validate(), invalid("execution.env keys must be non-empty and cannot contain '='"));
}

fn sandbox(subdir: Option<&str>) -> SandboxPolicy {
    SandboxPolicy {
        profile: SandboxProfile::Process,
        workspace_subdir: subdir.map(|s| s.to_string()),
        rootfs: None,
        chroot: false,
        namespaces: None,
    }
}

#[test]
fn workspace_subdir_rules() {
    assert_eq!(sandbox(Some("a/b")).validate(true), Ok(()));
    assert_eq!(sandbox(Some("a/..b/c...")).validate(true), Ok(()));
    assert_eq!(sandbox(Some("/abs")).validate(true), invalid("sandbox.workspace_subdir must be relative"));
    assert_eq!(sandbox(Some("..")).validate(true), invalid("sandbox.workspace_subdir cannot contain parent traversal"));
    assert_eq!(sandbox(Some("a/../b")).validate(true), invalid("sandbox.workspace_subdir cannot contain parent traversal"));
    assert_eq!(sandbox(Some("a/..")).validate(true), invalid("sandbox.workspace_subdir cannot contain parent traversal"));
}

#[test]
fn chroot_rules() {
    let mut s = sandbox(None);
    s.chroot = true;
    assert_eq!(s.validate(true), invalid("sandbox.rootfs is required when sandbox.chroot=true"));
    s.rootfs = Some("/srv/root".into());
    assert_eq!(s.validate(true), invalid("sandbox.chroot requires sandbox.profile=linux_sandbox"));
    s.profile = SandboxProfile::LinuxSandbox;
    assert_eq!(s.validate(true), Ok(()));
}

#[test]
fn limits_must_be_positive() {
    let mut l = ResourceLimits::default();
    assert_eq!(l.wall_time_ms, 300000);
    assert_eq!(l.stdout_max_bytes, 4194304);
    assert_eq!(l.validate(), Ok(()));
    l.stderr_max_bytes = 0;
    assert_eq!(l.validate(), invalid("limits.stdout_max_bytes and limits.stderr_max_bytes must be greater than 0"));
    l.wall_time_ms = 0;
    assert_eq!(l.validate(), invalid("limits.wall_time_ms must be greater than 0"));
}

#[test]
fn task_id_rules() {
    assert_eq!(validate_task_id("  docs-cli_demo.1 "), Ok(()));
    assert_eq!(validate_task_id("   "), invalid("task_id cannot be empty"));
    assert_eq!(validate_task_id("a b"), invalid("task_id may only contain letters, digits, '-', '_' and '.'"));
    assert_eq!(validate_task_id("ä"), invalid("task_id may only contain letters, digits, '-', '_' and '.'"));
}

#[test]
fn submit_request_checks_in_order() {
    let mut req = SubmitTaskRequest {
        task_id: Some("bad id".into()),
        execution: command(None),
        limits: ResourceLimits { wall_time_ms: 0, ..ResourceLimits::default() },
        sandbox: sandbox(Some("/abs")),
        metadata: Vec::new(),
    };
    assert_eq!(req.validate(true), invalid("task_id may only contain letters, digits, '-', '_' and '.'"));
    req.task_id = None;
    assert_eq!(req.validate(true), invalid("execution.program is required for command tasks"));
    req.execution = command(Some("echo"));
    assert_eq!(req.validate(true), invalid("limits.wall_time_ms must be greater than 0"));
    req.limits = ResourceLimits::default();
    assert_eq!(req.validate(true), invalid("sandbox.workspace_subdir must be relative"));
    req.sandbox = SandboxPolicy::default();
    assert_eq!(req.validate(true), Ok(()));
}

#[test]
fn workspace_dir_resolution() {
    assert_eq!(resolve_workspace_dir("/data/tasks/t1", &sandbox(None)), Ok("/data/tasks/t1/workspace".to_string()));
    assert_eq!(resolve_workspace_dir("/data/tasks/t1/", &sandbox(Some("q"))), Ok("/data/tasks/t1/workspace/q".to_string()));
    assert_eq!(resolve_workspace_dir("t", &sandbox(Some("../x"))), Err(AppError::InvalidInput("sandbox.workspace_subdir cannot contain parent traversal".to_string())));
}

#[test]
fn defaults_and_namespaces() {
    assert_eq!(default_output_inline_bytes(), 4 * 1024 * 1024);
    assert_eq!(default_wall_time_ms(), 5 * 60 * 1000);
    assert!(default_true());
    let s = SandboxPolicy::default();
    assert_eq!(s.effective_namespaces(), NamespaceConfig { mount: true, pid: true, uts: true, ipc: true, net: false });
    let custom = NamespaceConfig { mount: false, pid: true, uts: false, ipc: true, net: true };
    let s2 = SandboxPolicy { namespaces: Some(custom), ..SandboxPolicy::default() };
    assert_eq!(s2.effective_namespaces(), custom);
    assert_eq!(SandboxProfile::default(), SandboxProfile::Process);
}

#[test]
fn terminal_statuses() {
    assert!(!TaskStatus::Accepted.is_terminal());
    assert!(!TaskStatus::Running.is_terminal());
    assert!(TaskStatus::Success.is_terminal());
    assert!(TaskStatus::Failed.is_terminal());
    assert!(TaskStatus::Cancelled.is_terminal());
}

#[test]
fn validated_workspace_stays_under_task_workspace() {
    for sub in ["a", "a/b", "x/./y", "..a"] {
        let s = sandbox(Some(sub));
        assert!(s.validate(true).is_ok());
        let dir = resolve_workspace_dir("/data/tasks/t", &s).unwrap();
        assert_eq!(dir, format!("/data/tasks/t/workspace/{sub}"));
    }
}

#[test]
fn rejects_linux_sandbox_on_non_linux_host() {
    let sandbox = SandboxPolicy {
        profile: SandboxProfile::LinuxSandbox,
        workspace_subdir: None,
        rootfs: None,
        chroot: false,
        namespaces: None,
    };
    assert!(sandbox.validate(false).is_err());
}

#[test]
fn linux_sandbox_needs_a_linux_host() {
    let s = SandboxPolicy { profile: SandboxProfile::LinuxSandbox, ..SandboxPolicy::default() };
    assert_eq!(s.validate(true), Ok(()));
    assert_eq!(s.validate(false), invalid("sandbox.profile=linux_sandbox requires a Linux host"));
    let p = sandbox(None);
    assert_eq!(p.validate(false), Ok(()));
    let bad_subdir = SandboxPolicy { workspace_subdir: Some("/x".into()), ..s.clone() };
    assert_eq!(bad_subdir.validate(false), invalid("sandbox.workspace_subdir must be relative"));
    let mut req = SubmitTaskRequest {
        task_id: None,
        execution: command(Some("echo")),
        limits: ResourceLimits::default(),
        sandbox: s,
        metadata: Vec::new(),
    };
    assert_eq!(req.validate(false), invalid("sandbox.profile=linux_sandbox requires a Linux host"));
    assert_eq!(req.validate(true), Ok(()));
    req.sandbox.profile = SandboxProfile::Process;
    assert_eq!(req.validate(false), Ok(()));
}
