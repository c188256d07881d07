//! Requests, responses and policies of the runtime, with their validation rules.
use vstd::prelude::*;

use crate::error::{unit_result_view, AppError, AppErrorView};
use crate::text::{
    chars_of, is_blank_opt, is_ws, lemma_trim_empty_iff_all_ws, trim, trim_bounds, trim_end,
    trim_is_empty, trim_start,
};

verus! {

pub const DEFAULT_OUTPUT_INLINE_BYTES: u64 = 4 * 1024 * 1024;

pub const DEFAULT_WALL_TIME_MS: u64 = 5 * 60 * 1000;

/// Lifecycle state of a task.
#[derive(Debug, Clone, Copy, PartialEq, Eq, Structural)]
pub enum TaskStatus {
    Accepted,
    Running,
    Success,
    Failed,
    Cancelled,
}

/// The terminal states: success, failure and cancellation.
pub open spec fn status_is_terminal(s: TaskStatus) -> bool {
    s == TaskStatus::Success || s == TaskStatus::Failed || s == TaskStatus::Cancelled
}

impl TaskStatus {
    /// Whether the task has reached a final state.
    pub fn is_terminal(&self) -> (b: bool)
        ensures
            b == status_is_terminal(*self),
    {
        match self {
            TaskStatus::Success | TaskStatus::Failed | TaskStatus::Cancelled => true,
            TaskStatus::Accepted | TaskStatus::Running => false,
        }
    }
}

/// Machine-readable error codes reported to clients.
#[derive(Debug, Clone, Copy, PartialEq, Eq, Hash, Structural)]
pub enum ErrorCode {
    InvalidInput,
    LaunchFailed,
    Timeout,
    Cancelled,
    MemoryLimitExceeded,
    CpuLimitExceeded,
    ResourceLimitExceeded,
    SandboxSetupFailed,
    ExitNonZero,
    Internal,
    UnsupportedCapability,
    InsufficientResources,
}

/// An error as reported to clients. `details` holds a JSON document as text.
#[derive(Debug, Clone, PartialEq)]
pub struct RuntimeErrorInfo {
    pub code: ErrorCode,
    pub message: String,
    pub details: Option<String>,
}

/// Kinds of entries in a task's event stream.
#[derive(Debug, Clone, Copy, PartialEq, Eq, Structural)]
pub enum EventType {
    Submitted,
    Accepted,
    Started,
    KillRequested,
    TimeoutTriggered,
    Finished,
    Failed,
    Cancelled,
    Recovered,
}

/// Whether a task runs a program or a script.
#[derive(Debug, Clone, Copy, PartialEq, Eq, Structural)]
pub enum ExecutionKind {
    Command,
    Script,
}

/// What a task executes. `env` lists the environment variables as name/value pairs.
#[derive(Debug, Clone, PartialEq)]
pub struct ExecutionSpec {
    pub kind: ExecutionKind,
    pub program: Option<String>,
    pub args: Vec<String>,
    pub script: Option<String>,
    pub interpreter: Option<Vec<String>>,
    pub env: Vec<(String, String)>,
}

/// An optional string that is absent or only whitespace.
pub open spec fn opt_blank(o: Option<String>) -> bool {
    match o {
        Some(v) => trim(v@).len() == 0,
        None => true,
    }
}

/// An environment variable name that is blank or holds `=`.
pub open spec fn bad_env_key(k: Seq<char>) -> bool {
    trim(k).len() == 0 || k.contains('=')
}

/// An interpreter list that is empty or starts with a blank entry.
pub open spec fn bad_interpreter(i: Option<Vec<String>>) -> bool {
    match i {
        Some(v) => v@.len() == 0 || trim(v@[0]@).len() == 0,
        None => false,
    }
}

impl ExecutionSpec {
    /// The outcome of the checks that depend on the execution kind.
    pub open spec fn kind_check(self) -> Result<(), AppErrorView> {
        match self.kind {
            ExecutionKind::Command => if opt_blank(self.program) {
                Err(AppErrorView::InvalidInput("execution.program is required for command tasks"@))
            } else if !opt_blank(self.script) {
                Err(AppErrorView::InvalidInput("execution.script must be empty for command tasks"@))
            } else {
                Ok(())
            },
            ExecutionKind::Script => if opt_blank(self.script) {
                Err(AppErrorView::InvalidInput("execution.script is required for script tasks"@))
            } else if !opt_blank(self.program) {
                Err(AppErrorView::InvalidInput("execution.program must be empty for script tasks"@))
            } else if bad_interpreter(self.interpreter) {
                Err(
                    AppErrorView::InvalidInput(
                        "execution.interpreter must contain at least one non-empty value"@,
                    ),
                )
            } else {
                Ok(())
            },
        }
    }

    /// The outcome of `validate`.
    pub open spec fn check(self) -> Result<(), AppErrorView> {
        if self.kind_check() is Err {
            self.kind_check()
        } else if exists|i: int| 0 <= i < self.env@.len() && bad_env_key(#[trigger] self.env@[i].0@) {
            Err(
                AppErrorView::InvalidInput(
                    "execution.env keys must be non-empty and cannot contain '='"@,
                ),
            )
        } else {
            Ok(())
        }
    }

    /// Checks that the fields fit the execution kind and that the
    /// environment variable names are usable.
    pub fn validate(&self) -> (r: Result<(), AppError>)
        ensures
            unit_result_view(r) == self.check(),
    {
        match self.kind {
            ExecutionKind::Command => {
                if is_blank_opt(&self.program) {
                    return Err(
                        AppError::InvalidInput(
                            String::from_str("execution.program is required for command tasks"),
                        ),
                    );
                }
                if !is_blank_opt(&self.script) {
                    return Err(
                        AppError::InvalidInput(
                            String::from_str("execution.script must be empty for command tasks"),
                        ),
                    );
                }
            },
            ExecutionKind::Script => {
                if is_blank_opt(&self.script) {
                    return Err(
                        AppError::InvalidInput(
                            String::from_str("execution.script is required for script tasks"),
                        ),
                    );
                }
                if !is_blank_opt(&self.program) {
                    return Err(
                        AppError::InvalidInput(
                            String::from_str("execution.program must be empty for script tasks"),
                        ),
                    );
                }
                if let Some(interpreter) = &self.interpreter {
                    if interpreter.len() == 0 || trim_is_empty(interpreter[0].as_str()) {
                        return Err(
                            AppError::InvalidInput(
                                String::from_str(
                                    "execution.interpreter must contain at least one non-empty value",
                                ),
                            ),
                        );
                    }
                }
            },
        }
        let n = self.env.len();
        for i in 0..n
            invariant
                n == self.env@.len(),
                self.kind_check() is Ok,
                forall|j: int| 0 <= j < i ==> !bad_env_key(#[trigger] self.env@[j].0@),
        {
            let key = self.env[i].0.as_str();
            if trim_is_empty(key) || contains_char(key, '=') {
                assert(bad_env_key(self.env@[i as int].0@));
                return Err(
                    AppError::InvalidInput(
                        String::from_str(
                            "execution.env keys must be non-empty and cannot contain '='",
                        ),
                    ),
                );
            }
        }
        Ok(())
    }
}

/// Whether `s` holds the character `c`.
pub fn contains_char(s: &str, c: char) -> (b: bool)
    ensures
        b == s@.contains(c),
{
    let v = chars_of(s);
    let n = v.len();
    for i in 0..n
        invariant
            n == v@.len(),
            v@ == s@,
            forall|j: int| 0 <= j < i ==> v@[j] != c,
    {
        if v[i] == c {
            assert(v@[i as int] == c);
            return true;
        }
    }
    false
}

/// Isolation profile of a task.
#[derive(Debug, Clone, Copy, PartialEq, Eq, Structural)]
pub enum SandboxProfile {
    Process,
    LinuxSandbox,
}

impl Default for SandboxProfile {
    fn default() -> (r: Self)
        ensures
            r == SandboxProfile::Process,
    {
        SandboxProfile::Process
    }
}

/// Which Linux namespaces a sandboxed task gets.
#[derive(Debug, Clone, Copy, PartialEq, Eq, Structural)]
pub struct NamespaceConfig {
    pub mount: bool,
    pub pid: bool,
    pub uts: bool,
    pub ipc: bool,
    pub net: bool,
}

/// All namespaces but the network one.
pub open spec fn default_namespaces() -> NamespaceConfig {
    NamespaceConfig { mount: true, pid: true, uts: true, ipc: true, net: false }
}

impl Default for NamespaceConfig {
    fn default() -> (r: Self)
        ensures
            r == default_namespaces(),
    {
        NamespaceConfig { mount: true, pid: true, uts: true, ipc: true, net: false }
    }
}

/// Where and how isolated a task runs.
#[derive(Debug, Clone, PartialEq, Eq)]
pub struct SandboxPolicy {
    pub profile: SandboxProfile,
    pub workspace_subdir: Option<String>,
    pub rootfs: Option<String>,
    pub chroot: bool,
    pub namespaces: Option<NamespaceConfig>,
}

impl Default for SandboxPolicy {
    fn default() -> (r: Self)
        ensures
            r.profile == SandboxProfile::Process,
            r.workspace_subdir is None,
            r.rootfs is None,
            !r.chroot,
            r.namespaces is None,
    {
        SandboxPolicy {
            profile: SandboxProfile::Process,
            workspace_subdir: None,
            rootfs: None,
            chroot: false,
            namespaces: None,
        }
    }
}

/// A Unix path that starts at the root.
pub open spec fn path_is_absolute(s: Seq<char>) -> bool {
    s.len() > 0 && s[0] == '/'
}

/// A `..` component starts at index `i` of the Unix path `s`.
pub open spec fn parent_component_at(s: Seq<char>, i: int) -> bool {
    &&& 0 <= i
    &&& i + 2 <= s.len()
    &&& s[i] == '.'
    &&& s[i + 1] == '.'
    &&& (i == 0 || s[i - 1] == '/')
    &&& (i + 2 == s.len() || s[i + 2] == '/')
}

/// The Unix path `s` has a `..` component.
pub open spec fn has_parent_component(s: Seq<char>) -> bool {
    exists|i: int| #[trigger] parent_component_at(s, i)
}

/// The outcome of checking a workspace subdirectory.
pub open spec fn workspace_subdir_check(s: Seq<char>) -> Result<(), AppErrorView> {
    if path_is_absolute(s) {
        Err(AppErrorView::InvalidInput("sandbox.workspace_subdir must be relative"@))
    } else if has_parent_component(s) {
        Err(AppErrorView::InvalidInput("sandbox.workspace_subdir cannot contain parent traversal"@))
    } else {
        Ok(())
    }
}

fn parent_component_in(v: &Vec<char>) -> (b: bool)
    ensures
        b == has_parent_component(v@),
{
    let n = v.len();
    let mut i: usize = 0;
    while i < n
        invariant
            n == v@.len(),
            i <= n,
            forall|j: int| 0 <= j < i ==> !#[trigger] parent_component_at(v@, j),
        decreases n - i,
    {
        if i + 1 < n && v[i] == '.' && v[i + 1] == '.' && (i == 0 || v[i - 1] == '/') && (i + 1
            == n - 1 || v[i + 2] == '/') {
            assert(parent_component_at(v@, i as int));
            return true;
        }
        i = i + 1;
    }
    assert forall|j: int| !#[trigger] parent_component_at(v@, j) by {
        if 0 <= j < n {
        }
    }
    false
}

/// Checks that a workspace subdirectory is a relative path that does not climb out.
pub fn validate_relative_workspace_subdir(subdir: &str) -> (r: Result<(), AppError>)
    ensures
        unit_result_view(r) == workspace_subdir_check(subdir@),
{
    let v = chars_of(subdir);
    if v.len() > 0 && v[0] == '/' {
        return Err(
            AppError::InvalidInput(String::from_str("sandbox.workspace_subdir must be relative")),
        );
    }
    if parent_component_in(&v) {
        return Err(
            AppError::InvalidInput(
                String::from_str("sandbox.workspace_subdir cannot contain parent traversal"),
            ),
        );
    }
    Ok(())
}

impl SandboxPolicy {
    /// The outcome of `validate` on a Linux host (`host_is_linux`) or another one.
    pub open spec fn check(self, host_is_linux: bool) -> Result<(), AppErrorView> {
        let subdir: Result<(), AppErrorView> = match self.workspace_subdir {
            Some(s) => workspace_subdir_check(s@),
            None => Ok(()),
        };
        if subdir is Err {
            subdir
        } else if !host_is_linux && self.profile == SandboxProfile::LinuxSandbox {
            Err(AppErrorView::InvalidInput("sandbox.profile=linux_sandbox requires a Linux host"@))
        } else if self.chroot && opt_blank(self.rootfs) {
            Err(AppErrorView::InvalidInput("sandbox.rootfs is required when sandbox.chroot=true"@))
        } else if self.profile == SandboxProfile::Process && self.chroot {
            Err(AppErrorView::InvalidInput("sandbox.chroot requires sandbox.profile=linux_sandbox"@))
        } else {
            Ok(())
        }
    }

    /// Checks the workspace subdirectory, that the Linux sandbox is only
    /// asked for on a Linux host (`host_is_linux` says whether this host is
    /// one), and the chroot settings.
    pub fn validate(&self, host_is_linux: bool) -> (r: Result<(), AppError>)
        ensures
            unit_result_view(r) == self.check(host_is_linux),
    {
        if let Some(subdir) = &self.workspace_subdir {
            validate_relative_workspace_subdir(subdir.as_str())?;
        }
        if !host_is_linux && self.profile == SandboxProfile::LinuxSandbox {
            return Err(
                AppError::InvalidInput(
                    String::from_str("sandbox.profile=linux_sandbox requires a Linux host"),
                ),
            );
        }
        if self.chroot && is_blank_opt(&self.rootfs) {
            return Err(
                AppError::InvalidInput(
                    String::from_str("sandbox.rootfs is required when sandbox.chroot=true"),
                ),
            );
        }
        if self.profile == SandboxProfile::Process && self.chroot {
            return Err(
                AppError::InvalidInput(
                    String::from_str("sandbox.chroot requires sandbox.profile=linux_sandbox"),
                ),
            );
        }
        Ok(())
    }

    /// The namespaces the task gets: the configured ones, else the default set.
    pub fn effective_namespaces(&self) -> (r: NamespaceConfig)
        ensures
            r == match self.namespaces {
                Some(n) => n,
                None => default_namespaces(),
            },
    {
        match self.namespaces {
            Some(n) => n,
            None => NamespaceConfig::default(),
        }
    }
}

/// Time and output limits of a task.
#[derive(Debug, Clone, Copy, PartialEq, Eq, Structural)]
pub struct ResourceLimits {
    pub wall_time_ms: u64,
    pub cpu_time_sec: Option<u64>,
    pub memory_bytes: Option<u64>,
    pub pids_max: Option<u64>,
    pub stdout_max_bytes: u64,
    pub stderr_max_bytes: u64,
}

impl Default for ResourceLimits {
    fn default() -> (r: Self)
        ensures
            r.wall_time_ms == DEFAULT_WALL_TIME_MS,
            r.cpu_time_sec is None,
            r.memory_bytes is None,
            r.pids_max is None,
            r.stdout_max_bytes == DEFAULT_OUTPUT_INLINE_BYTES,
            r.stderr_max_bytes == DEFAULT_OUTPUT_INLINE_BYTES,
    {
        ResourceLimits {
            wall_time_ms: default_wall_time_ms(),
            cpu_time_sec: None,
            memory_bytes: None,
            pids_max: None,
            stdout_max_bytes: default_output_inline_bytes(),
            stderr_max_bytes: default_output_inline_bytes(),
        }
    }
}

impl ResourceLimits {
    /// The outcome of `validate`.
    pub open spec fn check(self) -> Result<(), AppErrorView> {
        if self.wall_time_ms == 0 {
            Err(AppErrorView::InvalidInput("limits.wall_time_ms must be greater than 0"@))
        } else if self.stdout_max_bytes == 0 || self.stderr_max_bytes == 0 {
            Err(
                AppErrorView::InvalidInput(
                    "limits.stdout_max_bytes and limits.stderr_max_bytes must be greater than 0"@,
                ),
            )
        } else {
            Ok(())
        }
    }

    /// Checks that the wall-clock and output limits are positive.
    pub fn validate(&self) -> (r: Result<(), AppError>)
        ensures
            unit_result_view(r) == self.check(),
    {
        if self.wall_time_ms == 0 {
            return Err(
                AppError::InvalidInput(
                    String::from_str("limits.wall_time_ms must be greater than 0"),
                ),
            );
        }
        if self.stdout_max_bytes == 0 || self.stderr_max_bytes == 0 {
            return Err(
                AppError::InvalidInput(
                    String::from_str(
                        "limits.stdout_max_bytes and limits.stderr_max_bytes must be greater than 0",
                    ),
                ),
            );
        }
        Ok(())
    }
}

/// A task submission. `metadata` lists free-form name/value pairs.
#[derive(Debug, Clone, PartialEq)]
pub struct SubmitTaskRequest {
    pub task_id: Option<String>,
    pub execution: ExecutionSpec,
    pub limits: ResourceLimits,
    pub sandbox: SandboxPolicy,
    pub metadata: Vec<(String, String)>,
}

impl SubmitTaskRequest {
    /// The outcome of `validate` on a Linux host (`host_is_linux`) or another one.
    pub open spec fn check(self, host_is_linux: bool) -> Result<(), AppErrorView> {
        let id: Result<(), AppErrorView> = match self.task_id {
            Some(t) => task_id_check(t@),
            None => Ok(()),
        };
        if id is Err {
            id
        } else if self.execution.check() is Err {
            self.execution.check()
        } else if self.limits.check() is Err {
            self.limits.check()
        } else {
            self.sandbox.check(host_is_linux)
        }
    }

    /// Checks the task id, the execution, the limits and the sandbox, in that
    /// order; `host_is_linux` says whether this host is a Linux one.
    pub fn validate(&self, host_is_linux: bool) -> (r: Result<(), AppError>)
        ensures
            unit_result_view(r) == self.check(host_is_linux),
    {
        if let Some(task_id) = &self.task_id {
            validate_task_id(task_id.as_str())?;
        }
        self.execution.validate()?;
        self.limits.validate()?;
        self.sandbox.validate(host_is_linux)?;
        Ok(())
    }
}

/// The answer to a submission.
#[derive(Debug, Clone, PartialEq)]
pub struct SubmitTaskResponse {
    pub task_id: String,
    pub handle_id: String,
    pub status: TaskStatus,
}

/// What a finished task consumed.
#[derive(Debug, Clone, Copy, PartialEq, Eq, Structural)]
pub struct ResourceUsage {
    pub duration_ms: u64,
    pub user_cpu_ms: Option<u64>,
    pub system_cpu_ms: Option<u64>,
    pub max_rss_bytes: Option<u64>,
    pub memory_peak_bytes: Option<u64>,
}

/// Where a task's files are kept.
#[derive(Debug, Clone, PartialEq)]
pub struct TaskArtifacts {
    pub task_dir: String,
    pub request_path: String,
    pub result_path: String,
    pub stdout_path: String,
    pub stderr_path: String,
    pub script_path: Option<String>,
}

/// Liveness and readiness answer.
#[derive(Debug, Clone, PartialEq)]
pub struct HealthResponse {
    pub status: String,
    pub version: String,
}

/// An amount of each resource the ledger accounts for. An absent
/// `memory_bytes` or `pids` means that resource is not accounted.
#[derive(Debug, Clone, Copy, PartialEq, Eq, Structural)]
pub struct ResourceCapacity {
    pub task_slots: u64,
    pub memory_bytes: Option<u64>,
    pub pids: Option<u64>,
}

/// What one task holds while it runs. An absent `memory_bytes` or `pids`
/// means the task sets no such limit.
#[derive(Debug, Clone, Copy, PartialEq, Eq, Structural)]
pub struct TaskResourceReservation {
    pub task_slots: u64,
    pub memory_bytes: Option<u64>,
    pub pids: Option<u64>,
}

/// A reservation held by a running task.
#[derive(Debug, Clone, PartialEq)]
pub struct ActiveReservation {
    pub task_id: String,
    pub tenant: Option<String>,
    pub reservation: TaskResourceReservation,
}

/// One tenant's quota, what its tasks hold, and what is left of it.
#[derive(Debug, Clone, PartialEq)]
pub struct TenantResourceView {
    pub tenant: String,
    pub quota: ResourceCapacity,
    pub reserved: ResourceCapacity,
    pub available: ResourceCapacity,
}

/// The runtime's resource picture.
#[derive(Debug, Clone, PartialEq)]
pub struct RuntimeResourcesResponse {
    pub runtime_id: String,
    pub capacity: ResourceCapacity,
    pub reserved: ResourceCapacity,
    pub available: ResourceCapacity,
    pub active_reservations: Vec<ActiveReservation>,
    pub accepted_waiting_tasks: u64,
    pub tenants: Vec<TenantResourceView>,
}

/// A character allowed in a task id: an ASCII letter or digit, `-`, `_` or `.`.
pub open spec fn task_id_char(c: char) -> bool {
    let u = c as u32;
    ||| 0x30 <= u <= 0x39
    ||| 0x41 <= u <= 0x5A
    ||| 0x61 <= u <= 0x7A
    ||| c == '-'
    ||| c == '_'
    ||| c == '.'
}

/// The outcome of `validate_task_id`.
pub open spec fn task_id_check(s: Seq<char>) -> Result<(), AppErrorView> {
    let t = trim(s);
    if t.len() == 0 {
        Err(AppErrorView::InvalidInput("task_id cannot be empty"@))
    } else if exists|i: int| 0 <= i < t.len() && !task_id_char(#[trigger] t[i]) {
        Err(AppErrorView::InvalidInput("task_id may only contain letters, digits, '-', '_' and '.'"@))
    } else {
        Ok(())
    }
}

fn is_task_id_char(c: char) -> (b: bool)
    ensures
        b == task_id_char(c),
{
    let u = c as u32;
    (0x30 <= u && u <= 0x39) || (0x41 <= u && u <= 0x5A) || (0x61 <= u && u <= 0x7A) || c == '-'
        || c == '_' || c == '.'
}

/// Checks that a task id, once trimmed, is non-empty and made of allowed characters.
pub fn validate_task_id(task_id: &str) -> (r: Result<(), AppError>)
    ensures
        unit_result_view(r) == task_id_check(task_id@),
{
    let v = chars_of(task_id);
    let (lo, hi) = trim_bounds(&v);
    if lo == hi {
        return Err(AppError::InvalidInput(String::from_str("task_id cannot be empty")));
    }
    let ghost t = trim(task_id@);
    for i in lo..hi
        invariant
            lo < hi <= v@.len(),
            t == trim(task_id@),
            t == v@.subrange(lo as int, hi as int),
            forall|j: int| 0 <= j < i - lo ==> task_id_char(#[trigger] t[j]),
    {
        if !is_task_id_char(v[i]) {
            assert(t[i - lo] == v@[i as int]);
            assert(!task_id_char(t[i - lo]));
            return Err(
                AppError::InvalidInput(
                    String::from_str("task_id may only contain letters, digits, '-', '_' and '.'"),
                ),
            );
        }
        assert(t[i - lo] == v@[i as int]);
    }
    Ok(())
}

/// `Path::join` on Unix paths: an absolute `p` replaces `base`, otherwise a
/// `/` separates them unless `base` is empty or already ends with one.
pub open spec fn path_join(base: Seq<char>, p: Seq<char>) -> Seq<char> {
    if path_is_absolute(p) {
        p
    } else if base.len() > 0 && base.last() != '/' {
        base + seq!['/'] + p
    } else {
        base + p
    }
}

/// Executable `path_join`.
pub fn join_path(base: &str, p: &str) -> (r: String)
    ensures
        r@ == path_join(base@, p@),
{
    let pv = chars_of(p);
    if pv.len() > 0 && pv[0] == '/' {
        return String::from_str(p);
    }
    let bv = chars_of(base);
    let mut r = String::from_str(base);
    if bv.len() > 0 && bv[bv.len() - 1] != '/' {
        proof {
            reveal_strlit("/");
        }
        r.append("/");
    }
    r.append(p);
    r
}

/// The outcome of `resolve_workspace_dir`.
pub open spec fn workspace_dir_of(task_dir: Seq<char>, sandbox: SandboxPolicy) -> Result<
    Seq<char>,
    AppErrorView,
> {
    let base = path_join(task_dir, "workspace"@);
    match sandbox.workspace_subdir {
        Some(s) => match workspace_subdir_check(s@) {
            Err(e) => Err(e),
            Ok(()) => Ok(path_join(base, s@)),
        },
        None => Ok(base),
    }
}

/// The directory a task works in: `<task_dir>/workspace`, or the checked
/// subdirectory of it that the sandbox names.
pub fn resolve_workspace_dir(task_dir: &str, sandbox: &SandboxPolicy) -> (r: Result<
    String,
    AppError,
>)
    ensures
        match r {
            Ok(p) => workspace_dir_of(task_dir@, *sandbox) == Ok::<Seq<char>, AppErrorView>(p@),
            Err(e) => workspace_dir_of(task_dir@, *sandbox) == Err::<Seq<char>, AppErrorView>(e@),
        },
{
    let base = join_path(task_dir, "workspace");
    if let Some(subdir) = &sandbox.workspace_subdir {
        validate_relative_workspace_subdir(subdir.as_str())?;
        Ok(join_path(base.as_str(), subdir.as_str()))
    } else {
        Ok(base)
    }
}

/// Default cap on inline stdout and stderr: 4 MiB.
pub fn default_output_inline_bytes() -> (r: u64)
    ensures
        r == DEFAULT_OUTPUT_INLINE_BYTES,
{
    DEFAULT_OUTPUT_INLINE_BYTES
}

/// Default wall-clock limit: five minutes.
pub fn default_wall_time_ms() -> (r: u64)
    ensures
        r == DEFAULT_WALL_TIME_MS,
{
    DEFAULT_WALL_TIME_MS
}

/// Default for the namespace switches that are on unless stated.
pub fn default_true() -> (r: bool)
    ensures
        r,
{
    true
}

/// A sandbox that passes validation always yields a workspace directory,
/// and that directory is the task's `workspace` directory followed, at
/// most through one separator, by a relative subdirectory with no `..`
/// component: it never leaves the task's workspace.
pub proof fn law_validated_workspace_stays_inside(
    task_dir: Seq<char>,
    sandbox: SandboxPolicy,
    host_is_linux: bool,
)
    requires
        sandbox.check(host_is_linux) is Ok,
    ensures
        workspace_dir_of(task_dir, sandbox) is Ok,
        ({
            let base = path_join(task_dir, "workspace"@);
            let dir = workspace_dir_of(task_dir, sandbox)->Ok_0;
            match sandbox.workspace_subdir {
                None => dir == base,
                Some(s) => {
                    &&& !path_is_absolute(s@)
                    &&& !has_parent_component(s@)
                    &&& (dir == base + s@ || dir == base + seq!['/'] + s@)
                },
            }
        }),
{
}

/// Limits pass exactly when the wall-clock limit and both output caps are
/// positive.
pub proof fn law_limits_check_in_plain_terms(l: ResourceLimits)
    ensures
        l.check() is Ok <==> l.wall_time_ms > 0 && l.stdout_max_bytes > 0 && l.stderr_max_bytes > 0,
{
}

/// A text holds a character other than whitespace.
pub open spec fn has_non_ws(s: Seq<char>) -> bool {
    exists|j: int| 0 <= j < s.len() && !is_ws(#[trigger] s[j])
}

proof fn lemma_blank_is_all_ws(s: Seq<char>)
    ensures
        (trim(s).len() == 0) <==> !has_non_ws(s),
{
    lemma_trim_empty_iff_all_ws(s);
}

/// An execution spec passes exactly when: a command names a program with a
/// non-whitespace character and has no script beyond whitespace; a script
/// has a non-whitespace character, no program beyond whitespace, and, if an
/// interpreter list is given, its first entry has a non-whitespace
/// character; and every environment variable name has a non-whitespace
/// character and no `=` (any other characters are allowed).
pub proof fn law_execution_check_in_plain_terms(e: ExecutionSpec)
    ensures
        e.check() is Ok <==> {
            &&& match e.kind {
                ExecutionKind::Command => {
                    &&& (e.program matches Some(p) && has_non_ws(p@))
                    &&& !(e.script matches Some(v) && has_non_ws(v@))
                },
                ExecutionKind::Script => {
                    &&& (e.script matches Some(v) && has_non_ws(v@))
                    &&& !(e.program matches Some(p) && has_non_ws(p@))
                    &&& (e.interpreter matches Some(i) ==> i@.len() > 0 && has_non_ws(i@[0]@))
                },
            }
            &&& forall|k: int|
                0 <= k < e.env@.len() ==> has_non_ws(#[trigger] e.env@[k].0@) && !e.env@[k].0@.contains('=')
        },
{
    if let Some(p) = e.program {
        lemma_blank_is_all_ws(p@);
    }
    if let Some(v) = e.script {
        lemma_blank_is_all_ws(v@);
    }
    if let Some(i) = e.interpreter {
        if i@.len() > 0 {
            lemma_blank_is_all_ws(i@[0]@);
        }
    }
    assert forall|k: int| 0 <= k < e.env@.len() implies (!bad_env_key(#[trigger] e.env@[k].0@)
        <==> (has_non_ws(e.env@[k].0@) && !e.env@[k].0@.contains('='))) by {
        lemma_blank_is_all_ws(e.env@[k].0@);
    }
}

/// An ASCII letter of either case, an ASCII digit, `-`, `_` or `.`, by
/// character ranges.
pub open spec fn ascii_word_char(c: char) -> bool {
    ||| 'A' <= c <= 'Z'
    ||| 'a' <= c <= 'z'
    ||| '0' <= c <= '9'
    ||| c == '-'
    ||| c == '_'
    ||| c == '.'
}

/// An id made only of ASCII letters of either case, ASCII digits, `-`, `_`
/// and `.`, with at least one of them, passes the task id check.
pub proof fn law_task_id_accepts_allowed_characters(s: Seq<char>)
    requires
        s.len() > 0,
        forall|i: int|
            0 <= i < s.len() ==> ascii_word_char(#[trigger] s[i]),
    ensures
        task_id_check(s) == Ok::<(), AppErrorView>(()),
{
    let c0 = s[0];
    assert(ascii_word_char(c0));
    assert(!is_ws(c0));
    assert(trim_start(s) == s);
    let cl = s[s.len() - 1];
    assert(ascii_word_char(cl));
    assert(s.last() == cl);
    assert(!is_ws(cl));
    assert(trim_end(s) == s);
    assert(trim(s) == s);
    assert forall|i: int| 0 <= i < s.len() implies task_id_char(#[trigger] s[i]) by {
        assert(ascii_word_char(s[i]));
    }
}

/// An id that is blank, or that holds (anywhere) a character that is
/// neither whitespace, an ASCII letter or digit, `-`, `_` nor `.`, fails
/// the task id check.
pub proof fn law_task_id_rejects_other_characters(s: Seq<char>)
    ensures
        (forall|i: int| 0 <= i < s.len() ==> is_ws(#[trigger] s[i])) ==> task_id_check(s)
            is Err,
        (exists|i: int| 0 <= i < s.len() && !is_ws(#[trigger] s[i]) && !ascii_word_char(s[i]))
            ==> task_id_check(s) is Err,
{
    lemma_trim_empty_iff_all_ws(s);
    if exists|i: int| 0 <= i < s.len() && !is_ws(#[trigger] s[i]) && !ascii_word_char(s[i]) {
        let i = choose|i: int| 0 <= i < s.len() && !is_ws(#[trigger] s[i]) && !ascii_word_char(s[i]);
        let (lo, hi) = trim_range(s);
        assert(lo <= i < hi);
        let t = trim(s);
        assert(t[i - lo] == s[i]);
        lemma_word_char_is_task_id_char(s[i]);
        assert(!task_id_char(t[i - lo]));
    }
}

proof fn lemma_word_char_is_task_id_char(c: char)
    ensures
        task_id_char(c) == ascii_word_char(c),
{
}

/// Where `trim(s)` lies in `s`: everything before `lo` and from `hi` on is
/// whitespace.
proof fn trim_range(s: Seq<char>) -> (r: (int, int))
    ensures
        0 <= r.0 <= r.1 <= s.len(),
        trim(s) == s.subrange(r.0, r.1),
        forall|i: int| 0 <= i < r.0 ==> is_ws(#[trigger] s[i]),
        forall|i: int| r.1 <= i < s.len() ==> is_ws(#[trigger] s[i]),
{
    crate::text::lemma_trim_bounds_exist(s)
}

/// Joining a relative path onto a non-empty base that does not end with
/// `/` puts exactly one `/` between them, whether the base is absolute or
/// relative; onto an empty base, or one ending with `/`, it just appends;
/// an absolute path replaces the base.
pub proof fn law_join_puts_one_separator(base: Seq<char>, p: Seq<char>)
    ensures
        (p.len() == 0 || p[0] != '/') && base.len() > 0 && base[base.len() - 1] != '/' ==> path_join(base, p)
            == base + seq!['/'] + p,
        (p.len() == 0 || p[0] != '/') && (base.len() == 0 || base[base.len() - 1] == '/') ==> path_join(
            base,
            p,
        ) == base + p,
        p.len() > 0 && p[0] == '/' ==> path_join(base, p) == p,
{
}

/// A task directory that is not empty and does not end with `/` gets the
/// workspace `<task_dir>/workspace`, and with a subdirectory that passes
/// the check, `<task_dir>/workspace/<subdir>`.
pub proof fn law_workspace_dir_layout(task_dir: Seq<char>, sandbox: SandboxPolicy)
    requires
        task_dir.len() > 0,
        task_dir[task_dir.len() - 1] != '/',
    ensures
        sandbox.workspace_subdir is None ==> workspace_dir_of(task_dir, sandbox) == Ok::<
            Seq<char>,
            AppErrorView,
        >(task_dir + seq!['/'] + "workspace"@),
        match sandbox.workspace_subdir {
            Some(s) => workspace_subdir_check(s@) is Ok ==> workspace_dir_of(task_dir, sandbox)
                == Ok::<Seq<char>, AppErrorView>(task_dir + seq!['/'] + "workspace"@ + seq!['/'] + s@),
            None => true,
        },
{
    reveal_strlit("workspace");
    let base = task_dir + seq!['/'] + "workspace"@;
    assert(path_join(task_dir, "workspace"@) == base);
    assert(base[base.len() - 1] == 'e');
}

/// A sandbox policy passes exactly when: its subdirectory, if any, does not
/// start with `/` and has no `..` component (two dots bounded by the ends or
/// by `/`); the Linux sandbox is asked for only on a Linux host; and chroot
/// is asked for only with a root file system that has a non-whitespace
/// character and under the Linux sandbox.
pub proof fn law_sandbox_check_in_plain_terms(sandbox: SandboxPolicy, host_is_linux: bool)
    ensures
        sandbox.check(host_is_linux) is Ok <==> {
            &&& (sandbox.workspace_subdir matches Some(sub) ==> {
                let d = sub@;
                &&& !(d.len() > 0 && d[0] == '/')
                &&& forall|i: int|
                    0 <= i && i + 2 <= d.len() && #[trigger] d[i] == '.' && d[i + 1] == '.' ==> !((
                    i == 0 || d[i - 1] == '/') && (i + 2 == d.len() || d[i + 2] == '/'))
            })
            &&& (host_is_linux || sandbox.profile != SandboxProfile::LinuxSandbox)
            &&& (sandbox.chroot ==> (sandbox.rootfs matches Some(r) && has_non_ws(r@))
                && sandbox.profile == SandboxProfile::LinuxSandbox)
        },
        sandbox.check(host_is_linux) matches Err(e) ==> e is InvalidInput,
{
    if let Some(r) = sandbox.rootfs {
        lemma_blank_is_all_ws(r@);
    }
    if let Some(sub) = sandbox.workspace_subdir {
        let d = sub@;
        if has_parent_component(d) {
            let i = choose|i: int| #[trigger] parent_component_at(d, i);
            assert(d[i] == '.');
        }
        if !has_parent_component(d) {
            assert forall|i: int|
                0 <= i && i + 2 <= d.len() && #[trigger] d[i] == '.' && d[i + 1] == '.' implies !((i
                == 0 || d[i - 1] == '/') && (i + 2 == d.len() || d[i + 2] == '/')) by {
                assert(!parent_component_at(d, i));
            }
        }
    }
}

} // verus!
