//! The records that the engines produce and the store keeps.
//!
//! Identifiers are the 128-bit value of a UUID, timestamps are microseconds
//! since the Unix epoch, and fractional quantities are held in fixed point.

use vstd::prelude::*;

verus! {

/// Maps an optional string to its optional character sequence.
pub open spec fn opt_text(o: Option<String>) -> Option<Seq<char>> {
    match o {
        Some(s) => Some(s@),
        None => None,
    }
}

/// Maps a sequence of strings to the sequence of their character sequences.
pub open spec fn texts(v: Seq<String>) -> Seq<Seq<char>> {
    v.map_values(|s: String| s@)
}

// ----------------------------------------------------------------------------
// Compile models
// ----------------------------------------------------------------------------

/// A request to compile a source text.
#[derive(Debug)]
pub struct CompileRequest {
    pub code: String,
}

/// Whether a source text passed the compiler's policy checks, and what it found.
#[derive(Debug)]
pub struct PolicyValidationResult {
    pub passed: bool,
    pub violations: Vec<String>,
    pub warnings: Vec<String>,
}

/// The mathematical view of a `PolicyValidationResult`.
pub struct PolicyValidationView {
    pub passed: bool,
    pub violations: Seq<Seq<char>>,
    pub warnings: Seq<Seq<char>>,
}

impl View for PolicyValidationResult {
    type V = PolicyValidationView;

    open spec fn view(&self) -> PolicyValidationView {
        PolicyValidationView {
            passed: self.passed,
            violations: texts(self.violations@),
            warnings: texts(self.warnings@),
        }
    }
}

/// What the compiler made of a source text.
#[derive(Debug)]
pub struct CompileResponse {
    pub success: bool,
    pub ast: Option<serde_json::Value>,
    pub bytecode: Option<String>,
    pub policy_validation: PolicyValidationResult,
    pub error: Option<String>,
    pub output: Option<String>,
}

/// The mathematical view of a `CompileResponse`.
pub struct CompileResponseView {
    pub success: bool,
    pub ast: Option<serde_json::Value>,
    pub bytecode: Option<Seq<char>>,
    pub policy_validation: PolicyValidationView,
    pub error: Option<Seq<char>>,
    pub output: Option<Seq<char>>,
}

impl View for CompileResponse {
    type V = CompileResponseView;

    open spec fn view(&self) -> CompileResponseView {
        CompileResponseView {
            success: self.success,
            ast: self.ast,
            bytecode: opt_text(self.bytecode),
            policy_validation: self.policy_validation@,
            error: opt_text(self.error),
            output: opt_text(self.output),
        }
    }
}

// ----------------------------------------------------------------------------
// Sandbox models
// ----------------------------------------------------------------------------

/// A request to run source code or a binary in the sandbox.
#[derive(Debug)]
pub struct SandboxRunRequest {
    pub binary_path: Option<String>,
    /// Source text; when present it is compiled before it runs.
    pub code: Option<String>,
    pub memory_limit: Option<String>,
    pub timeout: Option<String>,
    pub network_enabled: Option<bool>,
}

/// Where a sandbox run stands. `Pending` and `Running` are seen only before a
/// run ends; a finished run is `Completed`, `Failed` or `Timeout`.
#[derive(Debug, Clone, Copy, PartialEq, Eq, Structural)]
pub enum RunStatus {
    Pending,
    Running,
    Completed,
    Failed,
    Timeout,
}

impl RunStatus {
    /// A run in a terminal status never changes again.
    pub open spec fn spec_is_terminal(self) -> bool {
        self == RunStatus::Completed || self == RunStatus::Failed || self == RunStatus::Timeout
    }

    /// Says whether a run in this status never changes again.
    #[verifier::when_used_as_spec(spec_is_terminal)]
    pub fn is_terminal(self) -> (r: bool)
        ensures
            r == self.spec_is_terminal(),
    {
        match self {
            RunStatus::Completed | RunStatus::Failed | RunStatus::Timeout => true,
            RunStatus::Pending | RunStatus::Running => false,
        }
    }
}

/// One system call in the audit trail of a run.
#[derive(Debug)]
pub struct SyscallEntry {
    pub syscall: String,
    pub args: String,
    pub result: String,
    pub timestamp: i64,
    pub allowed: bool,
}

/// The mathematical view of a `SyscallEntry`.
pub struct SyscallEntryView {
    pub syscall: Seq<char>,
    pub args: Seq<char>,
    pub result: Seq<char>,
    pub timestamp: i64,
    pub allowed: bool,
}

impl View for SyscallEntry {
    type V = SyscallEntryView;

    open spec fn view(&self) -> SyscallEntryView {
        SyscallEntryView {
            syscall: self.syscall@,
            args: self.args@,
            result: self.result@,
            timestamp: self.timestamp,
            allowed: self.allowed,
        }
    }
}

impl Clone for SyscallEntry {
    fn clone(&self) -> (r: Self)
        ensures
            r == *self,
    {
        SyscallEntry {
            syscall: self.syscall.clone(),
            args: self.args.clone(),
            result: self.result.clone(),
            timestamp: self.timestamp,
            allowed: self.allowed,
        }
    }
}

/// Maps an audit trail to the sequence of its entries' views.
pub open spec fn trail_view(v: Seq<SyscallEntry>) -> Seq<SyscallEntryView> {
    v.map_values(|e: SyscallEntry| e@)
}

/// A snapshot of what a run consumed, taken when its process ended.
#[derive(Debug, Clone, Copy, PartialEq, Eq, Structural)]
pub struct ResourceUsage {
    /// Peak memory in kilobytes (1000 bytes).
    pub memory_kb: u64,
    /// Processor share in hundredths of a percent.
    pub cpu_basis_points: u32,
    pub execution_time_ms: i64,
    pub syscalls_count: i32,
}

/// The record of one sandbox run.
#[derive(Debug)]
pub struct SandboxRun {
    pub id: u128,
    pub status: RunStatus,
    pub stdout: String,
    pub stderr: String,
    pub exit_code: Option<i32>,
    pub syscall_log: Vec<SyscallEntry>,
    pub resource_usage: ResourceUsage,
    pub created_at: i64,
    pub completed_at: Option<i64>,
    /// Whether captured output was cut at the capture limit.
    pub output_truncated: bool,
}

/// The mathematical view of a `SandboxRun`.
pub struct SandboxRunView {
    pub id: u128,
    pub status: RunStatus,
    pub stdout: Seq<char>,
    pub stderr: Seq<char>,
    pub exit_code: Option<i32>,
    pub syscall_log: Seq<SyscallEntryView>,
    pub resource_usage: ResourceUsage,
    pub created_at: i64,
    pub completed_at: Option<i64>,
    pub output_truncated: bool,
}

impl View for SandboxRun {
    type V = SandboxRunView;

    open spec fn view(&self) -> SandboxRunView {
        SandboxRunView {
            id: self.id,
            status: self.status,
            stdout: self.stdout@,
            stderr: self.stderr@,
            exit_code: self.exit_code,
            syscall_log: trail_view(self.syscall_log@),
            resource_usage: self.resource_usage,
            created_at: self.created_at,
            completed_at: self.completed_at,
            output_truncated: self.output_truncated,
        }
    }
}

/// Copies an audit trail entry by entry.
pub fn clone_trail(trail: &Vec<SyscallEntry>) -> (r: Vec<SyscallEntry>)
    ensures
        r@ == trail@,
{
    let mut out: Vec<SyscallEntry> = Vec::new();
    let mut i: usize = 0;
    while i < trail.len()
        invariant
            i <= trail.len(),
            out@ == trail@.take(i as int),
        decreases trail.len() - i,
    {
        out.push(trail[i].clone());
        i += 1;
    }
    out
}

impl Clone for SandboxRun {
    fn clone(&self) -> (r: Self)
        ensures
            r@ == self@,
            r.syscall_log@ == self.syscall_log@,
    {
        SandboxRun {
            id: self.id,
            status: self.status,
            stdout: self.stdout.clone(),
            stderr: self.stderr.clone(),
            exit_code: self.exit_code,
            syscall_log: clone_trail(&self.syscall_log),
            resource_usage: self.resource_usage,
            created_at: self.created_at,
            completed_at: self.completed_at,
            output_truncated: self.output_truncated,
        }
    }
}

// ----------------------------------------------------------------------------
// Fuzzing models
// ----------------------------------------------------------------------------

/// A request to start a fuzzing campaign.
#[derive(Debug)]
pub struct FuzzStartRequest {
    pub target_binary: String,
    pub corpus_dir: String,
    pub crash_dir: String,
    pub timeout: Option<String>,
}

/// Where a fuzzing campaign stands.
#[derive(Debug, Clone, Copy, PartialEq, Eq, Structural)]
pub enum FuzzStatus {
    Idle,
    Running,
    Stopped,
    Error,
}

impl FuzzStatus {
    /// `Stopped` and `Error` are final: no status follows them.
    pub open spec fn spec_is_terminal(self) -> bool {
        self == FuzzStatus::Stopped || self == FuzzStatus::Error
    }

    /// Says whether no status follows this one.
    #[verifier::when_used_as_spec(spec_is_terminal)]
    pub fn is_terminal(self) -> (r: bool)
        ensures
            r == self.spec_is_terminal(),
    {
        match self {
            FuzzStatus::Stopped | FuzzStatus::Error => true,
            FuzzStatus::Idle | FuzzStatus::Running => false,
        }
    }
}

/// The running totals of a campaign. The four counts never go down while
/// the campaign runs; the two rates may.
#[derive(Debug, Clone, Copy, PartialEq, Eq, Structural)]
pub struct FuzzStats {
    pub executions: u64,
    pub crashes: u64,
    pub corpus_size: u64,
    /// Coverage in hundredths of a percent.
    pub coverage_basis_points: u32,
    /// Executions per second, in thousandths.
    pub execs_per_second_milli: u64,
    pub mutations_applied: u64,
}

/// One fuzzing session against a fixed target.
#[derive(Debug)]
pub struct FuzzCampaign {
    pub id: u128,
    pub name: String,
    pub status: FuzzStatus,
    pub target_binary: String,
    pub stats: FuzzStats,
    pub started_at: i64,
    pub stopped_at: Option<i64>,
}

/// The mathematical view of a `FuzzCampaign`.
pub struct FuzzCampaignView {
    pub id: u128,
    pub name: Seq<char>,
    pub status: FuzzStatus,
    pub target_binary: Seq<char>,
    pub stats: FuzzStats,
    pub started_at: i64,
    pub stopped_at: Option<i64>,
}

impl View for FuzzCampaign {
    type V = FuzzCampaignView;

    open spec fn view(&self) -> FuzzCampaignView {
        FuzzCampaignView {
            id: self.id,
            name: self.name@,
            status: self.status,
            target_binary: self.target_binary@,
            stats: self.stats,
            started_at: self.started_at,
            stopped_at: self.stopped_at,
        }
    }
}

impl Clone for FuzzCampaign {
    fn clone(&self) -> (r: Self)
        ensures
            r == *self,
    {
        FuzzCampaign {
            id: self.id,
            name: self.name.clone(),
            status: self.status,
            target_binary: self.target_binary.clone(),
            stats: self.stats,
            started_at: self.started_at,
            stopped_at: self.stopped_at,
        }
    }
}

/// One crash that a campaign found.
#[derive(Debug)]
pub struct CrashInfo {
    pub id: u128,
    pub campaign_id: u128,
    pub input: String,
    /// The signal that ended the target; absent when it ended abnormally
    /// without one.
    pub signal: Option<i32>,
    pub output: String,
    pub discovered_at: i64,
}

/// The mathematical view of a `CrashInfo`.
pub struct CrashInfoView {
    pub id: u128,
    pub campaign_id: u128,
    pub input: Seq<char>,
    pub signal: Option<i32>,
    pub output: Seq<char>,
    pub discovered_at: i64,
}

impl View for CrashInfo {
    type V = CrashInfoView;

    open spec fn view(&self) -> CrashInfoView {
        CrashInfoView {
            id: self.id,
            campaign_id: self.campaign_id,
            input: self.input@,
            signal: self.signal,
            output: self.output@,
            discovered_at: self.discovered_at,
        }
    }
}

impl Clone for CrashInfo {
    fn clone(&self) -> (r: Self)
        ensures
            r == *self,
    {
        CrashInfo {
            id: self.id,
            campaign_id: self.campaign_id,
            input: self.input.clone(),
            signal: self.signal,
            output: self.output.clone(),
            discovered_at: self.discovered_at,
        }
    }
}

// ----------------------------------------------------------------------------
// Log models
// ----------------------------------------------------------------------------

/// How severe a logged event is, from `Debug` up to `Critical`.
#[derive(Debug, Clone, Copy, PartialEq, Eq, Structural)]
pub enum LogLevel {
    Debug,
    Info,
    Warning,
    Error,
    Critical,
}

impl LogLevel {
    /// The rank of a level: `Debug` is lowest, `Critical` highest.
    pub open spec fn spec_severity(self) -> u8 {
        match self {
            LogLevel::Debug => 0,
            LogLevel::Info => 1,
            LogLevel::Warning => 2,
            LogLevel::Error => 3,
            LogLevel::Critical => 4,
        }
    }

    /// Gives the rank of a level.
    #[verifier::when_used_as_spec(spec_severity)]
    pub fn severity(self) -> (r: u8)
        ensures
            r == self.spec_severity(),
    {
        match self {
            LogLevel::Debug => 0,
            LogLevel::Info => 1,
            LogLevel::Warning => 2,
            LogLevel::Error => 3,
            LogLevel::Critical => 4,
        }
    }
}

/// The subsystem that logged an event.
#[derive(Debug, Clone, Copy, PartialEq, Eq, Structural)]
pub enum LogSource {
    Compiler,
    Sandbox,
    Fuzzer,
    System,
}

/// One event in the telemetry log.
#[derive(Debug)]
pub struct LogEntry {
    pub id: u128,
    pub level: LogLevel,
    pub source: LogSource,
    pub message: String,
    pub details: Option<serde_json::Value>,
    pub timestamp: i64,
}

/// The mathematical view of a `LogEntry`.
pub struct LogEntryView {
    pub id: u128,
    pub level: LogLevel,
    pub source: LogSource,
    pub message: Seq<char>,
    pub details: Option<serde_json::Value>,
    pub timestamp: i64,
}

impl View for LogEntry {
    type V = LogEntryView;

    open spec fn view(&self) -> LogEntryView {
        LogEntryView {
            id: self.id,
            level: self.level,
            source: self.source,
            message: self.message@,
            details: self.details,
            timestamp: self.timestamp,
        }
    }
}

impl Clone for LogEntry {
    fn clone(&self) -> (r: Self)
        ensures
            r == *self,
    {
        LogEntry {
            id: self.id,
            level: self.level,
            source: self.source,
            message: self.message.clone(),
            details: match &self.details {
                Some(d) => Some(crate::system::clone_json(d)),
                None => None,
            },
            timestamp: self.timestamp,
        }
    }
}

/// A slice of the log, newest first, with the number of entries in it.
#[derive(Debug)]
pub struct TimelineResponse {
    pub entries: Vec<LogEntry>,
    pub total_count: u64,
}

// ----------------------------------------------------------------------------
// Project models
// ----------------------------------------------------------------------------

/// A research project.
#[derive(Debug)]
pub struct Project {
    pub id: u128,
    pub name: String,
    pub description: String,
    pub created_at: i64,
    pub updated_at: i64,
}

/// The mathematical view of a `Project`.
pub struct ProjectView {
    pub id: u128,
    pub name: Seq<char>,
    pub description: Seq<char>,
    pub created_at: i64,
    pub updated_at: i64,
}

impl View for Project {
    type V = ProjectView;

    open spec fn view(&self) -> ProjectView {
        ProjectView {
            id: self.id,
            name: self.name@,
            description: self.description@,
            created_at: self.created_at,
            updated_at: self.updated_at,
        }
    }
}

impl Clone for Project {
    fn clone(&self) -> (r: Self)
        ensures
            r == *self,
    {
        Project {
            id: self.id,
            name: self.name.clone(),
            description: self.description.clone(),
            created_at: self.created_at,
            updated_at: self.updated_at,
        }
    }
}

/// A request to create a project.
#[derive(Debug)]
pub struct CreateProjectRequest {
    pub name: String,
    pub description: String,
}

} // verus!
