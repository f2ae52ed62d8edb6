//! The sandbox execution engine: from a request and what the supervised
//! process did to a finished run record.
//!
//! The engine never spawns anything itself. It says which process to start
//! and how long to let it live, and it is told how that process ended.

use vstd::prelude::*;
use vstd::string::StrSliceExecFns;
use crate::models::{
    opt_text, texts, ResourceUsage, RunStatus, SandboxRun, SandboxRunRequest, SyscallEntry,
    SyscallEntryView,
};
use crate::system::{fresh_id, now_micros};
use crate::text::{concat2, exit_code_seq, exit_code_text, join_spaced, spaced};

verus! {

// ----------------------------------------------------------------------------
// Policy
// ----------------------------------------------------------------------------

/// The constraints under which one run executes. Limits are kept in the
/// notation that the sandbox tool accepts on its command line.
#[derive(Debug)]
pub struct ExecutionPolicy {
    /// Memory ceiling; absent means the tool's default.
    pub memory_limit: Option<String>,
    /// Wall-clock timeout; absent means none.
    pub timeout: Option<String>,
    pub network_enabled: bool,
    /// Names of the system calls a run may make; absent means the tool's own
    /// default policy decides.
    pub syscall_allowlist: Option<Vec<String>>,
}

/// The mathematical view of an `ExecutionPolicy`.
pub struct ExecutionPolicyView {
    pub memory_limit: Option<Seq<char>>,
    pub timeout: Option<Seq<char>>,
    pub network_enabled: bool,
    pub syscall_allowlist: Option<Seq<Seq<char>>>,
}

impl View for ExecutionPolicy {
    type V = ExecutionPolicyView;

    open spec fn view(&self) -> ExecutionPolicyView {
        ExecutionPolicyView {
            memory_limit: opt_text(self.memory_limit),
            timeout: opt_text(self.timeout),
            network_enabled: self.network_enabled,
            syscall_allowlist: match self.syscall_allowlist {
                Some(list) => Some(texts(list@)),
                None => None,
            },
        }
    }
}

/// The policy that a request asks for: its limits as written, the network
/// open unless the request closes it, and no allow-list.
pub open spec fn policy_of(req: SandboxRunRequest) -> ExecutionPolicyView {
    ExecutionPolicyView {
        memory_limit: opt_text(req.memory_limit),
        timeout: opt_text(req.timeout),
        network_enabled: match req.network_enabled {
            Some(b) => b,
            None => true,
        },
        syscall_allowlist: None,
    }
}

fn clone_opt_string(o: &Option<String>) -> (r: Option<String>)
    ensures
        r == *o,
{
    match o {
        Some(s) => Some(s.clone()),
        None => None,
    }
}

impl ExecutionPolicy {
    /// Builds the policy of a request.
    pub fn from_request(req: &SandboxRunRequest) -> (p: ExecutionPolicy)
        ensures
            p@ == policy_of(*req),
    {
        ExecutionPolicy {
            memory_limit: clone_opt_string(&req.memory_limit),
            timeout: clone_opt_string(&req.timeout),
            network_enabled: match req.network_enabled {
                Some(b) => b,
                None => true,
            },
            syscall_allowlist: None,
        }
    }
}

// ----------------------------------------------------------------------------
// The deadline that the engine enforces
// ----------------------------------------------------------------------------

/// Whether a character is one of the ten decimal digits.
pub open spec fn is_digit(c: char) -> bool {
    c == '0' || c == '1' || c == '2' || c == '3' || c == '4' || c == '5' || c == '6' || c == '7'
        || c == '8' || c == '9'
}

/// The value of a decimal digit.
pub open spec fn digit_of(c: char) -> nat {
    if c == '1' {
        1
    } else if c == '2' {
        2
    } else if c == '3' {
        3
    } else if c == '4' {
        4
    } else if c == '5' {
        5
    } else if c == '6' {
        6
    } else if c == '7' {
        7
    } else if c == '8' {
        8
    } else if c == '9' {
        9
    } else {
        0
    }
}

/// How many decimal digits a text starts with.
pub open spec fn digits_len(s: Seq<char>) -> nat
    decreases s.len(),
{
    if s.len() > 0 && is_digit(s[0]) {
        1 + digits_len(s.skip(1))
    } else {
        0
    }
}

/// The number that a run of decimal digits writes.
pub open spec fn decimal_value(s: Seq<char>) -> nat
    decreases s.len(),
{
    if s.len() == 0 {
        0
    } else {
        decimal_value(s.drop_last()) * 10 + digit_of(s.last())
    }
}

/// Milliseconds in one unit of time: seconds when no unit is written, else
/// `ms`, `s`, `m` or `h`.
pub open spec fn unit_millis(unit: Seq<char>) -> Option<nat> {
    if unit =~= Seq::<char>::empty() || unit =~= seq!['s'] {
        Some(1000)
    } else if unit =~= seq!['m', 's'] {
        Some(1)
    } else if unit =~= seq!['m'] {
        Some(60_000)
    } else if unit =~= seq!['h'] {
        Some(3_600_000)
    } else {
        None
    }
}

/// The wall-clock limit, in milliseconds, that a timeout text stands for: a
/// decimal number followed by an optional unit. A text of another shape, or
/// a limit beyond 64 bits, stands for none.
pub open spec fn deadline_of(s: Seq<char>) -> Option<u64> {
    let n = digits_len(s);
    if n == 0 {
        None
    } else {
        match unit_millis(s.skip(n as int)) {
            None => None,
            Some(m) => {
                if decimal_value(s.take(n as int)) * m <= u64::MAX {
                    Some((decimal_value(s.take(n as int)) * m) as u64)
                } else {
                    None
                }
            },
        }
    }
}

proof fn lemma_digits_len(s: Seq<char>, n: nat)
    requires
        n <= s.len(),
        forall|j: int| 0 <= j < n ==> is_digit(#[trigger] s[j]),
        n == s.len() || !is_digit(s[n as int]),
    ensures
        digits_len(s) == n,
    decreases n,
{
    if n > 0 {
        let t = s.skip(1);
        assert forall|j: int| 0 <= j < n - 1 implies is_digit(#[trigger] t[j]) by {
            assert(t[j] == s[j + 1]);
        }
        lemma_digits_len(t, (n - 1) as nat);
    }
}

proof fn lemma_digits_len_at_least(s: Seq<char>, n: nat)
    requires
        n <= s.len(),
        forall|j: int| 0 <= j < n ==> is_digit(#[trigger] s[j]),
    ensures
        digits_len(s) >= n,
        digits_len(s) <= s.len(),
    decreases s.len(),
{
    if s.len() > 0 && is_digit(s[0]) {
        let t = s.skip(1);
        if n > 0 {
            assert forall|j: int| 0 <= j < n - 1 implies is_digit(#[trigger] t[j]) by {
                assert(t[j] == s[j + 1]);
            }
            lemma_digits_len_at_least(t, (n - 1) as nat);
        } else {
            lemma_digits_len_at_least(t, 0);
        }
    }
}

proof fn lemma_value_grows(s: Seq<char>, a: int, b: int)
    requires
        0 <= a <= b <= s.len(),
    ensures
        decimal_value(s.take(a)) <= decimal_value(s.take(b)),
    decreases b - a,
{
    if a < b {
        lemma_value_grows(s, a, b - 1);
        assert(s.take(b).drop_last() =~= s.take(b - 1));
    }
}

fn digit_value(c: char) -> (r: Option<u64>)
    ensures
        r is Some <==> is_digit(c),
        r matches Some(d) ==> d == digit_of(c) && d < 10,
{
    match c {
        '0' => Some(0),
        '1' => Some(1),
        '2' => Some(2),
        '3' => Some(3),
        '4' => Some(4),
        '5' => Some(5),
        '6' => Some(6),
        '7' => Some(7),
        '8' => Some(8),
        '9' => Some(9),
        _ => None,
    }
}

fn unit_factor(text: &str, from: usize, len: usize) -> (r: Option<u64>)
    requires
        from <= len,
        len == text@.len(),
    ensures
        r is Some <==> unit_millis(text@.skip(from as int)) is Some,
        r matches Some(m) ==> m == unit_millis(text@.skip(from as int))->0 && 1 <= m <= 3_600_000,
{
    let ghost unit = text@.skip(from as int);
    let rest = len - from;
    if rest == 0 {
        Some(1000)
    } else if rest == 1 {
        let c = text.get_char(from);
        assert(unit[0] == c);
        if c == 's' {
            assert(unit =~= seq!['s']);
            Some(1000)
        } else if c == 'm' {
            assert(unit =~= seq!['m']);
            Some(60_000)
        } else if c == 'h' {
            assert(unit =~= seq!['h']);
            Some(3_600_000)
        } else {
            assert(seq!['s'][0] == 's' && seq!['m'][0] == 'm' && seq!['h'][0] == 'h');
            None
        }
    } else if rest == 2 {
        let c = text.get_char(from);
        let d = text.get_char(from + 1);
        assert(unit[0] == c && unit[1] == d);
        if c == 'm' && d == 's' {
            assert(unit =~= seq!['m', 's']);
            Some(1)
        } else {
            assert(seq!['m', 's'][0] == 'm' && seq!['m', 's'][1] == 's');
            None
        }
    } else {
        None
    }
}

/// Reads a timeout text as a limit in milliseconds.
pub fn deadline_millis(text: &str) -> (r: Option<u64>)
    ensures
        r == deadline_of(text@),
{
    let len = text.unicode_len();
    let mut i: usize = 0;
    let mut acc: u64 = 0;
    let mut scanning = true;
    while scanning
        invariant
            len == text@.len(),
            i <= len,
            forall|j: int| 0 <= j < i ==> is_digit(#[trigger] text@[j]),
            acc == decimal_value(text@.take(i as int)),
            !scanning ==> (i == len || !is_digit(text@[i as int])),
        decreases len - i + (if scanning { 1nat } else { 0nat }),
    {
        if i >= len {
            scanning = false;
        } else {
            match digit_value(text.get_char(i)) {
                None => {
                    scanning = false;
                },
                Some(d) => {
                    proof {
                        assert(text@.take(i as int + 1).drop_last() =~= text@.take(i as int));
                    }
                    if acc > (u64::MAX - d) / 10 {
                        proof {
                            lemma_digits_len_at_least(text@, (i + 1) as nat);
                            let n = digits_len(text@);
                            lemma_value_grows(text@, i as int + 1, n as int);
                            let v = decimal_value(text@.take(n as int));
                            assert(v > u64::MAX);
                            assert forall|m: nat| m >= 1 implies #[trigger] (v * m) > u64::MAX by {
                                assert(v * m >= v) by (nonlinear_arith)
                                    requires
                                        m >= 1,
                                        v >= 0,
                                ;
                            }
                        }
                        return None;
                    }
                    acc = acc * 10 + d;
                    i += 1;
                },
            }
        }
    }
    proof {
        lemma_digits_len(text@, i as nat);
    }
    if i == 0 {
        return None;
    }
    match unit_factor(text, i, len) {
        None => None,
        Some(m) => {
            assert(acc as u128 * m as u128 <= 0xffff_ffff_ffff_ffff * 3_600_000) by (nonlinear_arith)
                requires
                    acc <= 0xffff_ffff_ffff_ffff,
                    m <= 3_600_000,
            ;
            let total: u128 = (acc as u128) * (m as u128);
            if total > u64::MAX as u128 {
                None
            } else {
                Some(total as u64)
            }
        },
    }
}

// ----------------------------------------------------------------------------
// What the engine asks for and what it is told
// ----------------------------------------------------------------------------

/// Where the two external tools are found.
#[derive(Debug)]
pub struct ToolPaths {
    pub sandbox: String,
    pub compiler: String,
}

/// One process for the supervisor to start: the program, its arguments, and
/// how long it may run before the supervisor ends it.
#[derive(Debug)]
pub struct Invocation {
    pub program: String,
    pub args: Vec<String>,
    pub deadline_ms: Option<u64>,
}

/// The mathematical view of an `Invocation`.
pub struct InvocationView {
    pub program: Seq<char>,
    pub args: Seq<Seq<char>>,
    pub deadline_ms: Option<u64>,
}

impl View for Invocation {
    type V = InvocationView;

    open spec fn view(&self) -> InvocationView {
        InvocationView {
            program: self.program@,
            args: texts(self.args@),
            deadline_ms: self.deadline_ms,
        }
    }
}

/// One system call as the sandbox reported it, with the verdict of the
/// tool's own default policy.
#[derive(Debug)]
pub struct SyscallObservation {
    pub syscall: String,
    pub args: String,
    pub result: String,
    pub permitted: bool,
}

/// The mathematical view of a `SyscallObservation`.
pub struct SyscallObservationView {
    pub syscall: Seq<char>,
    pub args: Seq<char>,
    pub result: Seq<char>,
    pub permitted: bool,
}

impl View for SyscallObservation {
    type V = SyscallObservationView;

    open spec fn view(&self) -> SyscallObservationView {
        SyscallObservationView {
            syscall: self.syscall@,
            args: self.args@,
            result: self.result@,
            permitted: self.permitted,
        }
    }
}

/// Maps observations to the sequence of their views.
pub open spec fn observed_view(v: Seq<SyscallObservation>) -> Seq<SyscallObservationView> {
    v.map_values(|o: SyscallObservation| o@)
}

/// How a process that did start came to its end.
#[derive(Debug)]
pub struct ProcessReport {
    pub stdout: String,
    pub stderr: String,
    /// Absent when the process ended without an exit code.
    pub exit_code: Option<i32>,
    /// Whether the supervisor ended the process at its deadline.
    pub timed_out: bool,
    pub elapsed_ms: i64,
    /// The system calls observed, in the order in which they happened.
    pub audit: Vec<SyscallObservation>,
}

/// What the supervisor reports of one invocation.
#[derive(Debug)]
pub enum ProcessOutcome {
    Finished(ProcessReport),
    /// The process could not be started; the text says why.
    SpawnFailed(String),
}

/// What one run produced, before it is given an identity.
#[derive(Debug)]
pub struct RunOutput {
    pub stdout: String,
    pub stderr: String,
    pub exit_code: Option<i32>,
    pub timed_out: bool,
    pub syscall_log: Vec<SyscallEntry>,
    pub resource_usage: ResourceUsage,
    pub output_truncated: bool,
}

/// The mathematical view of a `RunOutput`.
pub struct RunOutputView {
    pub stdout: Seq<char>,
    pub stderr: Seq<char>,
    pub exit_code: Option<i32>,
    pub timed_out: bool,
    pub syscall_log: Seq<SyscallEntryView>,
    pub resource_usage: ResourceUsage,
    pub output_truncated: bool,
}

impl View for RunOutput {
    type V = RunOutputView;

    open spec fn view(&self) -> RunOutputView {
        RunOutputView {
            stdout: self.stdout@,
            stderr: self.stderr@,
            exit_code: self.exit_code,
            timed_out: self.timed_out,
            syscall_log: crate::models::trail_view(self.syscall_log@),
            resource_usage: self.resource_usage,
            output_truncated: self.output_truncated,
        }
    }
}

/// The next thing to do for a run.
#[derive(Debug)]
pub enum RunPlan {
    /// Nothing is to be started: the run has ended with this output.
    Reject(RunOutput),
    /// Start the compiler.
    Compile(Invocation),
    /// Start the sandbox.
    Execute(Invocation),
}

/// The mathematical view of a `RunPlan`.
pub enum RunPlanView {
    Reject(RunOutputView),
    Compile(InvocationView),
    Execute(InvocationView),
}

impl View for RunPlan {
    type V = RunPlanView;

    open spec fn view(&self) -> RunPlanView {
        match self {
            RunPlan::Reject(out) => RunPlanView::Reject(out@),
            RunPlan::Compile(inv) => RunPlanView::Compile(inv@),
            RunPlan::Execute(inv) => RunPlanView::Execute(inv@),
        }
    }
}

// ----------------------------------------------------------------------------
// Command lines
// ----------------------------------------------------------------------------

/// The options that put a policy on the sandbox's command line.
pub open spec fn option_words(p: ExecutionPolicyView) -> Seq<Seq<char>> {
    (match p.memory_limit {
        Some(m) => seq!["--memory"@, m],
        None => Seq::<Seq<char>>::empty(),
    }) + (match p.timeout {
        Some(t) => seq!["--timeout"@, t],
        None => Seq::<Seq<char>>::empty(),
    }) + (if p.network_enabled {
        Seq::<Seq<char>>::empty()
    } else {
        seq!["--network"@, "none"@]
    })
}

/// The deadline that the engine enforces under a policy.
pub open spec fn policy_deadline(p: ExecutionPolicyView) -> Option<u64> {
    match p.timeout {
        Some(t) => deadline_of(t),
        None => None,
    }
}

/// The compiler run that checks a source text.
pub open spec fn compile_invocation_of(compiler: Seq<char>, code: Seq<char>) -> InvocationView {
    InvocationView {
        program: compiler,
        args: seq!["--eval"@, code, "--emit-bytecode"@],
        deadline_ms: None,
    }
}

/// The sandbox run that compiles and executes a source text.
pub open spec fn code_invocation_of(
    sandbox: Seq<char>,
    compiler: Seq<char>,
    p: ExecutionPolicyView,
    code: Seq<char>,
) -> InvocationView {
    InvocationView {
        program: sandbox,
        args: option_words(p) + seq![compiler, "--eval"@, code, "--run"@],
        deadline_ms: policy_deadline(p),
    }
}

/// The sandbox run that executes a binary.
pub open spec fn binary_invocation_of(
    sandbox: Seq<char>,
    p: ExecutionPolicyView,
    binary: Seq<char>,
) -> InvocationView {
    InvocationView {
        program: sandbox,
        args: option_words(p).push(binary),
        deadline_ms: policy_deadline(p),
    }
}

/// An invocation as one line of text: the program and its arguments,
/// separated by single spaces.
pub open spec fn command_line(inv: InvocationView) -> Seq<char> {
    spaced(seq![inv.program] + inv.args)
}

fn push_word(words: &mut Vec<String>, word: &str)
    ensures
        texts(final(words)@) == texts(old(words)@).push(word@),
{
    words.push(word.to_string());
    assert(texts(words@) =~= texts(old(words)@).push(word@));
}

/// Builds the sandbox options of a policy.
pub fn sandbox_options(policy: &ExecutionPolicy) -> (words: Vec<String>)
    ensures
        texts(words@) == option_words(policy@),
{
    let mut words: Vec<String> = Vec::new();
    assert(texts(words@) =~= Seq::<Seq<char>>::empty());
    let ghost e = Seq::<Seq<char>>::empty();
    let ghost mem = match policy@.memory_limit {
        Some(m) => seq!["--memory"@, m],
        None => e,
    };
    let ghost tmo = match policy@.timeout {
        Some(t) => seq!["--timeout"@, t],
        None => e,
    };
    if let Some(m) = &policy.memory_limit {
        push_word(&mut words, "--memory");
        push_word(&mut words, m.as_str());
    }
    assert(texts(words@) =~= mem);
    if let Some(t) = &policy.timeout {
        push_word(&mut words, "--timeout");
        push_word(&mut words, t.as_str());
    }
    assert(texts(words@) =~= mem + tmo);
    if !policy.network_enabled {
        push_word(&mut words, "--network");
        push_word(&mut words, "none");
    }
    assert(texts(words@) =~= option_words(policy@));
    words
}

fn policy_deadline_millis(policy: &ExecutionPolicy) -> (r: Option<u64>)
    ensures
        r == policy_deadline(policy@),
{
    match &policy.timeout {
        Some(t) => deadline_millis(t.as_str()),
        None => None,
    }
}

/// Builds the compiler run for a source text.
pub fn compile_invocation(tools: &ToolPaths, code: &str) -> (inv: Invocation)
    ensures
        inv@ == compile_invocation_of(tools.compiler@, code@),
{
    let mut args: Vec<String> = Vec::new();
    assert(texts(args@) =~= Seq::<Seq<char>>::empty());
    push_word(&mut args, "--eval");
    push_word(&mut args, code);
    push_word(&mut args, "--emit-bytecode");
    assert(texts(args@) =~= seq!["--eval"@, code@, "--emit-bytecode"@]);
    Invocation { program: tools.compiler.clone(), args, deadline_ms: None }
}

/// Builds the sandbox run for a source text.
pub fn code_invocation(tools: &ToolPaths, policy: &ExecutionPolicy, code: &str) -> (inv:
    Invocation)
    ensures
        inv@ == code_invocation_of(tools.sandbox@, tools.compiler@, policy@, code@),
{
    let mut args = sandbox_options(policy);
    push_word(&mut args, tools.compiler.as_str());
    push_word(&mut args, "--eval");
    push_word(&mut args, code);
    push_word(&mut args, "--run");
    assert(texts(args@) =~= option_words(policy@) + seq![
        tools.compiler@,
        "--eval"@,
        code@,
        "--run"@,
    ]);
    Invocation {
        program: tools.sandbox.clone(),
        args,
        deadline_ms: policy_deadline_millis(policy),
    }
}

/// Builds the sandbox run for a binary.
pub fn binary_invocation(tools: &ToolPaths, policy: &ExecutionPolicy, binary_path: &str) -> (inv:
    Invocation)
    ensures
        inv@ == binary_invocation_of(tools.sandbox@, policy@, binary_path@),
{
    let mut args = sandbox_options(policy);
    push_word(&mut args, binary_path);
    Invocation {
        program: tools.sandbox.clone(),
        args,
        deadline_ms: policy_deadline_millis(policy),
    }
}

/// Writes an invocation as one line of text.
pub fn command_text(inv: &Invocation) -> (line: String)
    ensures
        line@ == command_line(inv@),
{
    let mut words: Vec<String> = Vec::new();
    words.push(inv.program.clone());
    assert(texts(words@) =~= seq![inv.program@] + texts(inv.args@.take(0)));
    let mut i: usize = 0;
    while i < inv.args.len()
        invariant
            i <= inv.args.len(),
            texts(words@) == seq![inv.program@] + texts(inv.args@.take(i as int)),
        decreases inv.args.len() - i,
    {
        let ghost before = words@;
        words.push(inv.args[i].clone());
        proof {
            assert(texts(words@) =~= texts(before).push(inv.args@[i as int]@));
            assert(texts(inv.args@.take(i as int + 1)) =~= texts(inv.args@.take(i as int)).push(
                inv.args@[i as int]@,
            ));
        }
        i += 1;
    }
    assert(inv.args@.take(inv.args.len() as int) =~= inv.args@);
    join_spaced(&words)
}

// ----------------------------------------------------------------------------
// Captured output
// ----------------------------------------------------------------------------

/// The most characters of one output stream that a run record keeps.
pub const MAX_CAPTURE_CHARS: usize = 1_048_576;

/// An output stream cut at the capture limit.
pub open spec fn capped(s: Seq<char>) -> Seq<char> {
    if s.len() > MAX_CAPTURE_CHARS {
        s.take(MAX_CAPTURE_CHARS as int)
    } else {
        s
    }
}

/// Whether an output stream is longer than the capture limit.
pub open spec fn overflows(s: Seq<char>) -> bool {
    s.len() > MAX_CAPTURE_CHARS
}

/// Copies an output stream up to the capture limit and says whether
/// anything was cut.
pub fn cap_text(s: &str) -> (r: (String, bool))
    ensures
        r.0@ == capped(s@),
        r.1 == overflows(s@),
{
    let n = s.unicode_len();
    if n > MAX_CAPTURE_CHARS {
        let head = s.substring_char(0, MAX_CAPTURE_CHARS);
        assert(head@ =~= s@.take(MAX_CAPTURE_CHARS as int));
        (head.to_string(), true)
    } else {
        (s.to_string(), false)
    }
}

// ----------------------------------------------------------------------------
// The audit trail
// ----------------------------------------------------------------------------

/// Whether a system call counts as allowed: by the allow-list where the
/// policy has one, else by the verdict that came with the observation.
pub open spec fn is_allowed(p: ExecutionPolicyView, o: SyscallObservationView) -> bool {
    match p.syscall_allowlist {
        Some(list) => list.contains(o.syscall),
        None => o.permitted,
    }
}

/// The audit entry that records one observation.
pub open spec fn captured_entry(p: ExecutionPolicyView, o: SyscallObservationView, at: i64)
    -> SyscallEntryView {
    SyscallEntryView {
        syscall: o.syscall,
        args: o.args,
        result: o.result,
        timestamp: at,
        allowed: is_allowed(p, o),
    }
}

/// The audit trail that records a sequence of observations: one entry for
/// each, in the same order.
pub open spec fn captured(p: ExecutionPolicyView, obs: Seq<SyscallObservationView>, at: i64)
    -> Seq<SyscallEntryView> {
    obs.map_values(|o: SyscallObservationView| captured_entry(p, o, at))
}

fn list_contains(list: &Vec<String>, name: &String) -> (r: bool)
    ensures
        r == texts(list@).contains(name@),
{
    let mut i: usize = 0;
    while i < list.len()
        invariant
            i <= list.len(),
            forall|j: int| 0 <= j < i ==> texts(list@)[j] != name@,
        decreases list.len() - i,
    {
        if list[i] == *name {
            assert(texts(list@)[i as int] == name@);
            return true;
        }
        i += 1;
    }
    false
}

fn allowed(policy: &ExecutionPolicy, o: &SyscallObservation) -> (r: bool)
    ensures
        r == is_allowed(policy@, o@),
{
    match &policy.syscall_allowlist {
        Some(list) => list_contains(list, &o.syscall),
        None => o.permitted,
    }
}

/// Records observed system calls as audit entries, keeping their order.
pub fn capture_audit(policy: &ExecutionPolicy, observed: &Vec<SyscallObservation>, at: i64) -> (log:
    Vec<SyscallEntry>)
    ensures
        crate::models::trail_view(log@) == captured(policy@, observed_view(observed@), at),
{
    let mut log: Vec<SyscallEntry> = Vec::new();
    let mut i: usize = 0;
    while i < observed.len()
        invariant
            i <= observed.len(),
            crate::models::trail_view(log@) == captured(
                policy@,
                observed_view(observed@.take(i as int)),
                at,
            ),
        decreases observed.len() - i,
    {
        let o = &observed[i];
        let entry = SyscallEntry {
            syscall: o.syscall.clone(),
            args: o.args.clone(),
            result: o.result.clone(),
            timestamp: at,
            allowed: allowed(policy, o),
        };
        let ghost before = log@;
        log.push(entry);
        proof {
            assert(observed_view(observed@.take(i as int + 1)) =~= observed_view(
                observed@.take(i as int),
            ).push(o@));
            assert(crate::models::trail_view(log@) =~= crate::models::trail_view(before).push(
                captured_entry(policy@, o@, at),
            ));
            assert(captured(policy@, observed_view(observed@.take(i as int)).push(o@), at)
                =~= captured(policy@, observed_view(observed@.take(i as int)), at).push(
                captured_entry(policy@, o@, at),
            ));
        }
        i += 1;
    }
    assert(observed@.take(observed.len() as int) =~= observed@);
    log
}

/// What every run of a compiled program does, as three observations: the
/// process starts with the given command line, writes its output, and exits
/// with the given code.
pub open spec fn canonical_observations(command: Seq<char>, exit_code: Option<i32>) -> Seq<
    SyscallObservationView,
> {
    seq![
        SyscallObservationView {
            syscall: "execve"@,
            args: command,
            result: "0"@,
            permitted: true,
        },
        SyscallObservationView {
            syscall: "write"@,
            args: "fd=1, size=42"@,
            result: "42"@,
            permitted: true,
        },
        SyscallObservationView {
            syscall: "exit_group"@,
            args: "exit_code="@ + exit_code_seq(exit_code),
            result: exit_code_seq(exit_code),
            permitted: true,
        },
    ]
}

/// Builds the three canonical observations of a run.
pub fn canonical_trail(command: &str, exit_code: Option<i32>) -> (obs: Vec<SyscallObservation>)
    ensures
        observed_view(obs@) == canonical_observations(command@, exit_code),
{
    let code_text = exit_code_text(exit_code);
    let mut obs: Vec<SyscallObservation> = Vec::new();
    obs.push(
        SyscallObservation {
            syscall: "execve".to_string(),
            args: command.to_string(),
            result: "0".to_string(),
            permitted: true,
        },
    );
    obs.push(
        SyscallObservation {
            syscall: "write".to_string(),
            args: "fd=1, size=42".to_string(),
            result: "42".to_string(),
            permitted: true,
        },
    );
    obs.push(
        SyscallObservation {
            syscall: "exit_group".to_string(),
            args: concat2("exit_code=", code_text.as_str()),
            result: code_text,
            permitted: true,
        },
    );
    assert(observed_view(obs@) =~= canonical_observations(command@, exit_code));
    obs
}

// ----------------------------------------------------------------------------
// Outputs
// ----------------------------------------------------------------------------

/// The snapshot of a run that consumed nothing.
pub open spec fn no_usage() -> ResourceUsage {
    ResourceUsage { memory_kb: 0, cpu_basis_points: 0, execution_time_ms: 0, syscalls_count: 0 }
}

/// The snapshot of a run: the nominal memory and processor figures of its
/// kind, the time it took, and the number of audited system calls, which
/// stops counting at the largest 32-bit value.
pub open spec fn usage_of(memory_kb: u64, cpu_basis_points: u32, elapsed_ms: i64, calls: nat)
    -> ResourceUsage {
    ResourceUsage {
        memory_kb,
        cpu_basis_points,
        execution_time_ms: elapsed_ms,
        syscalls_count: if calls > i32::MAX {
            i32::MAX
        } else {
            calls as i32
        },
    }
}

/// The output of a run that the engine ended itself: exit code 1, nothing
/// audited, nothing consumed.
pub open spec fn failure_output(stdout: Seq<char>, stderr: Seq<char>) -> RunOutputView {
    RunOutputView {
        stdout,
        stderr,
        exit_code: Some(1),
        timed_out: false,
        syscall_log: Seq::<SyscallEntryView>::empty(),
        resource_usage: no_usage(),
        output_truncated: false,
    }
}

/// The exit code that is recorded for a process: none when it was ended at
/// its deadline.
pub open spec fn recorded_code(rep: ProcessReport) -> Option<i32> {
    if rep.timed_out {
        None
    } else {
        rep.exit_code
    }
}

/// The system calls that are recorded for a run of source code: those
/// observed, or the three canonical ones where none was observed.
pub open spec fn code_observations(command: Seq<char>, rep: ProcessReport) -> Seq<
    SyscallObservationView,
> {
    if rep.audit@.len() == 0 {
        canonical_observations(command, recorded_code(rep))
    } else {
        observed_view(rep.audit@)
    }
}

/// The output of a run of source code, given the command line that was
/// started, how the process ended, and the time of recording.
pub open spec fn code_run_view(
    p: ExecutionPolicyView,
    command: Seq<char>,
    outcome: ProcessOutcome,
    at: i64,
) -> RunOutputView {
    match outcome {
        ProcessOutcome::SpawnFailed(reason) => failure_output(
            Seq::<char>::empty(),
            "Failed to run sandbox: "@ + reason@,
        ),
        ProcessOutcome::Finished(rep) => RunOutputView {
            stdout: capped(rep.stdout@),
            stderr: capped(rep.stderr@),
            exit_code: recorded_code(rep),
            timed_out: rep.timed_out,
            syscall_log: captured(p, code_observations(command, rep), at),
            resource_usage: usage_of(
                2500,
                1500,
                rep.elapsed_ms,
                code_observations(command, rep).len(),
            ),
            output_truncated: overflows(rep.stdout@) || overflows(rep.stderr@),
        },
    }
}

/// The output of a run of a binary, given how the process ended and the
/// time of recording.
pub open spec fn binary_run_view(p: ExecutionPolicyView, outcome: ProcessOutcome, at: i64)
    -> RunOutputView {
    match outcome {
        ProcessOutcome::SpawnFailed(reason) => failure_output(
            Seq::<char>::empty(),
            "Failed to run binary: "@ + reason@,
        ),
        ProcessOutcome::Finished(rep) => RunOutputView {
            stdout: capped(rep.stdout@),
            stderr: capped(rep.stderr@),
            exit_code: recorded_code(rep),
            timed_out: rep.timed_out,
            syscall_log: captured(p, observed_view(rep.audit@), at),
            resource_usage: usage_of(1000, 500, rep.elapsed_ms, rep.audit@.len()),
            output_truncated: overflows(rep.stdout@) || overflows(rep.stderr@),
        },
    }
}

fn failed_output(stdout: String, stderr: String) -> (out: RunOutput)
    ensures
        out@ == failure_output(stdout@, stderr@),
{
    let out = RunOutput {
        stdout,
        stderr,
        exit_code: Some(1),
        timed_out: false,
        syscall_log: Vec::new(),
        resource_usage: ResourceUsage {
            memory_kb: 0,
            cpu_basis_points: 0,
            execution_time_ms: 0,
            syscalls_count: 0,
        },
        output_truncated: false,
    };
    assert(crate::models::trail_view(out.syscall_log@) =~= Seq::<SyscallEntryView>::empty());
    out
}

fn usage(memory_kb: u64, cpu_basis_points: u32, elapsed_ms: i64, calls: usize) -> (u:
    ResourceUsage)
    ensures
        u == usage_of(memory_kb, cpu_basis_points, elapsed_ms, calls as nat),
{
    ResourceUsage {
        memory_kb,
        cpu_basis_points,
        execution_time_ms: elapsed_ms,
        syscalls_count: if calls > i32::MAX as usize {
            i32::MAX
        } else {
            calls as i32
        },
    }
}

fn finished_output(
    rep: &ProcessReport,
    syscall_log: Vec<SyscallEntry>,
    resource_usage: ResourceUsage,
) -> (out: RunOutput)
    ensures
        out@ == (RunOutputView {
            stdout: capped(rep.stdout@),
            stderr: capped(rep.stderr@),
            exit_code: recorded_code(*rep),
            timed_out: rep.timed_out,
            syscall_log: crate::models::trail_view(syscall_log@),
            resource_usage,
            output_truncated: overflows(rep.stdout@) || overflows(rep.stderr@),
        }),
{
    let (stdout, cut_out) = cap_text(rep.stdout.as_str());
    let (stderr, cut_err) = cap_text(rep.stderr.as_str());
    RunOutput {
        stdout,
        stderr,
        exit_code: if rep.timed_out {
            None
        } else {
            rep.exit_code
        },
        timed_out: rep.timed_out,
        syscall_log,
        resource_usage,
        output_truncated: cut_out || cut_err,
    }
}

/// Turns the end of a sandboxed run of source code into its output. The
/// standard streams are kept up to the capture limit. The audit trail holds
/// what was observed, in order, or the three canonical entries where the
/// sandbox reported nothing. A process that could not be started gives a
/// failure with the reason on standard error.
pub fn run_code_in_sandbox(
    policy: &ExecutionPolicy,
    inv: &Invocation,
    outcome: &ProcessOutcome,
    at: i64,
) -> (out: RunOutput)
    ensures
        out@ == code_run_view(policy@, command_line(inv@), *outcome, at),
{
    match outcome {
        ProcessOutcome::SpawnFailed(reason) => failed_output(
            String::new(),
            concat2("Failed to run sandbox: ", reason.as_str()),
        ),
        ProcessOutcome::Finished(rep) => {
            let log = if rep.audit.len() == 0 {
                let line = command_text(inv);
                let code = if rep.timed_out {
                    None
                } else {
                    rep.exit_code
                };
                let canonical = canonical_trail(line.as_str(), code);
                capture_audit(policy, &canonical, at)
            } else {
                capture_audit(policy, &rep.audit, at)
            };
            proof {
                let obs = code_observations(command_line(inv@), *rep);
                assert(crate::models::trail_view(log@) == captured(policy@, obs, at));
                assert(crate::models::trail_view(log@).len() == log@.len());
                assert(captured(policy@, obs, at).len() == obs.len());
            }
            let u = usage(2500, 1500, rep.elapsed_ms, log.len());
            finished_output(rep, log, u)
        },
    }
}

/// Turns the end of a sandboxed run of a binary into its output. The
/// standard streams are kept up to the capture limit and the audit trail
/// holds what was observed, in order. A process that could not be started
/// gives a failure with the reason on standard error.
pub fn run_binary_in_sandbox(policy: &ExecutionPolicy, outcome: &ProcessOutcome, at: i64) -> (out:
    RunOutput)
    ensures
        out@ == binary_run_view(policy@, *outcome, at),
{
    match outcome {
        ProcessOutcome::SpawnFailed(reason) => failed_output(
            String::new(),
            concat2("Failed to run binary: ", reason.as_str()),
        ),
        ProcessOutcome::Finished(rep) => {
            let log = capture_audit(policy, &rep.audit, at);
            proof {
                let obs = observed_view(rep.audit@);
                assert(crate::models::trail_view(log@).len() == log@.len());
                assert(captured(policy@, obs, at).len() == obs.len());
                assert(obs.len() == rep.audit@.len());
            }
            let u = usage(1000, 500, rep.elapsed_ms, log.len());
            finished_output(rep, log, u)
        },
    }
}

// ----------------------------------------------------------------------------
// Planning
// ----------------------------------------------------------------------------

/// What is to be done first for a request. A request must bring exactly one
/// of source code and a binary: one that brings neither, or both, is ended
/// at once as a failure. Source code goes to the compiler first; a binary
/// goes straight to the sandbox.
pub open spec fn plan_of(req: SandboxRunRequest, p: ExecutionPolicyView, tools: ToolPaths)
    -> RunPlanView {
    match (req.code, req.binary_path) {
        (None, None) => RunPlanView::Reject(
            failure_output("No code or binary provided"@, "Error: No input"@),
        ),
        (Some(_), Some(_)) => RunPlanView::Reject(
            failure_output("Both code and binary provided"@, "Error: Ambiguous input"@),
        ),
        (Some(code), None) => RunPlanView::Compile(
            compile_invocation_of(tools.compiler@, code@),
        ),
        (None, Some(binary)) => RunPlanView::Execute(
            binary_invocation_of(tools.sandbox@, p, binary@),
        ),
    }
}

/// Decides what is to be done first for a request.
pub fn plan_run(req: &SandboxRunRequest, policy: &ExecutionPolicy, tools: &ToolPaths) -> (plan:
    RunPlan)
    ensures
        plan@ == plan_of(*req, policy@, *tools),
{
    match (&req.code, &req.binary_path) {
        (None, None) => RunPlan::Reject(
            failed_output("No code or binary provided".to_string(), "Error: No input".to_string()),
        ),
        (Some(_), Some(_)) => RunPlan::Reject(
            failed_output(
                "Both code and binary provided".to_string(),
                "Error: Ambiguous input".to_string(),
            ),
        ),
        (Some(code), None) => RunPlan::Compile(compile_invocation(tools, code.as_str())),
        (None, Some(binary)) => RunPlan::Execute(
            binary_invocation(tools, policy, binary.as_str()),
        ),
    }
}

/// Whether the compiler accepted the source: it ran to its end and exited
/// with code 0.
pub open spec fn compiled(outcome: ProcessOutcome) -> bool {
    outcome matches ProcessOutcome::Finished(rep) && !rep.timed_out && rep.exit_code == Some(0i32)
}

/// What follows the compiler's run. Accepted source goes to the sandbox.
/// Rejected source ends the run as a failure that carries the compiler's
/// output; so does a compiler that could not be started, with the reason on
/// standard error. In neither case is the sandbox started.
pub open spec fn after_compile_of(
    tools: ToolPaths,
    p: ExecutionPolicyView,
    code: Seq<char>,
    outcome: ProcessOutcome,
) -> RunPlanView {
    match outcome {
        ProcessOutcome::SpawnFailed(reason) => RunPlanView::Reject(
            failure_output(Seq::<char>::empty(), "Failed to run compiler: "@ + reason@),
        ),
        ProcessOutcome::Finished(rep) => if compiled(outcome) {
            RunPlanView::Execute(code_invocation_of(tools.sandbox@, tools.compiler@, p, code))
        } else {
            RunPlanView::Reject(
                RunOutputView {
                    stdout: capped(rep.stdout@),
                    stderr: capped(rep.stderr@),
                    exit_code: Some(1),
                    timed_out: false,
                    syscall_log: Seq::<SyscallEntryView>::empty(),
                    resource_usage: no_usage(),
                    output_truncated: overflows(rep.stdout@) || overflows(rep.stderr@),
                },
            )
        },
    }
}

/// Decides what follows the compiler's run.
pub fn after_compile(
    tools: &ToolPaths,
    policy: &ExecutionPolicy,
    code: &str,
    outcome: &ProcessOutcome,
) -> (plan: RunPlan)
    ensures
        plan@ == after_compile_of(*tools, policy@, code@, *outcome),
{
    match outcome {
        ProcessOutcome::SpawnFailed(reason) => RunPlan::Reject(
            failed_output(String::new(), concat2("Failed to run compiler: ", reason.as_str())),
        ),
        ProcessOutcome::Finished(rep) => {
            let accepted = !rep.timed_out && match rep.exit_code {
                Some(c) => c == 0,
                None => false,
            };
            if accepted {
                RunPlan::Execute(code_invocation(tools, policy, code))
            } else {
                let (stdout, cut_out) = cap_text(rep.stdout.as_str());
                let (stderr, cut_err) = cap_text(rep.stderr.as_str());
                let out = RunOutput {
                    stdout,
                    stderr,
                    exit_code: Some(1),
                    timed_out: false,
                    syscall_log: Vec::new(),
                    resource_usage: ResourceUsage {
                        memory_kb: 0,
                        cpu_basis_points: 0,
                        execution_time_ms: 0,
                        syscalls_count: 0,
                    },
                    output_truncated: cut_out || cut_err,
                };
                assert(crate::models::trail_view(out.syscall_log@) =~= Seq::<
                    SyscallEntryView,
                >::empty());
                RunPlan::Reject(out)
            }
        },
    }
}

// ----------------------------------------------------------------------------
// The run record
// ----------------------------------------------------------------------------

/// The status of a finished run: `Timeout` when it was ended at its
/// deadline, whatever its exit code; else `Completed` when it exited with
/// code 0; else `Failed`.
pub open spec fn status_of(timed_out: bool, exit_code: Option<i32>) -> RunStatus {
    if timed_out {
        RunStatus::Timeout
    } else if exit_code == Some(0i32) {
        RunStatus::Completed
    } else {
        RunStatus::Failed
    }
}

/// Decides the status of a finished run.
pub fn run_status(timed_out: bool, exit_code: Option<i32>) -> (status: RunStatus)
    ensures
        status == status_of(timed_out, exit_code),
{
    if timed_out {
        RunStatus::Timeout
    } else {
        match exit_code {
            Some(c) => if c == 0 {
                RunStatus::Completed
            } else {
                RunStatus::Failed
            },
            None => RunStatus::Failed,
        }
    }
}

/// The identity of a run and the time of its submission.
#[derive(Debug, Clone, Copy)]
pub struct RunTicket {
    pub id: u128,
    pub created_at: i64,
}

/// Gives a new run its identity and notes the time.
pub fn open_run() -> (ticket: RunTicket)
    ensures
        crate::system::id_version(ticket.id) == 4,
        crate::system::id_variant(ticket.id) == 2,
{
    let id = fresh_id();
    let created_at = now_micros();
    RunTicket { id, created_at }
}

/// The record of a finished run: what it produced, under its identity, with
/// the status that its end decides.
pub open spec fn run_record(ticket: RunTicket, out: RunOutputView, completed_at: i64)
    -> crate::models::SandboxRunView {
    crate::models::SandboxRunView {
        id: ticket.id,
        status: status_of(out.timed_out, out.exit_code),
        stdout: out.stdout,
        stderr: out.stderr,
        exit_code: out.exit_code,
        syscall_log: out.syscall_log,
        resource_usage: out.resource_usage,
        created_at: ticket.created_at,
        completed_at: Some(completed_at),
        output_truncated: out.output_truncated,
    }
}

/// Writes the record of a finished run.
pub fn seal_run(ticket: RunTicket, output: RunOutput, completed_at: i64) -> (run: SandboxRun)
    ensures
        run@ == run_record(ticket, output@, completed_at),
{
    SandboxRun {
        id: ticket.id,
        status: run_status(output.timed_out, output.exit_code),
        stdout: output.stdout,
        stderr: output.stderr,
        exit_code: output.exit_code,
        syscall_log: output.syscall_log,
        resource_usage: output.resource_usage,
        created_at: ticket.created_at,
        completed_at: Some(completed_at),
        output_truncated: output.output_truncated,
    }
}

// ----------------------------------------------------------------------------
// One run, step by step
// ----------------------------------------------------------------------------

/// What the supervisor tells the engine.
#[derive(Debug)]
pub enum RunEvent {
    /// The run was submitted.
    Start,
    /// The compiler's run ended.
    Compiled(ProcessOutcome),
    /// The sandbox's run ended.
    Executed(ProcessOutcome),
}

/// What the engine tells the supervisor.
#[derive(Debug)]
pub enum RunStep {
    /// Start the compiler and report `Compiled`.
    Compile(Invocation),
    /// Start the sandbox, end it at its deadline, and report `Executed`.
    Execute(Invocation),
    /// The run is over.
    Done(SandboxRun),
}

/// The mathematical view of a `RunStep`.
pub enum RunStepView {
    Compile(InvocationView),
    Execute(InvocationView),
    Done(crate::models::SandboxRunView),
}

impl View for RunStep {
    type V = RunStepView;

    open spec fn view(&self) -> RunStepView {
        match self {
            RunStep::Compile(inv) => RunStepView::Compile(inv@),
            RunStep::Execute(inv) => RunStepView::Execute(inv@),
            RunStep::Done(run) => RunStepView::Done(run@),
        }
    }
}

/// The step that carries out a plan: a rejection closes the run at once.
pub open spec fn step_of_plan(plan: RunPlanView, ticket: RunTicket, at: i64) -> RunStepView {
    match plan {
        RunPlanView::Reject(out) => RunStepView::Done(run_record(ticket, out, at)),
        RunPlanView::Compile(inv) => RunStepView::Compile(inv),
        RunPlanView::Execute(inv) => RunStepView::Execute(inv),
    }
}

/// The engine's answer to an event, at a given time.
///
/// The request says what to run and the policy under which constraints; the
/// limits written in the request play no part beyond the policy built from
/// them. On `Start` the answer is the first step of the plan. On `Compiled`, for a request
/// that brings source code, it is what follows the compiler's run; for any
/// other request it is the first step again. On `Executed` the run is over:
/// its record holds the output of the kind of run that the request asks
/// for, or the rejection of a request that asks for none.
pub open spec fn step_of(
    req: SandboxRunRequest,
    p: ExecutionPolicyView,
    tools: ToolPaths,
    ticket: RunTicket,
    event: RunEvent,
    at: i64,
) -> RunStepView {
    let plan = plan_of(req, p, tools);
    match event {
        RunEvent::Start => step_of_plan(plan, ticket, at),
        RunEvent::Compiled(outcome) => match plan {
            RunPlanView::Compile(_) => step_of_plan(
                after_compile_of(tools, p, req.code->0@, outcome),
                ticket,
                at,
            ),
            _ => step_of_plan(plan, ticket, at),
        },
        RunEvent::Executed(outcome) => match plan {
            RunPlanView::Reject(out) => RunStepView::Done(run_record(ticket, out, at)),
            RunPlanView::Compile(_) => RunStepView::Done(
                run_record(
                    ticket,
                    code_run_view(
                        p,
                        command_line(
                            code_invocation_of(tools.sandbox@, tools.compiler@, p, req.code->0@),
                        ),
                        outcome,
                        at,
                    ),
                    at,
                ),
            ),
            RunPlanView::Execute(_) => RunStepView::Done(
                run_record(ticket, binary_run_view(p, outcome, at), at),
            ),
        },
    }
}

fn carry_out(plan: RunPlan, ticket: RunTicket, at: i64) -> (step: RunStep)
    ensures
        step@ == step_of_plan(plan@, ticket, at),
{
    match plan {
        RunPlan::Reject(out) => RunStep::Done(seal_run(ticket, out, at)),
        RunPlan::Compile(inv) => RunStep::Compile(inv),
        RunPlan::Execute(inv) => RunStep::Execute(inv),
    }
}

/// Answers an event of a run at the given time.
pub fn run_step(
    req: &SandboxRunRequest,
    policy: &ExecutionPolicy,
    tools: &ToolPaths,
    ticket: RunTicket,
    event: &RunEvent,
    at: i64,
) -> (step: RunStep)
    ensures
        step@ == step_of(*req, policy@, *tools, ticket, *event, at),
{
    match event {
        RunEvent::Start => carry_out(plan_run(req, policy, tools), ticket, at),
        RunEvent::Compiled(outcome) => match (&req.code, &req.binary_path) {
            (Some(code), None) => carry_out(
                after_compile(tools, policy, code.as_str(), outcome),
                ticket,
                at,
            ),
            _ => carry_out(plan_run(req, policy, tools), ticket, at),
        },
        RunEvent::Executed(outcome) => match (&req.code, &req.binary_path) {
            (Some(code), None) => {
                let inv = code_invocation(tools, policy, code.as_str());
                RunStep::Done(seal_run(ticket, run_code_in_sandbox(policy, &inv, outcome, at), at))
            },
            (None, Some(_)) => RunStep::Done(
                seal_run(ticket, run_binary_in_sandbox(policy, outcome, at), at),
            ),
            _ => carry_out(plan_run(req, policy, tools), ticket, at),
        },
    }
}

/// Answers an event of a run, reading the clock for the time of recording.
/// Whatever the clock says, the answer is the one that `step_of` gives for
/// that time.
pub fn run_sandbox(
    req: &SandboxRunRequest,
    policy: &ExecutionPolicy,
    tools: &ToolPaths,
    ticket: RunTicket,
    event: &RunEvent,
) -> (step: RunStep)
    ensures
        exists|at: i64| step@ == step_of(*req, policy@, *tools, ticket, *event, at),
{
    let at = now_micros();
    run_step(req, policy, tools, ticket, event, at)
}

// ----------------------------------------------------------------------------
// Laws
// ----------------------------------------------------------------------------

/// A request that brings neither source code nor a binary ends as a failed
/// run with exit code 1 and a message on standard error, whatever event is
/// reported for it.
pub proof fn law_missing_input_fails(
    req: SandboxRunRequest,
    p: ExecutionPolicyView,
    tools: ToolPaths,
    ticket: RunTicket,
    event: RunEvent,
    at: i64,
)
    requires
        req.code is None,
        req.binary_path is None,
    ensures
        step_of(req, p, tools, ticket, event, at) matches RunStepView::Done(run) && run.status
            == RunStatus::Failed && run.exit_code == Some(1i32) && run.stderr.len() > 0
            && run.completed_at is Some,
{
    reveal_strlit("Error: No input");
}

/// The status of a run record follows from how the run ended, and from
/// nothing else: a run ended at its deadline is `Timeout` whatever its exit
/// code; any other run is `Completed` exactly when it exited with code 0,
/// and `Failed` otherwise. No record is left `Pending` or `Running`.
pub proof fn law_status_decision(ticket: RunTicket, out: RunOutputView, completed_at: i64)
    ensures
        out.timed_out ==> run_record(ticket, out, completed_at).status == RunStatus::Timeout,
        !out.timed_out ==> (run_record(ticket, out, completed_at).status == RunStatus::Completed
            <==> out.exit_code == Some(0i32)),
        !out.timed_out && out.exit_code != Some(0i32) ==> run_record(
            ticket,
            out,
            completed_at,
        ).status == RunStatus::Failed,
        run_record(ticket, out, completed_at).status.spec_is_terminal(),
{
}

/// A process that was ended at its deadline gives a `Timeout` record with
/// no exit code, whatever exit code was reported with it, for a run of
/// source code and for a run of a binary alike.
pub proof fn law_deadline_wins(
    p: ExecutionPolicyView,
    command: Seq<char>,
    rep: ProcessReport,
    ticket: RunTicket,
    at: i64,
)
    requires
        rep.timed_out,
    ensures
        run_record(
            ticket,
            code_run_view(p, command, ProcessOutcome::Finished(rep), at),
            at,
        ).status == RunStatus::Timeout,
        run_record(
            ticket,
            binary_run_view(p, ProcessOutcome::Finished(rep), at),
            at,
        ).status == RunStatus::Timeout,
{
}

/// A run that is over is over for good: whatever the request, the tools
/// and the event, a record that the engine hands out has a final status and
/// a completion time.
pub proof fn law_records_are_final(
    req: SandboxRunRequest,
    p: ExecutionPolicyView,
    tools: ToolPaths,
    ticket: RunTicket,
    event: RunEvent,
    at: i64,
)
    ensures
        step_of(req, p, tools, ticket, event, at) matches RunStepView::Done(run)
            ==> run.status.spec_is_terminal() && run.completed_at == Some(at) && run.id
            == ticket.id && run.created_at == ticket.created_at,
{
}

/// No run starts the sandbox twice: once the sandbox's run has been
/// reported, the engine asks for nothing more and hands out the record.
pub proof fn law_one_sandbox_process(
    req: SandboxRunRequest,
    p: ExecutionPolicyView,
    tools: ToolPaths,
    ticket: RunTicket,
    outcome: ProcessOutcome,
    at: i64,
)
    ensures
        step_of(req, p, tools, ticket, RunEvent::Executed(outcome), at) is Done,
{
}

/// Source that the compiler does not accept never reaches the sandbox: the
/// run ends at once as a failure with exit code 1 and nothing audited.
pub proof fn law_compile_failure_ends_run(
    req: SandboxRunRequest,
    p: ExecutionPolicyView,
    tools: ToolPaths,
    ticket: RunTicket,
    outcome: ProcessOutcome,
    at: i64,
)
    requires
        req.code is Some,
        req.binary_path is None,
        !compiled(outcome),
    ensures
        step_of(req, p, tools, ticket, RunEvent::Compiled(outcome), at) matches RunStepView::Done(run)
            && run.status == RunStatus::Failed && run.exit_code == Some(1i32)
            && run.syscall_log.len() == 0,
{
}

/// The audit trail of a run holds the observed system calls in the order in
/// which they were observed: entry `i` records observation `i`, for a run of
/// a binary always and for a run of source code whenever anything was
/// observed.
pub proof fn law_audit_order(
    p: ExecutionPolicyView,
    command: Seq<char>,
    rep: ProcessReport,
    at: i64,
)
    ensures
        ({
            let log = binary_run_view(p, ProcessOutcome::Finished(rep), at).syscall_log;
            &&& log.len() == rep.audit@.len()
            &&& forall|i: int|
                0 <= i < log.len() ==> (#[trigger] log[i]).syscall == rep.audit@[i].syscall@
                    && log[i].args == rep.audit@[i].args@ && log[i].result
                    == rep.audit@[i].result@
        }),
        rep.audit@.len() > 0 ==> code_run_view(p, command, ProcessOutcome::Finished(rep), at).syscall_log
            == binary_run_view(p, ProcessOutcome::Finished(rep), at).syscall_log,
{
}

} // verus!
