//! What each request does to the store, and what it answers.
//!
//! A request that does outside work (a compile, a sandboxed run) hands in
//! what that work produced; everything else is read from or written to the
//! store here. The structured details of a log entry are built by the
//! caller and carried through untouched.

use vstd::prelude::*;
use crate::models::{
    CrashInfo, CreateProjectRequest, FuzzCampaign, FuzzStatus, LogEntry, LogLevel, LogSource,
    Project, ResourceUsage, RunStatus, SandboxRun, SandboxRunView, SyscallEntry, TimelineResponse,
};
use crate::services::fuzzer::{crashes_of, get_campaign_status, get_crashes, stopped_store};
use crate::services::logger::{add_log, logged, timeline_of};
use crate::services::{campaign_message, campaign_text, AppState};
use crate::system::{fresh_id, now_micros};
use crate::text::{concat2, id_text, id_text_seq};

verus! {

// ----------------------------------------------------------------------------
// Compile
// ----------------------------------------------------------------------------

/// Logs the end of a compile request: an informational entry when it
/// succeeded, an error entry when it failed.
pub fn compile_code(state: &mut AppState, success: bool, details: Option<serde_json::Value>)
    ensures
        logged(
            old(state).logs@,
            final(state).logs@,
            if success {
                LogLevel::Info
            } else {
                LogLevel::Error
            },
            LogSource::Compiler,
            if success {
                "Code compiled successfully"@
            } else {
                "Code compilation failed"@
            },
            details,
        ),
        final(state).projects == old(state).projects,
        final(state).sandbox_runs == old(state).sandbox_runs,
        final(state).fuzz_campaigns == old(state).fuzz_campaigns,
        final(state).crashes == old(state).crashes,
        old(state).wf() ==> final(state).wf(),
{
    if success {
        add_log(
            &mut state.logs,
            LogLevel::Info,
            LogSource::Compiler,
            "Code compiled successfully".to_string(),
            details,
        );
    } else {
        add_log(
            &mut state.logs,
            LogLevel::Error,
            LogSource::Compiler,
            "Code compilation failed".to_string(),
            details,
        );
    }
}

// ----------------------------------------------------------------------------
// Sandbox
// ----------------------------------------------------------------------------

/// The name of a run status.
pub open spec fn status_name(status: RunStatus) -> Seq<char> {
    match status {
        RunStatus::Pending => "Pending"@,
        RunStatus::Running => "Running"@,
        RunStatus::Completed => "Completed"@,
        RunStatus::Failed => "Failed"@,
        RunStatus::Timeout => "Timeout"@,
    }
}

/// The level at which the end of a run is logged: an error for a run that
/// failed or timed out, informational otherwise.
pub open spec fn run_log_level(status: RunStatus) -> LogLevel {
    match status {
        RunStatus::Failed | RunStatus::Timeout => LogLevel::Error,
        _ => LogLevel::Info,
    }
}

/// The message with which the end of a run is logged.
pub open spec fn run_message(id: u128, status: RunStatus) -> Seq<char> {
    "Sandbox run "@ + id_text_seq(id) + " completed with status "@ + status_name(status)
}

fn status_text(status: RunStatus) -> (name: &'static str)
    ensures
        name@ == status_name(status),
{
    match status {
        RunStatus::Pending => "Pending",
        RunStatus::Running => "Running",
        RunStatus::Completed => "Completed",
        RunStatus::Failed => "Failed",
        RunStatus::Timeout => "Timeout",
    }
}

/// Files a finished run under its identifier, replacing any run filed under
/// it before, and logs its end.
pub fn run_sandbox(state: &mut AppState, run: SandboxRun, details: Option<serde_json::Value>)
    ensures
        final(state).sandbox_runs@ == old(state).sandbox_runs@.insert(run.id, run),
        logged(
            old(state).logs@,
            final(state).logs@,
            run_log_level(run.status),
            LogSource::Sandbox,
            run_message(run.id, run.status),
            details,
        ),
        final(state).projects == old(state).projects,
        final(state).fuzz_campaigns == old(state).fuzz_campaigns,
        final(state).crashes == old(state).crashes,
        old(state).wf() ==> final(state).wf(),
{
    broadcast use vstd::std_specs::hash::group_hash_axioms;

    let level = match run.status {
        RunStatus::Failed | RunStatus::Timeout => LogLevel::Error,
        _ => LogLevel::Info,
    };
    let text = id_text(run.id);
    let head = concat2("Sandbox run ", text.as_str());
    let tail = concat2(" completed with status ", status_text(run.status));
    let message = concat2(head.as_str(), tail.as_str());
    assert(message@ =~= run_message(run.id, run.status));
    state.sandbox_runs.insert(run.id, run);
    add_log(&mut state.logs, level, LogSource::Sandbox, message, details);
}

/// Looks up a run and returns a copy of it.
pub fn get_sandbox_run(state: &AppState, id: u128) -> (found: Option<SandboxRun>)
    ensures
        found is Some <==> state.sandbox_runs@.contains_key(id),
        found matches Some(run) ==> run@ == state.sandbox_runs@[id]@,
{
    broadcast use vstd::std_specs::hash::group_hash_axioms;

    match state.sandbox_runs.get(&id) {
        Some(run) => Some(run.clone()),
        None => None,
    }
}

/// What a run wrote and did: its standard output, its standard error and
/// its audit trail, for a run that is on file.
pub fn get_sandbox_logs(state: &AppState, id: u128) -> (found: Option<
    (String, String, Vec<SyscallEntry>),
>)
    ensures
        found is Some <==> state.sandbox_runs@.contains_key(id),
        found matches Some(logs) ==> {
            let run = state.sandbox_runs@[id];
            &&& logs.0 == run.stdout
            &&& logs.1 == run.stderr
            &&& logs.2@ == run.syscall_log@
        },
{
    broadcast use vstd::std_specs::hash::group_hash_axioms;

    match state.sandbox_runs.get(&id) {
        Some(run) => Some(
            (run.stdout.clone(), run.stderr.clone(), crate::models::clone_trail(&run.syscall_log)),
        ),
        None => None,
    }
}

/// What a run consumed, for a run that is on file.
pub fn get_sandbox_resources(state: &AppState, id: u128) -> (found: Option<ResourceUsage>)
    ensures
        found == if state.sandbox_runs@.contains_key(id) {
            Some(state.sandbox_runs@[id].resource_usage)
        } else {
            None
        },
{
    broadcast use vstd::std_specs::hash::group_hash_axioms;

    match state.sandbox_runs.get(&id) {
        Some(run) => Some(run.resource_usage),
        None => None,
    }
}

/// The view of each run in a sequence.
pub open spec fn run_views(runs: Seq<SandboxRun>) -> Seq<SandboxRunView> {
    runs.map_values(|r: SandboxRun| r@)
}

/// The view of each run in a set.
pub open spec fn run_view_set(runs: Set<SandboxRun>) -> Set<SandboxRunView> {
    runs.map(|r: SandboxRun| r@)
}

/// The views of the runs that a store holds.
pub open spec fn stored_run_views(runs: Map<u128, SandboxRun>) -> Set<SandboxRunView> {
    run_view_set(runs.values())
}

proof fn lemma_copied_runs(out: Seq<SandboxRun>, order: Seq<SandboxRun>)
    requires
        out.len() == order.len(),
        forall|i: int| 0 <= i < out.len() ==> (#[trigger] out[i])@ == order[i]@,
    ensures
        run_views(out).to_set() == run_view_set(order.to_set()),
{
    let views = run_views(out);
    let mapped = run_view_set(order.to_set());
    assert forall|v: SandboxRunView| views.to_set().contains(v) implies mapped.contains(v) by {
        let i = choose|i: int| 0 <= i < views.len() && views[i] == v;
        assert(out[i]@ == order[i]@);
        assert(order.to_set().contains(order[i]));
    }
    assert forall|v: SandboxRunView| mapped.contains(v) implies views.to_set().contains(v) by {
        let r = choose|r: SandboxRun| order.to_set().contains(r) && r@ == v;
        let i = choose|i: int| 0 <= i < order.len() && order[i] == r;
        assert(out[i]@ == order[i]@);
        assert(views[i] == v);
    }
    assert(views.to_set() =~= mapped);
}

/// Copies out every run on file: a snapshot, in no particular order, with
/// one copy for each run.
pub fn list_sandbox_runs(state: &AppState) -> (runs: Vec<SandboxRun>)
    ensures
        run_views(runs@).to_set() == stored_run_views(state.sandbox_runs@),
        runs@.len() == state.sandbox_runs@.dom().len(),
{
    broadcast use vstd::std_specs::hash::group_hash_axioms;

    let mut runs: Vec<SandboxRun> = Vec::new();
    for run in it: state.sandbox_runs.values()
        invariant
            runs@.len() == it.index(),
            forall|j: int| 0 <= j < runs@.len() ==> (#[trigger] runs@[j])@ == it.seq().unref()[j]@,
            it.seq().unref().to_set() == state.sandbox_runs@.values(),
            it.seq().len() == state.sandbox_runs@.dom().len(),
    {
        runs.push(run.clone());
    }
    proof {
        assert forall|out: Seq<SandboxRun>, order: Seq<SandboxRun>|
            out.len() == order.len() && (forall|i: int|
                0 <= i < out.len() ==> (#[trigger] out[i])@
                    == order[i]@) implies #[trigger] run_views(out).to_set()
            == #[trigger] run_view_set(order.to_set()) by {
            lemma_copied_runs(out, order);
        }
    }
    runs
}

// ----------------------------------------------------------------------------
// Fuzzing
// ----------------------------------------------------------------------------

/// Files a started campaign under its identifier and logs its start.
pub fn start_fuzzing(
    state: &mut AppState,
    campaign: FuzzCampaign,
    details: Option<serde_json::Value>,
)
    ensures
        final(state).fuzz_campaigns@ == old(state).fuzz_campaigns@.insert(campaign.id, campaign),
        logged(
            old(state).logs@,
            final(state).logs@,
            LogLevel::Info,
            LogSource::Fuzzer,
            campaign_message(campaign.id, " started"@),
            details,
        ),
        final(state).projects == old(state).projects,
        final(state).sandbox_runs == old(state).sandbox_runs,
        final(state).crashes == old(state).crashes,
        old(state).wf() ==> final(state).wf(),
{
    broadcast use vstd::std_specs::hash::group_hash_axioms;

    let message = campaign_text(campaign.id, " started");
    state.fuzz_campaigns.insert(campaign.id, campaign);
    add_log(&mut state.logs, LogLevel::Info, LogSource::Fuzzer, message, details);
}

/// Stops a campaign and, where that changed anything, logs the stop. A
/// running campaign becomes `Stopped` with the current time as its stop
/// time, and the answer is `true`. A campaign that is absent or not running
/// is left alone, nothing is logged, and the answer is `false`.
pub fn stop_fuzzing(state: &mut AppState, id: u128, details: Option<serde_json::Value>) -> (stopped:
    bool)
    ensures
        stopped == (old(state).fuzz_campaigns@.contains_key(id) && old(
            state,
        ).fuzz_campaigns@[id].status == FuzzStatus::Running),
        exists|at: i64|
            final(state).fuzz_campaigns@ == stopped_store(old(state).fuzz_campaigns@, id, at),
        stopped ==> logged(
            old(state).logs@,
            final(state).logs@,
            LogLevel::Info,
            LogSource::Fuzzer,
            campaign_message(id, " stopped"@),
            details,
        ),
        !stopped ==> final(state).logs@ == old(state).logs@,
        final(state).projects == old(state).projects,
        final(state).sandbox_runs == old(state).sandbox_runs,
        final(state).crashes == old(state).crashes,
        old(state).wf() ==> final(state).wf(),
{
    let stopped = crate::services::fuzzer::stop_fuzzing(&mut state.fuzz_campaigns, id);
    if stopped {
        add_log(
            &mut state.logs,
            LogLevel::Info,
            LogSource::Fuzzer,
            campaign_text(id, " stopped"),
            details,
        );
    }
    stopped
}

/// Looks up a campaign and returns a copy of it as it stands.
pub fn get_fuzz_status(state: &AppState, id: u128) -> (found: Option<FuzzCampaign>)
    ensures
        found == if state.fuzz_campaigns@.contains_key(id) {
            Some(state.fuzz_campaigns@[id])
        } else {
            None
        },
{
    get_campaign_status(&state.fuzz_campaigns, id)
}

/// Copies out the crash records of one campaign, in the order in which they
/// were filed.
pub fn get_fuzz_crashes(state: &AppState, id: u128) -> (found: Vec<CrashInfo>)
    ensures
        found@ == crashes_of(state.crashes@, id),
{
    get_crashes(&state.crashes, id)
}

/// Copies out every campaign on file: a snapshot, in no particular order,
/// with one copy for each campaign.
pub fn list_campaigns(state: &AppState) -> (campaigns: Vec<FuzzCampaign>)
    ensures
        campaigns@.to_set() == state.fuzz_campaigns@.values(),
        campaigns@.len() == state.fuzz_campaigns@.dom().len(),
{
    broadcast use vstd::std_specs::hash::group_hash_axioms;

    let mut campaigns: Vec<FuzzCampaign> = Vec::new();
    for campaign in it: state.fuzz_campaigns.values()
        invariant
            campaigns@.len() == it.index(),
            campaigns@ == it.seq().unref().take(it.index() as int),
            it.seq().unref().to_set() == state.fuzz_campaigns@.values(),
            it.seq().len() == state.fuzz_campaigns@.dom().len(),
            it.index() == it.seq().len() ==> campaigns@.to_set()
                == state.fuzz_campaigns@.values(),
    {
        campaigns.push(campaign.clone());
        proof {
            assert(campaigns@ =~= it.seq().unref().take(it.index() as int + 1));
            assert(it.index() + 1 == it.seq().len() ==> campaigns@ =~= it.seq().unref());
        }
    }
    campaigns
}

// ----------------------------------------------------------------------------
// Logs
// ----------------------------------------------------------------------------

/// Copies out the whole log, oldest entry first.
pub fn get_logs(state: &AppState) -> (entries: Vec<LogEntry>)
    ensures
        entries@ == state.logs@,
{
    let mut entries: Vec<LogEntry> = Vec::new();
    let mut i: usize = 0;
    while i < state.logs.len()
        invariant
            i <= state.logs.len(),
            entries@ == state.logs@.take(i as int),
        decreases state.logs.len() - i,
    {
        entries.push(state.logs[i].clone());
        i += 1;
    }
    entries
}

/// How many entries the timeline request returns at most.
pub const TIMELINE_LIMIT: usize = 100;

/// Reads the newest entries of the log, newest first.
pub fn get_timeline(state: &AppState) -> (resp: TimelineResponse)
    ensures
        resp.entries@ == timeline_of(state.logs@, Some(TIMELINE_LIMIT)),
        resp.total_count == resp.entries@.len(),
{
    crate::services::logger::get_timeline(&state.logs, Some(TIMELINE_LIMIT))
}

// ----------------------------------------------------------------------------
// Projects
// ----------------------------------------------------------------------------

/// Copies out every project, in the order of creation.
pub fn list_projects(state: &AppState) -> (projects: Vec<Project>)
    ensures
        projects@ == state.projects@,
{
    let mut projects: Vec<Project> = Vec::new();
    let mut i: usize = 0;
    while i < state.projects.len()
        invariant
            i <= state.projects.len(),
            projects@ == state.projects@.take(i as int),
        decreases state.projects.len() - i,
    {
        projects.push(state.projects[i].clone());
        i += 1;
    }
    projects
}

/// Creates a project with the requested name and description, a fresh
/// identifier, and the current time as both its creation and its update
/// time; adds it after the existing ones and returns a copy.
pub fn create_project(state: &mut AppState, req: CreateProjectRequest) -> (project: Project)
    ensures
        project.name == req.name,
        project.description == req.description,
        project.created_at == project.updated_at,
        final(state).projects@ == old(state).projects@.push(project),
        final(state).sandbox_runs == old(state).sandbox_runs,
        final(state).fuzz_campaigns == old(state).fuzz_campaigns,
        final(state).crashes == old(state).crashes,
        final(state).logs == old(state).logs,
        old(state).wf() ==> final(state).wf(),
{
    let now = now_micros();
    let project = Project {
        id: fresh_id(),
        name: req.name,
        description: req.description,
        created_at: now,
        updated_at: now,
    };
    let copy = project.clone();
    state.projects.push(project);
    copy
}

} // verus!
