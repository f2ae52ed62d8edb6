//! The engines and the state they share.
//!
//! `AppState` is the store: the projects, the sandbox runs and the fuzzing
//! campaigns by identifier, the crash records and the telemetry log. Every
//! change to it goes through a `&mut` borrow, so one writer at a time; the
//! program around it decides how that borrow is shared out.

pub mod compiler;
pub mod fuzzer;
pub mod logger;
pub mod sandbox;

use vstd::prelude::*;
use std::collections::HashMap;
use crate::models::{
    CrashInfo, FuzzCampaign, FuzzStats, FuzzStatus, LogEntry, LogLevel, LogSource, Project,
    SandboxRun,
};
use crate::services::fuzzer::{
    apply_event, apply_progress, campaign_after, campaign_after_report, distinct_crashes, is_known,
    record_crash, verdict_of, CampaignEvent, CrashReport, ProgressVerdict,
};
use crate::services::logger::{add_log, logged, MAX_LOG_ENTRIES};
use crate::system::{fresh_id, now_micros};
use crate::text::{concat2, concat3, id_text, id_text_seq};

verus! {

// ----------------------------------------------------------------------------
// Where the tools are
// ----------------------------------------------------------------------------

/// The places where a tool may be installed, in the order in which they are
/// tried.
pub open spec fn candidate_paths_of(binary_name: Seq<char>, home: Seq<char>) -> Seq<Seq<char>> {
    seq![
        "/mnt/c/Projects/AEGIS VERSION 2.0/target/release/"@ + binary_name,
        "C:\\Projects\\AEGIS VERSION 2.0\\target\\release\\"@ + binary_name + ".exe"@,
        "/usr/local/bin/"@ + binary_name,
        home + "/.aegis/bin/"@ + binary_name,
    ]
}

/// The home directory to look under: the one given, or `~` where none is
/// known.
pub open spec fn home_or_default(home: Option<&str>) -> Seq<char> {
    match home {
        Some(h) => h@,
        None => "~"@,
    }
}

/// Lists the places where a tool may be installed.
pub fn candidate_paths(binary_name: &str, home: Option<&str>) -> (paths: Vec<String>)
    ensures
        crate::models::texts(paths@) == candidate_paths_of(binary_name@, home_or_default(home)),
{
    let home_dir = match home {
        Some(h) => h,
        None => "~",
    };
    let mut paths: Vec<String> = Vec::new();
    paths.push(concat2("/mnt/c/Projects/AEGIS VERSION 2.0/target/release/", binary_name));
    paths.push(concat3("C:\\Projects\\AEGIS VERSION 2.0\\target\\release\\", binary_name, ".exe"));
    paths.push(concat2("/usr/local/bin/", binary_name));
    paths.push(concat3(home_dir, "/.aegis/bin/", binary_name));
    assert(crate::models::texts(paths@) =~= candidate_paths_of(
        binary_name@,
        home_or_default(home),
    ));
    paths
}

/// The first candidate, from position `from` on, that is marked present.
pub open spec fn first_present(candidates: Seq<Seq<char>>, present: Seq<bool>, from: int)
    -> Option<Seq<char>>
    decreases candidates.len() - from,
{
    if from < 0 || from >= candidates.len() || from >= present.len() {
        None
    } else if present[from] {
        Some(candidates[from])
    } else {
        first_present(candidates, present, from + 1)
    }
}

/// The path under which a tool is started: the first candidate place that
/// exists, or the bare name, to be found on the search path, where none
/// does. `present[i]` says whether candidate `i` exists; a candidate without
/// a mark counts as absent.
pub open spec fn binary_path_of(binary_name: Seq<char>, home: Seq<char>, present: Seq<bool>)
    -> Seq<char> {
    match first_present(candidate_paths_of(binary_name, home), present, 0) {
        Some(path) => path,
        None => binary_name,
    }
}

/// Chooses the path under which a tool is started.
pub fn get_aegis_binary_path(binary_name: &str, home: Option<&str>, present: &Vec<bool>) -> (path:
    String)
    ensures
        path@ == binary_path_of(binary_name@, home_or_default(home), present@),
{
    let candidates = candidate_paths(binary_name, home);
    let ghost all = crate::models::texts(candidates@);
    let mut i: usize = 0;
    while i < candidates.len() && i < present.len()
        invariant
            i <= candidates.len(),
            all == crate::models::texts(candidates@),
            all == candidate_paths_of(binary_name@, home_or_default(home)),
            first_present(all, present@, 0) == first_present(all, present@, i as int),
        decreases candidates.len() - i,
    {
        if present[i] {
            assert(all[i as int] == candidates@[i as int]@);
            return candidates[i].clone();
        }
        i += 1;
    }
    binary_name.to_string()
}

// ----------------------------------------------------------------------------
// The store
// ----------------------------------------------------------------------------

/// The store that the engines and the requests share.
pub struct AppState {
    pub projects: Vec<Project>,
    pub sandbox_runs: HashMap<u128, SandboxRun>,
    pub fuzz_campaigns: HashMap<u128, FuzzCampaign>,
    pub crashes: Vec<CrashInfo>,
    pub logs: Vec<LogEntry>,
}

/// The message that a campaign's event is logged with: `Fuzzing campaign`,
/// the campaign's identifier, and what happened.
pub open spec fn campaign_message(id: u128, what: Seq<char>) -> Seq<char> {
    "Fuzzing campaign "@ + id_text_seq(id) + what
}

/// Writes the message that a campaign's event is logged with.
pub fn campaign_text(id: u128, what: &str) -> (message: String)
    ensures
        message@ == campaign_message(id, what@),
{
    let text = id_text(id);
    concat3("Fuzzing campaign ", text.as_str(), what)
}

impl AppState {
    /// What holds of a store that only this library has written to: the log
    /// is within its cap, no crash is on record twice, and every run and
    /// campaign is kept under its own identifier.
    pub open spec fn wf(&self) -> bool {
        &&& self.logs@.len() <= MAX_LOG_ENTRIES
        &&& distinct_crashes(self.crashes@)
        &&& forall|k: u128| #[trigger]
            self.sandbox_runs@.contains_key(k) ==> self.sandbox_runs@[k].id == k
        &&& forall|k: u128| #[trigger]
            self.fuzz_campaigns@.contains_key(k) ==> self.fuzz_campaigns@[k].id == k
    }

    /// A fresh store: one demonstration project, and nothing else.
    pub fn new() -> (state: Self)
        ensures
            state.wf(),
            state.projects@.len() == 1,
            state.projects@[0].name@ == "Demo Project"@,
            state.projects@[0].description@ == "Sample security research project"@,
            state.projects@[0].created_at == state.projects@[0].updated_at,
            state.sandbox_runs@ == Map::<u128, SandboxRun>::empty(),
            state.fuzz_campaigns@ == Map::<u128, FuzzCampaign>::empty(),
            state.crashes@.len() == 0,
            state.logs@.len() == 0,
    {
        let now = now_micros();
        let mut projects: Vec<Project> = Vec::new();
        projects.push(
            Project {
                id: fresh_id(),
                name: "Demo Project".to_string(),
                description: "Sample security research project".to_string(),
                created_at: now,
                updated_at: now,
            },
        );
        AppState {
            projects,
            sandbox_runs: HashMap::new(),
            fuzz_campaigns: HashMap::new(),
            crashes: Vec::new(),
            logs: Vec::new(),
        }
    }

    /// Takes a progress report from a campaign's supervisor. A report for a
    /// running campaign that lowers no count replaces the campaign's totals.
    /// One that would lower a count is dropped and a warning is logged. A
    /// campaign that is absent or not running takes no reports.
    pub fn report_progress(
        &mut self,
        campaign_id: u128,
        report: FuzzStats,
        details: Option<serde_json::Value>,
    ) -> (verdict: ProgressVerdict)
        ensures
            verdict == if old(self).fuzz_campaigns@.contains_key(campaign_id) {
                verdict_of(old(self).fuzz_campaigns@[campaign_id], report)
            } else {
                ProgressVerdict::NotRunning
            },
            final(self).fuzz_campaigns@ == if verdict == ProgressVerdict::Applied {
                old(self).fuzz_campaigns@.insert(
                    campaign_id,
                    campaign_after_report(old(self).fuzz_campaigns@[campaign_id], report),
                )
            } else {
                old(self).fuzz_campaigns@
            },
            verdict == ProgressVerdict::Regressed ==> logged(
                old(self).logs@,
                final(self).logs@,
                LogLevel::Warning,
                LogSource::Fuzzer,
                campaign_message(campaign_id, " reported a lower count; the report was dropped"@),
                details,
            ),
            verdict != ProgressVerdict::Regressed ==> final(self).logs@ == old(self).logs@,
            final(self).projects == old(self).projects,
            final(self).sandbox_runs == old(self).sandbox_runs,
            final(self).crashes == old(self).crashes,
            old(self).wf() ==> final(self).wf(),
    {
        broadcast use vstd::std_specs::hash::group_hash_axioms;

        let found = match self.fuzz_campaigns.get(&campaign_id) {
            Some(c) => Some(c.clone()),
            None => None,
        };
        match found {
            None => ProgressVerdict::NotRunning,
            Some(mut c) => {
                let verdict = apply_progress(&mut c, report);
                match verdict {
                    ProgressVerdict::Applied => {
                        self.fuzz_campaigns.insert(campaign_id, c);
                    },
                    ProgressVerdict::Regressed => {
                        add_log(
                            &mut self.logs,
                            LogLevel::Warning,
                            LogSource::Fuzzer,
                            campaign_text(
                                campaign_id,
                                " reported a lower count; the report was dropped",
                            ),
                            details,
                        );
                    },
                    ProgressVerdict::NotRunning => {},
                }
                verdict
            },
        }
    }

    /// Takes a crash report from a campaign's supervisor and files it unless
    /// the campaign is unknown or the same crash is already on record for
    /// it. Says whether a record was filed.
    pub fn report_crash(&mut self, campaign_id: u128, report: CrashReport) -> (novel: bool)
        ensures
            novel == (old(self).fuzz_campaigns@.contains_key(campaign_id) && !is_known(
                old(self).crashes@,
                campaign_id,
                report.signal,
                report.input@,
            )),
            novel ==> final(self).crashes@.len() == old(self).crashes@.len() + 1 && final(self).crashes@.drop_last() == old(self).crashes@ && ({
                let filed = final(self).crashes@.last();
                &&& filed.campaign_id == campaign_id
                &&& filed.input == report.input
                &&& filed.signal == report.signal
                &&& filed.output == report.output
            }),
            !novel ==> final(self).crashes@ == old(self).crashes@,
            final(self).projects == old(self).projects,
            final(self).sandbox_runs == old(self).sandbox_runs,
            final(self).fuzz_campaigns == old(self).fuzz_campaigns,
            final(self).logs == old(self).logs,
            old(self).wf() ==> final(self).wf(),
    {
        broadcast use vstd::std_specs::hash::group_hash_axioms;

        if self.fuzz_campaigns.contains_key(&campaign_id) {
            let ghost before = self.crashes@;
            let novel = record_crash(&mut self.crashes, campaign_id, report);
            proof {
                if novel {
                    assert(self.crashes@.drop_last() =~= before);
                }
            }
            novel
        } else {
            false
        }
    }

    /// Takes note that a campaign's supervisor gave up on the fuzzer. A
    /// running campaign goes to status `Error` and a critical entry is
    /// logged; the answer is `true`. A campaign that is absent or not
    /// running is left alone, nothing is logged, and the answer is `false`.
    pub fn report_failure(&mut self, campaign_id: u128, details: Option<serde_json::Value>) -> (failed:
        bool)
        ensures
            failed == (old(self).fuzz_campaigns@.contains_key(campaign_id) && old(self).fuzz_campaigns@[campaign_id].status == FuzzStatus::Running),
            final(self).fuzz_campaigns@ == if failed {
                old(self).fuzz_campaigns@.insert(
                    campaign_id,
                    campaign_after(
                        old(self).fuzz_campaigns@[campaign_id],
                        CampaignEvent::FuzzerFailed,
                    ),
                )
            } else {
                old(self).fuzz_campaigns@
            },
            failed ==> logged(
                old(self).logs@,
                final(self).logs@,
                LogLevel::Critical,
                LogSource::Fuzzer,
                campaign_message(campaign_id, " failed"@),
                details,
            ),
            !failed ==> final(self).logs@ == old(self).logs@,
            final(self).projects == old(self).projects,
            final(self).sandbox_runs == old(self).sandbox_runs,
            final(self).crashes == old(self).crashes,
            old(self).wf() ==> final(self).wf(),
    {
        broadcast use vstd::std_specs::hash::group_hash_axioms;

        let found = match self.fuzz_campaigns.get(&campaign_id) {
            Some(c) => Some(c.clone()),
            None => None,
        };
        match found {
            None => false,
            Some(mut c) => {
                let failed = apply_event(&mut c, CampaignEvent::FuzzerFailed);
                if failed {
                    self.fuzz_campaigns.insert(campaign_id, c);
                    add_log(
                        &mut self.logs,
                        LogLevel::Critical,
                        LogSource::Fuzzer,
                        campaign_text(campaign_id, " failed"),
                        details,
                    );
                }
                failed
            },
        }
    }
}

} // verus!
