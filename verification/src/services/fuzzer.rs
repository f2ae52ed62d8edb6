//! The fuzzing campaign manager: the life of a campaign from start to stop,
//! its running totals, and the triage of the crashes it finds.
//!
//! The fuzzer itself runs elsewhere. What it reports is handed in here, and
//! what to keep of it is decided here.

use vstd::prelude::*;
use std::collections::HashMap;
use crate::models::{
    CrashInfo, FuzzCampaign, FuzzCampaignView, FuzzStartRequest, FuzzStats, FuzzStatus,
};
use crate::services::sandbox::{
    deadline_millis, deadline_of, Invocation, InvocationView, ProcessOutcome,
};
use crate::system::{fresh_id, id_variant, id_version, now_micros};
use crate::text::{concat2, id_text, id_text_seq};

verus! {

// ----------------------------------------------------------------------------
// Start
// ----------------------------------------------------------------------------

/// The totals of a campaign that has not run anything yet.
pub open spec fn zero_stats() -> FuzzStats {
    FuzzStats {
        executions: 0,
        crashes: 0,
        corpus_size: 0,
        coverage_basis_points: 0,
        execs_per_second_milli: 0,
        mutations_applied: 0,
    }
}

/// A campaign at its start: running, named after its identifier, with all
/// totals at zero and no stop time.
pub open spec fn started_campaign(id: u128, target_binary: Seq<char>, started_at: i64)
    -> FuzzCampaignView {
    FuzzCampaignView {
        id,
        name: "Campaign-"@ + id_text_seq(id),
        status: FuzzStatus::Running,
        target_binary,
        stats: zero_stats(),
        started_at,
        stopped_at: None,
    }
}

/// Builds a campaign at its start.
pub fn new_campaign(id: u128, target_binary: &str, started_at: i64) -> (campaign: FuzzCampaign)
    ensures
        campaign@ == started_campaign(id, target_binary@, started_at),
{
    let text = id_text(id);
    FuzzCampaign {
        id,
        name: concat2("Campaign-", text.as_str()),
        status: FuzzStatus::Running,
        target_binary: target_binary.to_string(),
        stats: FuzzStats {
            executions: 0,
            crashes: 0,
            corpus_size: 0,
            coverage_basis_points: 0,
            execs_per_second_milli: 0,
            mutations_applied: 0,
        },
        started_at,
        stopped_at: None,
    }
}

/// Starts a campaign against the request's target: draws its identifier,
/// reads the clock, and returns the campaign at its start without waiting
/// for the fuzzer. Whatever is drawn and read, the campaign is the one that
/// `started_campaign` describes for them.
pub fn start_fuzzing(req: &FuzzStartRequest) -> (campaign: FuzzCampaign)
    ensures
        exists|started_at: i64|
            campaign@ == started_campaign(campaign.id, req.target_binary@, started_at),
        id_version(campaign.id) == 4,
        id_variant(campaign.id) == 2,
{
    let id = fresh_id();
    let started_at = now_micros();
    new_campaign(id, req.target_binary.as_str(), started_at)
}

// ----------------------------------------------------------------------------
// The fuzzer process
// ----------------------------------------------------------------------------

/// The fuzzer run of a campaign: the fuzzer is given the target, the corpus
/// directory and the crash directory, in this order, and may run as long as
/// the request's timeout says, or without limit where it says nothing that
/// reads as a time.
pub open spec fn fuzzer_invocation_of(fuzzer: Seq<char>, req: FuzzStartRequest) -> InvocationView {
    InvocationView {
        program: fuzzer,
        args: seq![req.target_binary@, req.corpus_dir@, req.crash_dir@],
        deadline_ms: match req.timeout {
            Some(t) => deadline_of(t@),
            None => None,
        },
    }
}

/// Builds the fuzzer run of a campaign.
pub fn fuzzer_invocation(fuzzer: &str, req: &FuzzStartRequest) -> (inv: Invocation)
    ensures
        inv@ == fuzzer_invocation_of(fuzzer@, *req),
{
    let mut args: Vec<String> = Vec::new();
    args.push(req.target_binary.clone());
    args.push(req.corpus_dir.clone());
    args.push(req.crash_dir.clone());
    assert(crate::models::texts(args@) =~= seq![
        req.target_binary@,
        req.corpus_dir@,
        req.crash_dir@,
    ]);
    Invocation {
        program: fuzzer.to_string(),
        args,
        deadline_ms: match &req.timeout {
            Some(t) => deadline_millis(t.as_str()),
            None => None,
        },
    }
}

/// How often the supervisor starts the fuzzer of one campaign before it
/// gives up.
pub const MAX_FUZZER_ATTEMPTS: u32 = 3;

/// What the supervisor does when a run of the fuzzer has ended.
#[derive(Debug, Clone, Copy, PartialEq, Eq, Structural)]
pub enum SupervisorAction {
    /// Start the fuzzer again.
    Restart,
    /// The campaign has run its time: stop it.
    Stop,
    /// Give up: the campaign has failed.
    GiveUp,
}

/// Whether a run of the fuzzer ended because the campaign's time was up.
pub open spec fn reached_deadline(outcome: ProcessOutcome) -> bool {
    outcome matches ProcessOutcome::Finished(rep) && rep.timed_out
}

/// The number of failures in a row after a run of the fuzzer has ended,
/// given their number before it. A fuzzer that was ended at the campaign's
/// deadline has not failed. One that could not be started, or that ended by
/// itself, has: nobody asked it to end. The count stops at the largest
/// 32-bit value.
pub open spec fn failures_after(outcome: ProcessOutcome, failures: u32) -> u32 {
    if reached_deadline(outcome) || failures == u32::MAX {
        failures
    } else {
        (failures + 1) as u32
    }
}

/// The supervisor's answer to the end of a run of the fuzzer, given the
/// number of failures in a row before it: it stops a campaign whose time is
/// up, starts the fuzzer again after a failure until the bound on attempts
/// is reached, and then gives up.
pub open spec fn action_after(outcome: ProcessOutcome, failures: u32) -> SupervisorAction {
    if reached_deadline(outcome) {
        SupervisorAction::Stop
    } else if failures_after(outcome, failures) < MAX_FUZZER_ATTEMPTS {
        SupervisorAction::Restart
    } else {
        SupervisorAction::GiveUp
    }
}

/// Decides what the supervisor does after a run of the fuzzer has ended,
/// and counts the failures in a row.
pub fn after_fuzzer_run(outcome: &ProcessOutcome, failures: u32) -> (r: (SupervisorAction, u32))
    ensures
        r.0 == action_after(*outcome, failures),
        r.1 == failures_after(*outcome, failures),
{
    let at_deadline = match outcome {
        ProcessOutcome::Finished(rep) => rep.timed_out,
        ProcessOutcome::SpawnFailed(_) => false,
    };
    if at_deadline {
        (SupervisorAction::Stop, failures)
    } else {
        let count = if failures == u32::MAX {
            failures
        } else {
            failures + 1
        };
        if count < MAX_FUZZER_ATTEMPTS {
            (SupervisorAction::Restart, count)
        } else {
            (SupervisorAction::GiveUp, count)
        }
    }
}

// ----------------------------------------------------------------------------
// The status machine
// ----------------------------------------------------------------------------

/// What can happen to a campaign.
#[derive(Debug, Clone, Copy, PartialEq, Eq, Structural)]
pub enum CampaignEvent {
    /// The supervisor took charge of the fuzzer process.
    Launched,
    /// A user asked for the campaign to stop, at the given time.
    StopRequested { at: i64 },
    /// The supervisor gave up on the fuzzer process.
    FuzzerFailed,
}

/// The status that follows an event, where the event changes it: `Idle`
/// becomes `Running` on launch, and `Running` becomes `Stopped` on request
/// or `Error` on failure. Nothing else changes a status; `Stopped` and
/// `Error` are never left.
pub open spec fn next_status(status: FuzzStatus, event: CampaignEvent) -> Option<FuzzStatus> {
    match (status, event) {
        (FuzzStatus::Idle, CampaignEvent::Launched) => Some(FuzzStatus::Running),
        (FuzzStatus::Running, CampaignEvent::StopRequested { .. }) => Some(FuzzStatus::Stopped),
        (FuzzStatus::Running, CampaignEvent::FuzzerFailed) => Some(FuzzStatus::Error),
        _ => None,
    }
}

/// Decides the status that follows an event.
pub fn transition(status: FuzzStatus, event: CampaignEvent) -> (next: Option<FuzzStatus>)
    ensures
        next == next_status(status, event),
{
    match (status, event) {
        (FuzzStatus::Idle, CampaignEvent::Launched) => Some(FuzzStatus::Running),
        (FuzzStatus::Running, CampaignEvent::StopRequested { .. }) => Some(FuzzStatus::Stopped),
        (FuzzStatus::Running, CampaignEvent::FuzzerFailed) => Some(FuzzStatus::Error),
        _ => None,
    }
}

/// A campaign after an event. An event that changes the status sets it; a
/// stop also records its time. Any other event leaves the campaign as it
/// is.
pub open spec fn campaign_after(c: FuzzCampaign, event: CampaignEvent) -> FuzzCampaign {
    match next_status(c.status, event) {
        Some(status) => FuzzCampaign {
            status,
            stopped_at: match event {
                CampaignEvent::StopRequested { at } => Some(at),
                _ => c.stopped_at,
            },
            ..c
        },
        None => c,
    }
}

/// Applies an event to a campaign and says whether it changed the status.
pub fn apply_event(campaign: &mut FuzzCampaign, event: CampaignEvent) -> (changed: bool)
    ensures
        *final(campaign) == campaign_after(*old(campaign), event),
        changed == next_status(old(campaign).status, event) is Some,
{
    match transition(campaign.status, event) {
        Some(status) => {
            campaign.status = status;
            if let CampaignEvent::StopRequested { at } = event {
                campaign.stopped_at = Some(at);
            }
            true
        },
        None => false,
    }
}

/// A store after a request to stop one campaign at a given time: a running
/// campaign has become `Stopped` with that stop time; a campaign that is
/// not running, or is not in the store, has left the store as it was.
pub open spec fn stopped_store(campaigns: Map<u128, FuzzCampaign>, id: u128, at: i64) -> Map<
    u128,
    FuzzCampaign,
> {
    if campaigns.contains_key(id) && campaigns[id].status == FuzzStatus::Running {
        campaigns.insert(id, campaign_after(campaigns[id], CampaignEvent::StopRequested { at }))
    } else {
        campaigns
    }
}

/// Stops a campaign in a store at a given time, and says whether that
/// changed anything: `true` for a campaign that was running, `false` for
/// one that was not, or is not in the store.
pub fn stop_campaign(campaigns: &mut HashMap<u128, FuzzCampaign>, campaign_id: u128, at: i64) -> (stopped:
    bool)
    ensures
        final(campaigns)@ == stopped_store(old(campaigns)@, campaign_id, at),
        stopped == (old(campaigns)@.contains_key(campaign_id) && old(campaigns)@[campaign_id].status == FuzzStatus::Running),
{
    broadcast use vstd::std_specs::hash::group_hash_axioms;

    let found = match campaigns.get(&campaign_id) {
        Some(c) => Some(c.clone()),
        None => None,
    };
    match found {
        Some(mut c) => {
            let changed = apply_event(&mut c, CampaignEvent::StopRequested { at });
            if changed {
                campaigns.insert(campaign_id, c);
            }
            changed
        },
        None => false,
    }
}

/// Stops a campaign now. The caller is not kept waiting for the fuzzer to
/// exit: the status changes at once. Whatever the clock says, the store
/// ends as `stopped_store` says for that time.
pub fn stop_fuzzing(campaigns: &mut HashMap<u128, FuzzCampaign>, campaign_id: u128) -> (stopped:
    bool)
    ensures
        exists|at: i64| final(campaigns)@ == stopped_store(old(campaigns)@, campaign_id, at),
        stopped == (old(campaigns)@.contains_key(campaign_id) && old(campaigns)@[campaign_id].status == FuzzStatus::Running),
{
    let at = now_micros();
    stop_campaign(campaigns, campaign_id, at)
}

/// Looks a campaign up and returns a copy of it as it stands.
pub fn get_campaign_status(campaigns: &HashMap<u128, FuzzCampaign>, campaign_id: u128) -> (found:
    Option<FuzzCampaign>)
    ensures
        found == if campaigns@.contains_key(campaign_id) {
            Some(campaigns@[campaign_id])
        } else {
            None
        },
{
    broadcast use vstd::std_specs::hash::group_hash_axioms;

    match campaigns.get(&campaign_id) {
        Some(c) => Some(c.clone()),
        None => None,
    }
}

// ----------------------------------------------------------------------------
// Progress
// ----------------------------------------------------------------------------

/// Whether a report leaves no count below where it stands.
pub open spec fn keeps_counts(current: FuzzStats, report: FuzzStats) -> bool {
    &&& current.executions <= report.executions
    &&& current.crashes <= report.crashes
    &&& current.corpus_size <= report.corpus_size
    &&& current.mutations_applied <= report.mutations_applied
}

/// What became of a progress report.
#[derive(Debug, Clone, Copy, PartialEq, Eq, Structural)]
pub enum ProgressVerdict {
    /// The report replaced the campaign's totals.
    Applied,
    /// The report would have lowered a count and was dropped: the fuzzer
    /// was restarted or its output is corrupt. This calls for a warning.
    Regressed,
    /// The campaign is not running and takes no reports.
    NotRunning,
}

/// The verdict on a report for a campaign.
pub open spec fn verdict_of(c: FuzzCampaign, report: FuzzStats) -> ProgressVerdict {
    if c.status != FuzzStatus::Running {
        ProgressVerdict::NotRunning
    } else if keeps_counts(c.stats, report) {
        ProgressVerdict::Applied
    } else {
        ProgressVerdict::Regressed
    }
}

/// A campaign after a report: its totals are the report's where the report
/// is applied, and nothing changes where it is not.
pub open spec fn campaign_after_report(c: FuzzCampaign, report: FuzzStats) -> FuzzCampaign {
    if verdict_of(c, report) == ProgressVerdict::Applied {
        FuzzCampaign { stats: report, ..c }
    } else {
        c
    }
}

/// A campaign after a sequence of reports, taken one by one.
pub open spec fn campaign_after_reports(c: FuzzCampaign, reports: Seq<FuzzStats>) -> FuzzCampaign
    decreases reports.len(),
{
    if reports.len() == 0 {
        c
    } else {
        campaign_after_report(campaign_after_reports(c, reports.drop_last()), reports.last())
    }
}

/// Takes a progress report for a campaign.
pub fn apply_progress(campaign: &mut FuzzCampaign, report: FuzzStats) -> (verdict: ProgressVerdict)
    ensures
        verdict == verdict_of(*old(campaign), report),
        *final(campaign) == campaign_after_report(*old(campaign), report),
{
    if campaign.status != FuzzStatus::Running {
        ProgressVerdict::NotRunning
    } else if campaign.stats.executions <= report.executions && campaign.stats.crashes
        <= report.crashes && campaign.stats.corpus_size <= report.corpus_size
        && campaign.stats.mutations_applied <= report.mutations_applied {
        campaign.stats = report;
        ProgressVerdict::Applied
    } else {
        ProgressVerdict::Regressed
    }
}

// ----------------------------------------------------------------------------
// Crash triage
// ----------------------------------------------------------------------------

/// A crash as the fuzzer reported it.
#[derive(Debug)]
pub struct CrashReport {
    pub input: String,
    pub signal: Option<i32>,
    pub output: String,
}

/// Whether a record is of the given crash: same campaign, same signal, same
/// triggering input.
pub open spec fn has_fingerprint(
    record: CrashInfo,
    campaign_id: u128,
    signal: Option<i32>,
    input: Seq<char>,
) -> bool {
    record.campaign_id == campaign_id && record.signal == signal && record.input@ == input
}

/// Whether a crash is already on record.
pub open spec fn is_known(
    crashes: Seq<CrashInfo>,
    campaign_id: u128,
    signal: Option<i32>,
    input: Seq<char>,
) -> bool {
    exists|i: int|
        0 <= i < crashes.len() && has_fingerprint(
            #[trigger] crashes[i],
            campaign_id,
            signal,
            input,
        )
}

/// Whether no two records are of the same crash.
pub open spec fn distinct_crashes(crashes: Seq<CrashInfo>) -> bool {
    forall|i: int, j: int|
        0 <= i < j < crashes.len() ==> !has_fingerprint(
            #[trigger] crashes[i],
            (#[trigger] crashes[j]).campaign_id,
            crashes[j].signal,
            crashes[j].input@,
        )
}

/// The records after one more crash report: a crash not yet on record is
/// added at the end, one that is on record changes nothing.
pub open spec fn triaged(crashes: Seq<CrashInfo>, record: CrashInfo) -> Seq<CrashInfo> {
    if is_known(crashes, record.campaign_id, record.signal, record.input@) {
        crashes
    } else {
        crashes.push(record)
    }
}

/// The records after a sequence of crash reports, taken one by one.
pub open spec fn triaged_all(crashes: Seq<CrashInfo>, records: Seq<CrashInfo>) -> Seq<CrashInfo>
    decreases records.len(),
{
    if records.len() == 0 {
        crashes
    } else {
        triaged(triaged_all(crashes, records.drop_last()), records.last())
    }
}

fn known(crashes: &Vec<CrashInfo>, campaign_id: u128, signal: Option<i32>, input: &String) -> (r:
    bool)
    ensures
        r == is_known(crashes@, campaign_id, signal, input@),
{
    let mut i: usize = 0;
    while i < crashes.len()
        invariant
            i <= crashes.len(),
            forall|j: int|
                0 <= j < i ==> !has_fingerprint(
                    #[trigger] crashes@[j],
                    campaign_id,
                    signal,
                    input@,
                ),
        decreases crashes.len() - i,
    {
        let c = &crashes[i];
        let same_signal = match (c.signal, signal) {
            (Some(a), Some(b)) => a == b,
            (None, None) => true,
            _ => false,
        };
        if c.campaign_id == campaign_id && same_signal && c.input == *input {
            assert(has_fingerprint(crashes@[i as int], campaign_id, signal, input@));
            return true;
        }
        i += 1;
    }
    false
}

/// Files a crash record unless the same crash is already on record, and
/// says whether it was filed.
pub fn triage_crash(crashes: &mut Vec<CrashInfo>, record: CrashInfo) -> (novel: bool)
    ensures
        final(crashes)@ == triaged(old(crashes)@, record),
        novel == !is_known(old(crashes)@, record.campaign_id, record.signal, record.input@),
        distinct_crashes(old(crashes)@) ==> distinct_crashes(final(crashes)@),
{
    if known(crashes, record.campaign_id, record.signal, &record.input) {
        false
    } else {
        crashes.push(record);
        true
    }
}

/// Takes a crash report for a campaign: gives it an identifier and the
/// current time and files it unless the same crash is already on record.
/// Whatever identifier and time are drawn, the records end as `triaged`
/// says for the record that carries them.
pub fn record_crash(crashes: &mut Vec<CrashInfo>, campaign_id: u128, report: CrashReport) -> (novel:
    bool)
    ensures
        exists|id: u128, discovered_at: i64|
            final(crashes)@ == triaged(
                old(crashes)@,
                (CrashInfo {
                    id,
                    campaign_id,
                    input: report.input,
                    signal: report.signal,
                    output: report.output,
                    discovered_at,
                }),
            ),
        novel == !is_known(old(crashes)@, campaign_id, report.signal, report.input@),
        distinct_crashes(old(crashes)@) ==> distinct_crashes(final(crashes)@),
{
    let id = fresh_id();
    let discovered_at = now_micros();
    let record = CrashInfo {
        id,
        campaign_id,
        input: report.input,
        signal: report.signal,
        output: report.output,
        discovered_at,
    };
    triage_crash(crashes, record)
}

/// The records of one campaign, in the order in which they were filed.
pub open spec fn crashes_of(crashes: Seq<CrashInfo>, campaign_id: u128) -> Seq<CrashInfo> {
    crashes.filter(|c: CrashInfo| c.campaign_id == campaign_id)
}

/// Copies out the crash records of one campaign.
pub fn get_crashes(crashes: &Vec<CrashInfo>, campaign_id: u128) -> (found: Vec<CrashInfo>)
    ensures
        found@ == crashes_of(crashes@, campaign_id),
{
    let mut found: Vec<CrashInfo> = Vec::new();
    let mut i: usize = 0;
    proof {
        reveal(Seq::filter);
    }
    while i < crashes.len()
        invariant
            i <= crashes.len(),
            found@ == crashes_of(crashes@.take(i as int), campaign_id),
        decreases crashes.len() - i,
    {
        let ghost wanted = |c: CrashInfo| c.campaign_id == campaign_id;
        let ghost next = crashes@.take(i as int + 1);
        proof {
            assert(next.drop_last() =~= crashes@.take(i as int));
            assert(next.last() == crashes@[i as int]);
            reveal(Seq::filter);
            assert(next.filter(wanted) == if wanted(next.last()) {
                next.drop_last().filter(wanted).push(next.last())
            } else {
                next.drop_last().filter(wanted)
            });
        }
        if crashes[i].campaign_id == campaign_id {
            found.push(crashes[i].clone());
        }
        i += 1;
    }
    proof {
        assert(crashes@.take(crashes.len() as int) =~= crashes@);
    }
    found
}

// ----------------------------------------------------------------------------
// Laws
// ----------------------------------------------------------------------------

/// While a campaign runs, its counts never go down, however many reports
/// arrive and whatever they say: after any longer run of the same reports
/// each count is at least what it was after a shorter one. The status is
/// not touched by reports.
pub proof fn law_counts_never_decrease(c: FuzzCampaign, reports: Seq<FuzzStats>, i: int, j: int)
    requires
        0 <= i <= j <= reports.len(),
    ensures
        keeps_counts(
            campaign_after_reports(c, reports.take(i)).stats,
            campaign_after_reports(c, reports.take(j)).stats,
        ),
        campaign_after_reports(c, reports.take(j)).status == c.status,
    decreases j - i,
{
    lemma_reports_keep_status(c, reports.take(j));
    if i < j {
        law_counts_never_decrease(c, reports, i, j - 1);
        assert(reports.take(j).drop_last() =~= reports.take(j - 1));
    }
}

proof fn lemma_reports_keep_status(c: FuzzCampaign, reports: Seq<FuzzStats>)
    ensures
        campaign_after_reports(c, reports).status == c.status,
    decreases reports.len(),
{
    if reports.len() > 0 {
        lemma_reports_keep_status(c, reports.drop_last());
    }
}

/// Filing crash reports one by one never puts the same crash on record
/// twice: records that were distinct stay distinct, whatever is reported
/// and however often.
pub proof fn law_no_duplicate_crashes(crashes: Seq<CrashInfo>, records: Seq<CrashInfo>)
    requires
        distinct_crashes(crashes),
    ensures
        distinct_crashes(triaged_all(crashes, records)),
    decreases records.len(),
{
    if records.len() > 0 {
        law_no_duplicate_crashes(crashes, records.drop_last());
    }
}

/// A crash that is reported again leaves exactly one record: the second
/// report, whatever identifier, output and time it carries, changes
/// nothing.
pub proof fn law_repeated_crash_is_dropped(
    crashes: Seq<CrashInfo>,
    first: CrashInfo,
    second: CrashInfo,
)
    requires
        has_fingerprint(second, first.campaign_id, first.signal, first.input@),
    ensures
        triaged(triaged(crashes, first), second) == triaged(crashes, first),
{
    let once = triaged(crashes, first);
    if is_known(crashes, first.campaign_id, first.signal, first.input@) {
        let i = choose|i: int|
            0 <= i < crashes.len() && has_fingerprint(
                #[trigger] crashes[i],
                first.campaign_id,
                first.signal,
                first.input@,
            );
        assert(has_fingerprint(once[i], second.campaign_id, second.signal, second.input@));
    } else {
        assert(has_fingerprint(
            once[crashes.len() as int],
            second.campaign_id,
            second.signal,
            second.input@,
        ));
    }
}

/// Stopping is idempotent. The first stop of a running campaign answers
/// `true` and leaves it `Stopped` with the time of that stop. A second stop,
/// at any time, answers `false` and changes nothing. A campaign that is
/// absent or not running is never changed by a stop.
pub proof fn law_stop_is_idempotent(
    campaigns: Map<u128, FuzzCampaign>,
    id: u128,
    first_at: i64,
    second_at: i64,
)
    ensures
        stopped_store(stopped_store(campaigns, id, first_at), id, second_at) == stopped_store(
            campaigns,
            id,
            first_at,
        ),
        campaigns.contains_key(id) && campaigns[id].status == FuzzStatus::Running ==> {
            let after = stopped_store(campaigns, id, first_at);
            &&& after.contains_key(id)
            &&& after[id].status == FuzzStatus::Stopped
            &&& after[id].stopped_at == Some(first_at)
        },
        !(campaigns.contains_key(id) && campaigns[id].status == FuzzStatus::Running)
            ==> stopped_store(campaigns, id, first_at) == campaigns,
{
}

/// The supervisor never starts the fuzzer of one campaign more often than
/// the bound on attempts allows: once that many runs in a row have failed,
/// its answer to another failure is to give up.
pub proof fn law_attempts_are_bounded(outcome: ProcessOutcome, failures: u32)
    requires
        !reached_deadline(outcome),
        failures + 1 >= MAX_FUZZER_ATTEMPTS,
    ensures
        action_after(outcome, failures) == SupervisorAction::GiveUp,
{
}

/// `Stopped` and `Error` are sinks, and only `Running` leads to them: no
/// event changes a campaign in a final status, and a status that an event
/// makes final was `Running` before.
pub proof fn law_final_statuses(status: FuzzStatus, event: CampaignEvent)
    ensures
        status.spec_is_terminal() ==> next_status(status, event) is None,
        next_status(status, event) matches Some(next) && next.spec_is_terminal() ==> status
            == FuzzStatus::Running,
{
}

} // verus!
