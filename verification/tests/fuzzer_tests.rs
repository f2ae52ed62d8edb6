use std::collections::HashMap;

use aegis_backend::models::{CrashInfo, FuzzCampaign, FuzzStartRequest, FuzzStats, FuzzStatus};
use aegis_backend::services::sandbox::{ProcessOutcome, ProcessReport};
use aegis_backend::services::fuzzer::{
    after_fuzzer_run, apply_event, apply_progress, fuzzer_invocation, get_campaign_status,
    get_crashes, new_campaign, record_crash, start_fuzzing, stop_campaign, stop_fuzzing,
    transition, triage_crash, CampaignEvent, CrashReport, ProgressVerdict, SupervisorAction,
    MAX_FUZZER_ATTEMPTS,
};

fn zero() -> FuzzStats {
    FuzzStats {
        executions: 0,
        crashes: 0,
        corpus_size: 0,
        coverage_basis_points: 0,
        execs_per_second_milli: 0,
        mutations_applied: 0,
    }
}

fn stats(executions: u64, crashes: u64, corpus_size: u64, mutations_applied: u64) -> FuzzStats {
    FuzzStats {
        executions,
        crashes,
        corpus_size,
        coverage_basis_points: 7850,
        execs_per_second_milli: 1_234_500,
        mutations_applied,
    }
}

fn start_request(target: &str) -> FuzzStartRequest {
    FuzzStartRequest {
        target_binary: target.to_string(),
        corpus_dir: "corpus".to_string(),
        crash_dir: "crashes".to_string(),
        timeout: None,
    }
}

fn crash(id: u128, campaign_id: u128, input: &str, signal: Option<i32>) -> CrashInfo {
    CrashInfo {
        id,
        campaign_id,
        input: input.to_string(),
        signal,
        output: "out".to_string(),
        discovered_at: id as i64,
    }
}

fn crash_report(input: &str, signal: Option<i32>, output: &str) -> CrashReport {
    CrashReport { input: input.to_string(), signal, output: output.to_string() }
}

// ------------------------------------------------------------------- start

#[test]
fn new_campaign_is_running_with_zero_totals() {
    let c = new_campaign(0xa1a2a3a4b1b2c1c2d1d2d3d4d5d6d7d8, "target.bin", 99);
    assert_eq!(c.id, 0xa1a2a3a4b1b2c1c2d1d2d3d4d5d6d7d8);
    assert_eq!(c.name, "Campaign-a1a2a3a4-b1b2-c1c2-d1d2-d3d4d5d6d7d8");
    assert_eq!(c.status, FuzzStatus::Running);
    assert_eq!(c.target_binary, "target.bin");
    assert_eq!(c.stats, zero());
    assert_eq!(c.started_at, 99);
    assert_eq!(c.stopped_at, None);
}

#[test]
fn started_campaign_is_named_after_its_random_identifier() {
    let c = start_fuzzing(&start_request("/opt/target"));
    assert_eq!(c.status, FuzzStatus::Running);
    assert_eq!(c.target_binary, "/opt/target");
    assert_eq!(c.name, format!("Campaign-{}", uuid::Uuid::from_u128(c.id)));
    assert_eq!(c.stats, zero());
    assert_eq!(c.stopped_at, None);
    assert!(c.started_at > 0);
    assert_eq!((c.id >> 76) & 0xf, 4);
    assert_eq!((c.id >> 62) & 0x3, 2);
    let d = start_fuzzing(&start_request("/opt/target"));
    assert_ne!(c.id, d.id);
}

// ------------------------------------------------------------------ status

#[test]
fn transition_table() {
    let launched = CampaignEvent::Launched;
    let stop = CampaignEvent::StopRequested { at: 9 };
    let failed = CampaignEvent::FuzzerFailed;
    assert_eq!(transition(FuzzStatus::Idle, launched), Some(FuzzStatus::Running));
    assert_eq!(transition(FuzzStatus::Idle, stop), None);
    assert_eq!(transition(FuzzStatus::Idle, failed), None);
    assert_eq!(transition(FuzzStatus::Running, launched), None);
    assert_eq!(transition(FuzzStatus::Running, stop), Some(FuzzStatus::Stopped));
    assert_eq!(transition(FuzzStatus::Running, failed), Some(FuzzStatus::Error));
    for event in vec![launched, stop, failed] {
        assert_eq!(transition(FuzzStatus::Stopped, event), None);
        assert_eq!(transition(FuzzStatus::Error, event), None);
    }
}

#[test]
fn final_statuses() {
    assert!(FuzzStatus::Stopped.is_terminal());
    assert!(FuzzStatus::Error.is_terminal());
    assert!(!FuzzStatus::Idle.is_terminal());
    assert!(!FuzzStatus::Running.is_terminal());
}

#[test]
fn stop_event_records_the_time() {
    let mut c = new_campaign(1, "t", 10);
    assert!(apply_event(&mut c, CampaignEvent::StopRequested { at: 500 }));
    assert_eq!(c.status, FuzzStatus::Stopped);
    assert_eq!(c.stopped_at, Some(500));
    assert_eq!(c.started_at, 10);
    assert_eq!(c.name, "Campaign-00000000-0000-0000-0000-000000000001");
}

#[test]
fn failure_event_leaves_the_stop_time_alone() {
    let mut c = new_campaign(1, "t", 10);
    assert!(apply_event(&mut c, CampaignEvent::FuzzerFailed));
    assert_eq!(c.status, FuzzStatus::Error);
    assert_eq!(c.stopped_at, None);
    assert!(!apply_event(&mut c, CampaignEvent::StopRequested { at: 600 }));
    assert_eq!(c.status, FuzzStatus::Error);
    assert_eq!(c.stopped_at, None);
}

#[test]
fn idle_campaign_launches_but_does_not_stop() {
    let mut c = new_campaign(1, "t", 10);
    c.status = FuzzStatus::Idle;
    assert!(!apply_event(&mut c, CampaignEvent::StopRequested { at: 5 }));
    assert_eq!(c.status, FuzzStatus::Idle);
    assert!(apply_event(&mut c, CampaignEvent::Launched));
    assert_eq!(c.status, FuzzStatus::Running);
    assert_eq!(c.stopped_at, None);
}

#[test]
fn stop_twice_answers_true_then_false() {
    let mut campaigns: HashMap<u128, FuzzCampaign> = HashMap::new();
    campaigns.insert(7, new_campaign(7, "t", 10));
    assert!(stop_campaign(&mut campaigns, 7, 100));
    assert_eq!(campaigns[&7].status, FuzzStatus::Stopped);
    assert_eq!(campaigns[&7].stopped_at, Some(100));
    assert!(!stop_campaign(&mut campaigns, 7, 200));
    assert_eq!(campaigns[&7].status, FuzzStatus::Stopped);
    assert_eq!(campaigns[&7].stopped_at, Some(100));
    assert_eq!(campaigns.len(), 1);
}

#[test]
fn stop_of_unknown_campaign_answers_false() {
    let mut campaigns: HashMap<u128, FuzzCampaign> = HashMap::new();
    campaigns.insert(7, new_campaign(7, "t", 10));
    assert!(!stop_campaign(&mut campaigns, 8, 100));
    assert!(!stop_fuzzing(&mut campaigns, 9));
    assert_eq!(campaigns.len(), 1);
    assert_eq!(campaigns[&7].status, FuzzStatus::Running);
}

#[test]
fn stop_of_errored_campaign_answers_false() {
    let mut campaigns: HashMap<u128, FuzzCampaign> = HashMap::new();
    let mut c = new_campaign(7, "t", 10);
    c.status = FuzzStatus::Error;
    campaigns.insert(7, c);
    assert!(!stop_campaign(&mut campaigns, 7, 100));
    assert_eq!(campaigns[&7].status, FuzzStatus::Error);
    assert_eq!(campaigns[&7].stopped_at, None);
}

#[test]
fn stop_now_uses_the_clock() {
    let mut campaigns: HashMap<u128, FuzzCampaign> = HashMap::new();
    campaigns.insert(7, new_campaign(7, "t", 10));
    campaigns.insert(8, new_campaign(8, "u", 11));
    assert!(stop_fuzzing(&mut campaigns, 7));
    assert_eq!(campaigns[&7].status, FuzzStatus::Stopped);
    assert!(campaigns[&7].stopped_at.unwrap() > 1_600_000_000_000_000);
    assert_eq!(campaigns[&8].status, FuzzStatus::Running);
    assert!(!stop_fuzzing(&mut campaigns, 7));
}

#[test]
fn status_lookup_copies_the_campaign() {
    let mut campaigns: HashMap<u128, FuzzCampaign> = HashMap::new();
    campaigns.insert(7, new_campaign(7, "t", 10));
    let found = get_campaign_status(&campaigns, 7).unwrap();
    assert_eq!(found.id, 7);
    assert_eq!(found.status, FuzzStatus::Running);
    assert_eq!(found.target_binary, "t");
    assert!(found.stats.executions == 0);
    assert!(get_campaign_status(&campaigns, 8).is_none());
}

// ---------------------------------------------------------------- progress

#[test]
fn report_that_keeps_counts_is_applied() {
    let mut c = new_campaign(1, "t", 10);
    assert_eq!(apply_progress(&mut c, stats(10, 0, 3, 10)), ProgressVerdict::Applied);
    assert_eq!(c.stats, stats(10, 0, 3, 10));
    assert_eq!(apply_progress(&mut c, stats(10, 0, 3, 10)), ProgressVerdict::Applied);
    assert_eq!(apply_progress(&mut c, stats(15234, 3, 127, 15234)), ProgressVerdict::Applied);
    assert_eq!(c.stats.executions, 15234);
    assert_eq!(c.stats.crashes, 3);
    assert_eq!(c.stats.corpus_size, 127);
    assert_eq!(c.stats.coverage_basis_points, 7850);
    assert_eq!(c.stats.execs_per_second_milli, 1_234_500);
    assert_eq!(c.stats.mutations_applied, 15234);
}

#[test]
fn report_that_lowers_a_count_is_dropped() {
    let mut c = new_campaign(1, "t", 10);
    assert_eq!(apply_progress(&mut c, stats(100, 5, 50, 100)), ProgressVerdict::Applied);
    assert_eq!(apply_progress(&mut c, stats(99, 5, 50, 100)), ProgressVerdict::Regressed);
    assert_eq!(apply_progress(&mut c, stats(100, 4, 50, 100)), ProgressVerdict::Regressed);
    assert_eq!(apply_progress(&mut c, stats(100, 5, 49, 100)), ProgressVerdict::Regressed);
    assert_eq!(apply_progress(&mut c, stats(100, 5, 50, 99)), ProgressVerdict::Regressed);
    assert_eq!(apply_progress(&mut c, stats(0, 0, 0, 0)), ProgressVerdict::Regressed);
    assert_eq!(c.stats, stats(100, 5, 50, 100));
}

#[test]
fn rates_may_go_down() {
    let mut c = new_campaign(1, "t", 10);
    assert_eq!(apply_progress(&mut c, stats(100, 5, 50, 100)), ProgressVerdict::Applied);
    let mut slower = stats(100, 5, 50, 100);
    slower.coverage_basis_points = 100;
    slower.execs_per_second_milli = 1;
    assert_eq!(apply_progress(&mut c, slower), ProgressVerdict::Applied);
    assert_eq!(c.stats.coverage_basis_points, 100);
    assert_eq!(c.stats.execs_per_second_milli, 1);
}

#[test]
fn campaign_that_is_not_running_takes_no_reports() {
    for status in vec![FuzzStatus::Idle, FuzzStatus::Stopped, FuzzStatus::Error] {
        let mut c = new_campaign(1, "t", 10);
        c.status = status;
        assert_eq!(apply_progress(&mut c, stats(1, 1, 1, 1)), ProgressVerdict::NotRunning);
        assert_eq!(c.stats, zero());
        assert_eq!(c.status, status);
    }
}

#[test]
fn counts_never_decrease_over_a_stream_of_reports() {
    let mut c = new_campaign(1, "t", 10);
    let mut seed: u64 = 99;
    let mut last = c.stats;
    for _ in 0..500 {
        seed = seed.wrapping_mul(6364136223846793005).wrapping_add(1442695040888963407);
        let report = stats(
            (seed >> 10) % 1000,
            (seed >> 20) % 50,
            (seed >> 30) % 300,
            (seed >> 40) % 1000,
        );
        apply_progress(&mut c, report);
        assert!(c.stats.executions >= last.executions);
        assert!(c.stats.crashes >= last.crashes);
        assert!(c.stats.corpus_size >= last.corpus_size);
        assert!(c.stats.mutations_applied >= last.mutations_applied);
        assert_eq!(c.status, FuzzStatus::Running);
        last = c.stats;
    }
}

// ------------------------------------------------------------------ triage

#[test]
fn first_report_of_a_crash_is_filed() {
    let mut crashes: Vec<CrashInfo> = vec![];
    assert!(triage_crash(&mut crashes, crash(1, 7, "AAAA", Some(11))));
    assert_eq!(crashes.len(), 1);
    assert_eq!(crashes[0].id, 1);
    assert_eq!(crashes[0].campaign_id, 7);
    assert_eq!(crashes[0].input, "AAAA");
    assert_eq!(crashes[0].signal, Some(11));
}

#[test]
fn repeated_crash_is_filed_once() {
    let mut crashes: Vec<CrashInfo> = vec![];
    assert!(triage_crash(&mut crashes, crash(1, 7, "AAAA", Some(11))));
    assert!(!triage_crash(&mut crashes, crash(2, 7, "AAAA", Some(11))));
    let mut other_output = crash(3, 7, "AAAA", Some(11));
    other_output.output = "another trace".to_string();
    assert!(!triage_crash(&mut crashes, other_output));
    assert_eq!(crashes.len(), 1);
    assert_eq!(crashes[0].id, 1);
    assert_eq!(crashes[0].output, "out");
}

#[test]
fn crashes_differ_by_signal_input_or_campaign() {
    let mut crashes: Vec<CrashInfo> = vec![];
    assert!(triage_crash(&mut crashes, crash(1, 7, "AAAA", Some(11))));
    assert!(triage_crash(&mut crashes, crash(2, 7, "AAAA", Some(6))));
    assert!(triage_crash(&mut crashes, crash(3, 7, "AAAA", None)));
    assert!(triage_crash(&mut crashes, crash(4, 7, "AAAB", Some(11))));
    assert!(triage_crash(&mut crashes, crash(5, 8, "AAAA", Some(11))));
    assert!(!triage_crash(&mut crashes, crash(6, 7, "AAAA", None)));
    assert!(!triage_crash(&mut crashes, crash(7, 8, "AAAA", Some(11))));
    let ids: Vec<u128> = crashes.iter().map(|c| c.id).collect();
    assert_eq!(ids, vec![1, 2, 3, 4, 5]);
}

#[test]
fn no_two_records_share_a_fingerprint() {
    let mut crashes: Vec<CrashInfo> = vec![];
    let mut seed: u64 = 7;
    for i in 0..400 {
        seed = seed.wrapping_mul(6364136223846793005).wrapping_add(1442695040888963407);
        let campaign = (seed >> 10) % 3;
        let input = format!("in{}", (seed >> 20) % 5);
        let signal = match (seed >> 30) % 3 {
            0 => None,
            1 => Some(6),
            _ => Some(11),
        };
        triage_crash(&mut crashes, crash(i, campaign as u128, &input, signal));
    }
    assert!(crashes.len() <= 45);
    for i in 0..crashes.len() {
        for j in (i + 1)..crashes.len() {
            let same = crashes[i].campaign_id == crashes[j].campaign_id
                && crashes[i].signal == crashes[j].signal
                && crashes[i].input == crashes[j].input;
            assert!(!same);
        }
    }
}

#[test]
fn recorded_crash_gets_identifier_and_time() {
    let mut crashes: Vec<CrashInfo> = vec![];
    assert!(record_crash(&mut crashes, 7, crash_report("\\x00\\x01", Some(11), "Segmentation fault")));
    assert!(!record_crash(&mut crashes, 7, crash_report("\\x00\\x01", Some(11), "again")));
    assert!(record_crash(&mut crashes, 7, crash_report("AAAAAAAAAA", Some(6), "Abort called")));
    assert_eq!(crashes.len(), 2);
    assert_eq!(crashes[0].campaign_id, 7);
    assert_eq!(crashes[0].input, "\\x00\\x01");
    assert_eq!(crashes[0].signal, Some(11));
    assert_eq!(crashes[0].output, "Segmentation fault");
    assert!(crashes[0].discovered_at > 0);
    assert_ne!(crashes[0].id, crashes[1].id);
    assert_eq!((crashes[0].id >> 76) & 0xf, 4);
}

#[test]
fn crashes_of_a_campaign_in_filing_order() {
    let crashes = vec![
        crash(1, 7, "a", Some(11)),
        crash(2, 8, "b", Some(11)),
        crash(3, 7, "c", None),
        crash(4, 9, "d", Some(6)),
        crash(5, 7, "e", Some(6)),
    ];
    let found = get_crashes(&crashes, 7);
    let ids: Vec<u128> = found.iter().map(|c| c.id).collect();
    assert_eq!(ids, vec![1, 3, 5]);
    assert_eq!(found[1].input, "c");
    assert_eq!(found[1].signal, None);
    assert_eq!(found[1].output, "out");
    assert_eq!(found[1].discovered_at, 3);
    assert!(get_crashes(&crashes, 10).is_empty());
    assert_eq!(get_crashes(&crashes, 9).len(), 1);
}

// -------------------------------------------------------------- supervisor

#[test]
fn fuzzer_is_given_target_corpus_and_crash_directory() {
    let mut req = start_request("/opt/target");
    let inv = fuzzer_invocation("aegisfuzz", &req);
    assert_eq!(inv.program, "aegisfuzz");
    assert_eq!(inv.args, vec!["/opt/target", "corpus", "crashes"]);
    assert_eq!(inv.deadline_ms, None);
    req.timeout = Some("10m".to_string());
    assert_eq!(fuzzer_invocation("/usr/local/bin/aegisfuzz", &req).deadline_ms, Some(600_000));
    req.timeout = Some("forever".to_string());
    assert_eq!(fuzzer_invocation("aegisfuzz", &req).deadline_ms, None);
}

#[test]
fn supervisor_gives_up_at_the_bound() {
    assert_eq!(MAX_FUZZER_ATTEMPTS, 3);
    let failed = ProcessOutcome::SpawnFailed("not found".to_string());
    assert_eq!(after_fuzzer_run(&failed, 0), (SupervisorAction::Restart, 1));
    assert_eq!(after_fuzzer_run(&failed, 1), (SupervisorAction::Restart, 2));
    assert_eq!(after_fuzzer_run(&failed, 2), (SupervisorAction::GiveUp, 3));
    assert_eq!(after_fuzzer_run(&failed, 3), (SupervisorAction::GiveUp, 4));
    assert_eq!(after_fuzzer_run(&failed, u32::MAX), (SupervisorAction::GiveUp, u32::MAX));
}

#[test]
fn fuzzer_that_ends_by_itself_has_failed() {
    let ended = |exit_code: Option<i32>| {
        ProcessOutcome::Finished(ProcessReport {
            stdout: String::new(),
            stderr: String::new(),
            exit_code,
            timed_out: false,
            elapsed_ms: 1,
            audit: vec![],
        })
    };
    assert_eq!(after_fuzzer_run(&ended(Some(0)), 0), (SupervisorAction::Restart, 1));
    assert_eq!(after_fuzzer_run(&ended(Some(1)), 1), (SupervisorAction::Restart, 2));
    assert_eq!(after_fuzzer_run(&ended(None), 2), (SupervisorAction::GiveUp, 3));
}

#[test]
fn fuzzer_ended_at_the_deadline_stops_the_campaign() {
    let late = ProcessOutcome::Finished(ProcessReport {
        stdout: String::new(),
        stderr: String::new(),
        exit_code: None,
        timed_out: true,
        elapsed_ms: 600_000,
        audit: vec![],
    });
    assert_eq!(after_fuzzer_run(&late, 0), (SupervisorAction::Stop, 0));
    assert_eq!(after_fuzzer_run(&late, 2), (SupervisorAction::Stop, 2));
    assert_eq!(after_fuzzer_run(&late, 7), (SupervisorAction::Stop, 7));
}
