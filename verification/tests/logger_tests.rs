use aegis_backend::models::{LogEntry, LogLevel, LogSource};
use aegis_backend::services::logger::{
    add_log, append_entry, get_logs_by_source, get_timeline, MAX_LOG_ENTRIES,
};

fn log_entry(id: u128, source: LogSource, message: &str, timestamp: i64) -> LogEntry {
    LogEntry {
        id,
        level: LogLevel::Info,
        source,
        message: message.to_string(),
        details: None,
        timestamp,
    }
}

fn log_messages(entries: &Vec<LogEntry>) -> Vec<String> {
    entries.iter().map(|e| e.message.clone()).collect()
}

#[test]
fn add_log_appends_what_it_is_given() {
    let mut logs: Vec<LogEntry> = vec![];
    let details = serde_json::Value::from(vec![1, 2, 3]);
    add_log(
        &mut logs,
        LogLevel::Warning,
        LogSource::Fuzzer,
        "something happened".to_string(),
        Some(details.clone()),
    );
    assert_eq!(logs.len(), 1);
    assert_eq!(logs[0].level, LogLevel::Warning);
    assert_eq!(logs[0].source, LogSource::Fuzzer);
    assert_eq!(logs[0].message, "something happened");
    assert_eq!(logs[0].details, Some(details));
    assert!(logs[0].timestamp > 0);
}

#[test]
fn add_log_gives_each_entry_its_own_identifier() {
    let mut logs: Vec<LogEntry> = vec![];
    add_log(&mut logs, LogLevel::Info, LogSource::System, "a".to_string(), None);
    add_log(&mut logs, LogLevel::Info, LogSource::System, "b".to_string(), None);
    assert_eq!(logs.len(), 2);
    assert_ne!(logs[0].id, logs[1].id);
    assert_eq!((logs[0].id >> 76) & 0xf, 4);
    assert_eq!((logs[0].id >> 62) & 0x3, 2);
    assert!(logs[0].timestamp <= logs[1].timestamp);
}

#[test]
fn log_never_exceeds_the_cap() {
    let mut logs: Vec<LogEntry> = vec![];
    for i in 0..(MAX_LOG_ENTRIES + 5) {
        add_log(&mut logs, LogLevel::Debug, LogSource::System, format!("m{}", i), None);
        assert!(logs.len() <= MAX_LOG_ENTRIES);
    }
    assert_eq!(logs.len(), MAX_LOG_ENTRIES);
    assert_eq!(logs[0].message, "m5");
    assert_eq!(logs[MAX_LOG_ENTRIES - 1].message, format!("m{}", MAX_LOG_ENTRIES + 4));
}

#[test]
fn the_cap_is_one_thousand() {
    assert_eq!(MAX_LOG_ENTRIES, 1000);
}

#[test]
fn log_at_the_cap_drops_exactly_the_oldest() {
    let mut logs: Vec<LogEntry> = vec![];
    for i in 0..MAX_LOG_ENTRIES {
        append_entry(&mut logs, log_entry(i as u128, LogSource::System, "old", i as i64));
    }
    assert_eq!(logs.len(), MAX_LOG_ENTRIES);
    assert_eq!(logs[0].id, 0);
    append_entry(&mut logs, log_entry(5000, LogSource::System, "new", 5000));
    assert_eq!(logs.len(), MAX_LOG_ENTRIES);
    assert_eq!(logs[0].id, 1);
    assert_eq!(logs[MAX_LOG_ENTRIES - 1].id, 5000);
}

#[test]
fn oversized_log_is_cut_to_the_cap_by_one_append() {
    let mut logs: Vec<LogEntry> = vec![];
    for i in 0..(MAX_LOG_ENTRIES + 10) {
        logs.push(log_entry(i as u128, LogSource::System, "x", i as i64));
    }
    append_entry(&mut logs, log_entry(9999, LogSource::System, "last", 9999));
    assert_eq!(logs.len(), MAX_LOG_ENTRIES);
    assert_eq!(logs[0].id, 11);
    assert_eq!(logs[MAX_LOG_ENTRIES - 1].id, 9999);
}

#[test]
fn surviving_entries_come_out_newest_first() {
    let mut logs: Vec<LogEntry> = vec![];
    let n = MAX_LOG_ENTRIES + 7;
    for i in 0..n {
        append_entry(&mut logs, log_entry(i as u128, LogSource::System, "x", i as i64));
    }
    let resp = get_timeline(&logs, Some(MAX_LOG_ENTRIES));
    assert_eq!(resp.entries.len(), MAX_LOG_ENTRIES);
    assert_eq!(resp.total_count, MAX_LOG_ENTRIES as u64);
    for k in 0..MAX_LOG_ENTRIES {
        assert_eq!(resp.entries[k].id, (n - 1 - k) as u128);
    }
}

#[test]
fn timeline_sorts_by_time_descending() {
    let logs = vec![
        log_entry(1, LogSource::System, "t10", 10),
        log_entry(2, LogSource::System, "t30", 30),
        log_entry(3, LogSource::System, "t20", 20),
    ];
    let resp = get_timeline(&logs, None);
    assert_eq!(log_messages(&resp.entries), vec!["t30", "t20", "t10"]);
    assert_eq!(resp.total_count, 3);
}

#[test]
fn timeline_keeps_equal_times_in_append_order() {
    let logs = vec![
        log_entry(1, LogSource::System, "a", 5),
        log_entry(2, LogSource::System, "b", 9),
        log_entry(3, LogSource::System, "c", 5),
        log_entry(4, LogSource::System, "d", 9),
        log_entry(5, LogSource::System, "e", 5),
    ];
    let resp = get_timeline(&logs, None);
    assert_eq!(log_messages(&resp.entries), vec!["b", "d", "a", "c", "e"]);
}

#[test]
fn timeline_agrees_with_a_stable_sort() {
    let mut logs: Vec<LogEntry> = vec![];
    let mut seed: u64 = 12345;
    for i in 0..200 {
        seed = seed.wrapping_mul(6364136223846793005).wrapping_add(1442695040888963407);
        let t = ((seed >> 33) % 17) as i64 - 8;
        logs.push(log_entry(i as u128, LogSource::System, "x", t));
    }
    let mut expected: Vec<(u128, i64)> = logs.iter().map(|e| (e.id, e.timestamp)).collect();
    expected.sort_by(|a, b| b.1.cmp(&a.1));
    let resp = get_timeline(&logs, None);
    let got: Vec<(u128, i64)> = resp.entries.iter().map(|e| (e.id, e.timestamp)).collect();
    assert_eq!(got, expected);
}

#[test]
fn timeline_limit_cuts_after_sorting() {
    let logs = vec![
        log_entry(1, LogSource::System, "t10", 10),
        log_entry(2, LogSource::System, "t30", 30),
        log_entry(3, LogSource::System, "t20", 20),
    ];
    let two = get_timeline(&logs, Some(2));
    assert_eq!(log_messages(&two.entries), vec!["t30", "t20"]);
    assert_eq!(two.total_count, 2);
    let zero = get_timeline(&logs, Some(0));
    assert!(zero.entries.is_empty());
    assert_eq!(zero.total_count, 0);
    let many = get_timeline(&logs, Some(50));
    assert_eq!(many.entries.len(), 3);
    assert_eq!(many.total_count, 3);
    let exact = get_timeline(&logs, Some(3));
    assert_eq!(log_messages(&exact.entries), vec!["t30", "t20", "t10"]);
}

#[test]
fn timeline_of_empty_log_is_empty() {
    let logs: Vec<LogEntry> = vec![];
    let resp = get_timeline(&logs, None);
    assert!(resp.entries.is_empty());
    assert_eq!(resp.total_count, 0);
}

#[test]
fn timeline_leaves_the_log_alone_and_copies_details() {
    let mut first = log_entry(1, LogSource::Sandbox, "a", 1);
    first.details = Some(serde_json::Value::from("payload"));
    let logs = vec![first, log_entry(2, LogSource::Sandbox, "b", 2)];
    let resp = get_timeline(&logs, None);
    assert_eq!(logs.len(), 2);
    assert_eq!(logs[0].message, "a");
    assert_eq!(resp.entries[1].details, Some(serde_json::Value::from("payload")));
    assert_eq!(resp.entries[1].level, LogLevel::Info);
    assert_eq!(resp.entries[1].source, LogSource::Sandbox);
}

#[test]
fn logs_by_source_keeps_log_order() {
    let logs = vec![
        log_entry(1, LogSource::Sandbox, "s1", 30),
        log_entry(2, LogSource::Fuzzer, "f1", 20),
        log_entry(3, LogSource::Sandbox, "s2", 10),
        log_entry(4, LogSource::Compiler, "c1", 40),
    ];
    assert_eq!(log_messages(&get_logs_by_source(&logs, LogSource::Sandbox)), vec!["s1", "s2"]);
    assert_eq!(log_messages(&get_logs_by_source(&logs, LogSource::Fuzzer)), vec!["f1"]);
    assert_eq!(log_messages(&get_logs_by_source(&logs, LogSource::Compiler)), vec!["c1"]);
    assert!(get_logs_by_source(&logs, LogSource::System).is_empty());
}

#[test]
fn log_levels_are_ordered_by_severity() {
    assert!(LogLevel::Debug.severity() < LogLevel::Info.severity());
    assert!(LogLevel::Info.severity() < LogLevel::Warning.severity());
    assert!(LogLevel::Warning.severity() < LogLevel::Error.severity());
    assert!(LogLevel::Error.severity() < LogLevel::Critical.severity());
    assert_eq!(LogLevel::Debug.severity(), 0);
    assert_eq!(LogLevel::Critical.severity(), 4);
}
