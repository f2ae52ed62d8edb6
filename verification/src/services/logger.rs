//! The telemetry log: an append-only record of events that keeps the most
//! recent entries up to a fixed count, and answers queries newest first.

use vstd::prelude::*;
use vstd::seq_lib::{to_multiset_build, to_multiset_insert};
use crate::models::{LogEntry, LogLevel, LogSource, TimelineResponse};
use crate::system::{fresh_id, now_micros};

verus! {

/// The most entries that the log keeps.
pub const MAX_LOG_ENTRIES: usize = 1000;

// ----------------------------------------------------------------------------
// Appending
// ----------------------------------------------------------------------------

/// The newest entries of a log, up to the retention cap: the oldest beyond
/// it are dropped.
pub open spec fn retained(log: Seq<LogEntry>) -> Seq<LogEntry> {
    if log.len() > MAX_LOG_ENTRIES {
        log.subrange(log.len() - MAX_LOG_ENTRIES, log.len() as int)
    } else {
        log
    }
}

/// A log after one more entry.
pub open spec fn appended(log: Seq<LogEntry>, entry: LogEntry) -> Seq<LogEntry> {
    retained(log.push(entry))
}

/// A log after a sequence of entries, appended one by one.
pub open spec fn appended_all(log: Seq<LogEntry>, entries: Seq<LogEntry>) -> Seq<LogEntry>
    decreases entries.len(),
{
    if entries.len() == 0 {
        log
    } else {
        appended(appended_all(log, entries.drop_last()), entries.last())
    }
}

/// Appends an entry and drops the oldest entries beyond the retention cap.
pub fn append_entry(logs: &mut Vec<LogEntry>, entry: LogEntry)
    ensures
        final(logs)@ == appended(old(logs)@, entry),
        final(logs)@.len() <= MAX_LOG_ENTRIES,
{
    logs.push(entry);
    let len = logs.len();
    if len > MAX_LOG_ENTRIES {
        let newest = logs.split_off(len - MAX_LOG_ENTRIES);
        *logs = newest;
    }
}

/// Whether a log went from `before` to `after` by appending one entry with
/// the given level, source, message and details.
pub open spec fn logged(
    before: Seq<LogEntry>,
    after: Seq<LogEntry>,
    level: LogLevel,
    source: LogSource,
    message: Seq<char>,
    details: Option<serde_json::Value>,
) -> bool {
    exists|entry: LogEntry|
        #![trigger appended(before, entry)]
        after == appended(before, entry) && entry.level == level && entry.source == source
            && entry.message@ == message && entry.details == details
}

/// Records an event: gives it a fresh identifier and the current time, and
/// appends it. Whatever identifier and time are drawn, the log ends as
/// `appended` says for the entry that carries them.
pub fn add_log(
    logs: &mut Vec<LogEntry>,
    level: LogLevel,
    source: LogSource,
    message: String,
    details: Option<serde_json::Value>,
)
    ensures
        exists|id: u128, timestamp: i64|
            final(logs)@ == appended(
                old(logs)@,
                (LogEntry { id, level, source, message, details, timestamp }),
            ),
        logged(old(logs)@, final(logs)@, level, source, message@, details),
        final(logs)@.len() <= MAX_LOG_ENTRIES,
{
    let id = fresh_id();
    let timestamp = now_micros();
    let entry = LogEntry { id, level, source, message, details, timestamp };
    append_entry(logs, entry);
}

// ----------------------------------------------------------------------------
// Newest first
// ----------------------------------------------------------------------------

/// Where an entry with the given timestamp belongs in a list that runs from
/// newest to oldest: behind every entry that is at least as new.
pub open spec fn slot(sorted: Seq<LogEntry>, timestamp: i64) -> nat
    decreases sorted.len(),
{
    if sorted.len() == 0 || sorted[0].timestamp < timestamp {
        0
    } else {
        1 + slot(sorted.skip(1), timestamp)
    }
}

/// The entries of a log from newest to oldest. Entries with the same
/// timestamp stay in the order in which they were appended.
pub open spec fn newest_first(log: Seq<LogEntry>) -> Seq<LogEntry>
    decreases log.len(),
{
    if log.len() == 0 {
        Seq::<LogEntry>::empty()
    } else {
        let rest = newest_first(log.drop_last());
        rest.insert(slot(rest, log.last().timestamp) as int, log.last())
    }
}

/// Whether a list runs from newest to oldest.
pub open spec fn descending(s: Seq<LogEntry>) -> bool {
    forall|i: int, j: int| 0 <= i < j < s.len() ==> s[i].timestamp >= s[j].timestamp
}

/// The timeline of a log: its entries from newest to oldest, cut after
/// `limit` entries where a limit is given.
pub open spec fn timeline_of(log: Seq<LogEntry>, limit: Option<usize>) -> Seq<LogEntry> {
    match limit {
        Some(k) => if k < log.len() {
            newest_first(log).take(k as int)
        } else {
            newest_first(log)
        },
        None => newest_first(log),
    }
}

proof fn lemma_slot(sorted: Seq<LogEntry>, timestamp: i64, p: nat)
    requires
        p <= sorted.len(),
        forall|j: int| 0 <= j < p ==> (#[trigger] sorted[j]).timestamp >= timestamp,
        p == sorted.len() || sorted[p as int].timestamp < timestamp,
    ensures
        slot(sorted, timestamp) == p,
    decreases p,
{
    if p > 0 {
        let rest = sorted.skip(1);
        assert(sorted[0].timestamp >= timestamp);
        assert forall|j: int| 0 <= j < p - 1 implies (#[trigger] rest[j]).timestamp
            >= timestamp by {
            assert(rest[j] == sorted[j + 1]);
        }
        lemma_slot(rest, timestamp, (p - 1) as nat);
    }
}

proof fn lemma_slot_bounds(sorted: Seq<LogEntry>, timestamp: i64)
    ensures
        slot(sorted, timestamp) <= sorted.len(),
        forall|j: int|
            0 <= j < slot(sorted, timestamp) ==> (#[trigger] sorted[j]).timestamp >= timestamp,
        slot(sorted, timestamp) < sorted.len() ==> sorted[slot(sorted, timestamp) as int].timestamp
            < timestamp,
    decreases sorted.len(),
{
    if !(sorted.len() == 0 || sorted[0].timestamp < timestamp) {
        let rest = sorted.skip(1);
        lemma_slot_bounds(rest, timestamp);
        assert forall|j: int| 0 <= j < slot(sorted, timestamp) implies (#[trigger] sorted[j]).timestamp
            >= timestamp by {
            if j > 0 {
                assert(sorted[j] == rest[j - 1]);
            }
        }
        if slot(sorted, timestamp) < sorted.len() {
            assert(sorted[slot(sorted, timestamp) as int] == rest[slot(rest, timestamp) as int]);
        }
    }
}

/// The timeline holds every entry of the log, each as often as the log
/// does, and runs from newest to oldest.
pub proof fn law_newest_first(log: Seq<LogEntry>)
    ensures
        newest_first(log).len() == log.len(),
        newest_first(log).to_multiset() == log.to_multiset(),
        descending(newest_first(log)),
    decreases log.len(),
{
    if log.len() == 0 {
        assert(log =~= Seq::<LogEntry>::empty());
    } else {
        let rest = newest_first(log.drop_last());
        let e = log.last();
        let p = slot(rest, e.timestamp) as int;
        law_newest_first(log.drop_last());
        lemma_slot_bounds(rest, e.timestamp);
        to_multiset_insert(rest, p, e);
        to_multiset_build(log.drop_last(), e);
        assert(log.drop_last().push(e) =~= log);
        let out = rest.insert(p, e);
        assert forall|i: int, j: int| 0 <= i < j < out.len() implies out[i].timestamp
            >= out[j].timestamp by {
            if j < p {
                assert(out[i] == rest[i] && out[j] == rest[j]);
            } else if j == p {
                assert(out[i] == rest[i]);
            } else if i < p {
                assert(out[i] == rest[i] && out[j] == rest[j - 1]);
            } else if i == p {
                assert(out[j] == rest[j - 1]);
                if p < j - 1 {
                    assert(rest[p].timestamp >= rest[j - 1].timestamp);
                }
            } else {
                assert(out[i] == rest[i - 1] && out[j] == rest[j - 1]);
            }
        }
    }
}

/// The entries of a list that carry one given timestamp, in list order.
pub open spec fn at_time(s: Seq<LogEntry>, timestamp: i64) -> Seq<LogEntry> {
    s.filter(|e: LogEntry| e.timestamp == timestamp)
}

proof fn lemma_none_at_time(s: Seq<LogEntry>, timestamp: i64)
    requires
        forall|i: int| 0 <= i < s.len() ==> (#[trigger] s[i]).timestamp != timestamp,
    ensures
        at_time(s, timestamp) == Seq::<LogEntry>::empty(),
    decreases s.len(),
{
    reveal(Seq::filter);
    if s.len() > 0 {
        lemma_none_at_time(s.drop_last(), timestamp);
    }
}

/// Ties are broken by the order of appending: the entries that share a
/// timestamp stand in the timeline in the very order in which they stand in
/// the log.
pub proof fn law_ties_keep_append_order(log: Seq<LogEntry>, timestamp: i64)
    ensures
        at_time(newest_first(log), timestamp) == at_time(log, timestamp),
    decreases log.len(),
{
    reveal(Seq::filter);
    let wanted = |e: LogEntry| e.timestamp == timestamp;
    if log.len() == 0 {
        assert(log =~= Seq::<LogEntry>::empty());
    } else {
        let front = log.drop_last();
        let e = log.last();
        let rest = newest_first(front);
        let p = slot(rest, e.timestamp) as int;
        law_ties_keep_append_order(front, timestamp);
        law_newest_first(front);
        lemma_slot_bounds(rest, e.timestamp);
        let a = rest.take(p);
        let b = rest.skip(p);
        let one = seq![e];
        assert(rest =~= a + b);
        assert(rest.insert(p, e) =~= (a + one) + b);
        Seq::filter_distributes_over_add(a, b, wanted);
        Seq::filter_distributes_over_add(a + one, b, wanted);
        Seq::filter_distributes_over_add(a, one, wanted);
        assert(one.drop_last() =~= Seq::<LogEntry>::empty());
        assert(one.last() == e);
        if e.timestamp == timestamp {
            assert forall|i: int| 0 <= i < b.len() implies (#[trigger] b[i]).timestamp
                != timestamp by {
                assert(b[i] == rest[p + i]);
                if i > 0 {
                    assert(rest[p].timestamp >= rest[p + i].timestamp);
                }
            }
            lemma_none_at_time(b, timestamp);
            lemma_none_at_time(one.drop_last(), timestamp);
            assert(one.filter(wanted) =~= one);
            assert(at_time(rest.insert(p, e), timestamp) =~= at_time(rest, timestamp).push(e));
        } else {
            lemma_none_at_time(one, timestamp);
            assert(at_time(rest.insert(p, e), timestamp) =~= at_time(rest, timestamp));
        }
    }
}

/// A log whose entries were appended in strictly increasing time reads
/// newest first as its exact reverse.
pub proof fn law_chronological_log_reverses(log: Seq<LogEntry>)
    requires
        forall|i: int, j: int| 0 <= i < j < log.len() ==> log[i].timestamp < log[j].timestamp,
    ensures
        newest_first(log) == log.reverse(),
    decreases log.len(),
{
    if log.len() == 0 {
        assert(newest_first(log) =~= log.reverse());
    } else {
        let front = log.drop_last();
        let e = log.last();
        law_chronological_log_reverses(front);
        let rest = newest_first(front);
        assert(rest.len() == 0 || rest[0].timestamp < e.timestamp) by {
            if rest.len() > 0 {
                assert(rest[0] == front[front.len() - 1]);
                assert(front[front.len() - 1] == log[log.len() - 2]);
            }
        }
        assert(slot(rest, e.timestamp) == 0);
        assert(rest.insert(0, e) =~= log.reverse());
    }
}

/// Reads the log from newest to oldest, up to `limit` entries, and counts
/// what it returns.
pub fn get_timeline(logs: &Vec<LogEntry>, limit: Option<usize>) -> (resp: TimelineResponse)
    ensures
        resp.entries@ == timeline_of(logs@, limit),
        resp.total_count == resp.entries@.len(),
{
    let mut entries: Vec<LogEntry> = Vec::new();
    let mut i: usize = 0;
    while i < logs.len()
        invariant
            i <= logs.len(),
            entries@ == newest_first(logs@.take(i as int)),
            entries@.len() == i,
        decreases logs.len() - i,
    {
        let entry = logs[i].clone();
        let mut p: usize = 0;
        while p < entries.len() && entries[p].timestamp >= entry.timestamp
            invariant
                p <= entries.len(),
                forall|j: int| 0 <= j < p ==> (#[trigger] entries@[j]).timestamp >= entry.timestamp,
            decreases entries.len() - p,
        {
            p += 1;
        }
        proof {
            lemma_slot(entries@, entry.timestamp, p as nat);
            assert(logs@.take(i as int + 1).drop_last() =~= logs@.take(i as int));
            assert(logs@.take(i as int + 1).last() == logs@[i as int]);
        }
        entries.insert(p, entry);
        i += 1;
    }
    proof {
        assert(logs@.take(logs.len() as int) =~= logs@);
    }
    if let Some(k) = limit {
        entries.truncate(k);
        assert(entries@ =~= timeline_of(logs@, limit));
    }
    let total_count = entries.len() as u64;
    TimelineResponse { entries, total_count }
}

// ----------------------------------------------------------------------------
// By source
// ----------------------------------------------------------------------------

/// The entries of a log that one subsystem wrote, in log order.
pub open spec fn from_source(log: Seq<LogEntry>, source: LogSource) -> Seq<LogEntry> {
    log.filter(|e: LogEntry| e.source == source)
}

/// Copies out the entries that one subsystem wrote, in log order.
pub fn get_logs_by_source(logs: &Vec<LogEntry>, source: LogSource) -> (found: Vec<LogEntry>)
    ensures
        found@ == from_source(logs@, source),
{
    let mut found: Vec<LogEntry> = Vec::new();
    let mut i: usize = 0;
    proof {
        reveal(Seq::filter);
    }
    while i < logs.len()
        invariant
            i <= logs.len(),
            found@ == from_source(logs@.take(i as int), source),
        decreases logs.len() - i,
    {
        let ghost wanted = |e: LogEntry| e.source == source;
        let ghost next = logs@.take(i as int + 1);
        proof {
            assert(next.drop_last() =~= logs@.take(i as int));
            assert(next.last() == logs@[i as int]);
            reveal(Seq::filter);
            assert(next.filter(wanted) == if wanted(next.last()) {
                next.drop_last().filter(wanted).push(next.last())
            } else {
                next.drop_last().filter(wanted)
            });
        }
        if logs[i].source == source {
            found.push(logs[i].clone());
        }
        i += 1;
    }
    proof {
        assert(logs@.take(logs.len() as int) =~= logs@);
    }
    found
}

// ----------------------------------------------------------------------------
// Retention
// ----------------------------------------------------------------------------

proof fn lemma_retained_push(log: Seq<LogEntry>, entry: LogEntry)
    ensures
        retained(retained(log).push(entry)) == retained(log.push(entry)),
{
    assert(retained(retained(log).push(entry)) =~= retained(log.push(entry)));
}

/// Appending one or more entries one by one leaves what retaining the
/// newest of the whole sequence leaves, and never more than the cap.
pub proof fn law_appends_retain_newest(log: Seq<LogEntry>, entries: Seq<LogEntry>)
    requires
        entries.len() > 0,
    ensures
        appended_all(log, entries) == retained(log + entries),
        appended_all(log, entries).len() <= MAX_LOG_ENTRIES,
    decreases entries.len(),
{
    let front = entries.drop_last();
    assert((log + front).push(entries.last()) =~= log + entries);
    if front.len() == 0 {
        assert(log + front =~= log);
        assert(appended_all(log, front) == log);
    } else {
        law_appends_retain_newest(log, front);
        lemma_retained_push(log + front, entries.last());
    }
}

/// After more appends than the cap, the log holds exactly the cap's number
/// of entries: the most recent ones appended, in the order of appending.
/// Read newest first, they come out from newest to oldest, each of them
/// once for each time it was appended.
pub proof fn law_retention(log: Seq<LogEntry>, entries: Seq<LogEntry>)
    requires
        entries.len() > MAX_LOG_ENTRIES,
    ensures
        appended_all(log, entries) == entries.subrange(
            entries.len() - MAX_LOG_ENTRIES,
            entries.len() as int,
        ),
        appended_all(log, entries).len() == MAX_LOG_ENTRIES,
        timeline_of(appended_all(log, entries), Some(MAX_LOG_ENTRIES)).len() == MAX_LOG_ENTRIES,
        timeline_of(appended_all(log, entries), Some(MAX_LOG_ENTRIES)).to_multiset()
            == appended_all(log, entries).to_multiset(),
        descending(timeline_of(appended_all(log, entries), Some(MAX_LOG_ENTRIES))),
{
    law_appends_retain_newest(log, entries);
    let kept = appended_all(log, entries);
    assert(kept =~= entries.subrange(entries.len() - MAX_LOG_ENTRIES, entries.len() as int));
    law_newest_first(kept);
}

} // verus!
