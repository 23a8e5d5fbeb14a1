//! Performance monitoring: the metrics of timed operations and what they
//! add up to per operation.

use vstd::prelude::*;
use crate::text::copy_opt_string;
use crate::strmap::{StrMap, entries_map};
use crate::text::str_eq;
use crate::timeutil::unix_millis_now;

verus! {

/// Performance metrics for one operation (times in milliseconds since the
/// Unix epoch).
#[derive(Debug, Clone)]
pub struct PerformanceMetrics {
    pub operation_name: String,
    pub start_time: u64,
    pub end_time: Option<u64>,
    pub duration_ms: Option<u64>,
    pub success: bool,
    pub error_message: Option<String>,
    pub additional_data: StrMap<String>,
}

impl PerformanceMetrics {
    /// Metrics of an operation started at a time: not finished, not
    /// successful, no error or data.
    pub fn new_at(operation_name: String, start_time: u64) -> (m: Self)
        ensures
            m.operation_name == operation_name,
            m.start_time == start_time,
            m.end_time is None,
            m.duration_ms is None,
            !m.success,
            m.error_message is None,
            m.additional_data.wf(),
            m.additional_data.entries@.len() == 0,
    {
        PerformanceMetrics {
            operation_name,
            start_time,
            end_time: None,
            duration_ms: None,
            success: false,
            error_message: None,
            additional_data: StrMap::new(),
        }
    }

    /// Metrics of an operation started now.
    pub fn new(operation_name: String) -> (m: Self)
        ensures
            m.operation_name == operation_name,
            m.end_time is None,
            m.duration_ms is None,
            !m.success,
            m.error_message is None,
            m.additional_data.wf(),
            m.additional_data.entries@.len() == 0,
    {
        let now = unix_millis_now();
        Self::new_at(operation_name, now)
    }

    /// The metrics completed at a time: its end, the time since its start
    /// (zero if the end is earlier) and whether it succeeded.
    pub fn complete_at(self, success: bool, end_time: u64) -> (m: Self)
        ensures
            m.end_time == Some(end_time),
            m.duration_ms == Some(if end_time >= self.start_time { (end_time - self.start_time) as u64 } else { 0u64 }),
            m.success == success,
            m.operation_name == self.operation_name,
            m.start_time == self.start_time,
            m.error_message == self.error_message,
            m.additional_data == self.additional_data,
    {
        let duration_ms = end_time.saturating_sub(self.start_time);
        PerformanceMetrics { end_time: Some(end_time), duration_ms: Some(duration_ms), success, ..self }
    }

    /// The metrics completed now.
    pub fn complete(self, success: bool) -> (m: Self)
        ensures
            m.end_time is Some,
            m.duration_ms == Some(if m.end_time->0 >= self.start_time { (m.end_time->0 - self.start_time) as u64 } else { 0u64 }),
            m.success == success,
            m.operation_name == self.operation_name,
            m.start_time == self.start_time,
            m.error_message == self.error_message,
            m.additional_data == self.additional_data,
    {
        let now = unix_millis_now();
        self.complete_at(success, now)
    }

    /// The metrics with a piece of data stored under a key.
    pub fn with_data(self, key: String, value: String) -> (m: Self)
        requires
            self.additional_data.wf(),
        ensures
            m.additional_data.wf(),
            m.additional_data.map() == self.additional_data.map().insert(key@, value),
            m.operation_name == self.operation_name,
            m.start_time == self.start_time,
            m.end_time == self.end_time,
            m.duration_ms == self.duration_ms,
            m.success == self.success,
            m.error_message == self.error_message,
    {
        let mut m = self;
        m.additional_data.insert(key, value);
        m
    }

    /// The metrics with an error message.
    pub fn with_error(self, error_message: String) -> (m: Self)
        ensures
            m.error_message == Some(error_message),
            m.operation_name == self.operation_name,
            m.start_time == self.start_time,
            m.end_time == self.end_time,
            m.duration_ms == self.duration_ms,
            m.success == self.success,
            m.additional_data == self.additional_data,
    {
        PerformanceMetrics { error_message: Some(error_message), ..self }
    }
}

/// The metrics recorded for an operation.
pub open spec fn metrics_named(metrics: Seq<PerformanceMetrics>, name: Seq<char>) -> Seq<PerformanceMetrics> {
    metrics.filter(|m: PerformanceMetrics| m.operation_name@ == name)
}

/// The durations recorded for an operation, in order.
pub open spec fn durations_named(metrics: Seq<PerformanceMetrics>, name: Seq<char>) -> Seq<u64>
    decreases metrics.len(),
{
    if metrics.len() == 0 {
        Seq::empty()
    } else {
        let p = durations_named(metrics.drop_last(), name);
        let m = metrics.last();
        if m.operation_name@ == name && m.duration_ms is Some { p.push(m.duration_ms->0) } else { p }
    }
}

/// The sum of durations.
pub open spec fn total_of(d: Seq<u64>) -> int
    decreases d.len(),
{
    if d.len() == 0 { 0 } else { total_of(d.drop_last()) + d.last() }
}

/// Operation statistics.
#[derive(Debug, Clone, Copy, PartialEq, Eq, Structural)]
pub struct OperationStats {
    pub count: usize,
    pub success_count: usize,
    pub total_duration: u64,
}

impl Default for OperationStats {
    /// Nothing counted.
    fn default() -> (s: Self)
        ensures
            s == (OperationStats { count: 0, success_count: 0, total_duration: 0 }),
    {
        OperationStats { count: 0, success_count: 0, total_duration: 0 }
    }
}

/// Performance monitor for tracking operations: the metrics recorded, in order.
#[derive(Debug, Clone)]
pub struct PerformanceMonitor {
    pub metrics: Vec<PerformanceMetrics>,
}

/// A copy of a map of strings.
fn copy_str_map(m: &StrMap<String>) -> (r: StrMap<String>)
    ensures
        r.entries@ == m.entries@,
{
    let mut entries: Vec<(String, String)> = Vec::new();
    let mut i: usize = 0;
    while i < m.entries.len()
        invariant
            i <= m.entries@.len(),
            entries@ == m.entries@.take(i as int),
        decreases m.entries@.len() - i,
    {
        entries.push((m.entries[i].0.clone(), m.entries[i].1.clone()));
        assert(entries@ =~= m.entries@.take(i + 1));
        i += 1;
    }
    assert(m.entries@.take(i as int) =~= m.entries@);
    StrMap { entries }
}

/// A copy of performance metrics.
pub fn copy_metrics(m: &PerformanceMetrics) -> (r: PerformanceMetrics)
    ensures
        r.operation_name == m.operation_name,
        r.start_time == m.start_time,
        r.end_time == m.end_time,
        r.duration_ms == m.duration_ms,
        r.success == m.success,
        r.error_message == m.error_message,
        r.additional_data.entries@ == m.additional_data.entries@,
{
    PerformanceMetrics {
        operation_name: m.operation_name.clone(),
        start_time: m.start_time,
        end_time: m.end_time,
        duration_ms: m.duration_ms,
        success: m.success,
        error_message: copy_opt_string(&m.error_message),
        additional_data: copy_str_map(&m.additional_data),
    }
}

impl PerformanceMonitor {
    /// A monitor with nothing recorded.
    pub fn new() -> (m: Self)
        ensures
            m.metrics@.len() == 0,
    {
        PerformanceMonitor { metrics: Vec::new() }
    }

    /// Records the metrics of an operation.
    pub fn record_metrics(&mut self, metrics: PerformanceMetrics)
        ensures
            final(self).metrics@ == old(self).metrics@.push(metrics),
    {
        self.metrics.push(metrics);
    }

    /// How many metrics were recorded for an operation.
    pub fn get_operation_count(&self, operation_name: &str) -> (r: usize)
        ensures
            r == metrics_named(self.metrics@, operation_name@).len(),
    {
        let mut count: usize = 0;
        let mut i: usize = 0;
        while i < self.metrics.len()
            invariant
                i <= self.metrics@.len(),
                count == metrics_named(self.metrics@.take(i as int), operation_name@).len(),
                count <= i,
            decreases self.metrics@.len() - i,
        {
            proof {
                reveal(Seq::filter);
                assert(self.metrics@.take(i + 1).drop_last() =~= self.metrics@.take(i as int));
            }
            if str_eq(self.metrics[i].operation_name.as_str(), operation_name) {
                count = count + 1;
            }
            i += 1;
        }
        assert(self.metrics@.take(i as int) =~= self.metrics@);
        count
    }

    /// How many metrics of an operation succeeded, and how many there are
    /// (the success rate is the first over the second).
    pub fn success_counts(&self, operation_name: &str) -> (r: (usize, usize))
        ensures
            r.1 == metrics_named(self.metrics@, operation_name@).len(),
            r.0 == metrics_named(self.metrics@, operation_name@).filter(|m: PerformanceMetrics| m.success).len(),
    {
        let mut total: usize = 0;
        let mut successes: usize = 0;
        let mut i: usize = 0;
        while i < self.metrics.len()
            invariant
                i <= self.metrics@.len(),
                total == metrics_named(self.metrics@.take(i as int), operation_name@).len(),
                successes == metrics_named(self.metrics@.take(i as int), operation_name@).filter(|m: PerformanceMetrics| m.success).len(),
                successes <= total,
                total <= i,
            decreases self.metrics@.len() - i,
        {
            let ghost named = metrics_named(self.metrics@.take(i as int), operation_name@);
            proof {
                reveal(Seq::filter);
                assert(self.metrics@.take(i + 1).drop_last() =~= self.metrics@.take(i as int));
            }
            if str_eq(self.metrics[i].operation_name.as_str(), operation_name) {
                proof {
                    let named2 = metrics_named(self.metrics@.take(i + 1), operation_name@);
                    assert(named2 == named.push(self.metrics@[i as int]));
                    assert(named2.drop_last() =~= named);
                }
                total = total + 1;
                if self.metrics[i].success {
                    successes = successes + 1;
                }
            }
            i += 1;
        }
        assert(self.metrics@.take(i as int) =~= self.metrics@);
        (successes, total)
    }

    /// The average duration of an operation's metrics that have one (the
    /// total over their number, rounded down); `None` where there are none.
    pub fn get_average_duration(&self, operation_name: &str) -> (r: Option<u64>)
        requires
            total_of(durations_named(self.metrics@, operation_name@)) <= u64::MAX,
        ensures
            match r {
                Some(a) => durations_named(self.metrics@, operation_name@).len() > 0
                    && a == total_of(durations_named(self.metrics@, operation_name@))
                        / (durations_named(self.metrics@, operation_name@).len() as int),
                None => durations_named(self.metrics@, operation_name@).len() == 0,
            },
    {
        let ghost all = durations_named(self.metrics@, operation_name@);
        let mut total: u64 = 0;
        let mut count: u64 = 0;
        let mut i: usize = 0;
        while i < self.metrics.len()
            invariant
                i <= self.metrics@.len(),
                all == durations_named(self.metrics@, operation_name@),
                total_of(all) <= u64::MAX,
                total == total_of(durations_named(self.metrics@.take(i as int), operation_name@)),
                count == durations_named(self.metrics@.take(i as int), operation_name@).len(),
                count <= i,
                durations_named(self.metrics@.take(i as int), operation_name@).is_prefix_of(all),
            decreases self.metrics@.len() - i,
        {
            proof {
                assert(self.metrics@.take(i + 1).drop_last() =~= self.metrics@.take(i as int));
                lemma_durations_prefix(self.metrics@, i + 1, operation_name@);
                lemma_total_prefix(all, durations_named(self.metrics@.take(i + 1), operation_name@).len() as int);
            }
            if str_eq(self.metrics[i].operation_name.as_str(), operation_name) {
                match self.metrics[i].duration_ms {
                    Some(d) => {
                        proof {
                            let p = durations_named(self.metrics@.take(i as int), operation_name@);
                            let q = durations_named(self.metrics@.take(i + 1), operation_name@);
                            assert(q == p.push(d));
                            assert(q.drop_last() =~= p);
                            assert(total_of(q) == total_of(p) + d);
                            assert(all.take(q.len() as int) =~= q);
                        }
                        total = total + d;
                        count = count + 1;
                    },
                    None => {},
                }
            }
            i += 1;
        }
        assert(self.metrics@.take(i as int) =~= self.metrics@);
        if count == 0 {
            None
        } else {
            Some(total / count)
        }
    }

    /// Copies of all metrics recorded.
    pub fn get_all_metrics(&self) -> (r: Vec<PerformanceMetrics>)
        ensures
            r@.len() == self.metrics@.len(),
            forall|i: int| 0 <= i < r@.len() ==> (#[trigger] r@[i]).operation_name == self.metrics@[i].operation_name
                && r@[i].start_time == self.metrics@[i].start_time
                && r@[i].end_time == self.metrics@[i].end_time
                && r@[i].duration_ms == self.metrics@[i].duration_ms
                && r@[i].success == self.metrics@[i].success
                && r@[i].error_message == self.metrics@[i].error_message
                && r@[i].additional_data.entries@ == self.metrics@[i].additional_data.entries@,
    {
        let mut r: Vec<PerformanceMetrics> = Vec::new();
        let mut i: usize = 0;
        while i < self.metrics.len()
            invariant
                i <= self.metrics@.len(),
                r@.len() == i,
                forall|k: int| 0 <= k < i ==> (#[trigger] r@[k]).operation_name == self.metrics@[k].operation_name
                    && r@[k].start_time == self.metrics@[k].start_time
                    && r@[k].end_time == self.metrics@[k].end_time
                    && r@[k].duration_ms == self.metrics@[k].duration_ms
                    && r@[k].success == self.metrics@[k].success
                    && r@[k].error_message == self.metrics@[k].error_message
                    && r@[k].additional_data.entries@ == self.metrics@[k].additional_data.entries@,
            decreases self.metrics@.len() - i,
        {
            r.push(copy_metrics(&self.metrics[i]));
            i += 1;
        }
        r
    }

    /// Forgets all metrics.
    pub fn clear_metrics(&mut self)
        ensures
            final(self).metrics@.len() == 0,
    {
        self.metrics = Vec::new();
    }
}

proof fn lemma_durations_prefix(metrics: Seq<PerformanceMetrics>, i: int, name: Seq<char>)
    requires
        0 <= i <= metrics.len(),
    ensures
        durations_named(metrics.take(i), name).is_prefix_of(durations_named(metrics, name)),
    decreases metrics.len(),
{
    if i == metrics.len() {
        assert(metrics.take(i) =~= metrics);
    } else {
        assert(metrics.drop_last().take(i) =~= metrics.take(i));
        lemma_durations_prefix(metrics.drop_last(), i, name);
    }
}

proof fn lemma_total_prefix(d: Seq<u64>, k: int)
    requires
        0 <= k <= d.len(),
    ensures
        total_of(d.take(k)) <= total_of(d),
    decreases d.len(),
{
    if k == d.len() {
        assert(d.take(k) =~= d);
    } else {
        assert(d.drop_last().take(k) =~= d.take(k));
        lemma_total_prefix(d.drop_last(), k);
    }
}

/// Times an operation from its creation; when the holder is done with it,
/// `finish` records the operation as a success.
#[derive(Debug)]
pub struct PerformanceTracker {
    pub operation_name: String,
    pub start_time: std::time::Instant,
    pub additional_data: StrMap<String>,
}

impl PerformanceTracker {
    /// A tracker of an operation, started now, without data.
    pub fn new(operation_name: String) -> (t: Self)
        ensures
            t.operation_name == operation_name,
            t.additional_data.wf(),
            t.additional_data.entries@.len() == 0,
    {
        PerformanceTracker {
            operation_name,
            start_time: crate::timeutil::instant_now(),
            additional_data: StrMap::new(),
        }
    }

    /// Stores a piece of data under a key.
    pub fn add_data(&mut self, key: String, value: String)
        requires
            old(self).additional_data.wf(),
        ensures
            final(self).additional_data.wf(),
            final(self).additional_data.map() == old(self).additional_data.map().insert(key@, value),
            final(self).operation_name == old(self).operation_name,
    {
        self.additional_data.insert(key, value);
    }

    /// Records the tracked operation in a monitor: a success, completed now,
    /// with the data `tracker` set to `true` and then the tracker's own data
    /// added over it.
    pub fn finish(&self, monitor: &mut PerformanceMonitor)
        ensures
            final(monitor).metrics@.len() == old(monitor).metrics@.len() + 1,
            final(monitor).metrics@.drop_last() == old(monitor).metrics@,
            final(monitor).metrics@.last().operation_name == self.operation_name,
            final(monitor).metrics@.last().success,
            final(monitor).metrics@.last().end_time is Some,
            final(monitor).metrics@.last().duration_ms is Some,
            final(monitor).metrics@.last().error_message is None,
            final(monitor).metrics@.last().additional_data.wf(),
            final(monitor).metrics@.last().additional_data.map().dom()
                == self.additional_data.map().dom().insert("tracker"@),
            forall|k: Seq<char>| #[trigger] self.additional_data.map().contains_key(k)
                ==> final(monitor).metrics@.last().additional_data.map()[k] == self.additional_data.map()[k],
            !self.additional_data.map().contains_key("tracker"@)
                ==> final(monitor).metrics@.last().additional_data.map()["tracker"@]@ == "true"@,
    {
        let m = PerformanceMetrics::new(self.operation_name.clone()).complete(true);
        assert(m.additional_data.map() =~= Map::<Seq<char>, String>::empty());
        let mut m = m.with_data("tracker".to_string(), "true".to_string());
        let ghost base = m.additional_data.map();
        let ghost entries = self.additional_data.entries@;
        let mut j: usize = 0;
        assert(entries_map(entries.take(0)) =~= Map::<Seq<char>, String>::empty());
        assert(base.union_prefer_right(entries_map(entries.take(0))) =~= base);
        while j < self.additional_data.entries.len()
            invariant
                j <= entries.len(),
                entries == self.additional_data.entries@,
                base.dom() == set!["tracker"@],
                base["tracker"@]@ == "true"@,
                m.additional_data.wf(),
                m.additional_data.map() == base.union_prefer_right(entries_map(entries.take(j as int))),
                m.operation_name == self.operation_name,
                m.success,
                m.end_time is Some,
                m.duration_ms is Some,
                m.error_message is None,
            decreases entries.len() - j,
        {
            let e = &self.additional_data.entries[j];
            let ghost before = entries_map(entries.take(j as int));
            m = m.with_data(e.0.clone(), e.1.clone());
            proof {
                assert(entries.take(j + 1).drop_last() =~= entries.take(j as int));
                assert(entries.take(j + 1).last() == entries[j as int]);
                assert(entries_map(entries.take(j + 1)) == before.insert(e.0@, e.1));
                assert(base.union_prefer_right(before).insert(e.0@, e.1)
                    =~= base.union_prefer_right(before.insert(e.0@, e.1)));
            }
            j += 1;
        }
        assert(entries.take(j as int) =~= entries);
        let ghost fm = m.additional_data.map();
        assert(fm.dom() =~= self.additional_data.map().dom().insert("tracker"@));
        monitor.record_metrics(m);
        assert(monitor.metrics@.drop_last() =~= old(monitor).metrics@);
    }
}

} // verus!
