//! Anomaly Alert Store: classifies anomaly scores by severity and retains
//! a bounded, order-preserving history of alerts.
//!
//! The store holds at most its configured capacity; once full, each new
//! alert evicts the single oldest one (strict FIFO over insertion order).
//! Alerts are immutable once created: the priority is computed from the
//! score at ingestion and frozen.

use vstd::prelude::*;
use crate::qvl::{AnomalyReason, AnomalyScore};
use crate::seq_util::lemma_filter_push;

verus! {

/// Scores at or above this (in thousandths) are Critical.
pub const CRITICAL_THRESHOLD: u64 = 900;

/// Scores at or above this (in thousandths), but below
/// `CRITICAL_THRESHOLD`, are Warning.
pub const WARNING_THRESHOLD: u64 = 700;

/// Capacity of a store made with `new`.
pub const DEFAULT_MAX_ALERTS: usize = 1000;

/// Alert severity tier. Critical is the most severe; severity is ordered
/// by the explicit rank below, not by any derived ordering.
#[derive(Debug, Clone, Copy, PartialEq, Eq, Structural)]
pub enum AlertPriority {
    /// Immediate action required (score at or above 0.9).
    Critical,
    /// Investigate soon (score at or above 0.7).
    Warning,
    /// Monitor (any lower score).
    Info,
}

impl AlertPriority {
    /// Severity rank: a lower rank is more severe.
    pub open spec fn spec_rank(self) -> int {
        match self {
            AlertPriority::Critical => 0,
            AlertPriority::Warning => 1,
            AlertPriority::Info => 2,
        }
    }

    /// Severity rank as a machine integer.
    pub fn rank(self) -> (r: u8)
        ensures
            r as int == self.spec_rank(),
    {
        match self {
            AlertPriority::Critical => 0,
            AlertPriority::Warning => 1,
            AlertPriority::Info => 2,
        }
    }

    /// Whether this priority is at least as severe as `min`.
    pub open spec fn spec_at_least(self, min: AlertPriority) -> bool {
        self.spec_rank() <= min.spec_rank()
    }

    /// Whether this priority is at least as severe as `min`.
    pub fn at_least(self, min: AlertPriority) -> (r: bool)
        ensures
            r == self.spec_at_least(min),
    {
        self.rank() <= min.rank()
    }
}

/// The severity tier owed to a score: at or above 0.9 Critical, at or
/// above 0.7 Warning, anything lower Info.
pub open spec fn spec_classify(score: u64) -> AlertPriority {
    if score >= CRITICAL_THRESHOLD {
        AlertPriority::Critical
    } else if score >= WARNING_THRESHOLD {
        AlertPriority::Warning
    } else {
        AlertPriority::Info
    }
}

/// Classify a score (in thousandths) into its severity tier.
pub fn classify(score: u64) -> (p: AlertPriority)
    ensures
        p == spec_classify(score),
{
    if score >= CRITICAL_THRESHOLD {
        AlertPriority::Critical
    } else if score >= WARNING_THRESHOLD {
        AlertPriority::Warning
    } else {
        AlertPriority::Info
    }
}

/// For every score, each tier is assigned exactly on its own band:
/// Critical on scores at or above the critical threshold, Warning on the
/// band between the two thresholds, Info strictly below the warning
/// threshold.
pub proof fn lemma_classify_bands(score: u64)
    ensures
        spec_classify(score) == AlertPriority::Critical <==> score >= CRITICAL_THRESHOLD,
        spec_classify(score) == AlertPriority::Warning
            <==> WARNING_THRESHOLD <= score < CRITICAL_THRESHOLD,
        spec_classify(score) == AlertPriority::Info <==> score < WARNING_THRESHOLD,
{
}

/// One security alert: an anomaly score frozen at ingestion time together
/// with the priority computed from it.
#[derive(Debug, Clone, Copy, PartialEq, Eq, Structural)]
pub struct Alert {
    /// Ingestion time, in milliseconds since the Unix epoch.
    pub timestamp_millis: i64,
    pub priority: AlertPriority,
    pub node: u32,
    /// The anomaly score, in thousandths.
    pub score: u64,
    pub reason: AnomalyReason,
}

impl Alert {
    /// The alert derived from an anomaly at a given ingestion time.
    pub open spec fn spec_from_anomaly(anomaly: AnomalyScore, timestamp_millis: i64) -> Alert {
        Alert {
            timestamp_millis,
            priority: spec_classify(anomaly.score),
            node: anomaly.node,
            score: anomaly.score,
            reason: anomaly.reason,
        }
    }

    /// Derive an alert from an anomaly score, timestamped now. Everything
    /// but the timestamp is a pure function of the anomaly.
    pub fn from_anomaly(anomaly: AnomalyScore) -> (a: Alert)
        ensures
            a == Alert::spec_from_anomaly(anomaly, a.timestamp_millis),
    {
        let ts: i64 = now_timestamp_millis();
        Alert {
            timestamp_millis: ts,
            priority: classify(anomaly.score),
            node: anomaly.node,
            score: anomaly.score,
            reason: anomaly.reason,
        }
    }
}

/// Relies on chrono::Utc::now: the current wall-clock time, read as
/// milliseconds since the Unix epoch. The value depends on the clock, so
/// nothing is promised of it.
#[verifier::external_body]
fn now_timestamp_millis() -> i64 {
    chrono::Utc::now().timestamp_millis()
}

/// The alerts satisfying exactly the given priority.
pub open spec fn has_priority(p: AlertPriority) -> spec_fn(Alert) -> bool {
    |a: Alert| a.priority == p
}

/// The alerts at least as severe as the given priority.
pub open spec fn at_least_priority(min: AlertPriority) -> spec_fn(Alert) -> bool {
    |a: Alert| a.priority.spec_at_least(min)
}

/// The alerts that are Critical or Warning.
pub open spec fn critical_or_warning() -> spec_fn(Alert) -> bool {
    |a: Alert| a.priority == AlertPriority::Critical || a.priority == AlertPriority::Warning
}

/// What one emission does to the retained history: append the alert, after
/// evicting the oldest entry when the store is full.
pub open spec fn spec_emit(s: Seq<Alert>, cap: int, a: Alert) -> Seq<Alert> {
    if s.len() >= cap {
        s.drop_first().push(a)
    } else {
        s.push(a)
    }
}

/// The history left after emitting each of `incoming` in order, starting
/// from `s`.
pub open spec fn spec_emit_all(s: Seq<Alert>, cap: int, incoming: Seq<Alert>) -> Seq<Alert>
    decreases incoming.len(),
{
    if incoming.len() == 0 {
        s
    } else {
        spec_emit_all(spec_emit(s, cap, incoming.first()), cap, incoming.drop_first())
    }
}

/// Bounded, order-preserving store of security alerts.
pub struct AnomalyAlertSystem {
    alerts: Vec<Alert>,
    max_alerts: usize,
}

impl View for AnomalyAlertSystem {
    type V = Seq<Alert>;

    /// The retained alerts, oldest first.
    closed spec fn view(&self) -> Seq<Alert> {
        self.alerts@
    }
}

impl AnomalyAlertSystem {
    /// The configured capacity.
    pub closed spec fn spec_capacity(self) -> usize {
        self.max_alerts
    }

    /// The store is within its capacity bound, and the bound is positive.
    pub open spec fn wf(self) -> bool {
        &&& self@.len() <= self.spec_capacity()
        &&& self.spec_capacity() >= 1
    }

    /// Create an empty store with the default capacity.
    pub fn new() -> (r: AnomalyAlertSystem)
        ensures
            r@ == Seq::<Alert>::empty(),
            r.spec_capacity() == DEFAULT_MAX_ALERTS,
            r.wf(),
    {
        AnomalyAlertSystem { alerts: Vec::new(), max_alerts: DEFAULT_MAX_ALERTS }
    }

    /// Create an empty store with a custom capacity.
    pub fn with_capacity(max_alerts: usize) -> (r: AnomalyAlertSystem)
        requires
            max_alerts >= 1,
        ensures
            r@ == Seq::<Alert>::empty(),
            r.spec_capacity() == max_alerts,
            r.wf(),
    {
        AnomalyAlertSystem { alerts: Vec::with_capacity(max_alerts), max_alerts }
    }

    /// Classify an anomaly, timestamp it, and retain the resulting alert,
    /// evicting the single oldest alert when the store is at capacity.
    /// Returns the stored alert.
    pub fn emit(&mut self, anomaly: AnomalyScore) -> (r: Alert)
        requires
            old(self).wf(),
        ensures
            final(self).wf(),
            final(self).spec_capacity() == old(self).spec_capacity(),
            r == Alert::spec_from_anomaly(anomaly, r.timestamp_millis),
            final(self)@ == spec_emit(old(self)@, old(self).spec_capacity() as int, r),
    {
        let alert = Alert::from_anomaly(anomaly);
        if self.alerts.len() >= self.max_alerts {
            self.alerts.remove(0);
            proof {
                assert(self.alerts@ =~= old(self)@.drop_first());
            }
        }
        self.alerts.push(alert);
        alert
    }

    /// All Critical alerts, oldest first, as a snapshot.
    pub fn get_critical_alerts(&self) -> (r: Vec<Alert>)
        ensures
            r@ == self@.filter(has_priority(AlertPriority::Critical)),
    {
        let mut out: Vec<Alert> = Vec::new();
        let mut i: usize = 0;
        while i < self.alerts.len()
            invariant
                i <= self.alerts.len(),
                self.alerts@ == self@,
                out@ == self@.take(i as int).filter(has_priority(AlertPriority::Critical)),
            decreases self.alerts.len() - i,
        {
            let a = self.alerts[i];
            proof {
                lemma_filter_push(self@.take(i as int), has_priority(AlertPriority::Critical), a);
                assert(self@.take(i as int).push(a) =~= self@.take(i as int + 1));
            }
            if a.priority == AlertPriority::Critical {
                out.push(a);
            }
            i = i + 1;
        }
        proof {
            assert(self@.take(self@.len() as int) == self@);
        }
        out
    }

    /// All alerts at least as severe as `min_priority`, oldest first, as a
    /// snapshot.
    pub fn get_alerts_above(&self, min_priority: AlertPriority) -> (r: Vec<Alert>)
        ensures
            r@ == self@.filter(at_least_priority(min_priority)),
    {
        let mut out: Vec<Alert> = Vec::new();
        let mut i: usize = 0;
        while i < self.alerts.len()
            invariant
                i <= self.alerts.len(),
                self.alerts@ == self@,
                out@ == self@.take(i as int).filter(at_least_priority(min_priority)),
            decreases self.alerts.len() - i,
        {
            let a = self.alerts[i];
            proof {
                lemma_filter_push(self@.take(i as int), at_least_priority(min_priority), a);
                assert(self@.take(i as int).push(a) =~= self@.take(i as int + 1));
            }
            if a.priority.at_least(min_priority) {
                out.push(a);
            }
            i = i + 1;
        }
        proof {
            assert(self@.take(self@.len() as int) == self@);
        }
        out
    }

    /// How many retained alerts have exactly the given priority.
    pub fn count_by_priority(&self, priority: AlertPriority) -> (r: usize)
        ensures
            r == self@.filter(has_priority(priority)).len(),
    {
        let mut count: usize = 0;
        let mut i: usize = 0;
        while i < self.alerts.len()
            invariant
                i <= self.alerts.len(),
                self.alerts@ == self@,
                count == self@.take(i as int).filter(has_priority(priority)).len(),
                count <= i,
            decreases self.alerts.len() - i,
        {
            let a = self.alerts[i];
            proof {
                lemma_filter_push(self@.take(i as int), has_priority(priority), a);
                assert(self@.take(i as int).push(a) =~= self@.take(i as int + 1));
            }
            if a.priority == priority {
                count = count + 1;
            }
            i = i + 1;
        }
        proof {
            assert(self@.take(self@.len() as int) == self@);
        }
        count
    }

    /// Empty the store; the capacity is kept.
    pub fn clear(&mut self)
        ensures
            final(self)@ == Seq::<Alert>::empty(),
            final(self).spec_capacity() == old(self).spec_capacity(),
            final(self).wf() == (old(self).spec_capacity() >= 1),
    {
        self.alerts.clear();
    }

    /// How many alerts are retained.
    pub fn total_count(&self) -> (r: usize)
        ensures
            r == self@.len(),
    {
        self.alerts.len()
    }
}

impl Default for AnomalyAlertSystem {
    /// The default store is the one `new` creates.
    fn default() -> (r: AnomalyAlertSystem)
        ensures
            r@ == Seq::<Alert>::empty(),
            r.spec_capacity() == DEFAULT_MAX_ALERTS,
            r.wf(),
    {
        AnomalyAlertSystem::new()
    }
}

/// Emitting any sequence of alerts, in any interleaving serialized to the
/// order `incoming`, leaves the store within capacity and holding exactly
/// the most recent alerts: starting from a store `s` within capacity, the
/// result is the last `capacity` elements of `s + incoming` (all of them
/// when fewer), in their original relative order.
pub proof fn lemma_emit_all_window(s: Seq<Alert>, cap: int, incoming: Seq<Alert>)
    requires
        cap >= 1,
        s.len() <= cap,
    ensures
        ({
            let total = s + incoming;
            let kept = if total.len() > cap { cap } else { total.len() as int };
            spec_emit_all(s, cap, incoming) == total.skip(total.len() - kept)
        }),
    decreases incoming.len(),
{
    let total = s + incoming;
    let kept = if total.len() > cap { cap } else { total.len() as int };
    if incoming.len() == 0 {
        assert(total =~= s);
        assert(total.skip(0) =~= total);
    } else {
        let a = incoming.first();
        let rest = incoming.drop_first();
        let s2 = spec_emit(s, cap, a);
        let d: int = if s.len() >= cap { 1 } else { 0 };
        assert(s2 =~= (s + incoming).skip(d).take(s.len() + 1 - d));
        assert(s2.len() == s.len() + 1 - d);
        lemma_emit_all_window(s2, cap, rest);
        let total2 = s2 + rest;
        let kept2 = if total2.len() > cap { cap } else { total2.len() as int };
        assert(total2 =~= total.skip(d));
        assert(total2.skip(total2.len() - kept2) =~= total.skip(total.len() - kept));
    }
}

/// FIFO eviction: after emitting `incoming` into an empty store of
/// capacity `cap`, the retained history is exactly the most recent `cap`
/// alerts (all of them when there are fewer), in their original relative
/// order — the oldest overflow alerts are gone — and the count is the
/// smaller of the number emitted and the capacity.
pub proof fn lemma_fifo_eviction(cap: int, incoming: Seq<Alert>)
    requires
        cap >= 1,
    ensures
        incoming.len() <= cap ==> spec_emit_all(Seq::<Alert>::empty(), cap, incoming) == incoming,
        incoming.len() > cap ==> spec_emit_all(Seq::<Alert>::empty(), cap, incoming)
            == incoming.skip(incoming.len() - cap),
        spec_emit_all(Seq::<Alert>::empty(), cap, incoming).len()
            == if incoming.len() <= cap { incoming.len() as int } else { cap },
{
    lemma_emit_all_window(Seq::<Alert>::empty(), cap, incoming);
    assert(Seq::<Alert>::empty() + incoming =~= incoming);
    if incoming.len() <= cap {
        assert(incoming.skip(0) =~= incoming);
    }
}

/// The alerts at or above Warning are exactly the union of the Critical
/// and the Warning alerts, in store order.
pub proof fn lemma_at_or_above_warning_is_union(alerts: Seq<Alert>)
    ensures
        alerts.filter(at_least_priority(AlertPriority::Warning))
            == alerts.filter(critical_or_warning()),
    decreases alerts.len(),
{
    reveal(Seq::filter);
    if alerts.len() > 0 {
        lemma_at_or_above_warning_is_union(alerts.drop_last());
    }
}

/// Every alert has exactly one priority, so the three per-priority counts
/// always sum to the total count.
pub proof fn lemma_priority_counts_partition(alerts: Seq<Alert>)
    ensures
        alerts.filter(has_priority(AlertPriority::Critical)).len()
            + alerts.filter(has_priority(AlertPriority::Warning)).len()
            + alerts.filter(has_priority(AlertPriority::Info)).len() == alerts.len(),
    decreases alerts.len(),
{
    reveal(Seq::filter);
    if alerts.len() > 0 {
        lemma_priority_counts_partition(alerts.drop_last());
    }
}

} // verus!
