//! Throttled reporting and retry gating of recovery targets that could not
//! be reached. Times are milliseconds on one monotonic clock.

use vstd::prelude::*;

use super::retry::{retry_delay, retry_delay_seconds};
use crate::text::same_text;

verus! {

/// Milliseconds between two reports of the same unchanged failure.
pub const REPEAT_REPORT_INTERVAL_MS: u64 = 60_000;

/// A failure that must be logged, with the number of identical failures
/// suppressed since the last report.
#[derive(Clone, Debug, PartialEq, Eq)]
pub struct UnavailableTargetReport {
    pub error: String,
    pub suppressed: u64,
}

/// The abstract value of a report.
pub struct ReportView {
    pub error: Seq<char>,
    pub suppressed: u64,
}

impl View for UnavailableTargetReport {
    type V = ReportView;

    open spec fn view(&self) -> ReportView {
        ReportView { error: self.error@, suppressed: self.suppressed }
    }
}

/// What is remembered of one target's failures.
pub struct TargetFailure {
    error: String,
    suppressed: u64,
    next_report_at: u64,
    failure_count: i64,
    next_retry_at: u64,
}

/// The abstract value of a target's failure record.
pub struct FailureView {
    pub error: Seq<char>,
    pub suppressed: u64,
    pub next_report_at: u64,
    pub failure_count: i64,
    pub next_retry_at: u64,
}

impl View for TargetFailure {
    type V = FailureView;

    closed spec fn view(&self) -> FailureView {
        FailureView {
            error: self.error@,
            suppressed: self.suppressed,
            next_report_at: self.next_report_at,
            failure_count: self.failure_count,
            next_retry_at: self.next_retry_at,
        }
    }
}

/// `now + delta`, or `now` when the sum does not fit.
pub open spec fn later(now: u64, delta: int) -> u64 {
    if now + delta <= u64::MAX {
        (now + delta) as u64
    } else {
        now
    }
}

/// When the next report of an unchanged failure is due.
pub open spec fn report_at(now: u64) -> u64 {
    later(now, REPEAT_REPORT_INTERVAL_MS as int)
}

/// When a target may next be retried after `failure_count` failures.
pub open spec fn retry_at(now: u64, failure_count: i64) -> u64 {
    later(now, retry_delay(failure_count as int) as int * 1000)
}

/// The record of a first (or changed) failure.
pub open spec fn fresh_failure(error: Seq<char>, now: u64) -> FailureView {
    FailureView {
        error,
        suppressed: 0,
        next_report_at: report_at(now),
        failure_count: 1,
        next_retry_at: retry_at(now, 1),
    }
}

/// `x + 1`, saturating.
pub open spec fn bump_i64(x: i64) -> i64 {
    if x < i64::MAX { (x + 1) as i64 } else { x }
}

/// `x + 1`, saturating.
pub open spec fn bump_u64(x: u64) -> u64 {
    if x < u64::MAX { (x + 1) as u64 } else { x }
}

/// The new record of a target and the report to log, when `error` happens
/// at `now` and `prev` is what was remembered.
pub open spec fn failure_outcome(prev: Option<FailureView>, error: Seq<char>, now: u64) -> (FailureView, Option<ReportView>) {
    match prev {
        None => (fresh_failure(error, now), Some(ReportView { error, suppressed: 0 })),
        Some(f) => if f.error != error {
            (fresh_failure(error, now), Some(ReportView { error, suppressed: 0 }))
        } else {
            let count = bump_i64(f.failure_count);
            let retry = retry_at(now, count);
            if now < f.next_report_at {
                (
                    FailureView {
                        suppressed: bump_u64(f.suppressed),
                        failure_count: count,
                        next_retry_at: retry,
                        ..f
                    },
                    None,
                )
            } else {
                (
                    FailureView {
                        suppressed: 0,
                        next_report_at: report_at(now),
                        failure_count: count,
                        next_retry_at: retry,
                        ..f
                    },
                    Some(ReportView { error, suppressed: f.suppressed }),
                )
            }
        },
    }
}

/// Whether a target with remembered failure `f` may be retried at `now`.
pub open spec fn due(f: Option<FailureView>, now: u64) -> bool {
    match f {
        None => true,
        Some(f) => now >= f.next_retry_at,
    }
}

/// The entries of the log, abstractly.
pub open spec fn entries_view(v: Seq<(String, TargetFailure)>) -> Seq<(Seq<char>, FailureView)> {
    v.map_values(|e: (String, TargetFailure)| (e.0@, e.1@))
}

/// The record of `t` among `es`: its latest entry.
pub open spec fn find_entry(es: Seq<(Seq<char>, FailureView)>, t: Seq<char>) -> Option<FailureView>
    decreases es.len(),
{
    if es.len() == 0 {
        None
    } else if es.last().0 == t {
        Some(es.last().1)
    } else {
        find_entry(es.drop_last(), t)
    }
}

/// The entries of `es` whose target satisfies `keep`, in order.
pub open spec fn keep_entries(es: Seq<(Seq<char>, FailureView)>, keep: spec_fn(Seq<char>) -> bool) -> Seq<(Seq<char>, FailureView)>
    decreases es.len(),
{
    if es.len() == 0 {
        seq![]
    } else if keep(es.last().0) {
        keep_entries(es.drop_last(), keep).push(es.last())
    } else {
        keep_entries(es.drop_last(), keep)
    }
}

proof fn lemma_find_kept(es: Seq<(Seq<char>, FailureView)>, keep: spec_fn(Seq<char>) -> bool, t: Seq<char>)
    ensures
        find_entry(keep_entries(es, keep), t) == if keep(t) {
            find_entry(es, t)
        } else {
            None
        },
    decreases es.len(),
{
    if es.len() > 0 {
        lemma_find_kept(es.drop_last(), keep, t);
        if keep(es.last().0) {
            assert(keep_entries(es, keep).drop_last() =~= keep_entries(es.drop_last(), keep));
        }
    }
}

proof fn lemma_find_updated(es: Seq<(Seq<char>, FailureView)>, i: int, f: FailureView, t: Seq<char>)
    requires
        0 <= i < es.len(),
        forall|j: int| i < j < es.len() ==> (#[trigger] es[j]).0 != es[i].0,
    ensures
        find_entry(es.update(i, (es[i].0, f)), t) == if t == es[i].0 {
            Some(f)
        } else {
            find_entry(es, t)
        },
    decreases es.len(),
{
    let u = es.update(i, (es[i].0, f));
    if i == es.len() - 1 {
        assert(u.drop_last() =~= es.drop_last());
    } else {
        assert(u.drop_last() =~= es.drop_last().update(i, (es[i].0, f)));
        lemma_find_updated(es.drop_last(), i, f, t);
    }
}

proof fn lemma_find_absent(es: Seq<(Seq<char>, FailureView)>, t: Seq<char>)
    requires
        forall|j: int| 0 <= j < es.len() ==> (#[trigger] es[j]).0 != t,
    ensures
        find_entry(es, t) is None,
    decreases es.len(),
{
    if es.len() > 0 {
        lemma_find_absent(es.drop_last(), t);
    }
}

proof fn lemma_find_pushed(es: Seq<(Seq<char>, FailureView)>, e: (Seq<char>, FailureView), t: Seq<char>)
    ensures
        find_entry(es.push(e), t) == if t == e.0 {
            Some(e.1)
        } else {
            find_entry(es, t)
        },
{
    assert(es.push(e).drop_last() =~= es);
}

/// When an unchanged failure at `now` may next be reported.
pub fn next_report_at(now: u64) -> (r: u64)
    ensures
        r == report_at(now),
{
    match now.checked_add(REPEAT_REPORT_INTERVAL_MS) {
        Some(t) => t,
        None => now,
    }
}

/// When a target that failed `failure_count` times, last at `now`, may be
/// retried.
pub fn next_retry_at(now: u64, failure_count: i64) -> (r: u64)
    ensures
        r == retry_at(now, failure_count),
{
    let delay = retry_delay_seconds(failure_count) as u64 * 1000;
    match now.checked_add(delay) {
        Some(t) => t,
        None => now,
    }
}

impl TargetFailure {
    /// The record of a failure seen for the first time at `now`.
    pub fn new(error: &str, now: u64) -> (r: Self)
        ensures
            r@ == fresh_failure(error@, now),
    {
        TargetFailure {
            error: error.to_owned(),
            suppressed: 0,
            next_report_at: next_report_at(now),
            failure_count: 1,
            next_retry_at: next_retry_at(now, 1),
        }
    }
}

impl UnavailableTargetReport {
    /// The report of a failure logged at once, with nothing suppressed.
    pub fn immediate(error: &str) -> (r: Self)
        ensures
            r@ == (ReportView { error: error@, suppressed: 0 }),
    {
        UnavailableTargetReport { error: error.to_owned(), suppressed: 0 }
    }
}

/// Failure records of the targets that recovery could not reach.
pub struct UnavailableTargetLogState {
    targets: Vec<(String, TargetFailure)>,
}

impl UnavailableTargetLogState {
    /// The remembered failure of target `t`, if any.
    pub closed spec fn failure(&self, t: Seq<char>) -> Option<FailureView> {
        find_entry(entries_view(self.targets@), t)
    }

    /// A log that remembers no failure.
    pub fn new() -> (r: Self)
        ensures
            forall|t: Seq<char>| r.failure(t) is None,
    {
        let r = UnavailableTargetLogState { targets: Vec::new() };
        assert forall|t: Seq<char>| r.failure(t) is None by {
            assert(entries_view(r.targets@).len() == 0);
        }
        r
    }

    /// Index of the latest entry of `target`.
    fn position(&self, target: &str) -> (r: Option<usize>)
        ensures
            match r {
                Some(i) => i < self.targets.len() && self.targets@[i as int].0@ == target@
                    && forall|j: int| i < j < self.targets.len() ==> (#[trigger] self.targets@[j]).0@ != target@,
                None => forall|j: int| 0 <= j < self.targets.len() ==> (#[trigger] self.targets@[j]).0@ != target@,
            },
    {
        let mut i: usize = self.targets.len();
        while i > 0
            invariant
                i <= self.targets.len(),
                forall|j: int| i <= j < self.targets.len() ==> (#[trigger] self.targets@[j]).0@ != target@,
            decreases i,
        {
            if same_text(self.targets[i - 1].0.as_str(), target) {
                return Some(i - 1);
            }
            i = i - 1;
        }
        None
    }

    /// Whether `target` may be retried at `now`: always when no failure is
    /// remembered, otherwise once its retry time has come.
    pub fn retry_due(&self, target: &str, now: u64) -> (r: bool)
        ensures
            r == due(self.failure(target@), now),
    {
        let ghost es = entries_view(self.targets@);
        match self.position(target) {
            None => {
                proof {
                    assert forall|j: int| 0 <= j < es.len() implies (#[trigger] es[j]).0 != target@ by {
                        assert(es[j].0 == self.targets@[j].0@);
                    }
                    lemma_find_absent(es, target@);
                }
                true
            },
            Some(i) => {
                proof {
                    assert forall|j: int| i < j < es.len() implies (#[trigger] es[j]).0 != es[i as int].0 by {
                        assert(es[j].0 == self.targets@[j].0@);
                    }
                    lemma_find_updated(es, i as int, es[i as int].1, target@);
                    assert(es.update(i as int, (es[i as int].0, es[i as int].1)) =~= es);
                }
                now >= self.targets[i].1.next_retry_at
            },
        }
    }

    /// Records that `target` failed with `error` at `now`, and says what to
    /// log: a first or changed failure at once, an unchanged one at most once
    /// per report interval, with the count of those suppressed meanwhile.
    pub fn on_failure(&mut self, target: &str, error: &str, now: u64) -> (r: Option<UnavailableTargetReport>)
        ensures
            final(self).failure(target@) == Some(failure_outcome(old(self).failure(target@), error@, now).0),
            forall|t: Seq<char>| t != target@ ==> final(self).failure(t) == old(self).failure(t),
            match r {
                Some(rep) => failure_outcome(old(self).failure(target@), error@, now).1 == Some(rep@),
                None => failure_outcome(old(self).failure(target@), error@, now).1 is None,
            },
    {
        let ghost es = entries_view(self.targets@);
        match self.position(target) {
            None => {
                proof {
                    assert forall|j: int| 0 <= j < es.len() implies (#[trigger] es[j]).0 != target@ by {
                        assert(es[j].0 == self.targets@[j].0@);
                    }
                    lemma_find_absent(es, target@);
                }
                let fresh = TargetFailure::new(error, now);
                self.targets.push((target.to_owned(), fresh));
                proof {
                    assert(entries_view(self.targets@) =~= es.push((target@, fresh@)));
                    assert forall|t: Seq<char>| true implies find_entry(entries_view(self.targets@), t) == if t == target@ {
                        Some(fresh@)
                    } else {
                        find_entry(es, t)
                    } by {
                        lemma_find_pushed(es, (target@, fresh@), t);
                    }
                }
                Some(UnavailableTargetReport::immediate(error))
            },
            Some(i) => {
                proof {
                    assert forall|j: int| i < j < es.len() implies (#[trigger] es[j]).0 != es[i as int].0 by {
                        assert(es[j].0 == self.targets@[j].0@);
                    }
                    lemma_find_updated(es, i as int, es[i as int].1, target@);
                    assert(es.update(i as int, (es[i as int].0, es[i as int].1)) =~= es);
                }
                let prev = &self.targets[i].1;
                let ghost prev_view = prev@;
                let key = self.targets[i].0.clone();
                let (record, report) = if !same_text(prev.error.as_str(), error) {
                    (TargetFailure::new(error, now), Some(UnavailableTargetReport::immediate(error)))
                } else {
                    let count = if prev.failure_count < i64::MAX {
                        prev.failure_count + 1
                    } else {
                        prev.failure_count
                    };
                    let retry = next_retry_at(now, count);
                    if now < prev.next_report_at {
                        let suppressed = if prev.suppressed < u64::MAX {
                            prev.suppressed + 1
                        } else {
                            prev.suppressed
                        };
                        (
                            TargetFailure {
                                error: prev.error.clone(),
                                suppressed,
                                next_report_at: prev.next_report_at,
                                failure_count: count,
                                next_retry_at: retry,
                            },
                            None,
                        )
                    } else {
                        let report = UnavailableTargetReport {
                            error: error.to_owned(),
                            suppressed: prev.suppressed,
                        };
                        (
                            TargetFailure {
                                error: prev.error.clone(),
                                suppressed: 0,
                                next_report_at: next_report_at(now),
                                failure_count: count,
                                next_retry_at: retry,
                            },
                            Some(report),
                        )
                    }
                };
                let ghost rec = record@;
                self.targets.set(i, (key, record));
                proof {
                    assert(entries_view(self.targets@) =~= es.update(i as int, (es[i as int].0, rec)));
                    assert forall|t: Seq<char>| true implies find_entry(entries_view(self.targets@), t) == if t == target@ {
                        Some(rec)
                    } else {
                        find_entry(es, t)
                    } by {
                        lemma_find_updated(es, i as int, rec, t);
                    }
                }
                report
            },
        }
    }

    /// Forgets the failures of `target`, which was reconciled.
    pub fn on_success(&mut self, target: &str)
        ensures
            final(self).failure(target@) is None,
            forall|t: Seq<char>| t != target@ ==> final(self).failure(t) == old(self).failure(t),
    {
        let ghost keep = |t: Seq<char>| t != target@;
        self.keep_where(target, false, &[], Ghost(keep));
    }

    /// Forgets the failures of every target not in `active_targets`.
    pub fn retain_targets(&mut self, active_targets: &[String])
        ensures
            forall|t: Seq<char>| final(self).failure(t) == if listed(active_targets@, t) {
                old(self).failure(t)
            } else {
                None
            },
    {
        let ghost keep = |t: Seq<char>| listed(active_targets@, t);
        self.keep_where("", true, active_targets, Ghost(keep));
    }

    fn keep_where(&mut self, drop: &str, by_list: bool, active: &[String], Ghost(keep): Ghost<spec_fn(Seq<char>) -> bool>)
        requires
            by_list ==> forall|t: Seq<char>| #[trigger] keep(t) == listed(active@, t),
            !by_list ==> forall|t: Seq<char>| #[trigger] keep(t) == (t != drop@),
        ensures
            forall|t: Seq<char>| final(self).failure(t) == if keep(t) {
                old(self).failure(t)
            } else {
                None
            },
    {
        let ghost es = entries_view(self.targets@);
        let mut kept: Vec<(String, TargetFailure)> = Vec::new();
        let mut i: usize = 0;
        while i < self.targets.len()
            invariant
                i <= self.targets.len(),
                es == entries_view(self.targets@),
                entries_view(kept@) == keep_entries(es.take(i as int), keep),
                by_list ==> forall|t: Seq<char>| #[trigger] keep(t) == listed(active@, t),
                !by_list ==> forall|t: Seq<char>| #[trigger] keep(t) == (t != drop@),
            decreases self.targets.len() - i,
        {
            let name = &self.targets[i].0;
            let wanted = if by_list {
                is_listed(active, name.as_str())
            } else {
                !same_text(name.as_str(), drop)
            };
            proof {
                assert(es.take(i + 1).drop_last() =~= es.take(i as int));
                assert(es.take(i + 1).last() == es[i as int]);
                assert(es[i as int].0 == name@);
            }
            if wanted {
                let entry = self.targets[i].0.clone();
                let record = TargetFailure {
                    error: self.targets[i].1.error.clone(),
                    suppressed: self.targets[i].1.suppressed,
                    next_report_at: self.targets[i].1.next_report_at,
                    failure_count: self.targets[i].1.failure_count,
                    next_retry_at: self.targets[i].1.next_retry_at,
                };
                let ghost before = kept@;
                kept.push((entry, record));
                proof {
                    assert(entries_view(kept@) =~= entries_view(before).push(es[i as int]));
                }
            }
            i = i + 1;
        }
        proof {
            assert(es.take(es.len() as int) =~= es);
            assert forall|t: Seq<char>| true implies find_entry(entries_view(kept@), t) == if keep(t) {
                find_entry(es, t)
            } else {
                None
            } by {
                lemma_find_kept(es, keep, t);
            }
        }
        self.targets = kept;
    }
}

impl Default for UnavailableTargetLogState {
    fn default() -> (r: Self)
        ensures
            forall|t: Seq<char>| r.failure(t) is None,
    {
        Self::new()
    }
}

/// A target whose failures are forgotten may be retried at once.
pub proof fn law_forgotten_target_is_due(now: u64)
    ensures
        due(None, now),
{
}

/// The first failure of a target, and a failure whose message changed, are
/// reported at once with nothing suppressed.
pub proof fn law_first_or_changed_failure_is_reported(prev: Option<FailureView>, error: Seq<char>, now: u64)
    requires
        prev matches Some(f) ==> f.error != error,
    ensures
        failure_outcome(prev, error, now).1 == Some(ReportView { error, suppressed: 0 }),
        failure_outcome(prev, error, now).0 == fresh_failure(error, now),
{
}

/// A repeated failure inside the report interval is not reported; it is
/// counted as suppressed instead.
pub proof fn law_repeat_inside_interval_is_suppressed(f: FailureView, now: u64)
    requires
        now < f.next_report_at,
    ensures
        failure_outcome(Some(f), f.error, now).1 is None,
        failure_outcome(Some(f), f.error, now).0.suppressed == bump_u64(f.suppressed),
{
}

/// Once the interval has passed, a repeated failure is reported with the
/// number suppressed since the last report, and the count starts over.
pub proof fn law_repeat_after_interval_carries_suppressed(f: FailureView, now: u64)
    requires
        now >= f.next_report_at,
    ensures
        failure_outcome(Some(f), f.error, now).1 == Some(ReportView { error: f.error, suppressed: f.suppressed }),
        failure_outcome(Some(f), f.error, now).0.suppressed == 0,
        failure_outcome(Some(f), f.error, now).0.next_report_at == report_at(now),
{
}

/// After a failure at `now`, the target is not retried before the backoff
/// for its failure count has elapsed, and is retried once it has.
pub proof fn law_failure_defers_retry(prev: Option<FailureView>, error: Seq<char>, now: u64, later_now: u64)
    requires
        now + 900_000 <= u64::MAX,
    ensures
        due(Some(failure_outcome(prev, error, now).0), later_now) <==> later_now >= now + retry_delay(
            failure_outcome(prev, error, now).0.failure_count as int,
        ) * 1000,
{
    let c = failure_outcome(prev, error, now).0.failure_count as int;
    assert(retry_delay(c) <= 900);
}

/// `t` is one of `names`.
pub open spec fn listed(names: Seq<String>, t: Seq<char>) -> bool {
    exists|j: int| 0 <= j < names.len() && (#[trigger] names[j])@ == t
}

fn is_listed(names: &[String], t: &str) -> (r: bool)
    ensures
        r == listed(names@, t@),
{
    let mut j: usize = 0;
    while j < names.len()
        invariant
            j <= names.len(),
            forall|k: int| 0 <= k < j ==> (#[trigger] names@[k])@ != t@,
        decreases names.len() - j,
    {
        if same_text(names[j].as_str(), t) {
            return true;
        }
        j = j + 1;
    }
    false
}

} // verus!
