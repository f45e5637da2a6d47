//! The batch coordinator: admits date tasks against a concurrency limit and
//! folds their outcomes into run statistics, each exactly once.
use vstd::prelude::*;
use crate::{DownloadStats, Outcome, ProcessResult};
use crate::date_utils::{Date, format_date, iso_text};

verus! {

/// Number of `true` entries.
pub open spec fn count_true(s: Seq<bool>) -> nat
    decreases s.len(),
{
    if s.len() == 0 {
        0
    } else {
        count_true(s.drop_last()) + if s.last() {
            1nat
        } else {
            0nat
        }
    }
}

proof fn lemma_count_update(s: Seq<bool>, i: int, b: bool)
    requires
        0 <= i < s.len(),
    ensures
        count_true(s.update(i, b)) + (if s[i] {
            1nat
        } else {
            0nat
        }) == count_true(s) + (if b {
            1nat
        } else {
            0nat
        }),
    decreases s.len(),
{
    let t = s.update(i, b);
    if i == s.len() - 1 {
        assert(t.drop_last() =~= s.drop_last());
    } else {
        lemma_count_update(s.drop_last(), i, b);
        assert(t.drop_last() =~= s.drop_last().update(i, b));
    }
}

proof fn lemma_count_push_false(s: Seq<bool>)
    ensures
        count_true(s.push(false)) == count_true(s),
{
    assert(s.push(false).drop_last() =~= s);
}

/// Mathematical picture of a [`BatchRun`].
pub struct BatchView {
    /// `YYYY-MM-DD` text of each date, in admission order.
    pub labels: Seq<Seq<char>>,
    pub max_concurrent: nat,
    /// Index of the next date to admit.
    pub next: nat,
    /// Which dates are admitted and not yet completed.
    pub running: Seq<bool>,
    pub in_flight: nat,
    pub stopped: bool,
    /// Admitted tasks that ended without an outcome.
    pub lost: nat,
    pub total: nat,
    pub succeeded: nat,
    pub failed: nat,
    pub skipped: nat,
    pub failed_dates: Seq<Seq<char>>,
    pub succeeded_dates: Seq<Seq<char>>,
}

/// The coordinator's invariant. Every admitted date is either running or
/// accounted for exactly once, and no more than `max_concurrent` run at once.
pub open spec fn batch_wf(v: BatchView) -> bool {
    &&& v.labels.len() == v.total
    &&& v.running.len() == v.total
    &&& v.next <= v.total
    &&& forall|i: int| v.next <= i < v.total ==> !#[trigger] v.running[i]
    &&& v.in_flight == count_true(v.running)
    &&& 1 <= v.max_concurrent
    &&& v.in_flight <= v.max_concurrent
    &&& v.succeeded + v.failed + v.skipped + v.lost + v.in_flight == v.next
    &&& v.failed_dates.len() == v.failed
    &&& v.succeeded_dates.len() == v.succeeded
}

/// No more work will be admitted and none is running.
pub open spec fn batch_finished(v: BatchView) -> bool {
    (v.stopped || v.next == v.total) && v.in_flight == 0
}

/// Admission: the next date, when the run is not stopped, dates remain and
/// a slot is free.
pub open spec fn start_next_spec(v: BatchView) -> (BatchView, Option<nat>) {
    if !v.stopped && v.next < v.total && v.in_flight < v.max_concurrent {
        (
            BatchView {
                next: v.next + 1,
                running: v.running.update(v.next as int, true),
                in_flight: v.in_flight + 1,
                ..v
            },
            Some(v.next),
        )
    } else {
        (v, None)
    }
}

/// Completion of running task `i` with outcome `o`: its slot is released and
/// the outcome is folded into the statistics once.
pub open spec fn complete_spec(v: BatchView, i: nat, o: Outcome) -> BatchView {
    let released = BatchView {
        running: v.running.update(i as int, false),
        in_flight: (v.in_flight - 1) as nat,
        ..v
    };
    match o {
        Outcome::Downloaded(_) => BatchView {
            succeeded: v.succeeded + 1,
            succeeded_dates: v.succeeded_dates.push(v.labels[i as int]),
            ..released
        },
        Outcome::AlreadyExists(_) => BatchView { skipped: v.skipped + 1, ..released },
        Outcome::Failed(_) => BatchView {
            failed: v.failed + 1,
            failed_dates: v.failed_dates.push(v.labels[i as int]),
            ..released
        },
    }
}

/// Bounded admission of date tasks and aggregation of their outcomes.
///
/// A slot is taken by [`BatchRun::admit`] before a task starts and given back
/// by [`BatchRun::complete`] only once the task, metadata repair included,
/// is over.
pub struct BatchRun {
    labels: Vec<String>,
    max_concurrent: usize,
    next: usize,
    running: Vec<bool>,
    in_flight: usize,
    stopped: bool,
    lost: usize,
    stats: DownloadStats,
}

impl View for BatchRun {
    type V = BatchView;

    closed spec fn view(&self) -> BatchView {
        BatchView {
            labels: self.labels@.map_values(|s: String| s@),
            max_concurrent: self.max_concurrent as nat,
            next: self.next as nat,
            running: self.running@,
            in_flight: self.in_flight as nat,
            stopped: self.stopped,
            lost: self.lost as nat,
            total: self.stats.total as nat,
            succeeded: self.stats.succeeded as nat,
            failed: self.stats.failed as nat,
            skipped: self.stats.skipped as nat,
            failed_dates: self.stats.failed_dates@.map_values(|s: String| s@),
            succeeded_dates: self.stats.succeeded_dates@.map_values(|s: String| s@),
        }
    }
}

impl BatchRun {
    /// A run over `dates` with at most `max_concurrent` tasks at a time.
    pub fn new(dates: &Vec<Date>, max_concurrent: usize) -> (r: Self)
        requires
            max_concurrent >= 1,
        ensures
            batch_wf(r@),
            r@.labels.len() == dates@.len(),
            forall|i: int| 0 <= i < dates@.len() ==> #[trigger] r@.labels[i] == iso_text(dates@[i]@),
            r@.max_concurrent == max_concurrent,
            r@.next == 0,
            r@.in_flight == 0,
            !r@.stopped,
            r@.lost == 0,
            r@.total == dates@.len(),
            r@.succeeded == 0 && r@.failed == 0 && r@.skipped == 0,
    {
        let mut labels: Vec<String> = Vec::new();
        let mut running: Vec<bool> = Vec::new();
        let mut k: usize = 0;
        while k < dates.len()
            invariant
                k <= dates@.len(),
                labels@.len() == k,
                running@.len() == k,
                forall|i: int| 0 <= i < k ==> #[trigger] labels@[i]@ == iso_text(dates@[i]@),
                forall|i: int| 0 <= i < k ==> !#[trigger] running@[i],
                count_true(running@) == 0,
            decreases dates@.len() - k,
        {
            labels.push(format_date(&dates[k]));
            proof {
                lemma_count_push_false(running@);
            }
            running.push(false);
            k += 1;
        }
        let r = BatchRun {
            labels,
            max_concurrent,
            next: 0,
            running,
            in_flight: 0,
            stopped: false,
            lost: 0,
            stats: DownloadStats::new(dates.len()),
        };
        assert(r@.labels.len() == dates@.len());
        r
    }

    /// The next date to start, if one may start now; its slot is taken.
    pub fn start_next(&mut self) -> (r: Option<usize>)
        requires
            batch_wf(old(self)@),
        ensures
            batch_wf(final(self)@),
            (final(self)@, match r {
                Some(i) => Some(i as nat),
                None => None::<nat>,
            }) == start_next_spec(old(self)@),
    {
        if !self.stopped && self.next < self.labels.len() && self.in_flight < self.max_concurrent {
            let i = self.next;
            proof {
                lemma_count_update(self.running@, i as int, true);
            }
            self.running.set(i, true);
            self.next = i + 1;
            self.in_flight = self.in_flight + 1;
            Some(i)
        } else {
            None
        }
    }

    /// Whether the task of date `index` was admitted and has not completed.
    pub fn is_running(&self, index: usize) -> (r: bool)
        ensures
            r == (index < self@.running.len() && self@.running[index as int]),
    {
        index < self.running.len() && self.running[index]
    }

    /// The task of date `index` ended with `result`: its slot is released and
    /// its outcome counted.
    pub fn complete(&mut self, index: usize, result: &ProcessResult)
        requires
            batch_wf(old(self)@),
            index < old(self)@.running.len() && old(self)@.running[index as int],
        ensures
            batch_wf(final(self)@),
            final(self)@ == complete_spec(old(self)@, index as nat, result@),
    {
        proof {
            lemma_count_update(self.running@, index as int, false);
        }
        self.running.set(index, false);
        self.in_flight = self.in_flight - 1;
        match result {
            ProcessResult::Downloaded(_) => {
                self.stats.record_success_with_date(self.labels[index].as_str());
            },
            ProcessResult::AlreadyExists(_) => {
                self.stats.record_skip();
            },
            ProcessResult::Failed(_) => {
                self.stats.record_failure(self.labels[index].as_str());
            },
        }
        assert(self@.succeeded_dates =~= complete_spec(old(self)@, index as nat, result@).succeeded_dates);
        assert(self@.failed_dates =~= complete_spec(old(self)@, index as nat, result@).failed_dates);
        assert(self@.running =~= complete_spec(old(self)@, index as nat, result@).running);
    }

    /// The task of date `index` ended without an outcome (it was lost): its
    /// slot is released and it is counted as lost.
    pub fn abandon(&mut self, index: usize)
        requires
            batch_wf(old(self)@),
            index < old(self)@.running.len() && old(self)@.running[index as int],
        ensures
            batch_wf(final(self)@),
            final(self)@ == (BatchView {
                running: old(self)@.running.update(index as int, false),
                in_flight: (old(self)@.in_flight - 1) as nat,
                lost: old(self)@.lost + 1,
                ..old(self)@
            }),
    {
        proof {
            lemma_count_update(self.running@, index as int, false);
        }
        self.running.set(index, false);
        self.in_flight = self.in_flight - 1;
        self.lost = self.lost + 1;
    }

    /// Stops admission; tasks already running are still awaited.
    pub fn stop(&mut self)
        requires
            batch_wf(old(self)@),
        ensures
            batch_wf(final(self)@),
            final(self)@ == (BatchView { stopped: true, ..old(self)@ }),
    {
        self.stopped = true;
    }

    /// Number of tasks admitted and not yet completed.
    pub fn in_flight(&self) -> (r: usize)
        requires
            batch_wf(self@),
        ensures
            r == self@.in_flight,
            r <= self@.max_concurrent,
    {
        self.in_flight
    }

    /// No more work will be admitted and none is running.
    pub fn is_finished(&self) -> (r: bool)
        requires
            batch_wf(self@),
        ensures
            r == batch_finished(self@),
    {
        (self.stopped || self.next == self.labels.len()) && self.in_flight == 0
    }

    /// The statistics gathered so far.
    pub fn stats(&self) -> (r: &DownloadStats)
        ensures
            r.total == self@.total,
            r.succeeded == self@.succeeded,
            r.failed == self@.failed,
            r.skipped == self@.skipped,
            r.failed_dates@.map_values(|s: String| s@) == self@.failed_dates,
            r.succeeded_dates@.map_values(|s: String| s@) == self@.succeeded_dates,
    {
        &self.stats
    }

    /// The statistics of the run.
    pub fn into_stats(self) -> (r: DownloadStats)
        ensures
            r.total == self@.total,
            r.succeeded == self@.succeeded,
            r.failed == self@.failed,
            r.skipped == self@.skipped,
            r.failed_dates@.map_values(|s: String| s@) == self@.failed_dates,
            r.succeeded_dates@.map_values(|s: String| s@) == self@.succeeded_dates,
    {
        self.stats
    }
}

/// While a run goes on, the tasks between admission and release never
/// outnumber the limit.
pub proof fn lemma_concurrency_bound(v: BatchView)
    requires
        batch_wf(v),
    ensures
        count_true(v.running) <= v.max_concurrent,
        start_next_spec(v).0.in_flight <= v.max_concurrent,
        batch_wf(start_next_spec(v).0),
{
    if !v.stopped && v.next < v.total && v.in_flight < v.max_concurrent {
        lemma_count_update(v.running, v.next as int, true);
        let w = start_next_spec(v).0;
        assert forall|i: int| w.next <= i < w.total implies !#[trigger] w.running[i] by {
            assert(w.running[i] == v.running[i]);
        }
    }
}

/// Once a run that was not stopped has finished and lost no task, every
/// date is counted exactly once: `succeeded + failed + skipped == total`.
pub proof fn lemma_counts_cover_total(v: BatchView)
    requires
        batch_wf(v),
        batch_finished(v),
        !v.stopped,
        v.lost == 0,
    ensures
        v.succeeded + v.failed + v.skipped == v.total,
{
}

/// Every step of a run keeps the coordinator's invariant.
pub proof fn lemma_complete_keeps_invariant(v: BatchView, i: nat, o: Outcome)
    requires
        batch_wf(v),
        i < v.running.len(),
        v.running[i as int],
    ensures
        batch_wf(complete_spec(v, i, o)),
{
    lemma_count_update(v.running, i as int, false);
    let w = complete_spec(v, i, o);
    assert forall|j: int| w.next <= j < w.total implies !#[trigger] w.running[j] by {
        assert(w.running[j] == (if j == i { false } else { v.running[j] }));
    }
}

} // verus!
