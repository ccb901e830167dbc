//! The preparation phase of running tcs jobs: which tcs to prepare next,
//! when to wait for a running preparation, and when to stop.
//!
//! The caller runs the preparations (they are asynchronous); this module
//! takes every decision. A round is: `step`, then, for
//! `ScheduleAction::Prepare`, `job_started` if the caller started the job,
//! or, for `ScheduleAction::AwaitOne`, `job_finished` once one of the
//! pending jobs has finished. `ScheduleAction::Done` ends the phase.

use vstd::prelude::*;
use rand::distributions::{Distribution, WeightedError, WeightedIndex};
use crate::prepare::Key;

verus! {

/// How many jobs may be prepared in one run.
pub const MAX_PREPARED: usize = 32;

/// A tcs that may be executed, with its maximal quote volume. A volume of
/// `u64::MAX` marks one that has been picked already.
#[derive(Clone, Copy, PartialEq, Eq, Debug)]
pub struct TcsCandidate {
    pub pubkey: Key,
    pub tcs_id: u64,
    pub volume: u64,
}

/// A preparation that runs, with the volume it reserves.
#[derive(Clone, Copy, PartialEq, Eq, Debug)]
pub struct PendingJob {
    pub pubkey: Key,
    pub volume: u64,
}

/// What the caller is to do next.
#[derive(Clone, Copy, PartialEq, Eq, Debug)]
pub enum ScheduleAction {
    /// The preparation phase is over.
    Done,
    /// Wait until one of the pending jobs finishes, then report it with
    /// `job_finished`.
    AwaitOne,
    /// Try to start preparing the candidate at `index`; if it was started,
    /// report it with `job_started`.
    Prepare { index: usize, pubkey: Key, tcs_id: u64, volume: u64 },
}

/// The outcome of a weighted draw.
#[derive(Clone, Copy, PartialEq, Eq, Structural, Debug)]
pub enum WeightedPick {
    Picked(usize),
    NoItem,
    AllWeightsZero,
    Refused,
}

pub open spec fn seq_sum(s: Seq<u64>) -> int
    decreases s.len(),
{
    if s.len() == 0 {
        0
    } else {
        seq_sum(s.drop_last()) + s.last()
    }
}

/// Draws an index at random, each with probability proportional to its
/// weight, with rand's `WeightedIndex` and `thread_rng`.
/// `WeightedIndex::new` fails with `NoItem` on no weights and with
/// `AllWeightsZero` when they sum to zero; it never finds an unsigned
/// weight invalid. It adds the weights in `u64` (which panics on overflow
/// with debug assertions), and a draw lands on an index whose weight is
/// positive. Which index is drawn is left unsaid: it is chance.
#[verifier::external_body]
fn pick_weighted(weights: &Vec<u64>) -> (r: WeightedPick)
    requires
        seq_sum(weights@) <= u64::MAX,
    ensures
        r is NoItem <==> weights@.len() == 0,
        r is AllWeightsZero <==> (weights@.len() > 0 && seq_sum(weights@) == 0),
        !(r is Refused),
        r matches WeightedPick::Picked(i) ==> i < weights@.len() && weights@[i as int] > 0,
{
    match WeightedIndex::new(weights.iter().copied()) {
        Ok(dist) => WeightedPick::Picked(dist.sample(&mut rand::thread_rng())),
        Err(WeightedError::NoItem) => WeightedPick::NoItem,
        Err(WeightedError::AllWeightsZero) => WeightedPick::AllWeightsZero,
        Err(WeightedError::InvalidWeight) => WeightedPick::Refused,
        Err(WeightedError::TooMany) => WeightedPick::Refused,
    }
}

/// The weight of a candidate when `available` volume is left: zero for a
/// picked one; else its volume, at most `max_volume` and at least one, if
/// that fits into `available`, and zero if not.
pub open spec fn weight(c: TcsCandidate, max_volume: u64, available: int) -> int {
    if c.volume == u64::MAX {
        0
    } else {
        let capped = if c.volume <= max_volume { c.volume as int } else { max_volume as int };
        let v = if capped >= 1 { capped } else { 1 };
        if v <= available { v } else { 0 }
    }
}

/// An unpicked candidate whose volume, capped at the budget and at least
/// one, fits into the volume that is left has a positive weight: a tcs
/// larger than the whole budget still counts with the budget.
pub proof fn lemma_fitting_candidate_has_weight(c: TcsCandidate, max_volume: u64, available: int)
    requires
        c.volume != u64::MAX,
        max_volume >= 1,
        max_volume <= available,
    ensures
        weight(c, max_volume, available) > 0,
        c.volume >= max_volume ==> weight(c, max_volume, available) == max_volume,
{
}

/// Number of candidates not picked yet.
pub open spec fn unpicked(s: Seq<TcsCandidate>) -> int
    decreases s.len(),
{
    if s.len() == 0 {
        0
    } else {
        unpicked(s.drop_last()) + if s.last().volume == u64::MAX { 0int } else { 1int }
    }
}

pub open spec fn pending_sum(s: Seq<PendingJob>) -> int
    decreases s.len(),
{
    if s.len() == 0 {
        0
    } else {
        pending_sum(s.drop_last()) + s.last().volume
    }
}

/// A sum of weights each at most `bound` is at most `bound` per weight.
proof fn lemma_sum_bounded(w: Seq<u64>, bound: int)
    requires
        bound >= 0,
        forall|j: int| 0 <= j < w.len() ==> w[j] <= bound,
    ensures
        seq_sum(w) <= w.len() * bound,
    decreases w.len(),
{
    if w.len() > 0 {
        lemma_sum_bounded(w.drop_last(), bound);
        assert(w.last() <= bound);
        assert((w.len() - 1) * bound + bound == w.len() * bound) by (nonlinear_arith);
    }
}

/// Weights sum to zero only when each of them is zero.
proof fn lemma_sum_zero(w: Seq<u64>)
    requires
        seq_sum(w) == 0,
    ensures
        forall|j: int| 0 <= j < w.len() ==> w[j] == 0,
    decreases w.len(),
{
    if w.len() > 0 {
        lemma_sum_nonneg(w.drop_last());
        lemma_sum_zero(w.drop_last());
        assert forall|j: int| 0 <= j < w.len() implies w[j] == 0 by {
            if j < w.len() - 1 {
                assert(w[j] == w.drop_last()[j]);
            }
        }
    }
}

proof fn lemma_sum_nonneg(w: Seq<u64>)
    ensures
        seq_sum(w) >= 0,
    decreases w.len(),
{
    if w.len() > 0 {
        lemma_sum_nonneg(w.drop_last());
    }
}

/// Marking an unpicked candidate picked lowers the count by one.
proof fn lemma_unpicked_update(s: Seq<TcsCandidate>, i: int, c: TcsCandidate)
    requires
        0 <= i < s.len(),
        s[i].volume != u64::MAX,
        c.volume == u64::MAX,
    ensures
        unpicked(s.update(i, c)) == unpicked(s) - 1,
    decreases s.len(),
{
    let t = s.update(i, c);
    if i == s.len() - 1 {
        assert(t.drop_last() =~= s.drop_last());
    } else {
        assert(t.drop_last() =~= s.drop_last().update(i, c));
        lemma_unpicked_update(s.drop_last(), i, c);
    }
}

proof fn lemma_unpicked_bounds(s: Seq<TcsCandidate>)
    ensures
        0 <= unpicked(s) <= s.len(),
    decreases s.len(),
{
    if s.len() > 0 {
        lemma_unpicked_bounds(s.drop_last());
    }
}

/// The preparation phase ends: every round lowers `progress` (see `step`,
/// `job_started` and `job_finished`), which stays between zero and three
/// per candidate plus two per slot plus one.
pub proof fn lemma_progress_bounded(s: TcsScheduler)
    requires
        s.wf(),
    ensures
        0 <= s.progress() <= 3 * s.candidates@.len() + 2 * MAX_PREPARED + 1,
{
    lemma_unpicked_bounds(s.candidates@);
}

/// At the start of a phase with a positive budget, every unpicked tcs has a
/// positive weight, whatever its volume, and a new job may start.
pub proof fn lemma_fresh_phase_can_pick(s: TcsScheduler, j: int)
    requires
        s.wf(),
        s.pending@.len() == 0,
        s.pending_volume == 0,
        s.prepared_count == 0,
        s.prepared_volume == 0,
        !s.no_new_job,
        s.max_volume > 0,
        0 <= j < s.candidates@.len(),
        s.candidates@[j].volume != u64::MAX,
    ensures
        s.running(),
        !s.must_wait(),
        s.weights()[j] > 0,
{
    lemma_fitting_candidate_has_weight(s.candidates@[j], s.max_volume, s.available());
}

/// Replacing one pending job changes the sum by the difference.
proof fn lemma_pending_update(s: Seq<PendingJob>, i: int, x: PendingJob)
    requires
        0 <= i < s.len(),
    ensures
        pending_sum(s.update(i, x)) == pending_sum(s) - s[i].volume + x.volume,
    decreases s.len(),
{
    let t = s.update(i, x);
    if i == s.len() - 1 {
        assert(t.drop_last() =~= s.drop_last());
    } else {
        assert(t.drop_last() =~= s.drop_last().update(i, x));
        lemma_pending_update(s.drop_last(), i, x);
    }
}

/// Removing a pending job as `Vec::swap_remove` does lowers the sum by its
/// volume.
proof fn lemma_pending_swap_remove(s: Seq<PendingJob>, i: int)
    requires
        0 <= i < s.len(),
    ensures
        pending_sum(s.update(i, s.last()).drop_last()) == pending_sum(s) - s[i].volume,
{
    lemma_pending_update(s, i, s.last());
}

/// A pending job's volume is part of the sum.
proof fn lemma_pending_sum_member(s: Seq<PendingJob>, i: int)
    requires
        0 <= i < s.len(),
    ensures
        s[i].volume <= pending_sum(s),
    decreases s.len(),
{
    lemma_pending_sum_nonneg(s.drop_last());
    if i < s.len() - 1 {
        lemma_pending_sum_member(s.drop_last(), i);
    }
}

proof fn lemma_pending_sum_nonneg(s: Seq<PendingJob>)
    ensures
        pending_sum(s) >= 0,
    decreases s.len(),
{
    if s.len() > 0 {
        lemma_pending_sum_nonneg(s.drop_last());
    }
}

proof fn lemma_pending_push(s: Seq<PendingJob>, x: PendingJob)
    ensures
        pending_sum(s.push(x)) == pending_sum(s) + x.volume,
{
    assert(s.push(x).drop_last() =~= s);
}

/// The state of the preparation phase.
pub struct TcsScheduler {
    /// The volume budget of the run (`max_trigger_quote_amount`).
    pub max_volume: u64,
    pub candidates: Vec<TcsCandidate>,
    /// The running preparations, in the order in which the caller holds them.
    pub pending: Vec<PendingJob>,
    pub pending_volume: u64,
    pub prepared_volume: u64,
    pub prepared_count: usize,
    /// No candidate fitted at the last try; wait for a pending job first.
    pub no_new_job: bool,
}

impl TcsScheduler {
    /// The scheduler's invariant.
    pub open spec fn wf(&self) -> bool {
        &&& self.candidates@.len() * self.max_volume <= u64::MAX
        &&& (self.candidates@.len() > 0 || self.max_volume == 0)
        &&& self.pending_volume == pending_sum(self.pending@)
        &&& self.prepared_count + self.pending@.len() <= MAX_PREPARED
        &&& self.prepared_volume + self.pending_volume <= u64::MAX
    }

    /// The phase goes on while fewer than `MAX_PREPARED` jobs are prepared
    /// and the prepared volume is below the budget.
    pub open spec fn running(&self) -> bool {
        self.prepared_count < MAX_PREPARED && self.prepared_volume < self.max_volume
    }

    /// No new job can start now: all slots or the whole budget are taken by
    /// prepared and pending jobs, or no candidate fitted at the last try.
    pub open spec fn must_wait(&self) -> bool {
        ||| self.prepared_count + self.pending@.len() >= MAX_PREPARED
        ||| self.prepared_volume + self.pending_volume >= self.max_volume
        ||| self.no_new_job
    }

    /// The volume that new jobs may still reserve.
    pub open spec fn available(&self) -> int {
        self.max_volume - self.pending_volume - self.prepared_volume
    }

    /// The candidates' weights with the volume that is left.
    pub open spec fn weights(&self) -> Seq<int> {
        Seq::new(self.candidates@.len(), |j: int| weight(self.candidates@[j], self.max_volume, self.available()))
    }

    /// Decreases with every round: picking a candidate, finishing a pending
    /// job, or finding that nothing fits.
    pub open spec fn progress(&self) -> int {
        3 * unpicked(self.candidates@) + 2 * self.pending@.len() + if self.no_new_job { 0int } else { 1int }
    }

    /// The weight of each candidate, with `available` volume left.
    fn current_weights(&self, available: u64) -> (w: Vec<u64>)
        requires
            available == self.available(),
            available <= self.max_volume,
        ensures
            w@.len() == self.candidates@.len(),
            forall|j: int| 0 <= j < w@.len() ==> w@[j] as int == #[trigger] self.weights()[j],
            forall|j: int| 0 <= j < w@.len() ==> w@[j] <= self.max_volume,
    {
        let mut w: Vec<u64> = Vec::new();
        let n = self.candidates.len();
        for k in 0..n
            invariant
                n == self.candidates@.len(),
                available == self.available(),
                available <= self.max_volume,
                w@.len() == k,
                forall|j: int| 0 <= j < k ==> w@[j] as int == #[trigger] self.weights()[j],
                forall|j: int| 0 <= j < k ==> w@[j] <= self.max_volume,
        {
            let c = self.candidates[k];
            let x = if c.volume == u64::MAX {
                0
            } else {
                let capped = if c.volume <= self.max_volume { c.volume } else { self.max_volume };
                let v = if capped >= 1 { capped } else { 1 };
                if v <= available { v } else { 0 }
            };
            w.push(x);
        }
        w
    }

    /// Decides the next move of the preparation phase (one round of the
    /// loop that runs tcs jobs).
    ///
    /// Once at least `MAX_PREPARED` jobs are prepared or the prepared volume
    /// reaches the budget, the phase is `Done`. While no new job can start
    /// (`must_wait`), it waits for a pending job, or is `Done` when none is
    /// pending. Otherwise it draws a candidate at random, weighted by its
    /// volume among those that still fit into the budget, marks it picked
    /// and asks to prepare it; when none fits it remembers that and waits
    /// (or is `Done`).
    pub fn step(&mut self) -> (r: ScheduleAction)
        requires
            old(self).wf(),
        ensures
            final(self).wf(),
            final(self).max_volume == old(self).max_volume,
            final(self).pending@ == old(self).pending@,
            final(self).pending_volume == old(self).pending_volume,
            final(self).prepared_volume == old(self).prepared_volume,
            final(self).prepared_count == old(self).prepared_count,
            final(self).candidates@.len() == old(self).candidates@.len(),
            forall|j: int| 0 <= j < old(self).candidates@.len() && old(self).candidates@[j].volume == u64::MAX
                ==> #[trigger] final(self).candidates@[j] == old(self).candidates@[j],
            !old(self).running() ==> r is Done && final(self).candidates@ == old(self).candidates@
                && final(self).no_new_job == old(self).no_new_job,
            old(self).running() && old(self).must_wait() ==> {
                &&& final(self).candidates@ == old(self).candidates@
                &&& final(self).no_new_job == old(self).no_new_job
                &&& (r is Done <==> old(self).pending@.len() == 0)
                &&& (r is AwaitOne <==> old(self).pending@.len() > 0)
            },
            old(self).running() && !old(self).must_wait()
                && (forall|j: int| 0 <= j < old(self).candidates@.len() ==> #[trigger] old(self).weights()[j] == 0)
                ==> {
                &&& final(self).candidates@ == old(self).candidates@
                &&& final(self).no_new_job
                &&& (r is Done <==> old(self).pending@.len() == 0)
                &&& (r is AwaitOne <==> old(self).pending@.len() > 0)
            },
            old(self).running() && !old(self).must_wait()
                && (exists|j: int| 0 <= j < old(self).candidates@.len() && #[trigger] old(self).weights()[j] > 0)
                ==> r is Prepare,
            r matches ScheduleAction::Prepare { index, pubkey, tcs_id, volume } ==> {
                &&& old(self).running() && !old(self).must_wait()
                &&& index < old(self).candidates@.len()
                &&& old(self).weights()[index as int] > 0
                &&& pubkey == old(self).candidates@[index as int].pubkey
                &&& tcs_id == old(self).candidates@[index as int].tcs_id
                &&& volume == old(self).candidates@[index as int].volume
                &&& volume != u64::MAX
                &&& final(self).candidates@ == old(self).candidates@.update(
                    index as int,
                    TcsCandidate { volume: u64::MAX, ..old(self).candidates@[index as int] },
                )
                &&& final(self).no_new_job == old(self).no_new_job
                &&& final(self).progress() + 3 == old(self).progress()
            },
            !(r is Prepare) ==> final(self).progress() <= old(self).progress(),
            // a fresh phase with a positive budget picks some tcs whenever one is
            // left, whatever its volume
            old(self).pending@.len() == 0 && old(self).pending_volume == 0 && old(self).prepared_count == 0
                && old(self).prepared_volume == 0 && !old(self).no_new_job && old(self).max_volume > 0
                && (exists|j: int| 0 <= j < old(self).candidates@.len() && #[trigger] old(self).candidates@[j].volume != u64::MAX)
                ==> r is Prepare,
            // a new job starts whenever an unpicked tcs, its volume capped at the
            // budget and at least one, fits into the volume that is left
            old(self).running() && !old(self).must_wait()
                && (exists|j: int| 0 <= j < old(self).candidates@.len()
                    && #[trigger] old(self).candidates@[j].volume != u64::MAX
                    && (if old(self).candidates@[j].volume <= old(self).max_volume {
                        if old(self).candidates@[j].volume >= 1 { old(self).candidates@[j].volume as int } else { 1int }
                    } else { old(self).max_volume as int }) <= old(self).available())
                ==> r is Prepare,
            // a picked tcs was unpicked and fits into the volume that is left
            r matches ScheduleAction::Prepare { index, volume, .. } ==> {
                &&& volume != u64::MAX
                &&& (if volume <= old(self).max_volume { if volume >= 1 { volume as int } else { 1int } }
                    else { old(self).max_volume as int }) <= old(self).available()
                &&& old(self).prepared_count + old(self).pending@.len() < MAX_PREPARED
                &&& old(self).prepared_volume + old(self).pending_volume < old(self).max_volume
            },
    {
        if !(self.prepared_count < MAX_PREPARED && self.prepared_volume < self.max_volume) {
            return ScheduleAction::Done;
        }
        if self.prepared_count + self.pending.len() >= MAX_PREPARED
            || self.prepared_volume + self.pending_volume >= self.max_volume
            || self.no_new_job
        {
            if self.pending.len() == 0 {
                return ScheduleAction::Done;
            }
            return ScheduleAction::AwaitOne;
        }
        let available = self.max_volume - self.pending_volume - self.prepared_volume;
        let weights = self.current_weights(available);
        proof {
            assert forall|j: int| #![trigger self.candidates@[j]] 0 <= j < self.candidates@.len() && self.candidates@[j].volume != u64::MAX
                && (if self.candidates@[j].volume <= self.max_volume {
                    if self.candidates@[j].volume >= 1 { self.candidates@[j].volume as int } else { 1int }
                } else { self.max_volume as int }) <= self.available()
                implies self.weights()[j] > 0 by {
            }
            lemma_sum_bounded(weights@, self.max_volume as int);
            assert(weights@.len() * self.max_volume <= u64::MAX);
        }
        match pick_weighted(&weights) {
            WeightedPick::Picked(i) => {
                let c = self.candidates[i];
                proof {
                    assert(weights@[i as int] as int == self.weights()[i as int]);
                    lemma_unpicked_update(self.candidates@, i as int, TcsCandidate { volume: u64::MAX, ..c });
                }
                self.candidates.set(i, TcsCandidate { volume: u64::MAX, ..c });
                ScheduleAction::Prepare { index: i, pubkey: c.pubkey, tcs_id: c.tcs_id, volume: c.volume }
            },
            _ => {
                proof {
                    lemma_sum_zero(weights@);
                    assert forall|j: int| 0 <= j < self.candidates@.len() implies #[trigger] self.weights()[j] == 0 by {
                        assert(weights@[j] as int == self.weights()[j]);
                    }
                }
                self.no_new_job = true;
                if self.pending.len() == 0 {
                    ScheduleAction::Done
                } else {
                    ScheduleAction::AwaitOne
                }
            },
        }
    }

    /// Records that the preparation of a picked candidate started: it is
    /// pending and reserves `volume`.
    pub fn job_started(&mut self, pubkey: Key, volume: u64)
        requires
            old(self).wf(),
            old(self).prepared_count + old(self).pending@.len() < MAX_PREPARED,
            old(self).prepared_volume + old(self).pending_volume + volume <= u64::MAX,
        ensures
            final(self).wf(),
            final(self).pending@ == old(self).pending@.push(PendingJob { pubkey, volume }),
            final(self).pending_volume == old(self).pending_volume + volume,
            final(self).max_volume == old(self).max_volume,
            final(self).candidates@ == old(self).candidates@,
            final(self).prepared_volume == old(self).prepared_volume,
            final(self).prepared_count == old(self).prepared_count,
            final(self).no_new_job == old(self).no_new_job,
            final(self).progress() == old(self).progress() + 2,
    {
        proof {
            lemma_pending_push(self.pending@, PendingJob { pubkey, volume });
        }
        self.pending.push(PendingJob { pubkey, volume });
        self.pending_volume = self.pending_volume + volume;
    }

    /// Records that the pending job at `index` finished, with the volume it
    /// prepared, or `None` when it prepared nothing (the tcs was not
    /// executable any more, or the preparation failed). The job leaves the
    /// pending list as `Vec::swap_remove` takes it out, and its reserved
    /// volume is released; a prepared volume is added to the prepared one.
    /// Returns the finished job.
    pub fn job_finished(&mut self, index: usize, prepared: Option<u64>) -> (r: PendingJob)
        requires
            old(self).wf(),
            index < old(self).pending@.len(),
            prepared matches Some(v) ==> old(self).prepared_volume + v + old(self).pending_volume
                - old(self).pending@[index as int].volume <= u64::MAX,
        ensures
            final(self).wf(),
            r == old(self).pending@[index as int],
            final(self).pending@ == old(self).pending@.update(index as int, old(self).pending@.last()).drop_last(),
            final(self).pending_volume == old(self).pending_volume - r.volume,
            final(self).prepared_volume == match prepared {
                Some(v) => old(self).prepared_volume + v,
                None => old(self).prepared_volume as int,
            },
            final(self).prepared_count == match prepared {
                Some(_) => old(self).prepared_count + 1,
                None => old(self).prepared_count as int,
            },
            !final(self).no_new_job,
            final(self).max_volume == old(self).max_volume,
            final(self).candidates@ == old(self).candidates@,
            final(self).progress() < old(self).progress(),
    {
        proof {
            lemma_pending_swap_remove(self.pending@, index as int);
            lemma_pending_sum_member(self.pending@, index as int);
        }
        let job = self.pending.swap_remove(index);
        self.pending_volume = self.pending_volume - job.volume;
        match prepared {
            Some(v) => {
                self.prepared_volume = self.prepared_volume + v;
                self.prepared_count = self.prepared_count + 1;
            },
            None => {},
        }
        self.no_new_job = false;
        job
    }

    /// A scheduler over `candidates` with the volume budget `max_volume`.
    pub fn new(candidates: Vec<TcsCandidate>, max_volume: u64) -> (r: TcsScheduler)
        requires
            candidates@.len() * max_volume <= u64::MAX,
            candidates@.len() > 0 || max_volume == 0,
        ensures
            r.wf(),
            r.candidates@ == candidates@,
            r.max_volume == max_volume,
            r.pending@.len() == 0,
            r.pending_volume == 0,
            r.prepared_volume == 0,
            r.prepared_count == 0,
            !r.no_new_job,
    {
        TcsScheduler {
            max_volume,
            candidates,
            pending: Vec::new(),
            pending_volume: 0,
            prepared_volume: 0,
            prepared_count: 0,
            no_new_job: false,
        }
    }
}

} // verus!
