//! Compensation for perf counter multiplexing.
//!
//! A CPU only has a handful of hardware counters. When more events are requested than it can hold,
//! the kernel multiplexes them: a group is only on the PMU during a fraction `running / enabled` of
//! the time it was asked to count, and its raw values are underestimated by that same fraction.
//! The missing part is extrapolated by assuming that the events kept occurring at the same rate.
//!
//! The correction is applied to each polling interval, not to the whole lifetime of the group, so
//! that an interval whose rate is overestimated cannot make the corrected value go backwards later
//! on: the metrics are counters, they never decrease.

use vstd::prelude::*;

verus! {

/// One read of a group. The kernel reports cumulative values, never reset.
#[derive(Debug, Clone, PartialEq, Eq)]
pub struct Snapshot {
    /// For how long the group was asked to count, in nanoseconds.
    pub time_enabled: u128,
    /// For how long the group was really on the PMU, in nanoseconds.
    pub time_running: u128,
    /// Raw counter values, in the same order as the group's counters.
    pub values: Vec<u64>,
}

/// How faithful a reported (cumulative) value is. It only ever degrades.
#[derive(Debug, Clone, Copy, PartialEq, Eq)]
pub enum Accuracy {
    /// Every interval was counted exactly.
    Exact,
    /// At least one multiplexed interval was extrapolated.
    Extrapolated,
    /// The value is known to be too low.
    Underestimated,
}

/// What happened to a group during one polling interval.
#[derive(Debug, Clone, Copy, PartialEq, Eq)]
pub enum Interval {
    /// The observed entity did not run at all.
    Idle,
    /// The group was on the PMU for the whole interval.
    Exact,
    /// The group was only on the PMU for part of the interval.
    Multiplexed { running: u128, enabled: u128 },
    /// The entity ran but the group never made it onto the PMU.
    Starved,
}

/// Position of an accuracy on the scale from best to worst.
pub open spec fn accuracy_rank(a: Accuracy) -> nat {
    match a {
        Accuracy::Exact => 0,
        Accuracy::Extrapolated => 1,
        Accuracy::Underestimated => 2,
    }
}

/// The worse of two accuracies.
pub open spec fn worst(a: Accuracy, b: Accuracy) -> Accuracy {
    if accuracy_rank(a) >= accuracy_rank(b) { a } else { b }
}

/// `a - b`, or zero when `b > a`.
pub open spec fn sat_diff(a: int, b: int) -> int {
    if a >= b { a - b } else { 0 }
}

/// `min(a + b, u64::MAX)`.
pub open spec fn sat_total(a: int, b: int) -> int {
    if a + b > u64::MAX { u64::MAX as int } else { a + b }
}

/// Time elapsed with the group enabled between two reads.
pub open spec fn enabled_delta(prev: Snapshot, now: Snapshot) -> int {
    sat_diff(now.time_enabled as int, prev.time_enabled as int)
}

/// Time spent on the PMU between two reads.
pub open spec fn running_delta(prev: Snapshot, now: Snapshot) -> int {
    sat_diff(now.time_running as int, prev.time_running as int)
}

/// What happened during the interval between `prev` and `now`.
pub open spec fn interval_kind(prev: Snapshot, now: Snapshot) -> Interval {
    let e = enabled_delta(prev, now);
    let r = running_delta(prev, now);
    if e == 0 {
        Interval::Idle
    } else if r == 0 {
        Interval::Starved
    } else if r < e {
        Interval::Multiplexed { running: r as u128, enabled: e as u128 }
    } else {
        Interval::Exact
    }
}

/// Raw increase of counter `i` between the two reads.
pub open spec fn raw_delta(prev: Snapshot, now: Snapshot, i: int) -> int {
    sat_diff(now.values@[i] as int, prev.values@[i] as int)
}

/// Whether the interval's raw deltas are extrapolated.
pub open spec fn is_scaled(prev: Snapshot, now: Snapshot, auto_scale: bool) -> bool {
    auto_scale && running_delta(prev, now) < enabled_delta(prev, now)
}

/// Contribution of counter `i` to its corrected total: the raw delta, extrapolated by the rule of
/// three when the interval is multiplexed and auto-scaling is on.
pub open spec fn contribution(prev: Snapshot, now: Snapshot, auto_scale: bool, i: int) -> int {
    if is_scaled(prev, now, auto_scale) {
        (raw_delta(prev, now, i) * enabled_delta(prev, now)) / running_delta(prev, now)
    } else {
        raw_delta(prev, now, i)
    }
}

/// The extrapolation of every counter fits in the 128-bit intermediate product.
pub open spec fn fits_in_u128(prev: Snapshot, now: Snapshot, auto_scale: bool, n: nat) -> bool {
    forall|i: int|
        0 <= i < n && is_scaled(prev, now, auto_scale) ==> #[trigger] raw_delta(prev, now, i)
            * enabled_delta(prev, now) <= u128::MAX
}

/// Totals after accounting for the interval between `prev` and `now`.
pub open spec fn corrected_after(
    prev: Snapshot,
    now: Snapshot,
    auto_scale: bool,
    totals: Seq<u64>,
) -> Seq<u64> {
    if enabled_delta(prev, now) == 0 || running_delta(prev, now) == 0 {
        totals
    } else {
        Seq::new(
            totals.len(),
            |i: int| sat_total(totals[i] as int, contribution(prev, now, auto_scale, i)) as u64,
        )
    }
}

/// Accuracy of the values reported for one interval.
pub open spec fn interval_accuracy(interval: Interval, auto_scale: bool) -> Accuracy {
    match interval {
        Interval::Idle | Interval::Exact => Accuracy::Exact,
        Interval::Multiplexed { .. } => if auto_scale {
            Accuracy::Extrapolated
        } else {
            Accuracy::Underestimated
        },
        Interval::Starved => Accuracy::Underestimated,
    }
}

/// Reading the same snapshot twice: the interval between the two reads is idle, any group
/// may account for it, and it leaves the totals and the accuracy as they were.
pub proof fn lemma_repeated_read_is_idle(now: Snapshot, auto_scale: bool, totals: Seq<u64>, accuracy: Accuracy)
    ensures
        interval_kind(now, now) == Interval::Idle,
        fits_in_u128(now, now, auto_scale, totals.len()),
        corrected_after(now, now, auto_scale, totals) == totals,
        worst(accuracy, interval_accuracy(interval_kind(now, now), auto_scale)) == accuracy,
{
}

impl Accuracy {
    /// The value used for the `accuracy` measurement attribute.
    pub fn as_str(self) -> (s: &'static str)
        ensures
            s@ == (match self {
                Accuracy::Exact => "exact"@,
                Accuracy::Extrapolated => "extrapolated"@,
                Accuracy::Underestimated => "underestimated"@,
            }),
    {
        match self {
            Accuracy::Exact => "exact",
            Accuracy::Extrapolated => "extrapolated",
            Accuracy::Underestimated => "underestimated",
        }
    }

    /// The worse of `self` and `other`.
    pub fn worst_of(self, other: Accuracy) -> (r: Accuracy)
        ensures
            r == worst(self, other),
    {
        match (self, other) {
            (Accuracy::Underestimated, _) | (_, Accuracy::Underestimated) => Accuracy::Underestimated,
            (Accuracy::Extrapolated, _) | (_, Accuracy::Extrapolated) => Accuracy::Extrapolated,
            _ => Accuracy::Exact,
        }
    }
}

/// Adds the (possibly corrected) contribution of one polling interval to `corrected`, and reports
/// what happened.
pub fn correct_interval(prev: &Snapshot, now: &Snapshot, auto_scale: bool, corrected: &mut Vec<u64>) -> (r:
    Interval)
    requires
        prev.values@.len() >= old(corrected)@.len(),
        now.values@.len() >= old(corrected)@.len(),
        fits_in_u128(*prev, *now, auto_scale, old(corrected)@.len()),
    ensures
        r == interval_kind(*prev, *now),
        final(corrected)@ == corrected_after(*prev, *now, auto_scale, old(corrected)@),
{
    let d_enabled = now.time_enabled.saturating_sub(prev.time_enabled);
    let d_running = now.time_running.saturating_sub(prev.time_running);

    if d_enabled == 0 {
        return Interval::Idle;
    }
    if d_running == 0 {
        return Interval::Starved;
    }
    let multiplexed = d_running < d_enabled;
    let n = corrected.len();
    let ghost totals = corrected@;
    let mut i: usize = 0;
    while i < n
        invariant
            n == corrected@.len(),
            n == totals.len(),
            0 <= i <= n,
            prev.values@.len() >= n,
            now.values@.len() >= n,
            d_enabled as int == enabled_delta(*prev, *now),
            d_running as int == running_delta(*prev, *now),
            d_running > 0,
            multiplexed == (d_running < d_enabled),
            fits_in_u128(*prev, *now, auto_scale, n as nat),
            forall|j: int|
                0 <= j < i ==> corrected@[j] == sat_total(
                    totals[j] as int,
                    contribution(*prev, *now, auto_scale, j),
                ) as u64,
            forall|j: int| i <= j < n ==> corrected@[j] == totals[j],
        decreases n - i,
    {
        let delta = now.values[i].saturating_sub(prev.values[i]) as u128;
        assert(delta as int == raw_delta(*prev, *now, i as int));
        let contribution: u128 = if multiplexed && auto_scale {
            assert(raw_delta(*prev, *now, i as int) * enabled_delta(*prev, *now) <= u128::MAX);
            delta * d_enabled / d_running
        } else {
            delta
        };
        let capped: u64 = if contribution > u64::MAX as u128 {
            u64::MAX
        } else {
            contribution as u64
        };
        let total = corrected[i];
        corrected.set(i, total.saturating_add(capped));
        i = i + 1;
    }
    assert(corrected@ =~= corrected_after(*prev, *now, auto_scale, totals));
    if multiplexed {
        Interval::Multiplexed { running: d_running, enabled: d_enabled }
    } else {
        Interval::Exact
    }
}

/// Multiplexing correction state of one group.
///
/// The kernel schedules a group atomically, so every counter of a group shares the same
/// `time_enabled`/`time_running`, and a single correction applies to all of them.
#[derive(Debug)]
pub struct Scaling {
    /// Previous read. Starts at zero, so the first poll is an interval like any other.
    prev: Snapshot,
    /// Corrected cumulative value of each counter.
    corrected: Vec<u64>,
    /// Faithfulness of the reported values so far. Only ever degrades.
    accuracy: Accuracy,
}

impl Scaling {
    #[verifier::type_invariant]
    spec fn well_formed(self) -> bool {
        self.prev.values@.len() >= self.corrected@.len()
    }

    /// The previous read.
    pub closed spec fn previous(self) -> Snapshot {
        self.prev
    }

    /// The corrected cumulative value of each counter.
    pub closed spec fn totals(self) -> Seq<u64> {
        self.corrected@
    }

    /// The accuracy of the values reported so far.
    pub closed spec fn accuracy_so_far(self) -> Accuracy {
        self.accuracy
    }

    /// Number of counters of the group.
    pub open spec fn n_counters(self) -> nat {
        self.totals().len()
    }

    /// The state of a freshly enabled group of `n_counters` counters: nothing counted yet.
    pub fn new(n_counters: usize) -> (s: Self)
        ensures
            s.totals() == Seq::new(n_counters as nat, |i: int| 0u64),
            s.previous().time_enabled == 0,
            s.previous().time_running == 0,
            s.previous().values@ == Seq::new(n_counters as nat, |i: int| 0u64),
            s.accuracy_so_far() == Accuracy::Exact,
    {
        let mut values: Vec<u64> = Vec::new();
        let mut corrected: Vec<u64> = Vec::new();
        let mut i: usize = 0;
        while i < n_counters
            invariant
                0 <= i <= n_counters,
                values@ == Seq::new(i as nat, |j: int| 0u64),
                corrected@ == Seq::new(i as nat, |j: int| 0u64),
            decreases n_counters - i,
        {
            values.push(0);
            corrected.push(0);
            i = i + 1;
        }
        Self {
            prev: Snapshot { time_enabled: 0, time_running: 0, values },
            corrected,
            accuracy: Accuracy::Exact,
        }
    }

    /// Corrected cumulative value of each counter, in the same order as the group's counters.
    pub fn corrected(&self) -> (c: &[u64])
        ensures
            c@ == self.totals(),
    {
        self.corrected.as_slice()
    }

    /// Faithfulness of the reported values so far.
    pub fn accuracy(&self) -> (a: Accuracy)
        ensures
            a == self.accuracy_so_far(),
    {
        self.accuracy
    }

    /// Accounts for a new reading, updating the corrected totals, and returns what happened during
    /// the interval.
    ///
    /// The totals never decrease and the accuracy never improves.
    pub fn account(&mut self, now: Snapshot, auto_scale: bool) -> (r: Interval)
        requires
            now.values@.len() >= old(self).n_counters(),
            fits_in_u128(old(self).previous(), now, auto_scale, old(self).n_counters()),
        ensures
            r == interval_kind(old(self).previous(), now),
            final(self).totals() == corrected_after(
                old(self).previous(),
                now,
                auto_scale,
                old(self).totals(),
            ),
            final(self).accuracy_so_far() == worst(
                old(self).accuracy_so_far(),
                interval_accuracy(r, auto_scale),
            ),
            final(self).previous() == now,
            final(self).n_counters() == old(self).n_counters(),
            forall|i: int|
                0 <= i < old(self).n_counters() ==> #[trigger] final(self).totals()[i] >= old(
                    self,
                ).totals()[i],
            accuracy_rank(final(self).accuracy_so_far()) >= accuracy_rank(old(self).accuracy_so_far()),
    {
        proof {
            use_type_invariant(&*self);
        }
        let mut corrected: Vec<u64> = Vec::new();
        std::mem::swap(&mut corrected, &mut self.corrected);
        let interval = correct_interval(&self.prev, &now, auto_scale, &mut corrected);
        self.corrected = corrected;
        let interval_accuracy = match interval {
            Interval::Idle | Interval::Exact => Accuracy::Exact,
            Interval::Multiplexed { .. } => if auto_scale {
                Accuracy::Extrapolated
            } else {
                Accuracy::Underestimated
            },
            Interval::Starved => Accuracy::Underestimated,
        };
        self.accuracy = self.accuracy.worst_of(interval_accuracy);
        self.prev = now;
        interval
    }
}

} // verus!
