//! The playback-position estimator. The player reports its position with
//! coarse granularity and intermittent staleness, so the estimator assumes
//! linear progression since the last distinct sample, capped at one second
//! of extrapolation, and adds a fixed offset that compensates a known
//! reporting delay.

use vstd::prelude::*;

verus! {

/// Fixed compensation added to every raw reading, in milliseconds.
pub const REPORT_DELAY_MS: u64 = 350;

/// Extrapolation past the last distinct sample stops after this long.
pub const MAX_EXTRAPOLATION_MS: u64 = 1000;

/// The raw reading with the reporting-delay compensation applied.
pub open spec fn adjusted_raw(raw: Option<u64>) -> Option<u64> {
    match raw {
        None => None,
        Some(r) => Some((r + REPORT_DELAY_MS) as u64),
    }
}

/// Turns raw, occasionally-stale player position samples into a continuously
/// advancing estimate. `observe` is called once per poll tick; `estimate`
/// may be read at any clock time at or after the last observation.
pub struct PositionEstimator {
    last_raw: Option<u64>,
    observed_at_ms: u64,
}

impl PositionEstimator {
    /// The adjusted raw value the estimate extrapolates from, or `None`
    /// while the player reports no position.
    pub closed spec fn baseline(&self) -> Option<u64> {
        self.last_raw
    }

    /// The clock time at which the baseline was last reset.
    pub closed spec fn baseline_observed_at(&self) -> u64 {
        self.observed_at_ms
    }

    /// The baseline leaves headroom for the extrapolation cap.
    pub open spec fn wf(&self) -> bool {
        self.baseline() matches Some(b) ==> b <= u64::MAX - MAX_EXTRAPOLATION_MS
    }

    /// The state after observing a raw sample at clock time `now_ms`: a
    /// sample distinct from the previous one resets the baseline.
    pub closed spec fn observed(self, raw_position_ms: Option<u64>, now_ms: u64) -> PositionEstimator {
        if adjusted_raw(raw_position_ms) == self.baseline() {
            self
        } else {
            PositionEstimator { last_raw: adjusted_raw(raw_position_ms), observed_at_ms: now_ms }
        }
    }

    /// The estimate at clock time `now`: the baseline plus the time since it
    /// was observed, capped at `MAX_EXTRAPOLATION_MS`.
    pub open spec fn estimate_spec(&self, now_ms: u64) -> Option<u64>
        recommends
            self.wf(),
            now_ms >= self.baseline_observed_at(),
    {
        match self.baseline() {
            None => None,
            Some(b) => {
                let elapsed = now_ms - self.baseline_observed_at();
                if elapsed <= MAX_EXTRAPOLATION_MS {
                    Some((b + elapsed) as u64)
                } else {
                    Some((b + MAX_EXTRAPOLATION_MS) as u64)
                }
            },
        }
    }

    /// A fresh estimator with no baseline.
    pub fn new(now_ms: u64) -> (r: PositionEstimator)
        ensures
            r.wf(),
            r.baseline() is None,
            r.baseline_observed_at() == now_ms,
    {
        PositionEstimator { last_raw: None, observed_at_ms: now_ms }
    }

    /// Feeds one poll tick's raw reading (`None` when nothing is playing).
    /// A reading distinct from the previous one resets the baseline to now.
    pub fn observe(&mut self, raw_position_ms: Option<u64>, now_ms: u64)
        requires
            old(self).wf(),
            raw_position_ms matches Some(r)
                ==> r <= u64::MAX - REPORT_DELAY_MS - MAX_EXTRAPOLATION_MS,
        ensures
            *final(self) == old(self).observed(raw_position_ms, now_ms),
            final(self).wf(),
            final(self).baseline() == adjusted_raw(raw_position_ms),
            final(self).baseline_observed_at() == (
                if adjusted_raw(raw_position_ms) == old(self).baseline() {
                    old(self).baseline_observed_at()
                } else {
                    now_ms
                }),
    {
        let adjusted = match raw_position_ms {
            None => None,
            Some(r) => Some(r + REPORT_DELAY_MS),
        };
        let same = match (&adjusted, &self.last_raw) {
            (None, None) => true,
            (Some(a), Some(b)) => *a == *b,
            _ => false,
        };
        if !same {
            self.last_raw = adjusted;
            self.observed_at_ms = now_ms;
        }
    }

    /// The current estimate, or `None` while the player reports no position.
    /// The result never runs more than `MAX_EXTRAPOLATION_MS` past the
    /// baseline, however long the raw reading stalls.
    pub fn estimate(&self, now_ms: u64) -> (r: Option<u64>)
        requires
            self.wf(),
            now_ms >= self.baseline_observed_at(),
        ensures
            r == self.estimate_spec(now_ms),
            r matches Some(v) ==> {
                &&& self.baseline() matches Some(b)
                &&& b <= v <= b + MAX_EXTRAPOLATION_MS
            },
    {
        match self.last_raw {
            None => None,
            Some(b) => {
                let elapsed = now_ms - self.observed_at_ms;
                if elapsed <= MAX_EXTRAPOLATION_MS {
                    Some(b + elapsed)
                } else {
                    Some(b + MAX_EXTRAPOLATION_MS)
                }
            },
        }
    }
}

/// Law: however long the raw reading stalls, the estimate never runs more
/// than `MAX_EXTRAPOLATION_MS` past the baseline it extrapolates from.
pub proof fn lemma_extrapolation_capped(est: PositionEstimator, now_ms: u64)
    requires
        est.wf(),
        now_ms >= est.baseline_observed_at(),
    ensures
        est.estimate_spec(now_ms) matches Some(v)
            ==> est.baseline() matches Some(b) && v <= b + MAX_EXTRAPOLATION_MS,
{
}

/// Law: while no new sample arrives, the estimate never decreases as the
/// clock advances.
pub proof fn lemma_estimate_monotone_in_time(est: PositionEstimator, now1: u64, now2: u64)
    requires
        est.wf(),
        est.baseline_observed_at() <= now1 <= now2,
    ensures
        est.estimate_spec(now1) matches Some(v1)
            ==> est.estimate_spec(now2) matches Some(v2) && v1 <= v2,
{
}

/// Law: observing a raw sample equal to the previous one leaves the
/// estimator unchanged, so a stalled reading cannot move the estimate.
pub proof fn lemma_observe_unchanged(est: PositionEstimator, raw: Option<u64>, now_ms: u64)
    requires
        adjusted_raw(raw) == est.baseline(),
    ensures
        est.observed(raw, now_ms) == est,
{
}

/// Law: a new distinct sample whose adjusted value has caught up with the
/// current estimate keeps the estimate non-decreasing across the reset.
/// Together with the two laws above this makes the estimate non-decreasing
/// along any run whose raw samples advance at least as fast as the clock.
pub proof fn lemma_estimate_monotone_across_observe(
    est: PositionEstimator,
    raw: Option<u64>,
    now_ms: u64,
    later_ms: u64,
)
    requires
        est.wf(),
        raw matches Some(r) ==> r <= u64::MAX - REPORT_DELAY_MS - MAX_EXTRAPOLATION_MS,
        est.baseline_observed_at() <= now_ms <= later_ms,
        est.estimate_spec(now_ms) matches Some(v) ==> adjusted_raw(raw) matches Some(a) && a >= v,
    ensures
        est.estimate_spec(now_ms) matches Some(v) ==> {
            &&& est.observed(raw, now_ms).estimate_spec(later_ms) matches Some(w)
            &&& w >= v
        },
{
    if est.estimate_spec(now_ms) is Some {
        let next = est.observed(raw, now_ms);
        if adjusted_raw(raw) == est.baseline() {
            lemma_estimate_monotone_in_time(est, now_ms, later_ms);
        } else {
            assert(next.baseline_observed_at() == now_ms);
            lemma_estimate_monotone_in_time(next, now_ms, later_ms);
        }
    }
}

/// The estimator after a run of poll ticks, each a raw reading paired with
/// the clock time it arrived at.
pub open spec fn estimator_after(
    est: PositionEstimator,
    samples: Seq<(u64, u64)>,
) -> PositionEstimator
    decreases samples.len(),
{
    if samples.len() == 0 {
        est
    } else {
        estimator_after(est.observed(Some(samples[0].0), samples[0].1), samples.drop_first())
    }
}

/// The run is well-timed (each tick at or after the previous one, the first
/// at or after `start_ms`) and every raw reading has caught up with the
/// estimate at its arrival: its adjusted value is at least the estimate.
pub open spec fn run_catches_up(
    est: PositionEstimator,
    start_ms: u64,
    samples: Seq<(u64, u64)>,
) -> bool
    decreases samples.len(),
{
    samples.len() == 0 || {
        let raw = samples[0].0;
        let t = samples[0].1;
        &&& start_ms <= t
        &&& raw <= u64::MAX - REPORT_DELAY_MS - MAX_EXTRAPOLATION_MS
        &&& (est.estimate_spec(t) matches Some(v) ==> raw + REPORT_DELAY_MS >= v)
        &&& run_catches_up(est.observed(Some(raw), t), t, samples.drop_first())
    }
}

/// Law: along any run of samples whose raw readings advance at least as
/// fast as the estimate, the estimate never decreases: what it showed when
/// the run began bounds from below what it shows when the run ends.
pub proof fn lemma_estimate_monotone_along_run(
    est: PositionEstimator,
    start_ms: u64,
    samples: Seq<(u64, u64)>,
    end_ms: u64,
)
    requires
        est.wf(),
        est.baseline_observed_at() <= start_ms,
        run_catches_up(est, start_ms, samples),
        samples.len() > 0 ==> samples.last().1 <= end_ms,
        samples.len() == 0 ==> start_ms <= end_ms,
    ensures
        estimator_after(est, samples).wf(),
        estimator_after(est, samples).baseline_observed_at() <= end_ms,
        est.estimate_spec(start_ms) matches Some(v0)
            ==> estimator_after(est, samples).estimate_spec(end_ms) matches Some(v1) && v1 >= v0,
    decreases samples.len(),
{
    if samples.len() == 0 {
        lemma_estimate_monotone_in_time(est, start_ms, end_ms);
    } else {
        let raw = samples[0].0;
        let t = samples[0].1;
        let stepped = est.observed(Some(raw), t);
        lemma_estimate_monotone_in_time(est, start_ms, t);
        lemma_estimate_monotone_across_observe(est, Some(raw), t, t);
        assert(samples.drop_first().len() > 0
            ==> samples.drop_first().last() == samples.last());
        lemma_estimate_monotone_along_run(stepped, t, samples.drop_first(), end_ms);
    }
}

} // verus!
