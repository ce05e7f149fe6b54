//! The animation variable set: six named scalar variables, each carrying
//! one active transition that interpolates from a start value to a final
//! value along an accelerate/decelerate curve. Values are fixed-point
//! milli-units (one thousandth of a display unit), read by the renderer
//! once per frame and written only by the transition scheduler.

use vstd::prelude::*;
use vstd::arithmetic::div_mod::lemma_div_is_ordered;
use vstd::arithmetic::div_mod::lemma_div_multiples_vanish;
use vstd::arithmetic::div_mod::lemma_div_pos_is_pos;
use vstd::arithmetic::mul::lemma_mul_inequality;

verus! {

/// Magnitude bound on every animation value, in milli-units; keeps the
/// interpolation arithmetic inside `i64`.
pub const VALUE_LIMIT: i64 = 1_000_000_000_000;

/// Bound on a transition's duration, in milliseconds.
pub const MAX_DURATION_MS: u64 = 1_000_000_000;

/// The six animation variables of the overlay window.
#[derive(Clone, Copy, Debug, PartialEq, Eq, Structural)]
pub enum Var {
    Opacity,
    BgWidth,
    BgHeight,
    LineCurrentOffset,
    LineNextOffset,
    LineNextOpacity,
}

/// One eased interpolation of a variable: from `start_value` at
/// `start_time_ms` to `final_value` at `start_time_ms + duration_ms`,
/// accelerating over the first `accel_permille` and decelerating over the
/// last `decel_permille` of its normalized time.
#[derive(Clone, Copy, Debug, PartialEq, Eq, Structural)]
pub struct Transition {
    pub start_value: i64,
    pub final_value: i64,
    pub start_time_ms: u64,
    pub duration_ms: u64,
    pub accel_permille: u64,
    pub decel_permille: u64,
}

impl Transition {
    /// Bounds under which evaluation stays exact and in range.
    pub open spec fn wf(&self) -> bool {
        &&& -VALUE_LIMIT <= self.start_value <= VALUE_LIMIT
        &&& -VALUE_LIMIT <= self.final_value <= VALUE_LIMIT
        &&& self.accel_permille + self.decel_permille <= 1000
        &&& self.duration_ms <= MAX_DURATION_MS
        &&& self.start_time_ms <= u64::MAX - self.duration_ms
    }

    /// A transition that holds `value` constant.
    pub fn constant(value: i64) -> (r: Transition)
        requires
            -VALUE_LIMIT <= value <= VALUE_LIMIT,
        ensures
            r == (Transition {
                start_value: value,
                final_value: value,
                start_time_ms: 0,
                duration_ms: 0,
                accel_permille: 0,
                decel_permille: 0,
            }),
            r.wf(),
    {
        Transition {
            start_value: value,
            final_value: value,
            start_time_ms: 0,
            duration_ms: 0,
            accel_permille: 0,
            decel_permille: 0,
        }
    }
}

/// Normalized progress of the accelerate/decelerate curve, in permille:
/// a quadratic ramp up over the acceleration phase, a linear middle, and a
/// quadratic ramp down over the deceleration phase, clamped to [0, 1000].
pub open spec fn eased_progress_permille(x: int, accel: int, decel: int) -> int
    recommends
        0 <= x <= 1000,
        0 <= accel,
        0 <= decel,
        accel + decel <= 1000,
{
    let span = 2000 - accel - decel;
    let p = if x < accel {
        1000 * x * x / (span * accel)
    } else if x <= 1000 - decel {
        1000 * (2 * x - accel) / span
    } else {
        1000 - 1000 * (1000 - x) * (1000 - x) / (span * decel)
    };
    if p < 0 {
        0
    } else if p > 1000 {
        1000
    } else {
        p
    }
}

/// Progress of `t` at clock time `now_ms`, in permille: zero before the
/// transition starts, full once its duration has elapsed, eased in between.
pub open spec fn progress_at(t: Transition, now_ms: u64) -> int
    recommends
        t.wf(),
{
    if now_ms <= t.start_time_ms {
        0
    } else if now_ms - t.start_time_ms >= t.duration_ms {
        1000
    } else {
        let x = 1000 * (now_ms - t.start_time_ms) / t.duration_ms as int;
        eased_progress_permille(x, t.accel_permille as int, t.decel_permille as int)
    }
}

/// The value of `t` at clock time `now_ms`: the start value moved toward
/// the final value by the eased progress.
pub open spec fn value_at(t: Transition, now_ms: u64) -> int
    recommends
        t.wf(),
{
    let p = progress_at(t, now_ms);
    if t.final_value >= t.start_value {
        t.start_value + (t.final_value - t.start_value) * p / 1000
    } else {
        t.start_value - (t.start_value - t.final_value) * p / 1000
    }
}

fn eased_progress(x: u64, accel: u64, decel: u64) -> (r: u64)
    requires
        x <= 1000,
        accel + decel <= 1000,
    ensures
        r == eased_progress_permille(x as int, accel as int, decel as int),
        r <= 1000,
{
    let span = 2000 - accel - decel;
    let p: u64 = if x < accel {
        assert(1000 * x * x <= 1000 * 1000 * 1000) by (nonlinear_arith)
            requires x <= 1000;
        assert(1 <= span * accel <= 2000 * 1000) by (nonlinear_arith)
            requires 1000 <= span <= 2000, 1 <= accel <= 1000;
        1000 * x * x / (span * accel)
    } else if x <= 1000 - decel {
        1000 * (2 * x - accel) / span
    } else {
        assert(1000 * (1000 - x) * (1000 - x) <= 1000 * 1000 * 1000) by (nonlinear_arith)
            requires x <= 1000;
        assert(1 <= span * decel <= 2000 * 1000) by (nonlinear_arith)
            requires 1000 <= span <= 2000, 1 <= decel <= 1000;
        let q = 1000 * (1000 - x) * (1000 - x) / (span * decel);
        if q >= 1000 {
            assert(eased_progress_permille(x as int, accel as int, decel as int) == 0);
            return 0;
        }
        1000 - q
    };
    if p > 1000 {
        1000
    } else {
        p
    }
}

/// Evaluates one transition. The result stays between the transition's
/// start and final values, sits at the start value before the transition
/// begins, and reaches the final value exactly once the duration elapses.
pub fn eval_transition(t: &Transition, now_ms: u64) -> (r: i64)
    requires
        t.wf(),
    ensures
        r == value_at(*t, now_ms),
        t.start_value <= t.final_value ==> t.start_value <= r <= t.final_value,
        t.final_value <= t.start_value ==> t.final_value <= r <= t.start_value,
        now_ms <= t.start_time_ms && t.duration_ms > 0 ==> r == t.start_value,
        now_ms > t.start_time_ms && now_ms - t.start_time_ms >= t.duration_ms
            ==> r == t.final_value,
{
    let p: u64 = if now_ms <= t.start_time_ms {
        0
    } else if now_ms - t.start_time_ms >= t.duration_ms {
        1000
    } else {
        let x = 1000 * (now_ms - t.start_time_ms) / t.duration_ms;
        proof {
            lemma_mul_inequality(
                (now_ms - t.start_time_ms) as int,
                (t.duration_ms - 1) as int,
                1000,
            );
            lemma_div_is_ordered(
                1000 * (now_ms - t.start_time_ms),
                1000 * (t.duration_ms - 1) as int,
                t.duration_ms as int,
            );
            lemma_div_is_ordered(
                1000 * (t.duration_ms - 1) as int,
                1000 * t.duration_ms as int,
                t.duration_ms as int,
            );
            lemma_div_multiples_vanish(1000, t.duration_ms as int);
        }
        eased_progress(x, t.accel_permille, t.decel_permille)
    };
    let (magnitude, rising): (u64, bool) = if t.final_value >= t.start_value {
        ((t.final_value - t.start_value) as u64, true)
    } else {
        ((t.start_value - t.final_value) as u64, false)
    };
    proof {
        assert(0 <= magnitude * p <= magnitude * 1000) by (nonlinear_arith)
            requires p <= 1000, magnitude >= 0;
        lemma_div_is_ordered(magnitude as int * p as int, magnitude as int * 1000, 1000);
        lemma_div_multiples_vanish(magnitude as int, 1000);
        assert(magnitude as int * 1000 == 1000 * magnitude as int);
        lemma_div_pos_is_pos(magnitude as int * p as int, 1000);
    }
    let step = magnitude * p / 1000;
    if rising {
        t.start_value + (step as i64)
    } else {
        t.start_value - (step as i64)
    }
}

/// The per-window set of animation variables, each holding its one active
/// transition; scheduling a variable replaces its transition wholesale.
pub struct AnimationVariableSet {
    opacity: Transition,
    bg_width: Transition,
    bg_height: Transition,
    line_current_offset: Transition,
    line_next_offset: Transition,
    line_next_opacity: Transition,
}

impl AnimationVariableSet {
    /// The active transition of `var`.
    pub closed spec fn transition_of(&self, var: Var) -> Transition {
        match var {
            Var::Opacity => self.opacity,
            Var::BgWidth => self.bg_width,
            Var::BgHeight => self.bg_height,
            Var::LineCurrentOffset => self.line_current_offset,
            Var::LineNextOffset => self.line_next_offset,
            Var::LineNextOpacity => self.line_next_opacity,
        }
    }

    pub open spec fn wf(&self) -> bool {
        forall|v: Var| self.transition_of(v).wf()
    }

    /// All six variables start out holding zero.
    pub fn new() -> (r: AnimationVariableSet)
        ensures
            r.wf(),
            forall|v: Var| r.transition_of(v) == (Transition {
                start_value: 0,
                final_value: 0,
                start_time_ms: 0,
                duration_ms: 0,
                accel_permille: 0,
                decel_permille: 0,
            }),
    {
        let zero = Transition::constant(0);
        AnimationVariableSet {
            opacity: zero,
            bg_width: zero,
            bg_height: zero,
            line_current_offset: zero,
            line_next_offset: zero,
            line_next_opacity: zero,
        }
    }

    /// The current value of `var` at clock time `now_ms`: a pure read.
    pub fn get_value(&self, var: Var, now_ms: u64) -> (r: i64)
        requires
            self.wf(),
        ensures
            r == value_at(self.transition_of(var), now_ms),
            ({
                let t = self.transition_of(var);
                (t.start_value <= r <= t.final_value) || (t.final_value <= r <= t.start_value)
            }),
    {
        assert(self.transition_of(var).wf());
        match var {
            Var::Opacity => eval_transition(&self.opacity, now_ms),
            Var::BgWidth => eval_transition(&self.bg_width, now_ms),
            Var::BgHeight => eval_transition(&self.bg_height, now_ms),
            Var::LineCurrentOffset => eval_transition(&self.line_current_offset, now_ms),
            Var::LineNextOffset => eval_transition(&self.line_next_offset, now_ms),
            Var::LineNextOpacity => eval_transition(&self.line_next_opacity, now_ms),
        }
    }

    /// The final value the variable's active transition is headed for.
    pub fn get_final_value(&self, var: Var) -> (r: i64)
        ensures
            r == self.transition_of(var).final_value,
    {
        match var {
            Var::Opacity => self.opacity.final_value,
            Var::BgWidth => self.bg_width.final_value,
            Var::BgHeight => self.bg_height.final_value,
            Var::LineCurrentOffset => self.line_current_offset.final_value,
            Var::LineNextOffset => self.line_next_offset.final_value,
            Var::LineNextOpacity => self.line_next_opacity.final_value,
        }
    }

    /// Replaces the active transition of `var`; the other variables keep
    /// theirs.
    pub fn schedule(&mut self, var: Var, t: Transition)
        requires
            old(self).wf(),
            t.wf(),
        ensures
            final(self).wf(),
            final(self).transition_of(var) == t,
            forall|v: Var| v != var ==> final(self).transition_of(v)
                == old(self).transition_of(v),
    {
        match var {
            Var::Opacity => self.opacity = t,
            Var::BgWidth => self.bg_width = t,
            Var::BgHeight => self.bg_height = t,
            Var::LineCurrentOffset => self.line_current_offset = t,
            Var::LineNextOffset => self.line_next_offset = t,
            Var::LineNextOpacity => self.line_next_opacity = t,
        }
        proof {
            assert forall|v: Var| #[trigger] self.transition_of(v).wf() by {
                if v != var {
                    assert(self.transition_of(v) == old(self).transition_of(v));
                }
            }
        }
    }
}

} // verus!
