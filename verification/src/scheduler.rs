//! The transition scheduler: on every line-change event it computes target
//! values for the animated bounding box and the two text layers and
//! schedules eased transitions, all against one clock timestamp so
//! simultaneously scheduled variables stay phase-aligned.

use vstd::prelude::*;

use crate::animation::AnimationVariableSet;
use crate::animation::MAX_DURATION_MS;
use crate::animation::Transition;
use crate::animation::VALUE_LIMIT;
use crate::animation::Var;
use crate::animation::value_at;

verus! {

pub const DURATION_FADE_IN_MS: u64 = 100;

pub const DURATION_FADE_OUT_MS: u64 = 800;

pub const DURATION_SIZING_MS: u64 = 200;

pub const DURATION_SCROLLING_MS: u64 = 350;

/// Horizontal padding around the measured text box, in milli-units.
pub const PADDING_HORIZONTAL_MU: i64 = 10_000;

/// Vertical padding around the measured text box, in milli-units.
pub const PADDING_VERTICAL_MU: i64 = 5_000;

/// Full opacity, in milli-units.
pub const OPACITY_FULL_MU: i64 = 1000;

/// A measured text bounding box, in milli-units.
#[derive(Clone, Copy, Debug, PartialEq, Eq, Structural)]
pub struct TextSize {
    pub width_mu: i64,
    pub height_mu: i64,
}

/// The start value a newly scheduled transition gets: snapped to the final
/// value when the variable should skip animating while the box is hidden,
/// else the explicit initial value, else the variable's current value.
pub open spec fn scheduled_start_value(
    vars: AnimationVariableSet,
    var: Var,
    initial_value: Option<i64>,
    final_value: i64,
    skip_if_hidden: bool,
    time_now_ms: u64,
) -> int {
    if skip_if_hidden && value_at(vars.transition_of(Var::Opacity), time_now_ms) == 0 {
        final_value as int
    } else {
        match initial_value {
            Some(v) => v as int,
            None => value_at(vars.transition_of(var), time_now_ms),
        }
    }
}

/// Schedules one eased transition on `var`, starting at `time_now_ms`.
/// When no explicit initial value is given and the variable is already
/// headed for `final_value`, the call is a no-op, so duplicate events do
/// not restart a running animation.
pub fn transition_to(
    vars: &mut AnimationVariableSet,
    var: Var,
    duration_ms: u64,
    initial_value: Option<i64>,
    final_value: i64,
    skip_if_hidden: bool,
    accel_permille: u64,
    decel_permille: u64,
    time_now_ms: u64,
) -> (scheduled: bool)
    requires
        old(vars).wf(),
        -VALUE_LIMIT <= final_value <= VALUE_LIMIT,
        initial_value matches Some(v) ==> -VALUE_LIMIT <= v <= VALUE_LIMIT,
        accel_permille + decel_permille <= 1000,
        duration_ms <= MAX_DURATION_MS,
        time_now_ms <= u64::MAX - duration_ms,
    ensures
        final(vars).wf(),
        scheduled == !(initial_value is None
            && old(vars).transition_of(var).final_value == final_value),
        !scheduled ==> *final(vars) == *old(vars),
        scheduled ==> {
            let nt = final(vars).transition_of(var);
            &&& nt.start_value == scheduled_start_value(
                *old(vars), var, initial_value, final_value, skip_if_hidden, time_now_ms)
            &&& nt.final_value == final_value
            &&& nt.start_time_ms == time_now_ms
            &&& nt.duration_ms == duration_ms
            &&& nt.accel_permille == accel_permille
            &&& nt.decel_permille == decel_permille
        },
        forall|v: Var| v != var ==> final(vars).transition_of(v) == old(vars).transition_of(v),
{
    if initial_value.is_none() && vars.get_final_value(var) == final_value {
        return false;
    }
    assert(vars.transition_of(var).wf());
    assert(vars.transition_of(Var::Opacity).wf());
    let start_value: i64 = if skip_if_hidden && vars.get_value(Var::Opacity, time_now_ms) == 0 {
        final_value
    } else {
        match initial_value {
            Some(v) => v,
            None => vars.get_value(var, time_now_ms),
        }
    };
    let t = Transition {
        start_value,
        final_value,
        start_time_ms: time_now_ms,
        duration_ms,
        accel_permille,
        decel_permille,
    };
    vars.schedule(var, t);
    true
}

/// Reacts to one line-change event. A non-empty next line takes the show
/// path: fade the box in, resize it to the measured text box plus padding,
/// and scroll/crossfade the two text layers past each other. An absent or
/// empty next line takes the hide path: fade the box out slowly and leave
/// every other variable untouched. Size and offset variables snap straight
/// to their targets when the box is currently hidden.
pub fn schedule_transitions(
    vars: &mut AnimationVariableSet,
    line_next: Option<&String>,
    text_size: TextSize,
    window_height_mu: i64,
    time_now_ms: u64,
)
    requires
        old(vars).wf(),
        0 <= text_size.width_mu <= VALUE_LIMIT - 2 * PADDING_HORIZONTAL_MU,
        0 <= text_size.height_mu <= VALUE_LIMIT - 2 * PADDING_VERTICAL_MU,
        0 <= window_height_mu <= VALUE_LIMIT,
        time_now_ms <= u64::MAX - DURATION_FADE_OUT_MS,
    ensures
        final(vars).wf(),
        (line_next matches Some(t) && t@.len() > 0) ==> {
            let was_hidden =
                value_at(old(vars).transition_of(Var::Opacity), time_now_ms) == 0;
            let target_w = text_size.width_mu + 2 * PADDING_HORIZONTAL_MU;
            let target_h = text_size.height_mu + 2 * PADDING_VERTICAL_MU;
            let offset = window_height_mu as int / 3;
            &&& final(vars).transition_of(Var::Opacity) == (
                if old(vars).transition_of(Var::Opacity).final_value == OPACITY_FULL_MU {
                    old(vars).transition_of(Var::Opacity)
                } else {
                    Transition {
                        start_value: value_at(
                            old(vars).transition_of(Var::Opacity), time_now_ms) as i64,
                        final_value: OPACITY_FULL_MU,
                        start_time_ms: time_now_ms,
                        duration_ms: DURATION_FADE_IN_MS,
                        accel_permille: 1000,
                        decel_permille: 0,
                    }
                })
            &&& final(vars).transition_of(Var::BgWidth) == (
                if old(vars).transition_of(Var::BgWidth).final_value == target_w {
                    old(vars).transition_of(Var::BgWidth)
                } else {
                    Transition {
                        start_value: if was_hidden { target_w as i64 } else {
                            value_at(old(vars).transition_of(Var::BgWidth), time_now_ms) as i64
                        },
                        final_value: target_w as i64,
                        start_time_ms: time_now_ms,
                        duration_ms: DURATION_SIZING_MS,
                        accel_permille: 0,
                        decel_permille: 1000,
                    }
                })
            &&& final(vars).transition_of(Var::BgHeight) == (
                if old(vars).transition_of(Var::BgHeight).final_value == target_h {
                    old(vars).transition_of(Var::BgHeight)
                } else {
                    Transition {
                        start_value: if was_hidden { target_h as i64 } else {
                            value_at(old(vars).transition_of(Var::BgHeight), time_now_ms) as i64
                        },
                        final_value: target_h as i64,
                        start_time_ms: time_now_ms,
                        duration_ms: DURATION_SIZING_MS,
                        accel_permille: 0,
                        decel_permille: 1000,
                    }
                })
            &&& final(vars).transition_of(Var::LineCurrentOffset) == (Transition {
                start_value: if was_hidden { (-offset) as i64 } else { 0 },
                final_value: (-offset) as i64,
                start_time_ms: time_now_ms,
                duration_ms: DURATION_SCROLLING_MS,
                accel_permille: 0,
                decel_permille: 1000,
            })
            &&& final(vars).transition_of(Var::LineNextOffset) == (Transition {
                start_value: if was_hidden { 0 } else { offset as i64 },
                final_value: 0,
                start_time_ms: time_now_ms,
                duration_ms: DURATION_SCROLLING_MS,
                accel_permille: 0,
                decel_permille: 1000,
            })
            &&& final(vars).transition_of(Var::LineNextOpacity) == (Transition {
                start_value: if was_hidden { OPACITY_FULL_MU } else { 0 },
                final_value: OPACITY_FULL_MU,
                start_time_ms: time_now_ms,
                duration_ms: DURATION_SCROLLING_MS,
                accel_permille: 0,
                decel_permille: 1000,
            })
        },
        !(line_next matches Some(t) && t@.len() > 0) ==> {
            &&& final(vars).transition_of(Var::Opacity) == (
                if old(vars).transition_of(Var::Opacity).final_value == 0 {
                    old(vars).transition_of(Var::Opacity)
                } else {
                    Transition {
                        start_value: value_at(
                            old(vars).transition_of(Var::Opacity), time_now_ms) as i64,
                        final_value: 0,
                        start_time_ms: time_now_ms,
                        duration_ms: DURATION_FADE_OUT_MS,
                        accel_permille: 0,
                        decel_permille: 0,
                    }
                })
            &&& forall|v: Var| v != Var::Opacity
                ==> final(vars).transition_of(v) == old(vars).transition_of(v)
        },
{
    let show = match line_next {
        Some(t) => !t.as_str().is_empty(),
        None => false,
    };
    if show {
        transition_to(
            vars, Var::Opacity, DURATION_FADE_IN_MS, None, OPACITY_FULL_MU, false, 1000, 0,
            time_now_ms,
        );
        let target_w = text_size.width_mu + 2 * PADDING_HORIZONTAL_MU;
        transition_to(
            vars, Var::BgWidth, DURATION_SIZING_MS, None, target_w, true, 0, 1000, time_now_ms,
        );
        let target_h = text_size.height_mu + 2 * PADDING_VERTICAL_MU;
        transition_to(
            vars, Var::BgHeight, DURATION_SIZING_MS, None, target_h, true, 0, 1000, time_now_ms,
        );
        let offset = window_height_mu / 3;
        transition_to(
            vars, Var::LineCurrentOffset, DURATION_SCROLLING_MS, Some(0), -offset, true, 0, 1000,
            time_now_ms,
        );
        transition_to(
            vars, Var::LineNextOffset, DURATION_SCROLLING_MS, Some(offset), 0, true, 0, 1000,
            time_now_ms,
        );
        transition_to(
            vars, Var::LineNextOpacity, DURATION_SCROLLING_MS, Some(0), OPACITY_FULL_MU, true, 0,
            1000, time_now_ms,
        );
    } else {
        transition_to(
            vars, Var::Opacity, DURATION_FADE_OUT_MS, None, 0, false, 0, 0, time_now_ms,
        );
    }
}

} // verus!
