use ilyrics::AnimationVariableSet;
use ilyrics::TextSize;
use ilyrics::Var;
use ilyrics::schedule_transitions;
use ilyrics::transition_to;

const SIZE: TextSize = TextSize { width_mu: 100_000, height_mu: 30_000 };
const WINDOW_HEIGHT_MU: i64 = 90_000;

#[test]
fn scheduling_the_current_final_value_is_a_no_op() {
    let mut vars = AnimationVariableSet::new();
    // Every variable starts headed for 0, so a transition to 0 without an
    // initial-value override schedules nothing.
    let scheduled = transition_to(&mut vars, Var::Opacity, 800, None, 0, false, 0, 0, 50);
    assert!(!scheduled);
    assert_eq!(vars.get_final_value(Var::Opacity), 0);
    assert_eq!(vars.get_value(Var::Opacity, 50), 0);

    let scheduled = transition_to(&mut vars, Var::Opacity, 100, None, 1000, false, 0, 1000, 50);
    assert!(scheduled);
    // Repeating the same target is again a no-op...
    let scheduled = transition_to(&mut vars, Var::Opacity, 100, None, 1000, false, 0, 1000, 90);
    assert!(!scheduled);
    // ...unless an explicit initial value is given.
    let scheduled =
        transition_to(&mut vars, Var::Opacity, 100, Some(0), 1000, false, 0, 1000, 90);
    assert!(scheduled);
    assert_eq!(vars.get_value(Var::Opacity, 90), 0);
}

#[test]
fn show_path_targets_measured_size_plus_padding() {
    let mut vars = AnimationVariableSet::new();
    let next = String::from("Hello");
    schedule_transitions(&mut vars, Some(&next), SIZE, WINDOW_HEIGHT_MU, 1000);
    assert_eq!(vars.get_final_value(Var::Opacity), 1000);
    assert_eq!(vars.get_final_value(Var::BgWidth), 120_000);
    assert_eq!(vars.get_final_value(Var::BgHeight), 40_000);
    assert_eq!(vars.get_final_value(Var::LineCurrentOffset), -30_000);
    assert_eq!(vars.get_final_value(Var::LineNextOffset), 0);
    assert_eq!(vars.get_final_value(Var::LineNextOpacity), 1000);
}

#[test]
fn size_and_offset_variables_snap_while_hidden() {
    let mut vars = AnimationVariableSet::new();
    let next = String::from("Hello");
    // Opacity is 0 at scheduling time, so sizes and offsets snap straight
    // to their targets instead of animating an invisible box.
    schedule_transitions(&mut vars, Some(&next), SIZE, WINDOW_HEIGHT_MU, 1000);
    assert_eq!(vars.get_value(Var::BgWidth, 1000), 120_000);
    assert_eq!(vars.get_value(Var::BgHeight, 1000), 40_000);
    assert_eq!(vars.get_value(Var::LineCurrentOffset, 1000), -30_000);
    assert_eq!(vars.get_value(Var::LineNextOffset, 1000), 0);
    assert_eq!(vars.get_value(Var::LineNextOpacity, 1000), 1000);
    // Opacity itself still fades in over its duration, accelerating: at
    // half time it has covered a quarter of the way.
    assert_eq!(vars.get_value(Var::Opacity, 1000), 0);
    assert_eq!(vars.get_value(Var::Opacity, 1050), 250);
    assert_eq!(vars.get_value(Var::Opacity, 1100), 1000);
}

#[test]
fn size_animates_once_visible() {
    let mut vars = AnimationVariableSet::new();
    let first = String::from("Hello");
    schedule_transitions(&mut vars, Some(&first), SIZE, WINDOW_HEIGHT_MU, 0);
    // After the fade-in the box is visible; a wider line now animates.
    let second = String::from("Hello again");
    let wider = TextSize { width_mu: 200_000, height_mu: 30_000 };
    schedule_transitions(&mut vars, Some(&second), wider, WINDOW_HEIGHT_MU, 5000);
    assert_eq!(vars.get_value(Var::BgWidth, 5000), 120_000);
    assert_eq!(vars.get_final_value(Var::BgWidth), 220_000);
    assert_eq!(vars.get_value(Var::BgWidth, 5200), 220_000);
}

#[test]
fn hide_path_only_fades_the_box_out() {
    let mut vars = AnimationVariableSet::new();
    let next = String::from("Hello");
    schedule_transitions(&mut vars, Some(&next), SIZE, WINDOW_HEIGHT_MU, 0);
    schedule_transitions(&mut vars, None, SIZE, WINDOW_HEIGHT_MU, 2000);
    assert_eq!(vars.get_final_value(Var::Opacity), 0);
    assert_eq!(vars.get_value(Var::Opacity, 2800), 0);
    // The box disappears without resizing: the size targets are untouched.
    assert_eq!(vars.get_final_value(Var::BgWidth), 120_000);
    assert_eq!(vars.get_final_value(Var::BgHeight), 40_000);
}

#[test]
fn empty_next_line_takes_the_hide_path() {
    let mut vars = AnimationVariableSet::new();
    let shown = String::from("Hello");
    schedule_transitions(&mut vars, Some(&shown), SIZE, WINDOW_HEIGHT_MU, 0);
    let blank = String::new();
    schedule_transitions(&mut vars, Some(&blank), SIZE, WINDOW_HEIGHT_MU, 2000);
    assert_eq!(vars.get_final_value(Var::Opacity), 0);
}

#[test]
fn fade_out_is_linear() {
    let mut vars = AnimationVariableSet::new();
    let next = String::from("Hello");
    schedule_transitions(&mut vars, Some(&next), SIZE, WINDOW_HEIGHT_MU, 0);
    // Fully visible at 1000; fade out over 800 ms, linear: halfway down
    // after 400 ms.
    schedule_transitions(&mut vars, None, SIZE, WINDOW_HEIGHT_MU, 2000);
    assert_eq!(vars.get_value(Var::Opacity, 2000), 1000);
    assert_eq!(vars.get_value(Var::Opacity, 2400), 500);
    assert_eq!(vars.get_value(Var::Opacity, 2800), 0);
}
