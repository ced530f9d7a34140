use aberred::generation::{generation_changed, Generation};
use aberred::camera_follow::EasingCurve;
use aberred::flags::{DebugMode, DebugOverlayConfig, DeterminismTaint, GuiInputState};
use aberred::gamestate::{GameState, GameStates, NextGameState, NextGameStates};
use aberred::group::TrackedGroups;

#[test]
fn default_enables_all_overlays() {
    let cfg = DebugOverlayConfig::default();
    assert!(cfg.show_collider_boxes);
    assert!(cfg.show_position_crosshairs);
    assert!(cfg.show_entity_signals);
    assert!(cfg.show_text_bounds);
    assert!(cfg.show_sprite_bounds);
}

#[test]
fn default_is_not_tainted() {
    assert!(!DeterminismTaint::default().is_tainted());
}

#[test]
fn taint_sets_flag_and_is_idempotent() {
    let mut taint = DeterminismTaint::default();
    taint.taint();
    assert!(taint.is_tainted());
    taint.taint();
    assert!(taint.is_tainted());
}

#[test]
fn test_guiinputstate_default_not_consumed() {
    let state = GuiInputState::default();
    assert!(!state.click_consumed_this_frame);
}

#[test]
fn default_easing_is_ease_out() {
    assert_eq!(EasingCurve::default(), EasingCurve::EaseOut);
}

#[test]
fn debug_mode_is_a_marker() {
    let mode = DebugMode {};
    let _copy = mode.clone();
}

#[test]
fn game_state_starts_unset_and_takes_what_is_set() {
    let mut state = GameState::new();
    assert_eq!(*state.get(), GameStates::Unset);
    state.set(GameStates::Playing);
    assert_eq!(*state.get(), GameStates::Playing);
    state.set(GameStates::Quitting);
    assert_eq!(*state.get(), GameStates::Quitting);
    assert_eq!(GameStates::default(), GameStates::Unset);
}

#[test]
fn next_game_state_request_is_pending_until_reset() {
    let mut next = NextGameState::new();
    assert_eq!(*next.get(), NextGameStates::Unchanged);
    next.set(GameStates::Setup);
    assert_eq!(*next.get(), NextGameStates::Pending(GameStates::Setup));
    next.set(GameStates::Playing);
    assert_eq!(*next.get(), NextGameStates::Pending(GameStates::Playing));
    next.reset();
    assert_eq!(*next.get(), NextGameStates::Unchanged);
    assert_eq!(NextGameStates::default(), NextGameStates::Unchanged);
}

#[test]
fn has_tracked_group_true_for_tracked_false_for_missing() {
    let mut groups = TrackedGroups::default();
    groups.add_group("enemies");
    assert!(groups.has_group("enemies"));
    assert!(!groups.has_group("missing"));
}

#[test]
fn tracked_groups_are_a_set() {
    let mut groups = TrackedGroups::default().with("a").with("b").with("a");
    assert_eq!(groups.iter().len(), 2);
    groups.remove_group("a");
    assert!(!groups.has_group("a"));
    assert!(groups.has_group("b"));
    groups.remove_group("zzz");
    assert_eq!(groups.iter(), &["b".to_string()]);
}

#[test]
fn taint_stays_set_over_later_calls() {
    let mut taint = DeterminismTaint::default();
    assert!(!taint.is_tainted());
    assert!(!taint.is_tainted());
    taint.taint();
    let copy = taint;
    assert!(copy.is_tainted());
    assert!(taint.is_tainted());
    taint.taint();
    assert!(taint.is_tainted());
}

#[test]
fn generation_counts_bumps_and_reader_sees_changes() {
    let mut g = Generation::new();
    assert_eq!(g.get(), 0);
    let mut seen = 0u64;
    assert!(!generation_changed(&mut seen, g.get()));
    g.bump();
    g.bump();
    assert_eq!(g.get(), 2);
    assert!(generation_changed(&mut seen, g.get()));
    assert_eq!(seen, 2);
    assert!(!generation_changed(&mut seen, g.get()));
}
