use aberred::input::{BoolState, InputState};
use aberred::input_snapshot::{plan_input_table_update, DigitalButton, DigitalButtonState, InputSnapshot, InputTableUpdate};

fn every_field(input: &mut InputState) -> [&mut BoolState; 16] {
    [
        &mut input.maindirection_up,
        &mut input.maindirection_left,
        &mut input.maindirection_down,
        &mut input.maindirection_right,
        &mut input.secondarydirection_up,
        &mut input.secondarydirection_down,
        &mut input.secondarydirection_left,
        &mut input.secondarydirection_right,
        &mut input.action_back,
        &mut input.action_1,
        &mut input.action_2,
        &mut input.action_3,
        &mut input.mode_debug,
        &mut input.fullscreen_toggle,
        &mut input.action_special,
        &mut input.mouse_left_button,
    ]
}

#[test]
fn test_boolstate_default() {
    let bs = BoolState::default();
    assert!(!bs.active);
    assert!(!bs.just_pressed);
    assert!(!bs.just_released);
}

#[test]
fn test_inputstate_default_all_inactive() {
    let input = InputState::default();
    assert!(!input.maindirection_up.active);
    assert!(!input.maindirection_down.active);
    assert!(!input.maindirection_left.active);
    assert!(!input.maindirection_right.active);
    assert!(!input.secondarydirection_up.active);
    assert!(!input.secondarydirection_down.active);
    assert!(!input.secondarydirection_left.active);
    assert!(!input.secondarydirection_right.active);
    assert!(!input.action_back.active);
    assert!(!input.action_1.active);
    assert!(!input.action_2.active);
    assert!(!input.action_3.active);
    assert!(!input.mode_debug.active);
    assert!(!input.fullscreen_toggle.active);
    assert!(!input.action_special.active);
}

#[test]
fn test_inputstate_no_just_pressed_on_default() {
    let input = InputState::default();
    assert!(!input.maindirection_up.just_pressed);
    assert!(!input.action_1.just_pressed);
    assert!(!input.action_back.just_released);
}

#[test]
fn test_inputstate_mouse_left_button_default_inactive() {
    let input = InputState::default();
    assert!(!input.mouse_left_button.active);
    assert!(!input.mouse_left_button.just_pressed);
    assert!(!input.mouse_left_button.just_released);
}

#[test]
fn test_clear_edges_zeroes_every_field_but_keeps_active() {
    let mut input = InputState::default();
    for bs in every_field(&mut input) {
        bs.active = true;
        bs.just_pressed = true;
        bs.just_released = true;
    }

    input.clear_edges();

    for bs in every_field(&mut input) {
        assert!(bs.active, "active must be untouched by clear_edges");
        assert!(!bs.just_pressed, "just_pressed must be cleared");
        assert!(!bs.just_released, "just_released must be cleared");
    }
}

#[test]
fn test_clear_edge_leaves_active_untouched() {
    let mut bs = BoolState { active: true, just_pressed: true, just_released: true };
    bs.clear_edge();
    assert!(bs.active);
    assert!(!bs.just_pressed);
    assert!(!bs.just_released);
}

#[test]
fn force_inactive_keeps_just_released() {
    let mut bs = BoolState { active: true, just_pressed: true, just_released: true };
    bs.force_inactive();
    assert!(!bs.active);
    assert!(!bs.just_pressed);
    assert!(bs.just_released);
}

#[test]
fn apply_edge_accumulates_edges_and_takes_new_state() {
    let mut bs = BoolState::default();
    bs.apply_edge(false, true);
    assert!(bs.active && bs.just_pressed && !bs.just_released);
    bs.apply_edge(true, false);
    assert!(!bs.active && bs.just_pressed && bs.just_released);
    bs.clear_edge();
    bs.apply_edge(true, true);
    assert!(bs.active && !bs.just_pressed && !bs.just_released);
}

#[test]
fn test_from_default_input_all_unpressed() {
    let snap = InputSnapshot::from_input_state(&InputState::default());
    assert!(!snap.digital.up.pressed);
    assert!(!snap.digital.down.pressed);
    assert!(!snap.digital.left.pressed);
    assert!(!snap.digital.right.pressed);
    assert!(!snap.digital.action_1.pressed);
    assert!(!snap.digital.action_2.pressed);
    assert!(!snap.digital.back.pressed);
    assert!(!snap.digital.special.pressed);
}

#[test]
fn test_wasd_maps_to_directional() {
    let mut input = InputState::default();
    input.maindirection_up.active = true;
    input.maindirection_up.just_pressed = true;
    let snap = InputSnapshot::from_input_state(&input);
    assert!(snap.digital.up.pressed);
    assert!(snap.digital.up.just_pressed);
    assert!(!snap.digital.down.pressed);
}

#[test]
fn test_arrows_maps_to_directional() {
    let mut input = InputState::default();
    input.secondarydirection_left.active = true;
    let snap = InputSnapshot::from_input_state(&input);
    assert!(snap.digital.left.pressed);
    assert!(!snap.digital.right.pressed);
}

#[test]
fn test_combined_wasd_and_arrows() {
    let mut input = InputState::default();
    input.maindirection_up.active = false;
    input.secondarydirection_up.active = false;
    input.maindirection_up.just_pressed = false;
    input.secondarydirection_up.just_pressed = true;
    let snap = InputSnapshot::from_input_state(&input);
    assert!(!snap.digital.up.pressed);
    assert!(snap.digital.up.just_pressed);
}

#[test]
fn test_wasd_or_arrows_pressed_means_combined_pressed() {
    let mut input = InputState::default();
    input.maindirection_right.active = true;
    input.secondarydirection_right.active = false;
    let snap = InputSnapshot::from_input_state(&input);
    assert!(snap.digital.right.pressed);
}

#[test]
fn test_action_buttons_map_directly() {
    let mut input = InputState::default();
    input.action_1 = BoolState { active: true, just_pressed: true, just_released: false };
    let snap = InputSnapshot::from_input_state(&input);
    assert!(snap.digital.action_1.pressed);
    assert!(snap.digital.action_1.just_pressed);
    assert!(!snap.digital.action_1.just_released);
}

#[test]
fn test_back_maps_from_action_back() {
    let mut input = InputState::default();
    input.action_back.active = true;
    let snap = InputSnapshot::from_input_state(&input);
    assert!(snap.digital.back.pressed);
}

#[test]
fn test_special_maps_from_action_special() {
    let mut input = InputState::default();
    input.action_special.active = true;
    input.action_special.just_released = true;
    let snap = InputSnapshot::from_input_state(&input);
    assert!(snap.digital.special.pressed);
    assert!(snap.digital.special.just_released);
}

#[test]
fn test_digital_button_state_from_bool_state() {
    let bs = BoolState { active: true, just_pressed: false, just_released: true };
    let dbs = DigitalButtonState::from_bool_state(&bs);
    assert!(dbs.pressed);
    assert!(!dbs.just_pressed);
    assert!(dbs.just_released);
}

#[test]
fn test_digital_button_state_default() {
    let dbs = DigitalButtonState::default();
    assert!(!dbs.pressed);
    assert!(!dbs.just_pressed);
    assert!(!dbs.just_released);
}

#[test]
fn update_input_table_is_noop_within_same_frame() {
    let mut last: Option<(u64, InputSnapshot)> = None;
    let mut snapshot = InputSnapshot::default();
    snapshot.digital.action_1.pressed = true;
    assert_eq!(plan_input_table_update(&mut last, &snapshot, 7), InputTableUpdate::Everything);
    let recorded = last.unwrap();
    assert_eq!(recorded.0, 7);
    assert!(recorded.1.digital.action_1.pressed);

    let mut other = InputSnapshot::default();
    other.digital.back.pressed = true;
    assert_eq!(plan_input_table_update(&mut last, &other, 7), InputTableUpdate::Unchanged);
    let recorded = last.unwrap();
    assert!(recorded.1.digital.action_1.pressed);
    assert!(!recorded.1.digital.back.pressed);
}

#[test]
fn update_input_table_diffs_on_new_frame() {
    let mut last: Option<(u64, InputSnapshot)> = None;
    let snapshot_a = InputSnapshot::default();
    assert_eq!(plan_input_table_update(&mut last, &snapshot_a, 1), InputTableUpdate::Everything);

    let mut snapshot_b = InputSnapshot::default();
    snapshot_b.digital.action_1.pressed = true;
    snapshot_b.digital.action_1.just_pressed = true;
    assert_eq!(
        plan_input_table_update(&mut last, &snapshot_b, 2),
        InputTableUpdate::Changed(vec![DigitalButton::Action1])
    );
    assert_eq!(last.unwrap().0, 2);
}

#[test]
fn input_table_diff_lists_changed_buttons_in_snapshot_order() {
    let mut last: Option<(u64, InputSnapshot)> = None;
    let mut first = InputSnapshot::default();
    first.digital.special.pressed = true;
    plan_input_table_update(&mut last, &first, 10);
    let mut second = InputSnapshot::default();
    second.digital.up.just_released = true;
    second.digital.back.pressed = true;
    assert_eq!(
        plan_input_table_update(&mut last, &second, 11),
        InputTableUpdate::Changed(vec![DigitalButton::Up, DigitalButton::Back, DigitalButton::Special])
    );
    assert_eq!(plan_input_table_update(&mut last, &second, 12), InputTableUpdate::Changed(vec![]));
}

#[test]
fn force_keyboard_inactive_masks_keys_but_not_mouse() {
    let mut input = InputState::default();
    for bs in every_field(&mut input) {
        bs.active = true;
        bs.just_pressed = true;
        bs.just_released = true;
    }
    input.force_keyboard_inactive();
    let fields = every_field(&mut input);
    for (i, bs) in fields.into_iter().enumerate() {
        if i < 15 {
            assert!(!bs.active && !bs.just_pressed && bs.just_released, "field {i}");
        } else {
            assert!(bs.active && bs.just_pressed && bs.just_released);
        }
    }
}

fn buttons(d: &aberred::input_snapshot::DigitalInputs) -> [DigitalButtonState; 8] {
    [d.up, d.down, d.left, d.right, d.action_1, d.action_2, d.back, d.special]
}

fn position(b: DigitalButton) -> usize {
    match b {
        DigitalButton::Up => 0,
        DigitalButton::Down => 1,
        DigitalButton::Left => 2,
        DigitalButton::Right => 3,
        DigitalButton::Action1 => 4,
        DigitalButton::Action2 => 5,
        DigitalButton::Back => 6,
        DigitalButton::Special => 7,
    }
}

// Writing each planned update into a model of the table keeps it equal to
// the snapshot last recorded.
#[test]
fn input_table_model_tracks_last_write() {
    let mut last: Option<(u64, InputSnapshot)> = None;
    let mut table = [DigitalButtonState::default(); 8];
    let mut frames: Vec<(u64, InputSnapshot)> = Vec::new();
    let mut a = InputSnapshot::default();
    a.digital.left.pressed = true;
    frames.push((1, a));
    let mut b = InputSnapshot::default();
    b.digital.left.just_released = true;
    b.digital.action_2.pressed = true;
    frames.push((2, b));
    frames.push((2, a));
    frames.push((3, InputSnapshot::default()));
    for (frame, snap) in frames {
        match plan_input_table_update(&mut last, &snap, frame) {
            InputTableUpdate::Everything => table = buttons(&snap.digital),
            InputTableUpdate::Changed(v) => {
                for button in v {
                    table[position(button)] = buttons(&snap.digital)[position(button)];
                }
            }
            InputTableUpdate::Unchanged => {}
        }
        assert_eq!(table, buttons(&last.unwrap().1.digital));
    }
}
