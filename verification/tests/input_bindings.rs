use aberred::input_action::{action_from_str, action_to_str, all_actions, InputAction, INPUT_ACTION_COUNT};
use aberred::input_bindings::{binding_from_str, binding_to_str, cached_binding, AxisDirection, InputBinding, InputBindings};
use aberred::keys::{key_from_str, key_to_str, mouse_button_from_str, mouse_button_to_str, GamepadAxis, GamepadButton, KeyboardKey, MouseButton};

#[test]
fn test_input_action_index_is_a_bijection_onto_0_count() {
    let mut seen = [false; INPUT_ACTION_COUNT];
    for action in all_actions() {
        let i = action.index();
        assert!(i < INPUT_ACTION_COUNT, "{action:?} index {i} out of range");
        assert!(!seen[i], "{action:?} index {i} collides with another variant");
        seen[i] = true;
    }
    assert!(seen.iter().all(|&s| s), "every slot 0..COUNT must be reachable");
}

#[test]
fn test_default_bindings_are_correct() {
    let b = InputBindings::default();
    assert_eq!(b.get_bindings(InputAction::MainDirectionUp)[0], InputBinding::Keyboard(KeyboardKey::KEY_W));
    assert_eq!(b.get_bindings(InputAction::MainDirectionDown)[0], InputBinding::Keyboard(KeyboardKey::KEY_S));
    assert_eq!(b.get_bindings(InputAction::MainDirectionLeft)[0], InputBinding::Keyboard(KeyboardKey::KEY_A));
    assert_eq!(b.get_bindings(InputAction::MainDirectionRight)[0], InputBinding::Keyboard(KeyboardKey::KEY_D));
    assert_eq!(b.get_bindings(InputAction::SecondaryDirectionUp)[0], InputBinding::Keyboard(KeyboardKey::KEY_UP));
    assert_eq!(b.get_bindings(InputAction::SecondaryDirectionDown)[0], InputBinding::Keyboard(KeyboardKey::KEY_DOWN));
    assert_eq!(b.get_bindings(InputAction::SecondaryDirectionLeft)[0], InputBinding::Keyboard(KeyboardKey::KEY_LEFT));
    assert_eq!(b.get_bindings(InputAction::SecondaryDirectionRight)[0], InputBinding::Keyboard(KeyboardKey::KEY_RIGHT));
    assert_eq!(b.get_bindings(InputAction::Back)[0], InputBinding::Keyboard(KeyboardKey::KEY_ESCAPE));
    assert_eq!(
        &b.get_bindings(InputAction::Action1)[..2],
        &[
            InputBinding::Keyboard(KeyboardKey::KEY_SPACE),
            InputBinding::MouseButton(MouseButton::MOUSE_BUTTON_LEFT),
        ]
    );
    assert_eq!(
        &b.get_bindings(InputAction::Action2)[..2],
        &[
            InputBinding::Keyboard(KeyboardKey::KEY_ENTER),
            InputBinding::MouseButton(MouseButton::MOUSE_BUTTON_RIGHT),
        ]
    );
    assert_eq!(b.get_bindings(InputAction::Action3)[0], InputBinding::MouseButton(MouseButton::MOUSE_BUTTON_MIDDLE));
    assert_eq!(b.get_bindings(InputAction::Special), &[InputBinding::Keyboard(KeyboardKey::KEY_F12)]);
    assert_eq!(b.get_bindings(InputAction::ToggleDebug), &[InputBinding::Keyboard(KeyboardKey::KEY_F11)]);
    assert_eq!(b.get_bindings(InputAction::ToggleFullscreen), &[InputBinding::Keyboard(KeyboardKey::KEY_F10)]);
}

#[test]
fn test_pad0_defaults_are_appended() {
    let b = InputBindings::default();
    assert!(b.get_bindings(InputAction::MainDirectionUp).contains(&InputBinding::GamepadButton {
        pad: 0,
        button: GamepadButton::GAMEPAD_BUTTON_LEFT_FACE_UP,
    }));
    assert!(b.get_bindings(InputAction::MainDirectionUp).contains(&InputBinding::GamepadAxis {
        pad: 0,
        axis: GamepadAxis::GAMEPAD_AXIS_LEFT_Y,
        direction: AxisDirection::Negative,
    }));
    assert!(b.get_bindings(InputAction::Action1).contains(&InputBinding::GamepadButton {
        pad: 0,
        button: GamepadButton::GAMEPAD_BUTTON_RIGHT_FACE_DOWN,
    }));
    assert!(b.get_bindings(InputAction::Back).contains(&InputBinding::GamepadButton {
        pad: 0,
        button: GamepadButton::GAMEPAD_BUTTON_MIDDLE_RIGHT,
    }));
    assert!(b.get_bindings(InputAction::SecondaryDirectionUp).contains(&InputBinding::GamepadButton {
        pad: 0,
        button: GamepadButton::GAMEPAD_BUTTON_LEFT_FACE_UP,
    }));
    assert!(b.get_bindings(InputAction::SecondaryDirectionUp).contains(&InputBinding::GamepadAxis {
        pad: 0,
        axis: GamepadAxis::GAMEPAD_AXIS_LEFT_Y,
        direction: AxisDirection::Negative,
    }));
    assert_eq!(b.get_bindings(InputAction::Special).len(), 1);
}

#[test]
fn test_rebind_replaces_binding() {
    let mut b = InputBindings::default();
    b.rebind(InputAction::Action1, InputBinding::Keyboard(KeyboardKey::KEY_Z));
    let bl = b.get_bindings(InputAction::Action1);
    assert_eq!(bl.len(), 1);
    assert_eq!(bl[0], InputBinding::Keyboard(KeyboardKey::KEY_Z));
}

#[test]
fn test_add_binding_appends() {
    let mut b = InputBindings::default();
    b.add_binding(InputAction::Action1, InputBinding::Keyboard(KeyboardKey::KEY_Z));
    let bl = b.get_bindings(InputAction::Action1);
    assert_eq!(bl[0], InputBinding::Keyboard(KeyboardKey::KEY_SPACE));
    assert_eq!(bl[1], InputBinding::MouseButton(MouseButton::MOUSE_BUTTON_LEFT));
    assert_eq!(*bl.last().unwrap(), InputBinding::Keyboard(KeyboardKey::KEY_Z));
}

#[test]
fn test_get_bindings_unregistered_returns_empty() {
    let b = InputBindings::unbound();
    assert!(b.get_bindings(InputAction::Action1).is_empty());
}

#[test]
fn test_first_binding_str_returns_canonical_name() {
    let b = InputBindings::default();
    assert_eq!(b.first_binding_str(InputAction::Action1).as_deref(), Some("space"));
    assert_eq!(b.first_binding_str(InputAction::MainDirectionUp).as_deref(), Some("w"));
    assert_eq!(b.first_binding_str(InputAction::ToggleDebug).as_deref(), Some("f11"));
}

#[test]
fn test_first_binding_str_unbound_returns_none() {
    let b = InputBindings::unbound();
    assert_eq!(b.first_binding_str(InputAction::Action1), None);
}

#[test]
fn test_key_from_str_roundtrip() {
    let pairs: &[(&str, KeyboardKey)] = &[
        ("w", KeyboardKey::KEY_W),
        ("a", KeyboardKey::KEY_A),
        ("s", KeyboardKey::KEY_S),
        ("d", KeyboardKey::KEY_D),
        ("space", KeyboardKey::KEY_SPACE),
        ("enter", KeyboardKey::KEY_ENTER),
        ("escape", KeyboardKey::KEY_ESCAPE),
        ("up", KeyboardKey::KEY_UP),
        ("down", KeyboardKey::KEY_DOWN),
        ("left", KeyboardKey::KEY_LEFT),
        ("right", KeyboardKey::KEY_RIGHT),
        ("f10", KeyboardKey::KEY_F10),
        ("f11", KeyboardKey::KEY_F11),
        ("f12", KeyboardKey::KEY_F12),
        ("z", KeyboardKey::KEY_Z),
        ("backspace", KeyboardKey::KEY_BACKSPACE),
        ("tab", KeyboardKey::KEY_TAB),
        ("lshift", KeyboardKey::KEY_LEFT_SHIFT),
        ("lctrl", KeyboardKey::KEY_LEFT_CONTROL),
    ];
    for (name, key) in pairs {
        assert_eq!(key_from_str(name), Some(*key), "key_from_str(\"{}\") did not return {:?}", name, key);
        assert_eq!(key_to_str(*key), *name, "key_to_str({:?}) did not return \"{}\"", key, name);
    }
}

#[test]
fn test_key_from_str_aliases() {
    assert_eq!(key_from_str("return"), Some(KeyboardKey::KEY_ENTER));
    assert_eq!(key_from_str("esc"), Some(KeyboardKey::KEY_ESCAPE));
    assert_eq!(key_from_str("shift"), Some(KeyboardKey::KEY_LEFT_SHIFT));
    assert_eq!(key_from_str("ctrl"), Some(KeyboardKey::KEY_LEFT_CONTROL));
}

#[test]
fn test_key_from_str_unknown_returns_none() {
    assert_eq!(key_from_str(""), None);
    assert_eq!(key_from_str("numpad0"), None);
    assert_eq!(key_from_str("SPACE"), None);
}

#[test]
fn test_mouse_button_from_str_roundtrip() {
    let pairs = [
        ("mouse_left", MouseButton::MOUSE_BUTTON_LEFT),
        ("mouse_right", MouseButton::MOUSE_BUTTON_RIGHT),
        ("mouse_middle", MouseButton::MOUSE_BUTTON_MIDDLE),
    ];
    for (name, btn) in pairs {
        assert_eq!(mouse_button_from_str(name), Some(btn));
        assert_eq!(mouse_button_to_str(btn), name);
    }
}

#[test]
fn test_mouse_button_from_str_unknown_returns_none() {
    assert_eq!(mouse_button_from_str(""), None);
    assert_eq!(mouse_button_from_str("left"), None);
    assert_eq!(mouse_button_from_str("mouse_4"), None);
}

#[test]
fn test_binding_from_str_keyboard() {
    assert_eq!(binding_from_str("space"), Some(InputBinding::Keyboard(KeyboardKey::KEY_SPACE)));
    assert_eq!(binding_from_str("w"), Some(InputBinding::Keyboard(KeyboardKey::KEY_W)));
}

#[test]
fn test_binding_from_str_mouse() {
    assert_eq!(binding_from_str("mouse_left"), Some(InputBinding::MouseButton(MouseButton::MOUSE_BUTTON_LEFT)));
    assert_eq!(binding_from_str("mouse_right"), Some(InputBinding::MouseButton(MouseButton::MOUSE_BUTTON_RIGHT)));
    assert_eq!(binding_from_str("mouse_middle"), Some(InputBinding::MouseButton(MouseButton::MOUSE_BUTTON_MIDDLE)));
}

#[test]
fn test_binding_from_str_unknown_returns_none() {
    assert_eq!(binding_from_str(""), None);
    assert_eq!(binding_from_str("not_a_binding"), None);
}

#[test]
fn test_binding_to_str_keyboard() {
    assert_eq!(binding_to_str(InputBinding::Keyboard(KeyboardKey::KEY_SPACE)), "space");
}

#[test]
fn test_binding_to_str_mouse() {
    assert_eq!(binding_to_str(InputBinding::MouseButton(MouseButton::MOUSE_BUTTON_LEFT)), "mouse_left");
}

#[test]
fn test_first_binding_str_mouse_button() {
    let b = InputBindings::default();
    assert_eq!(b.first_binding_str(InputAction::Action3).as_deref(), Some("mouse_middle"));
}

#[test]
fn test_gamepad_binding_from_str_button_and_axis_roundtrip() {
    assert_eq!(
        binding_from_str("pad0:face_down"),
        Some(InputBinding::GamepadButton { pad: 0, button: GamepadButton::GAMEPAD_BUTTON_RIGHT_FACE_DOWN })
    );
    assert_eq!(
        binding_to_str(InputBinding::GamepadButton { pad: 0, button: GamepadButton::GAMEPAD_BUTTON_RIGHT_FACE_DOWN }),
        "pad0:face_down"
    );
    assert_eq!(
        binding_from_str("pad0:axis_lx+"),
        Some(InputBinding::GamepadAxis {
            pad: 0,
            axis: GamepadAxis::GAMEPAD_AXIS_LEFT_X,
            direction: AxisDirection::Positive,
        })
    );
    assert_eq!(
        binding_to_str(InputBinding::GamepadAxis {
            pad: 0,
            axis: GamepadAxis::GAMEPAD_AXIS_LEFT_X,
            direction: AxisDirection::Positive,
        }),
        "pad0:axis_lx+"
    );
    assert_eq!(
        binding_from_str("pad1:axis_ry-"),
        Some(InputBinding::GamepadAxis {
            pad: 1,
            axis: GamepadAxis::GAMEPAD_AXIS_RIGHT_Y,
            direction: AxisDirection::Negative,
        })
    );
}

#[test]
fn test_gamepad_binding_from_str_out_of_range_pad_returns_none() {
    assert_eq!(binding_from_str("pad9:face_down"), None);
}

#[test]
fn test_gamepad_binding_from_str_unknown_name_returns_none() {
    assert_eq!(binding_from_str("pad0:not_a_button"), None);
    assert_eq!(binding_from_str("pad0:axis_zz+"), None);
    assert_eq!(binding_from_str("padx:face_down"), None);
}

// Every binding of the default set reads back from its own text.
#[test]
fn binding_text_round_trips_for_every_default_binding() {
    let b = InputBindings::default();
    for action in all_actions() {
        for binding in b.get_bindings(action) {
            let text = binding_to_str(*binding);
            assert_eq!(binding_from_str(&text), Some(*binding), "{text}");
        }
    }
}

#[test]
fn pad_index_at_the_limit_is_refused() {
    assert_eq!(
        binding_from_str("pad3:face_up"),
        Some(InputBinding::GamepadButton { pad: 3, button: GamepadButton::GAMEPAD_BUTTON_RIGHT_FACE_UP })
    );
    assert_eq!(binding_from_str("pad4:face_up"), None);
    assert_eq!(
        binding_from_str("pad00:face_up"),
        Some(InputBinding::GamepadButton { pad: 0, button: GamepadButton::GAMEPAD_BUTTON_RIGHT_FACE_UP })
    );
    assert_eq!(binding_from_str("pad256:face_up"), None);
    assert_eq!(binding_from_str("pad0:axis_lx"), None);
}

#[test]
fn take_dirty_reports_a_change_once() {
    let mut b = InputBindings::default();
    b.take_dirty();
    assert!(!b.take_dirty());
    b.add_binding(InputAction::Special, InputBinding::Keyboard(KeyboardKey::KEY_Q));
    assert!(b.take_dirty());
    assert!(!b.take_dirty());
}

#[test]
fn action_names_round_trip_and_aliases_resolve() {
    for action in all_actions() {
        assert_eq!(action_from_str(action_to_str(action)), Some(action));
    }
    assert_eq!(action_from_str("not_an_action"), None);
}

#[test]
fn cached_binding_gives_first_binding_of_action() {
    let b = InputBindings::default();
    let entries = b.bindings_cache_entries();
    assert_eq!(cached_binding(&entries, action_to_str(InputAction::Action1)).as_deref(), Some("space"));
    assert_eq!(cached_binding(&entries, "nonexistent_action"), None);
    let unbound = InputBindings::unbound();
    let entries = unbound.bindings_cache_entries();
    assert_eq!(cached_binding(&entries, action_to_str(InputAction::Action1)), None);
}

#[test]
fn get_binding_resolves_canonical_and_alias_action_names() {
    let entries = vec![("main_up".to_string(), "W".to_string())];
    assert_eq!(cached_binding(&entries, "main_up"), Some("W".to_string()));
    assert_eq!(cached_binding(&entries, "up"), Some("W".to_string()));
}

#[test]
fn get_binding_falls_back_to_raw_string_for_unknown_action() {
    let entries = vec![("custom_action".to_string(), "X".to_string())];
    assert_eq!(cached_binding(&entries, "custom_action"), Some("X".to_string()));
}

#[test]
fn get_binding_returns_nil_for_unbound_action() {
    let entries: Vec<(String, String)> = Vec::new();
    assert_eq!(cached_binding(&entries, "main_up"), None);
}

#[test]
fn iter_lists_every_action_in_slot_order_with_its_bindings() {
    let b = InputBindings::default();
    let all = b.iter();
    assert_eq!(all.len(), INPUT_ACTION_COUNT);
    for (i, (action, bindings)) in all.iter().enumerate() {
        assert_eq!(action.index(), i);
        assert_eq!(*bindings, b.get_bindings(*action));
    }
    assert_eq!(all[0].0, InputAction::MainDirectionUp);
}
