//! Logical input actions, their slot indices and their Lua-facing names.
use vstd::prelude::*;

use crate::text::{name_sig, str_eq};
use crate::input_action::InputAction::{
    Action1, Action2, Action3, Back, MainDirectionDown, MainDirectionLeft, MainDirectionRight, MainDirectionUp,
    SecondaryDirectionDown, SecondaryDirectionLeft, SecondaryDirectionRight, SecondaryDirectionUp, Special,
    ToggleDebug, ToggleFullscreen,
};

verus! {

/// Number of logical input actions.
pub const INPUT_ACTION_COUNT: usize = 15;

/// A logical input action that hardware bindings drive.
#[derive(Clone, Copy, Debug, PartialEq, Eq, Hash, Structural)]
pub enum InputAction {
    MainDirectionUp,
    MainDirectionDown,
    MainDirectionLeft,
    MainDirectionRight,
    SecondaryDirectionUp,
    SecondaryDirectionDown,
    SecondaryDirectionLeft,
    SecondaryDirectionRight,
    Back,
    Action1,
    Action2,
    Action3,
    Special,
    ToggleDebug,
    ToggleFullscreen,
}

impl InputAction {
    /// The slot of an action in per-action tables (declaration order).
    pub open spec fn spec_index(self) -> nat {
        match self {
            MainDirectionUp => 0,
            MainDirectionDown => 1,
            MainDirectionLeft => 2,
            MainDirectionRight => 3,
            SecondaryDirectionUp => 4,
            SecondaryDirectionDown => 5,
            SecondaryDirectionLeft => 6,
            SecondaryDirectionRight => 7,
            Back => 8,
            Action1 => 9,
            Action2 => 10,
            Action3 => 11,
            Special => 12,
            ToggleDebug => 13,
            ToggleFullscreen => 14,
        }
    }

    /// The slot of this action in per-action tables, below `INPUT_ACTION_COUNT`.
    pub fn index(self) -> (r: usize)
        ensures
            r == self.spec_index(),
            r < INPUT_ACTION_COUNT,
    {
        match self {
            MainDirectionUp => 0,
            MainDirectionDown => 1,
            MainDirectionLeft => 2,
            MainDirectionRight => 3,
            SecondaryDirectionUp => 4,
            SecondaryDirectionDown => 5,
            SecondaryDirectionLeft => 6,
            SecondaryDirectionRight => 7,
            Back => 8,
            Action1 => 9,
            Action2 => 10,
            Action3 => 11,
            Special => 12,
            ToggleDebug => 13,
            ToggleFullscreen => 14,
        }
    }
}

/// Every action, in slot order.
pub open spec fn all_actions_spec() -> Seq<InputAction> {
    seq![
        MainDirectionUp,
        MainDirectionDown,
        MainDirectionLeft,
        MainDirectionRight,
        SecondaryDirectionUp,
        SecondaryDirectionDown,
        SecondaryDirectionLeft,
        SecondaryDirectionRight,
        Back,
        Action1,
        Action2,
        Action3,
        Special,
        ToggleDebug,
        ToggleFullscreen,
    ]
}

/// Every action, in slot order (`all[i].index() == i`).
pub fn all_actions() -> (v: Vec<InputAction>)
    ensures
        v@ == all_actions_spec(),
{
    vec![
        MainDirectionUp,
        MainDirectionDown,
        MainDirectionLeft,
        MainDirectionRight,
        SecondaryDirectionUp,
        SecondaryDirectionDown,
        SecondaryDirectionLeft,
        SecondaryDirectionRight,
        Back,
        Action1,
        Action2,
        Action3,
        Special,
        ToggleDebug,
        ToggleFullscreen,
    ]
}

/// Slot indices are a bijection from actions onto `0..INPUT_ACTION_COUNT`:
/// the action listed at slot `i` has index `i`, and every action is listed
/// at its own index.
pub proof fn lemma_action_index_bijection(a: InputAction, i: int)
    ensures
        all_actions_spec().len() == INPUT_ACTION_COUNT,
        0 <= i < INPUT_ACTION_COUNT ==> all_actions_spec()[i].spec_index() == i,
        all_actions_spec()[a.spec_index() as int] == a,
{
}

/// The canonical Lua-facing name of an action.
pub open spec fn action_name(a: InputAction) -> Seq<char> {
    match a {
        Action1 => "action_1"@,
        Action2 => "action_2"@,
        Action3 => "action_3"@,
        Back => "back"@,
        MainDirectionDown => "main_down"@,
        MainDirectionLeft => "main_left"@,
        MainDirectionRight => "main_right"@,
        MainDirectionUp => "main_up"@,
        SecondaryDirectionDown => "secondary_down"@,
        SecondaryDirectionLeft => "secondary_left"@,
        SecondaryDirectionRight => "secondary_right"@,
        SecondaryDirectionUp => "secondary_up"@,
        Special => "special"@,
        ToggleDebug => "toggle_debug"@,
        ToggleFullscreen => "toggle_fullscreen"@,
    }
}

/// The action a Lua-facing name denotes: a canonical name, or one of the
/// aliases `up`, `down`, `left`, `right` of the main directions.
pub open spec fn action_by_name(s: Seq<char>) -> Option<InputAction> {
    if s == "action_1"@ {
        Some(Action1)
    } else if s == "action_2"@ {
        Some(Action2)
    } else if s == "action_3"@ {
        Some(Action3)
    } else if s == "back"@ {
        Some(Back)
    } else if s == "down"@ {
        Some(MainDirectionDown)
    } else if s == "left"@ {
        Some(MainDirectionLeft)
    } else if s == "main_down"@ {
        Some(MainDirectionDown)
    } else if s == "main_left"@ {
        Some(MainDirectionLeft)
    } else if s == "main_right"@ {
        Some(MainDirectionRight)
    } else if s == "main_up"@ {
        Some(MainDirectionUp)
    } else if s == "right"@ {
        Some(MainDirectionRight)
    } else if s == "secondary_down"@ {
        Some(SecondaryDirectionDown)
    } else if s == "secondary_left"@ {
        Some(SecondaryDirectionLeft)
    } else if s == "secondary_right"@ {
        Some(SecondaryDirectionRight)
    } else if s == "secondary_up"@ {
        Some(SecondaryDirectionUp)
    } else if s == "special"@ {
        Some(Special)
    } else if s == "toggle_debug"@ {
        Some(ToggleDebug)
    } else if s == "toggle_fullscreen"@ {
        Some(ToggleFullscreen)
    } else if s == "up"@ {
        Some(MainDirectionUp)
    } else {
        None
    }
}

/// The canonical Lua-facing name of an action.
pub fn action_to_str(action: InputAction) -> (r: &'static str)
    ensures
        r@ == action_name(action),
{
    match action {
        Action1 => "action_1",
        Action2 => "action_2",
        Action3 => "action_3",
        Back => "back",
        MainDirectionDown => "main_down",
        MainDirectionLeft => "main_left",
        MainDirectionRight => "main_right",
        MainDirectionUp => "main_up",
        SecondaryDirectionDown => "secondary_down",
        SecondaryDirectionLeft => "secondary_left",
        SecondaryDirectionRight => "secondary_right",
        SecondaryDirectionUp => "secondary_up",
        Special => "special",
        ToggleDebug => "toggle_debug",
        ToggleFullscreen => "toggle_fullscreen",
    }
}

/// The action a Lua-facing name denotes (canonical name or direction alias).
pub fn action_from_str(s: &str) -> (r: Option<InputAction>)
    ensures
        r == action_by_name(s@),
{
    if str_eq(s, "action_1") {
        return Some(Action1);
    }
    if str_eq(s, "action_2") {
        return Some(Action2);
    }
    if str_eq(s, "action_3") {
        return Some(Action3);
    }
    if str_eq(s, "back") {
        return Some(Back);
    }
    if str_eq(s, "down") {
        return Some(MainDirectionDown);
    }
    if str_eq(s, "left") {
        return Some(MainDirectionLeft);
    }
    if str_eq(s, "main_down") {
        return Some(MainDirectionDown);
    }
    if str_eq(s, "main_left") {
        return Some(MainDirectionLeft);
    }
    if str_eq(s, "main_right") {
        return Some(MainDirectionRight);
    }
    if str_eq(s, "main_up") {
        return Some(MainDirectionUp);
    }
    if str_eq(s, "right") {
        return Some(MainDirectionRight);
    }
    if str_eq(s, "secondary_down") {
        return Some(SecondaryDirectionDown);
    }
    if str_eq(s, "secondary_left") {
        return Some(SecondaryDirectionLeft);
    }
    if str_eq(s, "secondary_right") {
        return Some(SecondaryDirectionRight);
    }
    if str_eq(s, "secondary_up") {
        return Some(SecondaryDirectionUp);
    }
    if str_eq(s, "special") {
        return Some(Special);
    }
    if str_eq(s, "toggle_debug") {
        return Some(ToggleDebug);
    }
    if str_eq(s, "toggle_fullscreen") {
        return Some(ToggleFullscreen);
    }
    if str_eq(s, "up") {
        return Some(MainDirectionUp);
    }
    None
}

/// The names an action can go by differ in length or in their first or
/// last characters.
proof fn lemma_action_name_signatures()
    ensures
        name_sig("action_1"@) == (8nat, 'a', '_', '1'),
        name_sig("action_2"@) == (8nat, 'a', '_', '2'),
        name_sig("action_3"@) == (8nat, 'a', '_', '3'),
        name_sig("back"@) == (4nat, 'b', 'c', 'k'),
        name_sig("down"@) == (4nat, 'd', 'w', 'n'),
        name_sig("left"@) == (4nat, 'l', 'f', 't'),
        name_sig("main_down"@) == (9nat, 'm', 'w', 'n'),
        name_sig("main_left"@) == (9nat, 'm', 'f', 't'),
        name_sig("main_right"@) == (10nat, 'm', 'h', 't'),
        name_sig("main_up"@) == (7nat, 'm', 'u', 'p'),
        name_sig("right"@) == (5nat, 'r', 'h', 't'),
        name_sig("secondary_down"@) == (14nat, 's', 'w', 'n'),
        name_sig("secondary_left"@) == (14nat, 's', 'f', 't'),
        name_sig("secondary_right"@) == (15nat, 's', 'h', 't'),
        name_sig("secondary_up"@) == (12nat, 's', 'u', 'p'),
        name_sig("special"@) == (7nat, 's', 'a', 'l'),
        name_sig("toggle_debug"@) == (12nat, 't', 'u', 'g'),
        name_sig("toggle_fullscreen"@) == (17nat, 't', 'e', 'n'),
        name_sig("up"@) == (2nat, 'u', 'u', 'p'),
{
    reveal_strlit("action_1");
    assert(name_sig("action_1"@) == (8nat, 'a', '_', '1'));
    reveal_strlit("action_2");
    assert(name_sig("action_2"@) == (8nat, 'a', '_', '2'));
    reveal_strlit("action_3");
    assert(name_sig("action_3"@) == (8nat, 'a', '_', '3'));
    reveal_strlit("back");
    assert(name_sig("back"@) == (4nat, 'b', 'c', 'k'));
    reveal_strlit("down");
    assert(name_sig("down"@) == (4nat, 'd', 'w', 'n'));
    reveal_strlit("left");
    assert(name_sig("left"@) == (4nat, 'l', 'f', 't'));
    reveal_strlit("main_down");
    assert(name_sig("main_down"@) == (9nat, 'm', 'w', 'n'));
    reveal_strlit("main_left");
    assert(name_sig("main_left"@) == (9nat, 'm', 'f', 't'));
    reveal_strlit("main_right");
    assert(name_sig("main_right"@) == (10nat, 'm', 'h', 't'));
    reveal_strlit("main_up");
    assert(name_sig("main_up"@) == (7nat, 'm', 'u', 'p'));
    reveal_strlit("right");
    assert(name_sig("right"@) == (5nat, 'r', 'h', 't'));
    reveal_strlit("secondary_down");
    assert(name_sig("secondary_down"@) == (14nat, 's', 'w', 'n'));
    reveal_strlit("secondary_left");
    assert(name_sig("secondary_left"@) == (14nat, 's', 'f', 't'));
    reveal_strlit("secondary_right");
    assert(name_sig("secondary_right"@) == (15nat, 's', 'h', 't'));
    reveal_strlit("secondary_up");
    assert(name_sig("secondary_up"@) == (12nat, 's', 'u', 'p'));
    reveal_strlit("special");
    assert(name_sig("special"@) == (7nat, 's', 'a', 'l'));
    reveal_strlit("toggle_debug");
    assert(name_sig("toggle_debug"@) == (12nat, 't', 'u', 'g'));
    reveal_strlit("toggle_fullscreen");
    assert(name_sig("toggle_fullscreen"@) == (17nat, 't', 'e', 'n'));
    reveal_strlit("up");
    assert(name_sig("up"@) == (2nat, 'u', 'u', 'p'));
}

/// An action's canonical name parses back to that action.
pub proof fn lemma_action_name_roundtrip(a: InputAction)
    ensures
        action_by_name(action_name(a)) == Some(a),
{
    lemma_action_name_signatures();
}

/// The aliases `up`, `down`, `left` and `right` denote the same actions as
/// `main_up`, `main_down`, `main_left` and `main_right`; each canonical name
/// denotes the action of that name and is that action's name.
pub proof fn lemma_action_names()
    ensures
        action_by_name("up"@) == action_by_name("main_up"@),
        action_by_name("down"@) == action_by_name("main_down"@),
        action_by_name("left"@) == action_by_name("main_left"@),
        action_by_name("right"@) == action_by_name("main_right"@),
        action_by_name("action_1"@) == Some(Action1),
        action_name(Action1) == "action_1"@,
        action_by_name("action_2"@) == Some(Action2),
        action_name(Action2) == "action_2"@,
        action_by_name("action_3"@) == Some(Action3),
        action_name(Action3) == "action_3"@,
        action_by_name("back"@) == Some(Back),
        action_name(Back) == "back"@,
        action_by_name("main_down"@) == Some(MainDirectionDown),
        action_name(MainDirectionDown) == "main_down"@,
        action_by_name("main_left"@) == Some(MainDirectionLeft),
        action_name(MainDirectionLeft) == "main_left"@,
        action_by_name("main_right"@) == Some(MainDirectionRight),
        action_name(MainDirectionRight) == "main_right"@,
        action_by_name("main_up"@) == Some(MainDirectionUp),
        action_name(MainDirectionUp) == "main_up"@,
        action_by_name("secondary_down"@) == Some(SecondaryDirectionDown),
        action_name(SecondaryDirectionDown) == "secondary_down"@,
        action_by_name("secondary_left"@) == Some(SecondaryDirectionLeft),
        action_name(SecondaryDirectionLeft) == "secondary_left"@,
        action_by_name("secondary_right"@) == Some(SecondaryDirectionRight),
        action_name(SecondaryDirectionRight) == "secondary_right"@,
        action_by_name("secondary_up"@) == Some(SecondaryDirectionUp),
        action_name(SecondaryDirectionUp) == "secondary_up"@,
        action_by_name("special"@) == Some(Special),
        action_name(Special) == "special"@,
        action_by_name("toggle_debug"@) == Some(ToggleDebug),
        action_name(ToggleDebug) == "toggle_debug"@,
        action_by_name("toggle_fullscreen"@) == Some(ToggleFullscreen),
        action_name(ToggleFullscreen) == "toggle_fullscreen"@,
{
    lemma_action_name_signatures();
}

/// The name under which an action's binding is cached: the canonical name
/// of the action a name denotes, or the name itself if it denotes none.
pub open spec fn canonical_action_text(s: Seq<char>) -> Seq<char> {
    match action_by_name(s) {
        Some(a) => action_name(a),
        None => s,
    }
}

/// Resolve an action name (canonical or alias) to its canonical name;
/// unknown names are kept as they are.
pub fn canonical_action_name(s: &str) -> (r: String)
    ensures
        r@ == canonical_action_text(s@),
{
    match action_from_str(s) {
        Some(a) => String::from_str(action_to_str(a)),
        None => String::from_str(s),
    }
}

} // verus!
