//! Device identifiers (keyboard keys, mouse buttons, gamepad buttons and
//! axes) with the same variants as the platform layer's enums, and their
//! canonical lowercase names as used in binding strings.
use vstd::prelude::*;

use crate::text::{name_sig, str_eq};

verus! {

/// A physical keyboard key.
#[allow(non_camel_case_types)]
#[derive(Clone, Copy, Debug, PartialEq, Eq, Hash, Structural)]
pub enum KeyboardKey {
    KEY_NULL,
    KEY_APOSTROPHE,
    KEY_COMMA,
    KEY_MINUS,
    KEY_PERIOD,
    KEY_SLASH,
    KEY_ZERO,
    KEY_ONE,
    KEY_TWO,
    KEY_THREE,
    KEY_FOUR,
    KEY_FIVE,
    KEY_SIX,
    KEY_SEVEN,
    KEY_EIGHT,
    KEY_NINE,
    KEY_SEMICOLON,
    KEY_EQUAL,
    KEY_A,
    KEY_B,
    KEY_C,
    KEY_D,
    KEY_E,
    KEY_F,
    KEY_G,
    KEY_H,
    KEY_I,
    KEY_J,
    KEY_K,
    KEY_L,
    KEY_M,
    KEY_N,
    KEY_O,
    KEY_P,
    KEY_Q,
    KEY_R,
    KEY_S,
    KEY_T,
    KEY_U,
    KEY_V,
    KEY_W,
    KEY_X,
    KEY_Y,
    KEY_Z,
    KEY_LEFT_BRACKET,
    KEY_BACKSLASH,
    KEY_RIGHT_BRACKET,
    KEY_GRAVE,
    KEY_SPACE,
    KEY_ESCAPE,
    KEY_ENTER,
    KEY_TAB,
    KEY_BACKSPACE,
    KEY_INSERT,
    KEY_DELETE,
    KEY_RIGHT,
    KEY_LEFT,
    KEY_DOWN,
    KEY_UP,
    KEY_PAGE_UP,
    KEY_PAGE_DOWN,
    KEY_HOME,
    KEY_END,
    KEY_CAPS_LOCK,
    KEY_SCROLL_LOCK,
    KEY_NUM_LOCK,
    KEY_PRINT_SCREEN,
    KEY_PAUSE,
    KEY_F1,
    KEY_F2,
    KEY_F3,
    KEY_F4,
    KEY_F5,
    KEY_F6,
    KEY_F7,
    KEY_F8,
    KEY_F9,
    KEY_F10,
    KEY_F11,
    KEY_F12,
    KEY_LEFT_SHIFT,
    KEY_LEFT_CONTROL,
    KEY_LEFT_ALT,
    KEY_LEFT_SUPER,
    KEY_RIGHT_SHIFT,
    KEY_RIGHT_CONTROL,
    KEY_RIGHT_ALT,
    KEY_RIGHT_SUPER,
    KEY_KB_MENU,
    KEY_KP_0,
    KEY_KP_1,
    KEY_KP_2,
    KEY_KP_3,
    KEY_KP_4,
    KEY_KP_5,
    KEY_KP_6,
    KEY_KP_7,
    KEY_KP_8,
    KEY_KP_9,
    KEY_KP_DECIMAL,
    KEY_KP_DIVIDE,
    KEY_KP_MULTIPLY,
    KEY_KP_SUBTRACT,
    KEY_KP_ADD,
    KEY_KP_ENTER,
    KEY_KP_EQUAL,
    KEY_BACK,
    KEY_MENU,
    KEY_VOLUME_UP,
    KEY_VOLUME_DOWN,
}

/// A mouse button.
#[allow(non_camel_case_types)]
#[derive(Clone, Copy, Debug, PartialEq, Eq, Hash, Structural)]
pub enum MouseButton {
    MOUSE_BUTTON_LEFT,
    MOUSE_BUTTON_RIGHT,
    MOUSE_BUTTON_MIDDLE,
    MOUSE_BUTTON_SIDE,
    MOUSE_BUTTON_EXTRA,
    MOUSE_BUTTON_FORWARD,
    MOUSE_BUTTON_BACK,
}

/// A gamepad button, named by position.
#[allow(non_camel_case_types)]
#[derive(Clone, Copy, Debug, PartialEq, Eq, Hash, Structural)]
pub enum GamepadButton {
    GAMEPAD_BUTTON_UNKNOWN,
    GAMEPAD_BUTTON_LEFT_FACE_UP,
    GAMEPAD_BUTTON_LEFT_FACE_RIGHT,
    GAMEPAD_BUTTON_LEFT_FACE_DOWN,
    GAMEPAD_BUTTON_LEFT_FACE_LEFT,
    GAMEPAD_BUTTON_RIGHT_FACE_UP,
    GAMEPAD_BUTTON_RIGHT_FACE_RIGHT,
    GAMEPAD_BUTTON_RIGHT_FACE_DOWN,
    GAMEPAD_BUTTON_RIGHT_FACE_LEFT,
    GAMEPAD_BUTTON_LEFT_TRIGGER_1,
    GAMEPAD_BUTTON_LEFT_TRIGGER_2,
    GAMEPAD_BUTTON_RIGHT_TRIGGER_1,
    GAMEPAD_BUTTON_RIGHT_TRIGGER_2,
    GAMEPAD_BUTTON_MIDDLE_LEFT,
    GAMEPAD_BUTTON_MIDDLE,
    GAMEPAD_BUTTON_MIDDLE_RIGHT,
    GAMEPAD_BUTTON_LEFT_THUMB,
    GAMEPAD_BUTTON_RIGHT_THUMB,
}

/// A gamepad analog axis.
#[allow(non_camel_case_types)]
#[derive(Clone, Copy, Debug, PartialEq, Eq, Hash, Structural)]
pub enum GamepadAxis {
    GAMEPAD_AXIS_LEFT_X,
    GAMEPAD_AXIS_LEFT_Y,
    GAMEPAD_AXIS_RIGHT_X,
    GAMEPAD_AXIS_RIGHT_Y,
    GAMEPAD_AXIS_LEFT_TRIGGER,
    GAMEPAD_AXIS_RIGHT_TRIGGER,
}

/// The canonical lowercase name of a key, if it has one.
pub open spec fn key_canonical_name(v: KeyboardKey) -> Option<Seq<char>> {
    match v {
        KeyboardKey::KEY_A => Some(seq!['a']),
        KeyboardKey::KEY_B => Some(seq!['b']),
        KeyboardKey::KEY_C => Some(seq!['c']),
        KeyboardKey::KEY_D => Some(seq!['d']),
        KeyboardKey::KEY_E => Some(seq!['e']),
        KeyboardKey::KEY_F => Some(seq!['f']),
        KeyboardKey::KEY_G => Some(seq!['g']),
        KeyboardKey::KEY_H => Some(seq!['h']),
        KeyboardKey::KEY_I => Some(seq!['i']),
        KeyboardKey::KEY_J => Some(seq!['j']),
        KeyboardKey::KEY_K => Some(seq!['k']),
        KeyboardKey::KEY_L => Some(seq!['l']),
        KeyboardKey::KEY_M => Some(seq!['m']),
        KeyboardKey::KEY_N => Some(seq!['n']),
        KeyboardKey::KEY_O => Some(seq!['o']),
        KeyboardKey::KEY_P => Some(seq!['p']),
        KeyboardKey::KEY_Q => Some(seq!['q']),
        KeyboardKey::KEY_R => Some(seq!['r']),
        KeyboardKey::KEY_S => Some(seq!['s']),
        KeyboardKey::KEY_T => Some(seq!['t']),
        KeyboardKey::KEY_U => Some(seq!['u']),
        KeyboardKey::KEY_V => Some(seq!['v']),
        KeyboardKey::KEY_W => Some(seq!['w']),
        KeyboardKey::KEY_X => Some(seq!['x']),
        KeyboardKey::KEY_Y => Some(seq!['y']),
        KeyboardKey::KEY_Z => Some(seq!['z']),
        KeyboardKey::KEY_ZERO => Some(seq!['0']),
        KeyboardKey::KEY_ONE => Some(seq!['1']),
        KeyboardKey::KEY_TWO => Some(seq!['2']),
        KeyboardKey::KEY_THREE => Some(seq!['3']),
        KeyboardKey::KEY_FOUR => Some(seq!['4']),
        KeyboardKey::KEY_FIVE => Some(seq!['5']),
        KeyboardKey::KEY_SIX => Some(seq!['6']),
        KeyboardKey::KEY_SEVEN => Some(seq!['7']),
        KeyboardKey::KEY_EIGHT => Some(seq!['8']),
        KeyboardKey::KEY_NINE => Some(seq!['9']),
        KeyboardKey::KEY_SPACE => Some("space"@),
        KeyboardKey::KEY_ENTER => Some("enter"@),
        KeyboardKey::KEY_ESCAPE => Some("escape"@),
        KeyboardKey::KEY_BACKSPACE => Some("backspace"@),
        KeyboardKey::KEY_TAB => Some("tab"@),
        KeyboardKey::KEY_UP => Some("up"@),
        KeyboardKey::KEY_DOWN => Some("down"@),
        KeyboardKey::KEY_LEFT => Some("left"@),
        KeyboardKey::KEY_RIGHT => Some("right"@),
        KeyboardKey::KEY_LEFT_SHIFT => Some("lshift"@),
        KeyboardKey::KEY_RIGHT_SHIFT => Some("rshift"@),
        KeyboardKey::KEY_LEFT_CONTROL => Some("lctrl"@),
        KeyboardKey::KEY_RIGHT_CONTROL => Some("rctrl"@),
        KeyboardKey::KEY_LEFT_ALT => Some("lalt"@),
        KeyboardKey::KEY_RIGHT_ALT => Some("ralt"@),
        KeyboardKey::KEY_F1 => Some("f1"@),
        KeyboardKey::KEY_F2 => Some("f2"@),
        KeyboardKey::KEY_F3 => Some("f3"@),
        KeyboardKey::KEY_F4 => Some("f4"@),
        KeyboardKey::KEY_F5 => Some("f5"@),
        KeyboardKey::KEY_F6 => Some("f6"@),
        KeyboardKey::KEY_F7 => Some("f7"@),
        KeyboardKey::KEY_F8 => Some("f8"@),
        KeyboardKey::KEY_F9 => Some("f9"@),
        KeyboardKey::KEY_F10 => Some("f10"@),
        KeyboardKey::KEY_F11 => Some("f11"@),
        KeyboardKey::KEY_F12 => Some("f12"@),
        _ => None,
    }
}

/// The key a one-character name (a letter or a digit) denotes.
pub open spec fn key_by_char(c: char) -> Option<KeyboardKey> {
    match c {
        'a' => Some(KeyboardKey::KEY_A),
        'b' => Some(KeyboardKey::KEY_B),
        'c' => Some(KeyboardKey::KEY_C),
        'd' => Some(KeyboardKey::KEY_D),
        'e' => Some(KeyboardKey::KEY_E),
        'f' => Some(KeyboardKey::KEY_F),
        'g' => Some(KeyboardKey::KEY_G),
        'h' => Some(KeyboardKey::KEY_H),
        'i' => Some(KeyboardKey::KEY_I),
        'j' => Some(KeyboardKey::KEY_J),
        'k' => Some(KeyboardKey::KEY_K),
        'l' => Some(KeyboardKey::KEY_L),
        'm' => Some(KeyboardKey::KEY_M),
        'n' => Some(KeyboardKey::KEY_N),
        'o' => Some(KeyboardKey::KEY_O),
        'p' => Some(KeyboardKey::KEY_P),
        'q' => Some(KeyboardKey::KEY_Q),
        'r' => Some(KeyboardKey::KEY_R),
        's' => Some(KeyboardKey::KEY_S),
        't' => Some(KeyboardKey::KEY_T),
        'u' => Some(KeyboardKey::KEY_U),
        'v' => Some(KeyboardKey::KEY_V),
        'w' => Some(KeyboardKey::KEY_W),
        'x' => Some(KeyboardKey::KEY_X),
        'y' => Some(KeyboardKey::KEY_Y),
        'z' => Some(KeyboardKey::KEY_Z),
        '0' => Some(KeyboardKey::KEY_ZERO),
        '1' => Some(KeyboardKey::KEY_ONE),
        '2' => Some(KeyboardKey::KEY_TWO),
        '3' => Some(KeyboardKey::KEY_THREE),
        '4' => Some(KeyboardKey::KEY_FOUR),
        '5' => Some(KeyboardKey::KEY_FIVE),
        '6' => Some(KeyboardKey::KEY_SIX),
        '7' => Some(KeyboardKey::KEY_SEVEN),
        '8' => Some(KeyboardKey::KEY_EIGHT),
        '9' => Some(KeyboardKey::KEY_NINE),
        _ => None,
    }
}

/// The key a name denotes: the canonical names, then the aliases `return`, `esc`, `shift` and `ctrl`.
pub open spec fn key_by_name(s: Seq<char>) -> Option<KeyboardKey> {
    if s.len() == 1 {
        key_by_char(s[0])
    } else if s == "space"@ {
        Some(KeyboardKey::KEY_SPACE)
    } else if s == "enter"@ {
        Some(KeyboardKey::KEY_ENTER)
    } else if s == "escape"@ {
        Some(KeyboardKey::KEY_ESCAPE)
    } else if s == "backspace"@ {
        Some(KeyboardKey::KEY_BACKSPACE)
    } else if s == "tab"@ {
        Some(KeyboardKey::KEY_TAB)
    } else if s == "up"@ {
        Some(KeyboardKey::KEY_UP)
    } else if s == "down"@ {
        Some(KeyboardKey::KEY_DOWN)
    } else if s == "left"@ {
        Some(KeyboardKey::KEY_LEFT)
    } else if s == "right"@ {
        Some(KeyboardKey::KEY_RIGHT)
    } else if s == "lshift"@ {
        Some(KeyboardKey::KEY_LEFT_SHIFT)
    } else if s == "rshift"@ {
        Some(KeyboardKey::KEY_RIGHT_SHIFT)
    } else if s == "lctrl"@ {
        Some(KeyboardKey::KEY_LEFT_CONTROL)
    } else if s == "rctrl"@ {
        Some(KeyboardKey::KEY_RIGHT_CONTROL)
    } else if s == "lalt"@ {
        Some(KeyboardKey::KEY_LEFT_ALT)
    } else if s == "ralt"@ {
        Some(KeyboardKey::KEY_RIGHT_ALT)
    } else if s == "f1"@ {
        Some(KeyboardKey::KEY_F1)
    } else if s == "f2"@ {
        Some(KeyboardKey::KEY_F2)
    } else if s == "f3"@ {
        Some(KeyboardKey::KEY_F3)
    } else if s == "f4"@ {
        Some(KeyboardKey::KEY_F4)
    } else if s == "f5"@ {
        Some(KeyboardKey::KEY_F5)
    } else if s == "f6"@ {
        Some(KeyboardKey::KEY_F6)
    } else if s == "f7"@ {
        Some(KeyboardKey::KEY_F7)
    } else if s == "f8"@ {
        Some(KeyboardKey::KEY_F8)
    } else if s == "f9"@ {
        Some(KeyboardKey::KEY_F9)
    } else if s == "f10"@ {
        Some(KeyboardKey::KEY_F10)
    } else if s == "f11"@ {
        Some(KeyboardKey::KEY_F11)
    } else if s == "f12"@ {
        Some(KeyboardKey::KEY_F12)
    } else if s == "return"@ {
        Some(KeyboardKey::KEY_ENTER)
    } else if s == "esc"@ {
        Some(KeyboardKey::KEY_ESCAPE)
    } else if s == "shift"@ {
        Some(KeyboardKey::KEY_LEFT_SHIFT)
    } else if s == "ctrl"@ {
        Some(KeyboardKey::KEY_LEFT_CONTROL)
    } else {
        None
    }
}

/// Serialize a key to its canonical lowercase name, or `"unknown"` for keys without one.
pub fn key_to_str(v: KeyboardKey) -> (r: &'static str)
    ensures
        r@ == (match key_canonical_name(v) { Some(n) => n, None => "unknown"@ }),
{
    match v {
        KeyboardKey::KEY_A => {
            proof { reveal_strlit("a"); }
            "a"
        },
        KeyboardKey::KEY_B => {
            proof { reveal_strlit("b"); }
            "b"
        },
        KeyboardKey::KEY_C => {
            proof { reveal_strlit("c"); }
            "c"
        },
        KeyboardKey::KEY_D => {
            proof { reveal_strlit("d"); }
            "d"
        },
        KeyboardKey::KEY_E => {
            proof { reveal_strlit("e"); }
            "e"
        },
        KeyboardKey::KEY_F => {
            proof { reveal_strlit("f"); }
            "f"
        },
        KeyboardKey::KEY_G => {
            proof { reveal_strlit("g"); }
            "g"
        },
        KeyboardKey::KEY_H => {
            proof { reveal_strlit("h"); }
            "h"
        },
        KeyboardKey::KEY_I => {
            proof { reveal_strlit("i"); }
            "i"
        },
        KeyboardKey::KEY_J => {
            proof { reveal_strlit("j"); }
            "j"
        },
        KeyboardKey::KEY_K => {
            proof { reveal_strlit("k"); }
            "k"
        },
        KeyboardKey::KEY_L => {
            proof { reveal_strlit("l"); }
            "l"
        },
        KeyboardKey::KEY_M => {
            proof { reveal_strlit("m"); }
            "m"
        },
        KeyboardKey::KEY_N => {
            proof { reveal_strlit("n"); }
            "n"
        },
        KeyboardKey::KEY_O => {
            proof { reveal_strlit("o"); }
            "o"
        },
        KeyboardKey::KEY_P => {
            proof { reveal_strlit("p"); }
            "p"
        },
        KeyboardKey::KEY_Q => {
            proof { reveal_strlit("q"); }
            "q"
        },
        KeyboardKey::KEY_R => {
            proof { reveal_strlit("r"); }
            "r"
        },
        KeyboardKey::KEY_S => {
            proof { reveal_strlit("s"); }
            "s"
        },
        KeyboardKey::KEY_T => {
            proof { reveal_strlit("t"); }
            "t"
        },
        KeyboardKey::KEY_U => {
            proof { reveal_strlit("u"); }
            "u"
        },
        KeyboardKey::KEY_V => {
            proof { reveal_strlit("v"); }
            "v"
        },
        KeyboardKey::KEY_W => {
            proof { reveal_strlit("w"); }
            "w"
        },
        KeyboardKey::KEY_X => {
            proof { reveal_strlit("x"); }
            "x"
        },
        KeyboardKey::KEY_Y => {
            proof { reveal_strlit("y"); }
            "y"
        },
        KeyboardKey::KEY_Z => {
            proof { reveal_strlit("z"); }
            "z"
        },
        KeyboardKey::KEY_ZERO => {
            proof { reveal_strlit("0"); }
            "0"
        },
        KeyboardKey::KEY_ONE => {
            proof { reveal_strlit("1"); }
            "1"
        },
        KeyboardKey::KEY_TWO => {
            proof { reveal_strlit("2"); }
            "2"
        },
        KeyboardKey::KEY_THREE => {
            proof { reveal_strlit("3"); }
            "3"
        },
        KeyboardKey::KEY_FOUR => {
            proof { reveal_strlit("4"); }
            "4"
        },
        KeyboardKey::KEY_FIVE => {
            proof { reveal_strlit("5"); }
            "5"
        },
        KeyboardKey::KEY_SIX => {
            proof { reveal_strlit("6"); }
            "6"
        },
        KeyboardKey::KEY_SEVEN => {
            proof { reveal_strlit("7"); }
            "7"
        },
        KeyboardKey::KEY_EIGHT => {
            proof { reveal_strlit("8"); }
            "8"
        },
        KeyboardKey::KEY_NINE => {
            proof { reveal_strlit("9"); }
            "9"
        },
        KeyboardKey::KEY_SPACE => "space",
        KeyboardKey::KEY_ENTER => "enter",
        KeyboardKey::KEY_ESCAPE => "escape",
        KeyboardKey::KEY_BACKSPACE => "backspace",
        KeyboardKey::KEY_TAB => "tab",
        KeyboardKey::KEY_UP => "up",
        KeyboardKey::KEY_DOWN => "down",
        KeyboardKey::KEY_LEFT => "left",
        KeyboardKey::KEY_RIGHT => "right",
        KeyboardKey::KEY_LEFT_SHIFT => "lshift",
        KeyboardKey::KEY_RIGHT_SHIFT => "rshift",
        KeyboardKey::KEY_LEFT_CONTROL => "lctrl",
        KeyboardKey::KEY_RIGHT_CONTROL => "rctrl",
        KeyboardKey::KEY_LEFT_ALT => "lalt",
        KeyboardKey::KEY_RIGHT_ALT => "ralt",
        KeyboardKey::KEY_F1 => "f1",
        KeyboardKey::KEY_F2 => "f2",
        KeyboardKey::KEY_F3 => "f3",
        KeyboardKey::KEY_F4 => "f4",
        KeyboardKey::KEY_F5 => "f5",
        KeyboardKey::KEY_F6 => "f6",
        KeyboardKey::KEY_F7 => "f7",
        KeyboardKey::KEY_F8 => "f8",
        KeyboardKey::KEY_F9 => "f9",
        KeyboardKey::KEY_F10 => "f10",
        KeyboardKey::KEY_F11 => "f11",
        KeyboardKey::KEY_F12 => "f12",
        _ => "unknown",
    }
}

/// The key a one-character name denotes.
fn key_from_char(c: char) -> (r: Option<KeyboardKey>)
    ensures
        r == key_by_char(c),
{
    match c {
        'a' => Some(KeyboardKey::KEY_A),
        'b' => Some(KeyboardKey::KEY_B),
        'c' => Some(KeyboardKey::KEY_C),
        'd' => Some(KeyboardKey::KEY_D),
        'e' => Some(KeyboardKey::KEY_E),
        'f' => Some(KeyboardKey::KEY_F),
        'g' => Some(KeyboardKey::KEY_G),
        'h' => Some(KeyboardKey::KEY_H),
        'i' => Some(KeyboardKey::KEY_I),
        'j' => Some(KeyboardKey::KEY_J),
        'k' => Some(KeyboardKey::KEY_K),
        'l' => Some(KeyboardKey::KEY_L),
        'm' => Some(KeyboardKey::KEY_M),
        'n' => Some(KeyboardKey::KEY_N),
        'o' => Some(KeyboardKey::KEY_O),
        'p' => Some(KeyboardKey::KEY_P),
        'q' => Some(KeyboardKey::KEY_Q),
        'r' => Some(KeyboardKey::KEY_R),
        's' => Some(KeyboardKey::KEY_S),
        't' => Some(KeyboardKey::KEY_T),
        'u' => Some(KeyboardKey::KEY_U),
        'v' => Some(KeyboardKey::KEY_V),
        'w' => Some(KeyboardKey::KEY_W),
        'x' => Some(KeyboardKey::KEY_X),
        'y' => Some(KeyboardKey::KEY_Y),
        'z' => Some(KeyboardKey::KEY_Z),
        '0' => Some(KeyboardKey::KEY_ZERO),
        '1' => Some(KeyboardKey::KEY_ONE),
        '2' => Some(KeyboardKey::KEY_TWO),
        '3' => Some(KeyboardKey::KEY_THREE),
        '4' => Some(KeyboardKey::KEY_FOUR),
        '5' => Some(KeyboardKey::KEY_FIVE),
        '6' => Some(KeyboardKey::KEY_SIX),
        '7' => Some(KeyboardKey::KEY_SEVEN),
        '8' => Some(KeyboardKey::KEY_EIGHT),
        '9' => Some(KeyboardKey::KEY_NINE),
        _ => None,
    }
}

/// Parse a key name (case-sensitive): the canonical names, then the aliases `return`, `esc`, `shift` and `ctrl`.
pub fn key_from_str(s: &str) -> (r: Option<KeyboardKey>)
    ensures
        r == key_by_name(s@),
{
    if s.unicode_len() == 1 {
        return key_from_char(s.get_char(0));
    }
    if str_eq(s, "space") {
        return Some(KeyboardKey::KEY_SPACE);
    }
    if str_eq(s, "enter") {
        return Some(KeyboardKey::KEY_ENTER);
    }
    if str_eq(s, "escape") {
        return Some(KeyboardKey::KEY_ESCAPE);
    }
    if str_eq(s, "backspace") {
        return Some(KeyboardKey::KEY_BACKSPACE);
    }
    if str_eq(s, "tab") {
        return Some(KeyboardKey::KEY_TAB);
    }
    if str_eq(s, "up") {
        return Some(KeyboardKey::KEY_UP);
    }
    if str_eq(s, "down") {
        return Some(KeyboardKey::KEY_DOWN);
    }
    if str_eq(s, "left") {
        return Some(KeyboardKey::KEY_LEFT);
    }
    if str_eq(s, "right") {
        return Some(KeyboardKey::KEY_RIGHT);
    }
    if str_eq(s, "lshift") {
        return Some(KeyboardKey::KEY_LEFT_SHIFT);
    }
    if str_eq(s, "rshift") {
        return Some(KeyboardKey::KEY_RIGHT_SHIFT);
    }
    if str_eq(s, "lctrl") {
        return Some(KeyboardKey::KEY_LEFT_CONTROL);
    }
    if str_eq(s, "rctrl") {
        return Some(KeyboardKey::KEY_RIGHT_CONTROL);
    }
    if str_eq(s, "lalt") {
        return Some(KeyboardKey::KEY_LEFT_ALT);
    }
    if str_eq(s, "ralt") {
        return Some(KeyboardKey::KEY_RIGHT_ALT);
    }
    if str_eq(s, "f1") {
        return Some(KeyboardKey::KEY_F1);
    }
    if str_eq(s, "f2") {
        return Some(KeyboardKey::KEY_F2);
    }
    if str_eq(s, "f3") {
        return Some(KeyboardKey::KEY_F3);
    }
    if str_eq(s, "f4") {
        return Some(KeyboardKey::KEY_F4);
    }
    if str_eq(s, "f5") {
        return Some(KeyboardKey::KEY_F5);
    }
    if str_eq(s, "f6") {
        return Some(KeyboardKey::KEY_F6);
    }
    if str_eq(s, "f7") {
        return Some(KeyboardKey::KEY_F7);
    }
    if str_eq(s, "f8") {
        return Some(KeyboardKey::KEY_F8);
    }
    if str_eq(s, "f9") {
        return Some(KeyboardKey::KEY_F9);
    }
    if str_eq(s, "f10") {
        return Some(KeyboardKey::KEY_F10);
    }
    if str_eq(s, "f11") {
        return Some(KeyboardKey::KEY_F11);
    }
    if str_eq(s, "f12") {
        return Some(KeyboardKey::KEY_F12);
    }
    if str_eq(s, "return") {
        return Some(KeyboardKey::KEY_ENTER);
    }
    if str_eq(s, "esc") {
        return Some(KeyboardKey::KEY_ESCAPE);
    }
    if str_eq(s, "shift") {
        return Some(KeyboardKey::KEY_LEFT_SHIFT);
    }
    if str_eq(s, "ctrl") {
        return Some(KeyboardKey::KEY_LEFT_CONTROL);
    }
    None
}

/// A key's canonical name parses back to that key.
pub proof fn lemma_key_name_roundtrip(v: KeyboardKey)
    ensures
        key_canonical_name(v) matches Some(n) ==> key_by_name(n) == Some(v),
{
    reveal_strlit("space");
    assert(name_sig("space"@) == (5nat, 's', 'c', 'e'));
    reveal_strlit("enter");
    assert(name_sig("enter"@) == (5nat, 'e', 'e', 'r'));
    reveal_strlit("escape");
    assert(name_sig("escape"@) == (6nat, 'e', 'p', 'e'));
    reveal_strlit("backspace");
    assert(name_sig("backspace"@) == (9nat, 'b', 'c', 'e'));
    reveal_strlit("tab");
    assert(name_sig("tab"@) == (3nat, 't', 'a', 'b'));
    reveal_strlit("up");
    assert(name_sig("up"@) == (2nat, 'u', 'u', 'p'));
    reveal_strlit("down");
    assert(name_sig("down"@) == (4nat, 'd', 'w', 'n'));
    reveal_strlit("left");
    assert(name_sig("left"@) == (4nat, 'l', 'f', 't'));
    reveal_strlit("right");
    assert(name_sig("right"@) == (5nat, 'r', 'h', 't'));
    reveal_strlit("lshift");
    assert(name_sig("lshift"@) == (6nat, 'l', 'f', 't'));
    reveal_strlit("rshift");
    assert(name_sig("rshift"@) == (6nat, 'r', 'f', 't'));
    reveal_strlit("lctrl");
    assert(name_sig("lctrl"@) == (5nat, 'l', 'r', 'l'));
    reveal_strlit("rctrl");
    assert(name_sig("rctrl"@) == (5nat, 'r', 'r', 'l'));
    reveal_strlit("lalt");
    assert(name_sig("lalt"@) == (4nat, 'l', 'l', 't'));
    reveal_strlit("ralt");
    assert(name_sig("ralt"@) == (4nat, 'r', 'l', 't'));
    reveal_strlit("f1");
    assert(name_sig("f1"@) == (2nat, 'f', 'f', '1'));
    reveal_strlit("f2");
    assert(name_sig("f2"@) == (2nat, 'f', 'f', '2'));
    reveal_strlit("f3");
    assert(name_sig("f3"@) == (2nat, 'f', 'f', '3'));
    reveal_strlit("f4");
    assert(name_sig("f4"@) == (2nat, 'f', 'f', '4'));
    reveal_strlit("f5");
    assert(name_sig("f5"@) == (2nat, 'f', 'f', '5'));
    reveal_strlit("f6");
    assert(name_sig("f6"@) == (2nat, 'f', 'f', '6'));
    reveal_strlit("f7");
    assert(name_sig("f7"@) == (2nat, 'f', 'f', '7'));
    reveal_strlit("f8");
    assert(name_sig("f8"@) == (2nat, 'f', 'f', '8'));
    reveal_strlit("f9");
    assert(name_sig("f9"@) == (2nat, 'f', 'f', '9'));
    reveal_strlit("f10");
    assert(name_sig("f10"@) == (3nat, 'f', '1', '0'));
    reveal_strlit("f11");
    assert(name_sig("f11"@) == (3nat, 'f', '1', '1'));
    reveal_strlit("f12");
    assert(name_sig("f12"@) == (3nat, 'f', '1', '2'));
    reveal_strlit("return");
    assert(name_sig("return"@) == (6nat, 'r', 'r', 'n'));
    reveal_strlit("esc");
    assert(name_sig("esc"@) == (3nat, 'e', 's', 'c'));
    reveal_strlit("shift");
    assert(name_sig("shift"@) == (5nat, 's', 'f', 't'));
    reveal_strlit("ctrl");
    assert(name_sig("ctrl"@) == (4nat, 'c', 'r', 'l'));
}

/// Each canonical key name denotes the key of that name and is that key's name; each alias denotes its key.
pub proof fn lemma_key_names()
    ensures
        key_by_name(seq!['a']) == Some(KeyboardKey::KEY_A),
        key_canonical_name(KeyboardKey::KEY_A) == Some(seq!['a']),
        key_by_name(seq!['b']) == Some(KeyboardKey::KEY_B),
        key_canonical_name(KeyboardKey::KEY_B) == Some(seq!['b']),
        key_by_name(seq!['c']) == Some(KeyboardKey::KEY_C),
        key_canonical_name(KeyboardKey::KEY_C) == Some(seq!['c']),
        key_by_name(seq!['d']) == Some(KeyboardKey::KEY_D),
        key_canonical_name(KeyboardKey::KEY_D) == Some(seq!['d']),
        key_by_name(seq!['e']) == Some(KeyboardKey::KEY_E),
        key_canonical_name(KeyboardKey::KEY_E) == Some(seq!['e']),
        key_by_name(seq!['f']) == Some(KeyboardKey::KEY_F),
        key_canonical_name(KeyboardKey::KEY_F) == Some(seq!['f']),
        key_by_name(seq!['g']) == Some(KeyboardKey::KEY_G),
        key_canonical_name(KeyboardKey::KEY_G) == Some(seq!['g']),
        key_by_name(seq!['h']) == Some(KeyboardKey::KEY_H),
        key_canonical_name(KeyboardKey::KEY_H) == Some(seq!['h']),
        key_by_name(seq!['i']) == Some(KeyboardKey::KEY_I),
        key_canonical_name(KeyboardKey::KEY_I) == Some(seq!['i']),
        key_by_name(seq!['j']) == Some(KeyboardKey::KEY_J),
        key_canonical_name(KeyboardKey::KEY_J) == Some(seq!['j']),
        key_by_name(seq!['k']) == Some(KeyboardKey::KEY_K),
        key_canonical_name(KeyboardKey::KEY_K) == Some(seq!['k']),
        key_by_name(seq!['l']) == Some(KeyboardKey::KEY_L),
        key_canonical_name(KeyboardKey::KEY_L) == Some(seq!['l']),
        key_by_name(seq!['m']) == Some(KeyboardKey::KEY_M),
        key_canonical_name(KeyboardKey::KEY_M) == Some(seq!['m']),
        key_by_name(seq!['n']) == Some(KeyboardKey::KEY_N),
        key_canonical_name(KeyboardKey::KEY_N) == Some(seq!['n']),
        key_by_name(seq!['o']) == Some(KeyboardKey::KEY_O),
        key_canonical_name(KeyboardKey::KEY_O) == Some(seq!['o']),
        key_by_name(seq!['p']) == Some(KeyboardKey::KEY_P),
        key_canonical_name(KeyboardKey::KEY_P) == Some(seq!['p']),
        key_by_name(seq!['q']) == Some(KeyboardKey::KEY_Q),
        key_canonical_name(KeyboardKey::KEY_Q) == Some(seq!['q']),
        key_by_name(seq!['r']) == Some(KeyboardKey::KEY_R),
        key_canonical_name(KeyboardKey::KEY_R) == Some(seq!['r']),
        key_by_name(seq!['s']) == Some(KeyboardKey::KEY_S),
        key_canonical_name(KeyboardKey::KEY_S) == Some(seq!['s']),
        key_by_name(seq!['t']) == Some(KeyboardKey::KEY_T),
        key_canonical_name(KeyboardKey::KEY_T) == Some(seq!['t']),
        key_by_name(seq!['u']) == Some(KeyboardKey::KEY_U),
        key_canonical_name(KeyboardKey::KEY_U) == Some(seq!['u']),
        key_by_name(seq!['v']) == Some(KeyboardKey::KEY_V),
        key_canonical_name(KeyboardKey::KEY_V) == Some(seq!['v']),
        key_by_name(seq!['w']) == Some(KeyboardKey::KEY_W),
        key_canonical_name(KeyboardKey::KEY_W) == Some(seq!['w']),
        key_by_name(seq!['x']) == Some(KeyboardKey::KEY_X),
        key_canonical_name(KeyboardKey::KEY_X) == Some(seq!['x']),
        key_by_name(seq!['y']) == Some(KeyboardKey::KEY_Y),
        key_canonical_name(KeyboardKey::KEY_Y) == Some(seq!['y']),
        key_by_name(seq!['z']) == Some(KeyboardKey::KEY_Z),
        key_canonical_name(KeyboardKey::KEY_Z) == Some(seq!['z']),
        key_by_name(seq!['0']) == Some(KeyboardKey::KEY_ZERO),
        key_canonical_name(KeyboardKey::KEY_ZERO) == Some(seq!['0']),
        key_by_name(seq!['1']) == Some(KeyboardKey::KEY_ONE),
        key_canonical_name(KeyboardKey::KEY_ONE) == Some(seq!['1']),
        key_by_name(seq!['2']) == Some(KeyboardKey::KEY_TWO),
        key_canonical_name(KeyboardKey::KEY_TWO) == Some(seq!['2']),
        key_by_name(seq!['3']) == Some(KeyboardKey::KEY_THREE),
        key_canonical_name(KeyboardKey::KEY_THREE) == Some(seq!['3']),
        key_by_name(seq!['4']) == Some(KeyboardKey::KEY_FOUR),
        key_canonical_name(KeyboardKey::KEY_FOUR) == Some(seq!['4']),
        key_by_name(seq!['5']) == Some(KeyboardKey::KEY_FIVE),
        key_canonical_name(KeyboardKey::KEY_FIVE) == Some(seq!['5']),
        key_by_name(seq!['6']) == Some(KeyboardKey::KEY_SIX),
        key_canonical_name(KeyboardKey::KEY_SIX) == Some(seq!['6']),
        key_by_name(seq!['7']) == Some(KeyboardKey::KEY_SEVEN),
        key_canonical_name(KeyboardKey::KEY_SEVEN) == Some(seq!['7']),
        key_by_name(seq!['8']) == Some(KeyboardKey::KEY_EIGHT),
        key_canonical_name(KeyboardKey::KEY_EIGHT) == Some(seq!['8']),
        key_by_name(seq!['9']) == Some(KeyboardKey::KEY_NINE),
        key_canonical_name(KeyboardKey::KEY_NINE) == Some(seq!['9']),
        key_by_name("space"@) == Some(KeyboardKey::KEY_SPACE),
        key_canonical_name(KeyboardKey::KEY_SPACE) == Some("space"@),
        key_by_name("enter"@) == Some(KeyboardKey::KEY_ENTER),
        key_canonical_name(KeyboardKey::KEY_ENTER) == Some("enter"@),
        key_by_name("escape"@) == Some(KeyboardKey::KEY_ESCAPE),
        key_canonical_name(KeyboardKey::KEY_ESCAPE) == Some("escape"@),
        key_by_name("backspace"@) == Some(KeyboardKey::KEY_BACKSPACE),
        key_canonical_name(KeyboardKey::KEY_BACKSPACE) == Some("backspace"@),
        key_by_name("tab"@) == Some(KeyboardKey::KEY_TAB),
        key_canonical_name(KeyboardKey::KEY_TAB) == Some("tab"@),
        key_by_name("up"@) == Some(KeyboardKey::KEY_UP),
        key_canonical_name(KeyboardKey::KEY_UP) == Some("up"@),
        key_by_name("down"@) == Some(KeyboardKey::KEY_DOWN),
        key_canonical_name(KeyboardKey::KEY_DOWN) == Some("down"@),
        key_by_name("left"@) == Some(KeyboardKey::KEY_LEFT),
        key_canonical_name(KeyboardKey::KEY_LEFT) == Some("left"@),
        key_by_name("right"@) == Some(KeyboardKey::KEY_RIGHT),
        key_canonical_name(KeyboardKey::KEY_RIGHT) == Some("right"@),
        key_by_name("lshift"@) == Some(KeyboardKey::KEY_LEFT_SHIFT),
        key_canonical_name(KeyboardKey::KEY_LEFT_SHIFT) == Some("lshift"@),
        key_by_name("rshift"@) == Some(KeyboardKey::KEY_RIGHT_SHIFT),
        key_canonical_name(KeyboardKey::KEY_RIGHT_SHIFT) == Some("rshift"@),
        key_by_name("lctrl"@) == Some(KeyboardKey::KEY_LEFT_CONTROL),
        key_canonical_name(KeyboardKey::KEY_LEFT_CONTROL) == Some("lctrl"@),
        key_by_name("rctrl"@) == Some(KeyboardKey::KEY_RIGHT_CONTROL),
        key_canonical_name(KeyboardKey::KEY_RIGHT_CONTROL) == Some("rctrl"@),
        key_by_name("lalt"@) == Some(KeyboardKey::KEY_LEFT_ALT),
        key_canonical_name(KeyboardKey::KEY_LEFT_ALT) == Some("lalt"@),
        key_by_name("ralt"@) == Some(KeyboardKey::KEY_RIGHT_ALT),
        key_canonical_name(KeyboardKey::KEY_RIGHT_ALT) == Some("ralt"@),
        key_by_name("f1"@) == Some(KeyboardKey::KEY_F1),
        key_canonical_name(KeyboardKey::KEY_F1) == Some("f1"@),
        key_by_name("f2"@) == Some(KeyboardKey::KEY_F2),
        key_canonical_name(KeyboardKey::KEY_F2) == Some("f2"@),
        key_by_name("f3"@) == Some(KeyboardKey::KEY_F3),
        key_canonical_name(KeyboardKey::KEY_F3) == Some("f3"@),
        key_by_name("f4"@) == Some(KeyboardKey::KEY_F4),
        key_canonical_name(KeyboardKey::KEY_F4) == Some("f4"@),
        key_by_name("f5"@) == Some(KeyboardKey::KEY_F5),
        key_canonical_name(KeyboardKey::KEY_F5) == Some("f5"@),
        key_by_name("f6"@) == Some(KeyboardKey::KEY_F6),
        key_canonical_name(KeyboardKey::KEY_F6) == Some("f6"@),
        key_by_name("f7"@) == Some(KeyboardKey::KEY_F7),
        key_canonical_name(KeyboardKey::KEY_F7) == Some("f7"@),
        key_by_name("f8"@) == Some(KeyboardKey::KEY_F8),
        key_canonical_name(KeyboardKey::KEY_F8) == Some("f8"@),
        key_by_name("f9"@) == Some(KeyboardKey::KEY_F9),
        key_canonical_name(KeyboardKey::KEY_F9) == Some("f9"@),
        key_by_name("f10"@) == Some(KeyboardKey::KEY_F10),
        key_canonical_name(KeyboardKey::KEY_F10) == Some("f10"@),
        key_by_name("f11"@) == Some(KeyboardKey::KEY_F11),
        key_canonical_name(KeyboardKey::KEY_F11) == Some("f11"@),
        key_by_name("f12"@) == Some(KeyboardKey::KEY_F12),
        key_canonical_name(KeyboardKey::KEY_F12) == Some("f12"@),
        key_by_name("return"@) == Some(KeyboardKey::KEY_ENTER),
        key_by_name("esc"@) == Some(KeyboardKey::KEY_ESCAPE),
        key_by_name("shift"@) == Some(KeyboardKey::KEY_LEFT_SHIFT),
        key_by_name("ctrl"@) == Some(KeyboardKey::KEY_LEFT_CONTROL),
{
    reveal_strlit("space");
    assert(name_sig("space"@) == (5nat, 's', 'c', 'e'));
    reveal_strlit("enter");
    assert(name_sig("enter"@) == (5nat, 'e', 'e', 'r'));
    reveal_strlit("escape");
    assert(name_sig("escape"@) == (6nat, 'e', 'p', 'e'));
    reveal_strlit("backspace");
    assert(name_sig("backspace"@) == (9nat, 'b', 'c', 'e'));
    reveal_strlit("tab");
    assert(name_sig("tab"@) == (3nat, 't', 'a', 'b'));
    reveal_strlit("up");
    assert(name_sig("up"@) == (2nat, 'u', 'u', 'p'));
    reveal_strlit("down");
    assert(name_sig("down"@) == (4nat, 'd', 'w', 'n'));
    reveal_strlit("left");
    assert(name_sig("left"@) == (4nat, 'l', 'f', 't'));
    reveal_strlit("right");
    assert(name_sig("right"@) == (5nat, 'r', 'h', 't'));
    reveal_strlit("lshift");
    assert(name_sig("lshift"@) == (6nat, 'l', 'f', 't'));
    reveal_strlit("rshift");
    assert(name_sig("rshift"@) == (6nat, 'r', 'f', 't'));
    reveal_strlit("lctrl");
    assert(name_sig("lctrl"@) == (5nat, 'l', 'r', 'l'));
    reveal_strlit("rctrl");
    assert(name_sig("rctrl"@) == (5nat, 'r', 'r', 'l'));
    reveal_strlit("lalt");
    assert(name_sig("lalt"@) == (4nat, 'l', 'l', 't'));
    reveal_strlit("ralt");
    assert(name_sig("ralt"@) == (4nat, 'r', 'l', 't'));
    reveal_strlit("f1");
    assert(name_sig("f1"@) == (2nat, 'f', 'f', '1'));
    reveal_strlit("f2");
    assert(name_sig("f2"@) == (2nat, 'f', 'f', '2'));
    reveal_strlit("f3");
    assert(name_sig("f3"@) == (2nat, 'f', 'f', '3'));
    reveal_strlit("f4");
    assert(name_sig("f4"@) == (2nat, 'f', 'f', '4'));
    reveal_strlit("f5");
    assert(name_sig("f5"@) == (2nat, 'f', 'f', '5'));
    reveal_strlit("f6");
    assert(name_sig("f6"@) == (2nat, 'f', 'f', '6'));
    reveal_strlit("f7");
    assert(name_sig("f7"@) == (2nat, 'f', 'f', '7'));
    reveal_strlit("f8");
    assert(name_sig("f8"@) == (2nat, 'f', 'f', '8'));
    reveal_strlit("f9");
    assert(name_sig("f9"@) == (2nat, 'f', 'f', '9'));
    reveal_strlit("f10");
    assert(name_sig("f10"@) == (3nat, 'f', '1', '0'));
    reveal_strlit("f11");
    assert(name_sig("f11"@) == (3nat, 'f', '1', '1'));
    reveal_strlit("f12");
    assert(name_sig("f12"@) == (3nat, 'f', '1', '2'));
    reveal_strlit("return");
    assert(name_sig("return"@) == (6nat, 'r', 'r', 'n'));
    reveal_strlit("esc");
    assert(name_sig("esc"@) == (3nat, 'e', 's', 'c'));
    reveal_strlit("shift");
    assert(name_sig("shift"@) == (5nat, 's', 'f', 't'));
    reveal_strlit("ctrl");
    assert(name_sig("ctrl"@) == (4nat, 'c', 'r', 'l'));
}

/// The name of a mouse button, for the three named buttons.
pub open spec fn mouse_button_name(v: MouseButton) -> Option<Seq<char>> {
    match v {
        MouseButton::MOUSE_BUTTON_LEFT => Some("mouse_left"@),
        MouseButton::MOUSE_BUTTON_RIGHT => Some("mouse_right"@),
        MouseButton::MOUSE_BUTTON_MIDDLE => Some("mouse_middle"@),
        _ => None,
    }
}

/// The mouse button a name denotes.
pub open spec fn mouse_button_by_name(s: Seq<char>) -> Option<MouseButton> {
    if s == "mouse_left"@ {
        Some(MouseButton::MOUSE_BUTTON_LEFT)
    } else if s == "mouse_right"@ {
        Some(MouseButton::MOUSE_BUTTON_RIGHT)
    } else if s == "mouse_middle"@ {
        Some(MouseButton::MOUSE_BUTTON_MIDDLE)
    } else {
        None
    }
}

/// Serialize a mouse button; buttons other than left/right/middle give `"mouse_unknown"`.
pub fn mouse_button_to_str(v: MouseButton) -> (r: &'static str)
    ensures
        r@ == (match mouse_button_name(v) { Some(n) => n, None => "mouse_unknown"@ }),
{
    match v {
        MouseButton::MOUSE_BUTTON_LEFT => "mouse_left",
        MouseButton::MOUSE_BUTTON_RIGHT => "mouse_right",
        MouseButton::MOUSE_BUTTON_MIDDLE => "mouse_middle",
        _ => "mouse_unknown",
    }
}

/// Parse `mouse_left`, `mouse_right` or `mouse_middle`.
pub fn mouse_button_from_str(s: &str) -> (r: Option<MouseButton>)
    ensures
        r == mouse_button_by_name(s@),
{
    if str_eq(s, "mouse_left") {
        return Some(MouseButton::MOUSE_BUTTON_LEFT);
    }
    if str_eq(s, "mouse_right") {
        return Some(MouseButton::MOUSE_BUTTON_RIGHT);
    }
    if str_eq(s, "mouse_middle") {
        return Some(MouseButton::MOUSE_BUTTON_MIDDLE);
    }
    None
}

/// A named mouse button's name parses back to that button.
pub proof fn lemma_mouse_button_name_roundtrip(v: MouseButton)
    ensures
        mouse_button_name(v) matches Some(n) ==> mouse_button_by_name(n) == Some(v),
{
    reveal_strlit("mouse_left");
    assert(name_sig("mouse_left"@) == (10nat, 'm', 'f', 't'));
    reveal_strlit("mouse_right");
    assert(name_sig("mouse_right"@) == (11nat, 'm', 'h', 't'));
    reveal_strlit("mouse_middle");
    assert(name_sig("mouse_middle"@) == (12nat, 'm', 'l', 'e'));
}

/// Each mouse button name denotes the button of that name and is that button's name.
pub proof fn lemma_mouse_button_names()
    ensures
        mouse_button_by_name("mouse_left"@) == Some(MouseButton::MOUSE_BUTTON_LEFT),
        mouse_button_name(MouseButton::MOUSE_BUTTON_LEFT) == Some("mouse_left"@),
        mouse_button_by_name("mouse_right"@) == Some(MouseButton::MOUSE_BUTTON_RIGHT),
        mouse_button_name(MouseButton::MOUSE_BUTTON_RIGHT) == Some("mouse_right"@),
        mouse_button_by_name("mouse_middle"@) == Some(MouseButton::MOUSE_BUTTON_MIDDLE),
        mouse_button_name(MouseButton::MOUSE_BUTTON_MIDDLE) == Some("mouse_middle"@),
{
    reveal_strlit("mouse_left");
    assert(name_sig("mouse_left"@) == (10nat, 'm', 'f', 't'));
    reveal_strlit("mouse_right");
    assert(name_sig("mouse_right"@) == (11nat, 'm', 'h', 't'));
    reveal_strlit("mouse_middle");
    assert(name_sig("mouse_middle"@) == (12nat, 'm', 'l', 'e'));
}

/// The positional name of a gamepad button, if it has one.
pub open spec fn gamepad_button_name(v: GamepadButton) -> Option<Seq<char>> {
    match v {
        GamepadButton::GAMEPAD_BUTTON_LEFT_FACE_UP => Some("dpad_up"@),
        GamepadButton::GAMEPAD_BUTTON_LEFT_FACE_RIGHT => Some("dpad_right"@),
        GamepadButton::GAMEPAD_BUTTON_LEFT_FACE_DOWN => Some("dpad_down"@),
        GamepadButton::GAMEPAD_BUTTON_LEFT_FACE_LEFT => Some("dpad_left"@),
        GamepadButton::GAMEPAD_BUTTON_RIGHT_FACE_UP => Some("face_up"@),
        GamepadButton::GAMEPAD_BUTTON_RIGHT_FACE_RIGHT => Some("face_right"@),
        GamepadButton::GAMEPAD_BUTTON_RIGHT_FACE_DOWN => Some("face_down"@),
        GamepadButton::GAMEPAD_BUTTON_RIGHT_FACE_LEFT => Some("face_left"@),
        GamepadButton::GAMEPAD_BUTTON_LEFT_TRIGGER_1 => Some("lb"@),
        GamepadButton::GAMEPAD_BUTTON_LEFT_TRIGGER_2 => Some("lt"@),
        GamepadButton::GAMEPAD_BUTTON_RIGHT_TRIGGER_1 => Some("rb"@),
        GamepadButton::GAMEPAD_BUTTON_RIGHT_TRIGGER_2 => Some("rt"@),
        GamepadButton::GAMEPAD_BUTTON_MIDDLE_LEFT => Some("select"@),
        GamepadButton::GAMEPAD_BUTTON_MIDDLE => Some("guide"@),
        GamepadButton::GAMEPAD_BUTTON_MIDDLE_RIGHT => Some("start"@),
        GamepadButton::GAMEPAD_BUTTON_LEFT_THUMB => Some("left_thumb"@),
        GamepadButton::GAMEPAD_BUTTON_RIGHT_THUMB => Some("right_thumb"@),
        _ => None,
    }
}

/// The gamepad button a positional name denotes.
pub open spec fn gamepad_button_by_name(s: Seq<char>) -> Option<GamepadButton> {
    if s == "dpad_up"@ {
        Some(GamepadButton::GAMEPAD_BUTTON_LEFT_FACE_UP)
    } else if s == "dpad_right"@ {
        Some(GamepadButton::GAMEPAD_BUTTON_LEFT_FACE_RIGHT)
    } else if s == "dpad_down"@ {
        Some(GamepadButton::GAMEPAD_BUTTON_LEFT_FACE_DOWN)
    } else if s == "dpad_left"@ {
        Some(GamepadButton::GAMEPAD_BUTTON_LEFT_FACE_LEFT)
    } else if s == "face_up"@ {
        Some(GamepadButton::GAMEPAD_BUTTON_RIGHT_FACE_UP)
    } else if s == "face_right"@ {
        Some(GamepadButton::GAMEPAD_BUTTON_RIGHT_FACE_RIGHT)
    } else if s == "face_down"@ {
        Some(GamepadButton::GAMEPAD_BUTTON_RIGHT_FACE_DOWN)
    } else if s == "face_left"@ {
        Some(GamepadButton::GAMEPAD_BUTTON_RIGHT_FACE_LEFT)
    } else if s == "lb"@ {
        Some(GamepadButton::GAMEPAD_BUTTON_LEFT_TRIGGER_1)
    } else if s == "lt"@ {
        Some(GamepadButton::GAMEPAD_BUTTON_LEFT_TRIGGER_2)
    } else if s == "rb"@ {
        Some(GamepadButton::GAMEPAD_BUTTON_RIGHT_TRIGGER_1)
    } else if s == "rt"@ {
        Some(GamepadButton::GAMEPAD_BUTTON_RIGHT_TRIGGER_2)
    } else if s == "select"@ {
        Some(GamepadButton::GAMEPAD_BUTTON_MIDDLE_LEFT)
    } else if s == "guide"@ {
        Some(GamepadButton::GAMEPAD_BUTTON_MIDDLE)
    } else if s == "start"@ {
        Some(GamepadButton::GAMEPAD_BUTTON_MIDDLE_RIGHT)
    } else if s == "left_thumb"@ {
        Some(GamepadButton::GAMEPAD_BUTTON_LEFT_THUMB)
    } else if s == "right_thumb"@ {
        Some(GamepadButton::GAMEPAD_BUTTON_RIGHT_THUMB)
    } else {
        None
    }
}

/// Serialize a gamepad button to its positional name, or `"unknown"`.
pub(crate) fn gamepad_button_to_str(v: GamepadButton) -> (r: &'static str)
    ensures
        r@ == (match gamepad_button_name(v) { Some(n) => n, None => "unknown"@ }),
{
    match v {
        GamepadButton::GAMEPAD_BUTTON_LEFT_FACE_UP => "dpad_up",
        GamepadButton::GAMEPAD_BUTTON_LEFT_FACE_RIGHT => "dpad_right",
        GamepadButton::GAMEPAD_BUTTON_LEFT_FACE_DOWN => "dpad_down",
        GamepadButton::GAMEPAD_BUTTON_LEFT_FACE_LEFT => "dpad_left",
        GamepadButton::GAMEPAD_BUTTON_RIGHT_FACE_UP => "face_up",
        GamepadButton::GAMEPAD_BUTTON_RIGHT_FACE_RIGHT => "face_right",
        GamepadButton::GAMEPAD_BUTTON_RIGHT_FACE_DOWN => "face_down",
        GamepadButton::GAMEPAD_BUTTON_RIGHT_FACE_LEFT => "face_left",
        GamepadButton::GAMEPAD_BUTTON_LEFT_TRIGGER_1 => "lb",
        GamepadButton::GAMEPAD_BUTTON_LEFT_TRIGGER_2 => "lt",
        GamepadButton::GAMEPAD_BUTTON_RIGHT_TRIGGER_1 => "rb",
        GamepadButton::GAMEPAD_BUTTON_RIGHT_TRIGGER_2 => "rt",
        GamepadButton::GAMEPAD_BUTTON_MIDDLE_LEFT => "select",
        GamepadButton::GAMEPAD_BUTTON_MIDDLE => "guide",
        GamepadButton::GAMEPAD_BUTTON_MIDDLE_RIGHT => "start",
        GamepadButton::GAMEPAD_BUTTON_LEFT_THUMB => "left_thumb",
        GamepadButton::GAMEPAD_BUTTON_RIGHT_THUMB => "right_thumb",
        _ => "unknown",
    }
}

/// Parse a positional gamepad button name.
pub(crate) fn gamepad_button_from_str(s: &str) -> (r: Option<GamepadButton>)
    ensures
        r == gamepad_button_by_name(s@),
{
    if str_eq(s, "dpad_up") {
        return Some(GamepadButton::GAMEPAD_BUTTON_LEFT_FACE_UP);
    }
    if str_eq(s, "dpad_right") {
        return Some(GamepadButton::GAMEPAD_BUTTON_LEFT_FACE_RIGHT);
    }
    if str_eq(s, "dpad_down") {
        return Some(GamepadButton::GAMEPAD_BUTTON_LEFT_FACE_DOWN);
    }
    if str_eq(s, "dpad_left") {
        return Some(GamepadButton::GAMEPAD_BUTTON_LEFT_FACE_LEFT);
    }
    if str_eq(s, "face_up") {
        return Some(GamepadButton::GAMEPAD_BUTTON_RIGHT_FACE_UP);
    }
    if str_eq(s, "face_right") {
        return Some(GamepadButton::GAMEPAD_BUTTON_RIGHT_FACE_RIGHT);
    }
    if str_eq(s, "face_down") {
        return Some(GamepadButton::GAMEPAD_BUTTON_RIGHT_FACE_DOWN);
    }
    if str_eq(s, "face_left") {
        return Some(GamepadButton::GAMEPAD_BUTTON_RIGHT_FACE_LEFT);
    }
    if str_eq(s, "lb") {
        return Some(GamepadButton::GAMEPAD_BUTTON_LEFT_TRIGGER_1);
    }
    if str_eq(s, "lt") {
        return Some(GamepadButton::GAMEPAD_BUTTON_LEFT_TRIGGER_2);
    }
    if str_eq(s, "rb") {
        return Some(GamepadButton::GAMEPAD_BUTTON_RIGHT_TRIGGER_1);
    }
    if str_eq(s, "rt") {
        return Some(GamepadButton::GAMEPAD_BUTTON_RIGHT_TRIGGER_2);
    }
    if str_eq(s, "select") {
        return Some(GamepadButton::GAMEPAD_BUTTON_MIDDLE_LEFT);
    }
    if str_eq(s, "guide") {
        return Some(GamepadButton::GAMEPAD_BUTTON_MIDDLE);
    }
    if str_eq(s, "start") {
        return Some(GamepadButton::GAMEPAD_BUTTON_MIDDLE_RIGHT);
    }
    if str_eq(s, "left_thumb") {
        return Some(GamepadButton::GAMEPAD_BUTTON_LEFT_THUMB);
    }
    if str_eq(s, "right_thumb") {
        return Some(GamepadButton::GAMEPAD_BUTTON_RIGHT_THUMB);
    }
    None
}

/// A named gamepad button's name parses back to that button.
pub proof fn lemma_gamepad_button_name_roundtrip(v: GamepadButton)
    ensures
        gamepad_button_name(v) matches Some(n) ==> gamepad_button_by_name(n) == Some(v),
{
    reveal_strlit("dpad_up");
    assert(name_sig("dpad_up"@) == (7nat, 'd', 'u', 'p'));
    reveal_strlit("dpad_right");
    assert(name_sig("dpad_right"@) == (10nat, 'd', 'h', 't'));
    reveal_strlit("dpad_down");
    assert(name_sig("dpad_down"@) == (9nat, 'd', 'w', 'n'));
    reveal_strlit("dpad_left");
    assert(name_sig("dpad_left"@) == (9nat, 'd', 'f', 't'));
    reveal_strlit("face_up");
    assert(name_sig("face_up"@) == (7nat, 'f', 'u', 'p'));
    reveal_strlit("face_right");
    assert(name_sig("face_right"@) == (10nat, 'f', 'h', 't'));
    reveal_strlit("face_down");
    assert(name_sig("face_down"@) == (9nat, 'f', 'w', 'n'));
    reveal_strlit("face_left");
    assert(name_sig("face_left"@) == (9nat, 'f', 'f', 't'));
    reveal_strlit("lb");
    assert(name_sig("lb"@) == (2nat, 'l', 'l', 'b'));
    reveal_strlit("lt");
    assert(name_sig("lt"@) == (2nat, 'l', 'l', 't'));
    reveal_strlit("rb");
    assert(name_sig("rb"@) == (2nat, 'r', 'r', 'b'));
    reveal_strlit("rt");
    assert(name_sig("rt"@) == (2nat, 'r', 'r', 't'));
    reveal_strlit("select");
    assert(name_sig("select"@) == (6nat, 's', 'c', 't'));
    reveal_strlit("guide");
    assert(name_sig("guide"@) == (5nat, 'g', 'd', 'e'));
    reveal_strlit("start");
    assert(name_sig("start"@) == (5nat, 's', 'r', 't'));
    reveal_strlit("left_thumb");
    assert(name_sig("left_thumb"@) == (10nat, 'l', 'm', 'b'));
    reveal_strlit("right_thumb");
    assert(name_sig("right_thumb"@) == (11nat, 'r', 'm', 'b'));
}

/// Each positional gamepad button name denotes the button at that position and is that button's name.
pub proof fn lemma_gamepad_button_names()
    ensures
        gamepad_button_by_name("dpad_up"@) == Some(GamepadButton::GAMEPAD_BUTTON_LEFT_FACE_UP),
        gamepad_button_name(GamepadButton::GAMEPAD_BUTTON_LEFT_FACE_UP) == Some("dpad_up"@),
        gamepad_button_by_name("dpad_right"@) == Some(GamepadButton::GAMEPAD_BUTTON_LEFT_FACE_RIGHT),
        gamepad_button_name(GamepadButton::GAMEPAD_BUTTON_LEFT_FACE_RIGHT) == Some("dpad_right"@),
        gamepad_button_by_name("dpad_down"@) == Some(GamepadButton::GAMEPAD_BUTTON_LEFT_FACE_DOWN),
        gamepad_button_name(GamepadButton::GAMEPAD_BUTTON_LEFT_FACE_DOWN) == Some("dpad_down"@),
        gamepad_button_by_name("dpad_left"@) == Some(GamepadButton::GAMEPAD_BUTTON_LEFT_FACE_LEFT),
        gamepad_button_name(GamepadButton::GAMEPAD_BUTTON_LEFT_FACE_LEFT) == Some("dpad_left"@),
        gamepad_button_by_name("face_up"@) == Some(GamepadButton::GAMEPAD_BUTTON_RIGHT_FACE_UP),
        gamepad_button_name(GamepadButton::GAMEPAD_BUTTON_RIGHT_FACE_UP) == Some("face_up"@),
        gamepad_button_by_name("face_right"@) == Some(GamepadButton::GAMEPAD_BUTTON_RIGHT_FACE_RIGHT),
        gamepad_button_name(GamepadButton::GAMEPAD_BUTTON_RIGHT_FACE_RIGHT) == Some("face_right"@),
        gamepad_button_by_name("face_down"@) == Some(GamepadButton::GAMEPAD_BUTTON_RIGHT_FACE_DOWN),
        gamepad_button_name(GamepadButton::GAMEPAD_BUTTON_RIGHT_FACE_DOWN) == Some("face_down"@),
        gamepad_button_by_name("face_left"@) == Some(GamepadButton::GAMEPAD_BUTTON_RIGHT_FACE_LEFT),
        gamepad_button_name(GamepadButton::GAMEPAD_BUTTON_RIGHT_FACE_LEFT) == Some("face_left"@),
        gamepad_button_by_name("lb"@) == Some(GamepadButton::GAMEPAD_BUTTON_LEFT_TRIGGER_1),
        gamepad_button_name(GamepadButton::GAMEPAD_BUTTON_LEFT_TRIGGER_1) == Some("lb"@),
        gamepad_button_by_name("lt"@) == Some(GamepadButton::GAMEPAD_BUTTON_LEFT_TRIGGER_2),
        gamepad_button_name(GamepadButton::GAMEPAD_BUTTON_LEFT_TRIGGER_2) == Some("lt"@),
        gamepad_button_by_name("rb"@) == Some(GamepadButton::GAMEPAD_BUTTON_RIGHT_TRIGGER_1),
        gamepad_button_name(GamepadButton::GAMEPAD_BUTTON_RIGHT_TRIGGER_1) == Some("rb"@),
        gamepad_button_by_name("rt"@) == Some(GamepadButton::GAMEPAD_BUTTON_RIGHT_TRIGGER_2),
        gamepad_button_name(GamepadButton::GAMEPAD_BUTTON_RIGHT_TRIGGER_2) == Some("rt"@),
        gamepad_button_by_name("select"@) == Some(GamepadButton::GAMEPAD_BUTTON_MIDDLE_LEFT),
        gamepad_button_name(GamepadButton::GAMEPAD_BUTTON_MIDDLE_LEFT) == Some("select"@),
        gamepad_button_by_name("guide"@) == Some(GamepadButton::GAMEPAD_BUTTON_MIDDLE),
        gamepad_button_name(GamepadButton::GAMEPAD_BUTTON_MIDDLE) == Some("guide"@),
        gamepad_button_by_name("start"@) == Some(GamepadButton::GAMEPAD_BUTTON_MIDDLE_RIGHT),
        gamepad_button_name(GamepadButton::GAMEPAD_BUTTON_MIDDLE_RIGHT) == Some("start"@),
        gamepad_button_by_name("left_thumb"@) == Some(GamepadButton::GAMEPAD_BUTTON_LEFT_THUMB),
        gamepad_button_name(GamepadButton::GAMEPAD_BUTTON_LEFT_THUMB) == Some("left_thumb"@),
        gamepad_button_by_name("right_thumb"@) == Some(GamepadButton::GAMEPAD_BUTTON_RIGHT_THUMB),
        gamepad_button_name(GamepadButton::GAMEPAD_BUTTON_RIGHT_THUMB) == Some("right_thumb"@),
{
    reveal_strlit("dpad_up");
    assert(name_sig("dpad_up"@) == (7nat, 'd', 'u', 'p'));
    reveal_strlit("dpad_right");
    assert(name_sig("dpad_right"@) == (10nat, 'd', 'h', 't'));
    reveal_strlit("dpad_down");
    assert(name_sig("dpad_down"@) == (9nat, 'd', 'w', 'n'));
    reveal_strlit("dpad_left");
    assert(name_sig("dpad_left"@) == (9nat, 'd', 'f', 't'));
    reveal_strlit("face_up");
    assert(name_sig("face_up"@) == (7nat, 'f', 'u', 'p'));
    reveal_strlit("face_right");
    assert(name_sig("face_right"@) == (10nat, 'f', 'h', 't'));
    reveal_strlit("face_down");
    assert(name_sig("face_down"@) == (9nat, 'f', 'w', 'n'));
    reveal_strlit("face_left");
    assert(name_sig("face_left"@) == (9nat, 'f', 'f', 't'));
    reveal_strlit("lb");
    assert(name_sig("lb"@) == (2nat, 'l', 'l', 'b'));
    reveal_strlit("lt");
    assert(name_sig("lt"@) == (2nat, 'l', 'l', 't'));
    reveal_strlit("rb");
    assert(name_sig("rb"@) == (2nat, 'r', 'r', 'b'));
    reveal_strlit("rt");
    assert(name_sig("rt"@) == (2nat, 'r', 'r', 't'));
    reveal_strlit("select");
    assert(name_sig("select"@) == (6nat, 's', 'c', 't'));
    reveal_strlit("guide");
    assert(name_sig("guide"@) == (5nat, 'g', 'd', 'e'));
    reveal_strlit("start");
    assert(name_sig("start"@) == (5nat, 's', 'r', 't'));
    reveal_strlit("left_thumb");
    assert(name_sig("left_thumb"@) == (10nat, 'l', 'm', 'b'));
    reveal_strlit("right_thumb");
    assert(name_sig("right_thumb"@) == (11nat, 'r', 'm', 'b'));
}

/// The name of a gamepad axis (used with a `+`/`-` suffix in bindings).
pub open spec fn gamepad_axis_name(v: GamepadAxis) -> Option<Seq<char>> {
    match v {
        GamepadAxis::GAMEPAD_AXIS_LEFT_X => Some("axis_lx"@),
        GamepadAxis::GAMEPAD_AXIS_LEFT_Y => Some("axis_ly"@),
        GamepadAxis::GAMEPAD_AXIS_RIGHT_X => Some("axis_rx"@),
        GamepadAxis::GAMEPAD_AXIS_RIGHT_Y => Some("axis_ry"@),
        GamepadAxis::GAMEPAD_AXIS_LEFT_TRIGGER => Some("axis_lt"@),
        GamepadAxis::GAMEPAD_AXIS_RIGHT_TRIGGER => Some("axis_rt"@),
    }
}

/// The gamepad axis a name denotes.
pub open spec fn gamepad_axis_by_name(s: Seq<char>) -> Option<GamepadAxis> {
    if s == "axis_lx"@ {
        Some(GamepadAxis::GAMEPAD_AXIS_LEFT_X)
    } else if s == "axis_ly"@ {
        Some(GamepadAxis::GAMEPAD_AXIS_LEFT_Y)
    } else if s == "axis_rx"@ {
        Some(GamepadAxis::GAMEPAD_AXIS_RIGHT_X)
    } else if s == "axis_ry"@ {
        Some(GamepadAxis::GAMEPAD_AXIS_RIGHT_Y)
    } else if s == "axis_lt"@ {
        Some(GamepadAxis::GAMEPAD_AXIS_LEFT_TRIGGER)
    } else if s == "axis_rt"@ {
        Some(GamepadAxis::GAMEPAD_AXIS_RIGHT_TRIGGER)
    } else {
        None
    }
}

/// Serialize a gamepad axis to its name.
pub(crate) fn gamepad_axis_to_str(v: GamepadAxis) -> (r: &'static str)
    ensures
        r@ == (match gamepad_axis_name(v) { Some(n) => n, None => "unknown"@ }),
{
    match v {
        GamepadAxis::GAMEPAD_AXIS_LEFT_X => "axis_lx",
        GamepadAxis::GAMEPAD_AXIS_LEFT_Y => "axis_ly",
        GamepadAxis::GAMEPAD_AXIS_RIGHT_X => "axis_rx",
        GamepadAxis::GAMEPAD_AXIS_RIGHT_Y => "axis_ry",
        GamepadAxis::GAMEPAD_AXIS_LEFT_TRIGGER => "axis_lt",
        GamepadAxis::GAMEPAD_AXIS_RIGHT_TRIGGER => "axis_rt",
    }
}

/// Parse a gamepad axis name.
pub(crate) fn gamepad_axis_from_str(s: &str) -> (r: Option<GamepadAxis>)
    ensures
        r == gamepad_axis_by_name(s@),
{
    if str_eq(s, "axis_lx") {
        return Some(GamepadAxis::GAMEPAD_AXIS_LEFT_X);
    }
    if str_eq(s, "axis_ly") {
        return Some(GamepadAxis::GAMEPAD_AXIS_LEFT_Y);
    }
    if str_eq(s, "axis_rx") {
        return Some(GamepadAxis::GAMEPAD_AXIS_RIGHT_X);
    }
    if str_eq(s, "axis_ry") {
        return Some(GamepadAxis::GAMEPAD_AXIS_RIGHT_Y);
    }
    if str_eq(s, "axis_lt") {
        return Some(GamepadAxis::GAMEPAD_AXIS_LEFT_TRIGGER);
    }
    if str_eq(s, "axis_rt") {
        return Some(GamepadAxis::GAMEPAD_AXIS_RIGHT_TRIGGER);
    }
    None
}

/// A gamepad axis's name parses back to that axis.
pub proof fn lemma_gamepad_axis_name_roundtrip(v: GamepadAxis)
    ensures
        gamepad_axis_name(v) matches Some(n) ==> gamepad_axis_by_name(n) == Some(v),
{
    reveal_strlit("axis_lx");
    assert(name_sig("axis_lx"@) == (7nat, 'a', 'l', 'x'));
    reveal_strlit("axis_ly");
    assert(name_sig("axis_ly"@) == (7nat, 'a', 'l', 'y'));
    reveal_strlit("axis_rx");
    assert(name_sig("axis_rx"@) == (7nat, 'a', 'r', 'x'));
    reveal_strlit("axis_ry");
    assert(name_sig("axis_ry"@) == (7nat, 'a', 'r', 'y'));
    reveal_strlit("axis_lt");
    assert(name_sig("axis_lt"@) == (7nat, 'a', 'l', 't'));
    reveal_strlit("axis_rt");
    assert(name_sig("axis_rt"@) == (7nat, 'a', 'r', 't'));
}

/// Each axis name denotes the axis of that name and is that axis's name.
pub proof fn lemma_gamepad_axis_names()
    ensures
        gamepad_axis_by_name("axis_lx"@) == Some(GamepadAxis::GAMEPAD_AXIS_LEFT_X),
        gamepad_axis_name(GamepadAxis::GAMEPAD_AXIS_LEFT_X) == Some("axis_lx"@),
        gamepad_axis_by_name("axis_ly"@) == Some(GamepadAxis::GAMEPAD_AXIS_LEFT_Y),
        gamepad_axis_name(GamepadAxis::GAMEPAD_AXIS_LEFT_Y) == Some("axis_ly"@),
        gamepad_axis_by_name("axis_rx"@) == Some(GamepadAxis::GAMEPAD_AXIS_RIGHT_X),
        gamepad_axis_name(GamepadAxis::GAMEPAD_AXIS_RIGHT_X) == Some("axis_rx"@),
        gamepad_axis_by_name("axis_ry"@) == Some(GamepadAxis::GAMEPAD_AXIS_RIGHT_Y),
        gamepad_axis_name(GamepadAxis::GAMEPAD_AXIS_RIGHT_Y) == Some("axis_ry"@),
        gamepad_axis_by_name("axis_lt"@) == Some(GamepadAxis::GAMEPAD_AXIS_LEFT_TRIGGER),
        gamepad_axis_name(GamepadAxis::GAMEPAD_AXIS_LEFT_TRIGGER) == Some("axis_lt"@),
        gamepad_axis_by_name("axis_rt"@) == Some(GamepadAxis::GAMEPAD_AXIS_RIGHT_TRIGGER),
        gamepad_axis_name(GamepadAxis::GAMEPAD_AXIS_RIGHT_TRIGGER) == Some("axis_rt"@),
{
    reveal_strlit("axis_lx");
    assert(name_sig("axis_lx"@) == (7nat, 'a', 'l', 'x'));
    reveal_strlit("axis_ly");
    assert(name_sig("axis_ly"@) == (7nat, 'a', 'l', 'y'));
    reveal_strlit("axis_rx");
    assert(name_sig("axis_rx"@) == (7nat, 'a', 'r', 'x'));
    reveal_strlit("axis_ry");
    assert(name_sig("axis_ry"@) == (7nat, 'a', 'r', 'y'));
    reveal_strlit("axis_lt");
    assert(name_sig("axis_lt"@) == (7nat, 'a', 'l', 't'));
    reveal_strlit("axis_rt");
    assert(name_sig("axis_rt"@) == (7nat, 'a', 'r', 't'));
}

/// Canonical key names are one to nine characters long.

pub proof fn lemma_key_name_length(k: KeyboardKey)
    ensures
        key_canonical_name(k) matches Some(n) ==> 1 <= n.len() <= 9,
{

    reveal_strlit("space");
    assert(name_sig("space"@) == (5nat, 's', 'c', 'e'));
    reveal_strlit("enter");
    assert(name_sig("enter"@) == (5nat, 'e', 'e', 'r'));
    reveal_strlit("escape");
    assert(name_sig("escape"@) == (6nat, 'e', 'p', 'e'));
    reveal_strlit("backspace");
    assert(name_sig("backspace"@) == (9nat, 'b', 'c', 'e'));
    reveal_strlit("tab");
    assert(name_sig("tab"@) == (3nat, 't', 'a', 'b'));
    reveal_strlit("up");
    assert(name_sig("up"@) == (2nat, 'u', 'u', 'p'));
    reveal_strlit("down");
    assert(name_sig("down"@) == (4nat, 'd', 'w', 'n'));
    reveal_strlit("left");
    assert(name_sig("left"@) == (4nat, 'l', 'f', 't'));
    reveal_strlit("right");
    assert(name_sig("right"@) == (5nat, 'r', 'h', 't'));
    reveal_strlit("lshift");
    assert(name_sig("lshift"@) == (6nat, 'l', 'f', 't'));
    reveal_strlit("rshift");
    assert(name_sig("rshift"@) == (6nat, 'r', 'f', 't'));
    reveal_strlit("lctrl");
    assert(name_sig("lctrl"@) == (5nat, 'l', 'r', 'l'));
    reveal_strlit("rctrl");
    assert(name_sig("rctrl"@) == (5nat, 'r', 'r', 'l'));
    reveal_strlit("lalt");
    assert(name_sig("lalt"@) == (4nat, 'l', 'l', 't'));
    reveal_strlit("ralt");
    assert(name_sig("ralt"@) == (4nat, 'r', 'l', 't'));
    reveal_strlit("f1");
    assert(name_sig("f1"@) == (2nat, 'f', 'f', '1'));
    reveal_strlit("f2");
    assert(name_sig("f2"@) == (2nat, 'f', 'f', '2'));
    reveal_strlit("f3");
    assert(name_sig("f3"@) == (2nat, 'f', 'f', '3'));
    reveal_strlit("f4");
    assert(name_sig("f4"@) == (2nat, 'f', 'f', '4'));
    reveal_strlit("f5");
    assert(name_sig("f5"@) == (2nat, 'f', 'f', '5'));
    reveal_strlit("f6");
    assert(name_sig("f6"@) == (2nat, 'f', 'f', '6'));
    reveal_strlit("f7");
    assert(name_sig("f7"@) == (2nat, 'f', 'f', '7'));
    reveal_strlit("f8");
    assert(name_sig("f8"@) == (2nat, 'f', 'f', '8'));
    reveal_strlit("f9");
    assert(name_sig("f9"@) == (2nat, 'f', 'f', '9'));
    reveal_strlit("f10");
    assert(name_sig("f10"@) == (3nat, 'f', '1', '0'));
    reveal_strlit("f11");
    assert(name_sig("f11"@) == (3nat, 'f', '1', '1'));
    reveal_strlit("f12");
    assert(name_sig("f12"@) == (3nat, 'f', '1', '2'));
}

/// A name longer than one character that starts with `p` is no key name.

pub proof fn lemma_key_by_name_not_p(s: Seq<char>)
    requires
        s.len() > 1,
        s[0] == 'p',
    ensures
        key_by_name(s) is None,
{

    reveal_strlit("space");
    assert(name_sig("space"@) == (5nat, 's', 'c', 'e'));
    reveal_strlit("enter");
    assert(name_sig("enter"@) == (5nat, 'e', 'e', 'r'));
    reveal_strlit("escape");
    assert(name_sig("escape"@) == (6nat, 'e', 'p', 'e'));
    reveal_strlit("backspace");
    assert(name_sig("backspace"@) == (9nat, 'b', 'c', 'e'));
    reveal_strlit("tab");
    assert(name_sig("tab"@) == (3nat, 't', 'a', 'b'));
    reveal_strlit("up");
    assert(name_sig("up"@) == (2nat, 'u', 'u', 'p'));
    reveal_strlit("down");
    assert(name_sig("down"@) == (4nat, 'd', 'w', 'n'));
    reveal_strlit("left");
    assert(name_sig("left"@) == (4nat, 'l', 'f', 't'));
    reveal_strlit("right");
    assert(name_sig("right"@) == (5nat, 'r', 'h', 't'));
    reveal_strlit("lshift");
    assert(name_sig("lshift"@) == (6nat, 'l', 'f', 't'));
    reveal_strlit("rshift");
    assert(name_sig("rshift"@) == (6nat, 'r', 'f', 't'));
    reveal_strlit("lctrl");
    assert(name_sig("lctrl"@) == (5nat, 'l', 'r', 'l'));
    reveal_strlit("rctrl");
    assert(name_sig("rctrl"@) == (5nat, 'r', 'r', 'l'));
    reveal_strlit("lalt");
    assert(name_sig("lalt"@) == (4nat, 'l', 'l', 't'));
    reveal_strlit("ralt");
    assert(name_sig("ralt"@) == (4nat, 'r', 'l', 't'));
    reveal_strlit("f1");
    assert(name_sig("f1"@) == (2nat, 'f', 'f', '1'));
    reveal_strlit("f2");
    assert(name_sig("f2"@) == (2nat, 'f', 'f', '2'));
    reveal_strlit("f3");
    assert(name_sig("f3"@) == (2nat, 'f', 'f', '3'));
    reveal_strlit("f4");
    assert(name_sig("f4"@) == (2nat, 'f', 'f', '4'));
    reveal_strlit("f5");
    assert(name_sig("f5"@) == (2nat, 'f', 'f', '5'));
    reveal_strlit("f6");
    assert(name_sig("f6"@) == (2nat, 'f', 'f', '6'));
    reveal_strlit("f7");
    assert(name_sig("f7"@) == (2nat, 'f', 'f', '7'));
    reveal_strlit("f8");
    assert(name_sig("f8"@) == (2nat, 'f', 'f', '8'));
    reveal_strlit("f9");
    assert(name_sig("f9"@) == (2nat, 'f', 'f', '9'));
    reveal_strlit("f10");
    assert(name_sig("f10"@) == (3nat, 'f', '1', '0'));
    reveal_strlit("f11");
    assert(name_sig("f11"@) == (3nat, 'f', '1', '1'));
    reveal_strlit("f12");
    assert(name_sig("f12"@) == (3nat, 'f', '1', '2'));
    reveal_strlit("return");
    assert(name_sig("return"@) == (6nat, 'r', 'r', 'n'));
    reveal_strlit("esc");
    assert(name_sig("esc"@) == (3nat, 'e', 's', 'c'));
    reveal_strlit("shift");
    assert(name_sig("shift"@) == (5nat, 's', 'f', 't'));
    reveal_strlit("ctrl");
    assert(name_sig("ctrl"@) == (4nat, 'c', 'r', 'l'));
}

/// Mouse button names start with `m` and are at least ten characters long.

pub proof fn lemma_mouse_by_name_shape(s: Seq<char>)
    ensures
        mouse_button_by_name(s) is Some ==> s.len() >= 10 && s[0] == 'm',
{

    reveal_strlit("mouse_left");
    assert(name_sig("mouse_left"@) == (10nat, 'm', 'f', 't'));
    reveal_strlit("mouse_right");
    assert(name_sig("mouse_right"@) == (11nat, 'm', 'h', 't'));
    reveal_strlit("mouse_middle");
    assert(name_sig("mouse_middle"@) == (12nat, 'm', 'l', 'e'));
}

/// Gamepad button names end with neither `+` nor `-`.

pub proof fn lemma_gamepad_button_name_last(b: GamepadButton)
    ensures
        gamepad_button_name(b) matches Some(n) ==> n.len() > 0 && n.last() != '+' && n.last() != '-',
{

    reveal_strlit("dpad_up");
    assert(name_sig("dpad_up"@) == (7nat, 'd', 'u', 'p'));
    reveal_strlit("dpad_right");
    assert(name_sig("dpad_right"@) == (10nat, 'd', 'h', 't'));
    reveal_strlit("dpad_down");
    assert(name_sig("dpad_down"@) == (9nat, 'd', 'w', 'n'));
    reveal_strlit("dpad_left");
    assert(name_sig("dpad_left"@) == (9nat, 'd', 'f', 't'));
    reveal_strlit("face_up");
    assert(name_sig("face_up"@) == (7nat, 'f', 'u', 'p'));
    reveal_strlit("face_right");
    assert(name_sig("face_right"@) == (10nat, 'f', 'h', 't'));
    reveal_strlit("face_down");
    assert(name_sig("face_down"@) == (9nat, 'f', 'w', 'n'));
    reveal_strlit("face_left");
    assert(name_sig("face_left"@) == (9nat, 'f', 'f', 't'));
    reveal_strlit("lb");
    assert(name_sig("lb"@) == (2nat, 'l', 'l', 'b'));
    reveal_strlit("lt");
    assert(name_sig("lt"@) == (2nat, 'l', 'l', 't'));
    reveal_strlit("rb");
    assert(name_sig("rb"@) == (2nat, 'r', 'r', 'b'));
    reveal_strlit("rt");
    assert(name_sig("rt"@) == (2nat, 'r', 'r', 't'));
    reveal_strlit("select");
    assert(name_sig("select"@) == (6nat, 's', 'c', 't'));
    reveal_strlit("guide");
    assert(name_sig("guide"@) == (5nat, 'g', 'd', 'e'));
    reveal_strlit("start");
    assert(name_sig("start"@) == (5nat, 's', 'r', 't'));
    reveal_strlit("left_thumb");
    assert(name_sig("left_thumb"@) == (10nat, 'l', 'm', 'b'));
    reveal_strlit("right_thumb");
    assert(name_sig("right_thumb"@) == (11nat, 'r', 'm', 'b'));
}

/// A text that names a gamepad button ends with neither `+` nor `-`.

pub proof fn lemma_gamepad_button_by_name_last(s: Seq<char>)
    ensures
        gamepad_button_by_name(s) is Some ==> s.len() > 1 && s.last() != '+' && s.last() != '-',
{

    reveal_strlit("dpad_up");
    assert(name_sig("dpad_up"@) == (7nat, 'd', 'u', 'p'));
    reveal_strlit("dpad_right");
    assert(name_sig("dpad_right"@) == (10nat, 'd', 'h', 't'));
    reveal_strlit("dpad_down");
    assert(name_sig("dpad_down"@) == (9nat, 'd', 'w', 'n'));
    reveal_strlit("dpad_left");
    assert(name_sig("dpad_left"@) == (9nat, 'd', 'f', 't'));
    reveal_strlit("face_up");
    assert(name_sig("face_up"@) == (7nat, 'f', 'u', 'p'));
    reveal_strlit("face_right");
    assert(name_sig("face_right"@) == (10nat, 'f', 'h', 't'));
    reveal_strlit("face_down");
    assert(name_sig("face_down"@) == (9nat, 'f', 'w', 'n'));
    reveal_strlit("face_left");
    assert(name_sig("face_left"@) == (9nat, 'f', 'f', 't'));
    reveal_strlit("lb");
    assert(name_sig("lb"@) == (2nat, 'l', 'l', 'b'));
    reveal_strlit("lt");
    assert(name_sig("lt"@) == (2nat, 'l', 'l', 't'));
    reveal_strlit("rb");
    assert(name_sig("rb"@) == (2nat, 'r', 'r', 'b'));
    reveal_strlit("rt");
    assert(name_sig("rt"@) == (2nat, 'r', 'r', 't'));
    reveal_strlit("select");
    assert(name_sig("select"@) == (6nat, 's', 'c', 't'));
    reveal_strlit("guide");
    assert(name_sig("guide"@) == (5nat, 'g', 'd', 'e'));
    reveal_strlit("start");
    assert(name_sig("start"@) == (5nat, 's', 'r', 't'));
    reveal_strlit("left_thumb");
    assert(name_sig("left_thumb"@) == (10nat, 'l', 'm', 'b'));
    reveal_strlit("right_thumb");
    assert(name_sig("right_thumb"@) == (11nat, 'r', 'm', 'b'));
}

} // verus!
