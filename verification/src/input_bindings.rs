//! Runtime-configurable input bindings.
//!
//! [`InputBindings`] maps each logical [`InputAction`] to the hardware
//! sources ([`InputBinding`]) that drive it, several per action, in order.
//! Bindings are written as strings in scripts and settings: key names
//! (`"space"`), mouse button names (`"mouse_left"`) and the gamepad grammar
//! `"padN:<button>"` / `"padN:<axis>+"` / `"padN:<axis>-"`.
use vstd::prelude::*;

use crate::input_action::{
    action_name, action_to_str, all_actions, all_actions_spec, canonical_action_name,
    canonical_action_text, action_by_name, lemma_action_name_roundtrip, lemma_action_index_bijection,
    InputAction, INPUT_ACTION_COUNT,
};
use crate::keys::{
    gamepad_axis_by_name, gamepad_axis_from_str, gamepad_axis_name, gamepad_axis_to_str,
    gamepad_button_by_name, gamepad_button_from_str, gamepad_button_name, gamepad_button_to_str,
    key_by_name, key_canonical_name, key_from_str, key_to_str, lemma_gamepad_axis_name_roundtrip,
    lemma_gamepad_button_by_name_last, lemma_gamepad_button_name_last, lemma_gamepad_button_name_roundtrip, lemma_key_by_name_not_p,
    lemma_key_name_length, lemma_key_name_roundtrip, lemma_mouse_button_name_roundtrip,
    lemma_mouse_by_name_shape, mouse_button_by_name, mouse_button_from_str, mouse_button_name,
    mouse_button_to_str, GamepadAxis, GamepadButton, KeyboardKey, MouseButton,
};
use crate::text::{
    str_eq, lookup_first, lemma_lookup_first_push, decimal, decimal_string, first_index_of, lemma_decimal_parses, lemma_first_index_of, lemma_first_index_of_bounds, parse_u8,
    parse_u8_spec, unsigned_grammar,
};

verus! {

/// Number of gamepads a binding can name (`pad0` .. `pad3`).
pub const MAX_GAMEPADS: usize = 4;

/// Which side of zero a gamepad axis must cross to count as held.
#[derive(Clone, Copy, Debug, PartialEq, Eq, Hash, Structural)]
pub enum AxisDirection {
    Positive,
    Negative,
}

/// A single hardware input source that can be bound to a logical action.
#[derive(Clone, Copy, Debug, PartialEq, Eq, Hash, Structural)]
pub enum InputBinding {
    /// A physical keyboard key.
    Keyboard(KeyboardKey),
    /// A mouse button.
    MouseButton(MouseButton),
    /// A gamepad button on pad `pad`.
    GamepadButton { pad: u8, button: GamepadButton },
    /// A gamepad axis crossing a fixed threshold in `direction`, on pad `pad`.
    GamepadAxis { pad: u8, axis: GamepadAxis, direction: AxisDirection },
}

/// `"pad<N>:<rest>"`.
pub open spec fn pad_text(pad: u8, rest: Seq<char>) -> Seq<char> {
    seq!['p', 'a', 'd'] + decimal(pad as nat) + seq![':'] + rest
}

/// The suffix that names an axis direction.
pub open spec fn direction_sign(d: AxisDirection) -> char {
    match d {
        AxisDirection::Positive => '+',
        AxisDirection::Negative => '-',
    }
}

/// The canonical text of a binding.
pub open spec fn binding_text(b: InputBinding) -> Seq<char> {
    match b {
        InputBinding::Keyboard(k) => match key_canonical_name(k) {
            Some(n) => n,
            None => "unknown"@,
        },
        InputBinding::MouseButton(m) => match mouse_button_name(m) {
            Some(n) => n,
            None => "mouse_unknown"@,
        },
        InputBinding::GamepadButton { pad, button } => pad_text(
            pad,
            match gamepad_button_name(button) {
                Some(n) => n,
                None => "unknown"@,
            },
        ),
        InputBinding::GamepadAxis { pad, axis, direction } => pad_text(
            pad,
            gamepad_axis_name(axis)->0.push(direction_sign(direction)),
        ),
    }
}

/// The binding the gamepad grammar gives a text: `pad`, a pad number below
/// `MAX_GAMEPADS` in `u8` syntax, `:`, then an axis name followed by `+` or
/// `-`, or a button name.
pub open spec fn gamepad_binding_by_text(s: Seq<char>) -> Option<InputBinding> {
    if s.len() >= 3 && s[0] == 'p' && s[1] == 'a' && s[2] == 'd' {
        let rest = s.skip(3);
        match first_index_of(rest, ':') {
            None => None,
            Some(i) => {
                let name = rest.skip(i + 1);
                match parse_u8_spec(rest.take(i)) {
                    None => None,
                    Some(pad) => if pad >= MAX_GAMEPADS {
                        None
                    } else if name.len() > 0 && name.last() == '+' {
                        match gamepad_axis_by_name(name.drop_last()) {
                            Some(axis) => Some(
                                InputBinding::GamepadAxis { pad, axis, direction: AxisDirection::Positive },
                            ),
                            None => None,
                        }
                    } else if name.len() > 0 && name.last() == '-' {
                        match gamepad_axis_by_name(name.drop_last()) {
                            Some(axis) => Some(
                                InputBinding::GamepadAxis { pad, axis, direction: AxisDirection::Negative },
                            ),
                            None => None,
                        }
                    } else {
                        match gamepad_button_by_name(name) {
                            Some(button) => Some(InputBinding::GamepadButton { pad, button }),
                            None => None,
                        }
                    },
                }
            },
        }
    } else {
        None
    }
}

/// Whether `b` is the gamepad binding that a pad number text and a name
/// after the colon describe: the number parses as a `u8` below
/// `MAX_GAMEPADS`, and the name is a button name, or an axis name followed
/// by `+` or `-` for the direction.
pub open spec fn gamepad_binding_named(digits: Seq<char>, name: Seq<char>, b: InputBinding) -> bool {
    match b {
        InputBinding::GamepadButton { pad, button } => parse_u8_spec(digits) == Some(pad) && pad < MAX_GAMEPADS
            && gamepad_button_by_name(name) == Some(button),
        InputBinding::GamepadAxis { pad, axis, direction } => parse_u8_spec(digits) == Some(pad) && pad
            < MAX_GAMEPADS && name.len() > 0 && name.last() == direction_sign(direction)
            && gamepad_axis_by_name(name.drop_last()) == Some(axis),
        _ => false,
    }
}

/// The binding a text denotes: a mouse button name, else a key name, else
/// the gamepad grammar.
pub open spec fn binding_by_text(s: Seq<char>) -> Option<InputBinding> {
    match mouse_button_by_name(s) {
        Some(m) => Some(InputBinding::MouseButton(m)),
        None => match key_by_name(s) {
            Some(k) => Some(InputBinding::Keyboard(k)),
            None => gamepad_binding_by_text(s),
        },
    }
}

/// A binding whose text names it: its key, button or axis has a name, and
/// its pad (if any) is below `MAX_GAMEPADS`.
pub open spec fn has_canonical_text(b: InputBinding) -> bool {
    match b {
        InputBinding::Keyboard(k) => key_canonical_name(k) is Some,
        InputBinding::MouseButton(m) => mouse_button_name(m) is Some,
        InputBinding::GamepadButton { pad, button } => pad < MAX_GAMEPADS && gamepad_button_name(button) is Some,
        InputBinding::GamepadAxis { pad, .. } => pad < MAX_GAMEPADS,
    }
}

/// Parse a `"padN:..."` gamepad binding string.
fn gamepad_binding_from_str(s: &str) -> (r: Option<InputBinding>)
    ensures
        r == gamepad_binding_by_text(s@),
        forall|b: InputBinding| #[trigger] gamepad_text_describes(s@, b) <==> r == Some(b),
{
    proof {
        assert forall|b: InputBinding| #[trigger] gamepad_text_describes(s@, b) <==> gamepad_binding_by_text(s@) == Some(b) by {
            lemma_gamepad_binding_grammar(s@, b);
        }
    }
    let n = s.unicode_len();
    if n < 3 || s.get_char(0) != 'p' || s.get_char(1) != 'a' || s.get_char(2) != 'd' {
        return None;
    }
    let ghost rest = s@.skip(3);
    let mut i: usize = 3;
    while i < n && s.get_char(i) != ':'
        invariant
            3 <= i <= n,
            n == s@.len(),
            rest == s@.skip(3),
            forall|j: int| 0 <= j < i - 3 ==> rest[j] != ':',
        decreases n - i,
    {
        i = i + 1;
    }
    proof {
        lemma_first_index_of(rest, ':', i - 3);
    }
    if i == n {
        return None;
    }
    let pad_str = s.substring_char(3, i);
    let name = s.substring_char(i + 1, n);
    assert(pad_str@ =~= rest.take(i - 3));
    assert(name@ =~= rest.skip(i - 3 + 1));
    let pad = match parse_u8(pad_str) {
        Some(p) => p,
        None => {
            return None;
        },
    };
    if pad as usize >= MAX_GAMEPADS {
        return None;
    }
    let m = name.unicode_len();
    if m > 0 && name.get_char(m - 1) == '+' {
        let axis_name = name.substring_char(0, m - 1);
        assert(axis_name@ =~= name@.drop_last());
        return match gamepad_axis_from_str(axis_name) {
            Some(axis) => Some(InputBinding::GamepadAxis { pad, axis, direction: AxisDirection::Positive }),
            None => None,
        };
    }
    if m > 0 && name.get_char(m - 1) == '-' {
        let axis_name = name.substring_char(0, m - 1);
        assert(axis_name@ =~= name@.drop_last());
        return match gamepad_axis_from_str(axis_name) {
            Some(axis) => Some(InputBinding::GamepadAxis { pad, axis, direction: AxisDirection::Negative }),
            None => None,
        };
    }
    match gamepad_button_from_str(name) {
        Some(button) => Some(InputBinding::GamepadButton { pad, button }),
        None => None,
    }
}

/// Parse any binding string: mouse button names first, then key names,
/// then the `"padN:..."` gamepad grammar. `None` for unknown strings.
pub fn binding_from_str(s: &str) -> (r: Option<InputBinding>)
    ensures
        r == binding_by_text(s@),
{
    if let Some(m) = mouse_button_from_str(s) {
        return Some(InputBinding::MouseButton(m));
    }
    if let Some(k) = key_from_str(s) {
        return Some(InputBinding::Keyboard(k));
    }
    gamepad_binding_from_str(s)
}

/// `"pad<N>:<rest>"`.
fn gamepad_binding_to_str(pad: u8, rest: &str) -> (r: String)
    ensures
        r@ == pad_text(pad, rest@),
{
    let mut out = String::from_str("pad");
    let digits = decimal_string(pad as u64);
    out.append(digits.as_str());
    out.append(":");
    out.append(rest);
    proof {
        reveal_strlit("pad");
        reveal_strlit(":");
    }
    assert(out@ =~= pad_text(pad, rest@));
    out
}

fn sign_str(d: AxisDirection) -> (r: &'static str)
    ensures
        r@ == seq![direction_sign(d)],
{
    proof {
        reveal_strlit("+");
        reveal_strlit("-");
    }
    match d {
        AxisDirection::Positive => "+",
        AxisDirection::Negative => "-",
    }
}

/// Serialize a binding to its canonical string.
pub fn binding_to_str(b: InputBinding) -> (r: String)
    ensures
        r@ == binding_text(b),
{
    match b {
        InputBinding::Keyboard(k) => String::from_str(key_to_str(k)),
        InputBinding::MouseButton(m) => String::from_str(mouse_button_to_str(m)),
        InputBinding::GamepadButton { pad, button } => gamepad_binding_to_str(pad, gamepad_button_to_str(button)),
        InputBinding::GamepadAxis { pad, axis, direction } => {
            let mut name = String::from_str(gamepad_axis_to_str(axis));
            name.append(sign_str(direction));
            gamepad_binding_to_str(pad, name.as_str())
        },
    }
}

/// Whether `s` is `pad`, a pad number text without `:`, `:`, and a name,
/// that together describe the gamepad binding `b`.
pub open spec fn gamepad_text_describes(s: Seq<char>, b: InputBinding) -> bool {
    exists|digits: Seq<char>, name: Seq<char>|
        #![trigger gamepad_binding_named(digits, name, b)]
        s == seq!['p', 'a', 'd'] + digits + seq![':'] + name && !digits.contains(':')
            && gamepad_binding_named(digits, name, b)
}

/// The gamepad grammar, stated directly: a text denotes the gamepad binding
/// `b` exactly when it is `pad`, a pad number text without `:`, `:`, and a
/// name, that together describe `b`.
pub proof fn lemma_gamepad_binding_grammar(s: Seq<char>, b: InputBinding)
    ensures
        gamepad_binding_by_text(s) == Some(b) <==> gamepad_text_describes(s, b),
{
    if gamepad_binding_by_text(s) == Some(b) {
        let rest = s.skip(3);
        lemma_first_index_of_bounds(rest, ':');
        let i = first_index_of(rest, ':')->0;
        let digits = rest.take(i);
        let name = rest.skip(i + 1);
        assert(s =~= seq!['p', 'a', 'd'] + digits + seq![':'] + name);
        assert(!digits.contains(':')) by {
            if digits.contains(':') {
                let j = choose|j: int| 0 <= j < digits.len() && digits[j] == ':';
                assert(rest[j] == ':');
            }
        }
        lemma_gamepad_button_by_name_last(name);
        assert(gamepad_binding_named(digits, name, b));
    }
    if exists|digits: Seq<char>, name: Seq<char>|
        #![trigger gamepad_binding_named(digits, name, b)]
        s == seq!['p', 'a', 'd'] + digits + seq![':'] + name && !digits.contains(':')
            && gamepad_binding_named(digits, name, b) {
        let (digits, name) = choose|digits: Seq<char>, name: Seq<char>|
            #![trigger gamepad_binding_named(digits, name, b)]
            s == seq!['p', 'a', 'd'] + digits + seq![':'] + name && !digits.contains(':')
                && gamepad_binding_named(digits, name, b);
        let rest = s.skip(3);
        assert(rest =~= digits + seq![':'] + name);
        assert forall|j: int| 0 <= j < digits.len() implies rest[j] != ':' by {
            assert(rest[j] == digits[j]);
        }
        lemma_first_index_of(rest, ':', digits.len() as int);
        assert(rest.take(digits.len() as int) =~= digits);
        assert(rest.skip(digits.len() as int + 1) =~= name);
        lemma_gamepad_button_by_name_last(name);
    }
}

/// The text of a gamepad binding splits back into its pad number and name.
proof fn lemma_pad_text_parts(pad: u8, rest: Seq<char>)
    ensures
        ({
            let s = pad_text(pad, rest);
            let tail = s.skip(3);
            &&& s.len() > 3
            &&& s[0] == 'p' && s[1] == 'a' && s[2] == 'd'
            &&& first_index_of(tail, ':') == Some(decimal(pad as nat).len() as int)
            &&& tail.take(decimal(pad as nat).len() as int) == decimal(pad as nat)
            &&& tail.skip(decimal(pad as nat).len() as int + 1) == rest
            &&& parse_u8_spec(decimal(pad as nat)) == Some(pad)
        }),
{
    let s = pad_text(pad, rest);
    let d = decimal(pad as nat);
    lemma_decimal_parses(pad as nat);
    let tail = s.skip(3);
    assert(tail =~= d + seq![':'] + rest);
    assert(tail.take(d.len() as int) =~= d);
    assert(tail.skip(d.len() as int + 1) =~= rest);
    lemma_first_index_of(tail, ':', d.len() as int);
    assert(unsigned_grammar(d) == Some(pad as nat));
}

/// A binding with a canonical text parses back from that text.
pub proof fn lemma_binding_text_roundtrip(b: InputBinding)
    requires
        has_canonical_text(b),
    ensures
        binding_by_text(binding_text(b)) == Some(b),
{
    let s = binding_text(b);
    match b {
        InputBinding::Keyboard(k) => {
            lemma_key_name_roundtrip(k);
            lemma_key_name_length(k);
            lemma_mouse_by_name_shape(s);
        },
        InputBinding::MouseButton(m) => {
            lemma_mouse_button_name_roundtrip(m);
        },
        InputBinding::GamepadButton { pad, button } => {
            let name = gamepad_button_name(button)->0;
            lemma_pad_text_parts(pad, name);
            lemma_mouse_by_name_shape(s);
            lemma_key_by_name_not_p(s);
            lemma_gamepad_button_name_last(button);
            lemma_gamepad_button_name_roundtrip(button);
        },
        InputBinding::GamepadAxis { pad, axis, direction } => {
            let name = gamepad_axis_name(axis)->0.push(direction_sign(direction));
            lemma_pad_text_parts(pad, name);
            lemma_mouse_by_name_shape(s);
            lemma_key_by_name_not_p(s);
            assert(name.drop_last() =~= gamepad_axis_name(axis)->0);
            lemma_gamepad_axis_name_roundtrip(axis);
        },
    }
}

/// On any pad below `MAX_GAMEPADS`, an axis name followed by `+` denotes the
/// positive half of that axis and followed by `-` the negative half; the text
/// of a half-axis binding ends in the same sign.
pub proof fn lemma_axis_sign_suffix(pad: u8, axis: GamepadAxis)
    requires
        pad < MAX_GAMEPADS,
    ensures
        binding_by_text(pad_text(pad, gamepad_axis_name(axis)->0.push('+')))
            == Some(InputBinding::GamepadAxis { pad, axis, direction: AxisDirection::Positive }),
        binding_by_text(pad_text(pad, gamepad_axis_name(axis)->0.push('-')))
            == Some(InputBinding::GamepadAxis { pad, axis, direction: AxisDirection::Negative }),
        binding_text(InputBinding::GamepadAxis { pad, axis, direction: AxisDirection::Positive }).last() == '+',
        binding_text(InputBinding::GamepadAxis { pad, axis, direction: AxisDirection::Negative }).last() == '-',
{
    lemma_binding_text_roundtrip(InputBinding::GamepadAxis { pad, axis, direction: AxisDirection::Positive });
    lemma_binding_text_roundtrip(InputBinding::GamepadAxis { pad, axis, direction: AxisDirection::Negative });
}

/// Map from each logical action to its ordered list of hardware bindings,
/// with a flag that records a change since the last cache refresh.
#[derive(Debug)]
pub struct InputBindings {
    map: Vec<Vec<InputBinding>>,
    dirty: bool,
}

impl InputBindings {
    /// One list of bindings per action.
    #[verifier::type_invariant]
    spec fn one_list_per_action(self) -> bool {
        self.map.len() == INPUT_ACTION_COUNT
    }

    /// The bindings of an action, in order.
    pub closed spec fn bindings_of(self, action: InputAction) -> Seq<InputBinding> {
        self.map@[action.spec_index() as int]@
    }

    /// Whether the bindings changed since the last [`take_dirty`](Self::take_dirty).
    pub closed spec fn is_dirty(self) -> bool {
        self.dirty
    }

    /// Bindings in which no action has any binding; not dirty.
    pub fn unbound() -> (r: Self)
        ensures
            forall|a: InputAction| (#[trigger] r.bindings_of(a)).len() == 0,
            !r.is_dirty(),
    {
        let mut map: Vec<Vec<InputBinding>> = Vec::new();
        let mut i: usize = 0;
        while i < INPUT_ACTION_COUNT
            invariant
                i <= INPUT_ACTION_COUNT,
                map.len() == i,
                forall|j: int| 0 <= j < i ==> (#[trigger] map@[j])@.len() == 0,
            decreases INPUT_ACTION_COUNT - i,
        {
            map.push(Vec::new());
            i = i + 1;
        }
        InputBindings { map, dirty: false }
    }

    /// Replace all bindings of `action` with the single `binding`.
    pub fn rebind(&mut self, action: InputAction, binding: InputBinding)
        ensures
            final(self).bindings_of(action) == seq![binding],
            forall|a: InputAction| a != action ==> #[trigger] final(self).bindings_of(a) == old(self).bindings_of(a),
            final(self).is_dirty(),
    {
        proof {
            use_type_invariant(&*self);
        }
        let mut taken = InputBindings::unbound();
        std::mem::swap(&mut taken, self);
        let InputBindings { mut map, dirty: _ } = taken;
        let i = action.index();
        map.set(i, vec![binding]);
        *self = InputBindings { map, dirty: true };
        proof {
            assert forall|a: InputAction| a != action implies #[trigger] self.bindings_of(a) == old(self).bindings_of(a) by {
                lemma_index_injective(a, action);
            }
        }
    }

    /// Append `binding` to the bindings of `action`, keeping the existing ones.
    pub fn add_binding(&mut self, action: InputAction, binding: InputBinding)
        ensures
            final(self).bindings_of(action) == old(self).bindings_of(action).push(binding),
            forall|a: InputAction| a != action ==> #[trigger] final(self).bindings_of(a) == old(self).bindings_of(a),
            final(self).is_dirty(),
    {
        proof {
            use_type_invariant(&*self);
        }
        let mut taken = InputBindings::unbound();
        std::mem::swap(&mut taken, self);
        let InputBindings { mut map, dirty: _ } = taken;
        let i = action.index();
        let mut list: Vec<InputBinding> = Vec::new();
        std::mem::swap(&mut list, &mut map[i]);
        list.push(binding);
        map.set(i, list);
        *self = InputBindings { map, dirty: true };
        proof {
            assert forall|a: InputAction| a != action implies #[trigger] self.bindings_of(a) == old(self).bindings_of(a) by {
                lemma_index_injective(a, action);
            }
        }
    }

    /// Whether the bindings changed since the last call; clears the flag.
    pub fn take_dirty(&mut self) -> (r: bool)
        ensures
            r == old(self).is_dirty(),
            !final(self).is_dirty(),
            forall|a: InputAction| #[trigger] final(self).bindings_of(a) == old(self).bindings_of(a),
    {
        proof {
            use_type_invariant(&*self);
        }
        let r = self.dirty;
        self.dirty = false;
        r
    }

    /// All bindings of `action`, in order (empty if none).
    pub fn get_bindings(&self, action: InputAction) -> (r: &[InputBinding])
        ensures
            r@ == self.bindings_of(action),
    {
        proof {
            use_type_invariant(self);
        }
        self.map[action.index()].as_slice()
    }

    /// Every action in slot order, with its bindings.
    pub fn iter(&self) -> (r: Vec<(InputAction, &[InputBinding])>)
        ensures
            r@.len() == INPUT_ACTION_COUNT,
            forall|i: int|
                0 <= i < INPUT_ACTION_COUNT ==> (#[trigger] r@[i]).0 == all_actions_spec()[i]
                    && r@[i].1@ == self.bindings_of(all_actions_spec()[i]),
    {
        let actions = all_actions();
        let mut r: Vec<(InputAction, &[InputBinding])> = Vec::new();
        let mut i: usize = 0;
        while i < actions.len()
            invariant
                actions@ == all_actions_spec(),
                actions@.len() == INPUT_ACTION_COUNT,
                i <= actions.len(),
                r@.len() == i,
                forall|j: int|
                    0 <= j < i ==> (#[trigger] r@[j]).0 == all_actions_spec()[j]
                        && r@[j].1@ == self.bindings_of(all_actions_spec()[j]),
            decreases actions.len() - i,
        {
            let action = actions[i];
            r.push((action, self.get_bindings(action)));
            i = i + 1;
        }
        r
    }

    /// The first binding of `action` as a string, or `None` if unbound.
    pub fn first_binding_str(&self, action: InputAction) -> (r: Option<String>)
        ensures
            match r {
                Some(s) => self.bindings_of(action).len() > 0 && s@ == binding_text(self.bindings_of(action)[0]),
                None => self.bindings_of(action).len() == 0,
            },
    {
        let bindings = self.get_bindings(action);
        if bindings.len() == 0 {
            None
        } else {
            Some(binding_to_str(bindings[0]))
        }
    }
}

/// The keyboard and mouse bindings an action has by default.
pub open spec fn keyboard_mouse_defaults(a: InputAction) -> Seq<InputBinding> {
    match a {
        InputAction::MainDirectionUp => seq![InputBinding::Keyboard(KeyboardKey::KEY_W)],
        InputAction::MainDirectionDown => seq![InputBinding::Keyboard(KeyboardKey::KEY_S)],
        InputAction::MainDirectionLeft => seq![InputBinding::Keyboard(KeyboardKey::KEY_A)],
        InputAction::MainDirectionRight => seq![InputBinding::Keyboard(KeyboardKey::KEY_D)],
        InputAction::SecondaryDirectionUp => seq![InputBinding::Keyboard(KeyboardKey::KEY_UP)],
        InputAction::SecondaryDirectionDown => seq![InputBinding::Keyboard(KeyboardKey::KEY_DOWN)],
        InputAction::SecondaryDirectionLeft => seq![InputBinding::Keyboard(KeyboardKey::KEY_LEFT)],
        InputAction::SecondaryDirectionRight => seq![InputBinding::Keyboard(KeyboardKey::KEY_RIGHT)],
        InputAction::Back => seq![InputBinding::Keyboard(KeyboardKey::KEY_ESCAPE)],
        InputAction::Action1 => seq![
            InputBinding::Keyboard(KeyboardKey::KEY_SPACE),
            InputBinding::MouseButton(MouseButton::MOUSE_BUTTON_LEFT),
        ],
        InputAction::Action2 => seq![
            InputBinding::Keyboard(KeyboardKey::KEY_ENTER),
            InputBinding::MouseButton(MouseButton::MOUSE_BUTTON_RIGHT),
        ],
        InputAction::Action3 => seq![InputBinding::MouseButton(MouseButton::MOUSE_BUTTON_MIDDLE)],
        InputAction::Special => seq![InputBinding::Keyboard(KeyboardKey::KEY_F12)],
        InputAction::ToggleDebug => seq![InputBinding::Keyboard(KeyboardKey::KEY_F11)],
        InputAction::ToggleFullscreen => seq![InputBinding::Keyboard(KeyboardKey::KEY_F10)],
    }
}

/// Pad 0's button binding.
pub open spec fn pad0_button(button: GamepadButton) -> InputBinding {
    InputBinding::GamepadButton { pad: 0, button }
}

/// Pad 0's axis binding.
pub open spec fn pad0_axis(axis: GamepadAxis, direction: AxisDirection) -> InputBinding {
    InputBinding::GamepadAxis { pad: 0, axis, direction }
}

/// The pad-0 bindings appended to the defaults: the d-pad and left stick
/// drive both the main and the secondary directions, the face buttons drive
/// the three actions, and start drives `Back`.
pub open spec fn pad0_defaults(a: InputAction) -> Seq<InputBinding> {
    match a {
        InputAction::MainDirectionUp | InputAction::SecondaryDirectionUp => seq![
            pad0_button(GamepadButton::GAMEPAD_BUTTON_LEFT_FACE_UP),
            pad0_axis(GamepadAxis::GAMEPAD_AXIS_LEFT_Y, AxisDirection::Negative),
        ],
        InputAction::MainDirectionDown | InputAction::SecondaryDirectionDown => seq![
            pad0_button(GamepadButton::GAMEPAD_BUTTON_LEFT_FACE_DOWN),
            pad0_axis(GamepadAxis::GAMEPAD_AXIS_LEFT_Y, AxisDirection::Positive),
        ],
        InputAction::MainDirectionLeft | InputAction::SecondaryDirectionLeft => seq![
            pad0_button(GamepadButton::GAMEPAD_BUTTON_LEFT_FACE_LEFT),
            pad0_axis(GamepadAxis::GAMEPAD_AXIS_LEFT_X, AxisDirection::Negative),
        ],
        InputAction::MainDirectionRight | InputAction::SecondaryDirectionRight => seq![
            pad0_button(GamepadButton::GAMEPAD_BUTTON_LEFT_FACE_RIGHT),
            pad0_axis(GamepadAxis::GAMEPAD_AXIS_LEFT_X, AxisDirection::Positive),
        ],
        InputAction::Action1 => seq![pad0_button(GamepadButton::GAMEPAD_BUTTON_RIGHT_FACE_DOWN)],
        InputAction::Action2 => seq![pad0_button(GamepadButton::GAMEPAD_BUTTON_RIGHT_FACE_RIGHT)],
        InputAction::Action3 => seq![pad0_button(GamepadButton::GAMEPAD_BUTTON_RIGHT_FACE_LEFT)],
        InputAction::Back => seq![pad0_button(GamepadButton::GAMEPAD_BUTTON_MIDDLE_RIGHT)],
        _ => Seq::empty(),
    }
}

/// The engine's default bindings of an action: keyboard/mouse first, then pad 0.
pub open spec fn default_bindings(a: InputAction) -> Seq<InputBinding> {
    keyboard_mouse_defaults(a) + pad0_defaults(a)
}

/// The opposite of a direction action, in the same set (main or secondary).
pub open spec fn opposite_direction(a: InputAction) -> Option<InputAction> {
    match a {
        InputAction::MainDirectionUp => Some(InputAction::MainDirectionDown),
        InputAction::MainDirectionDown => Some(InputAction::MainDirectionUp),
        InputAction::MainDirectionLeft => Some(InputAction::MainDirectionRight),
        InputAction::MainDirectionRight => Some(InputAction::MainDirectionLeft),
        InputAction::SecondaryDirectionUp => Some(InputAction::SecondaryDirectionDown),
        InputAction::SecondaryDirectionDown => Some(InputAction::SecondaryDirectionUp),
        InputAction::SecondaryDirectionLeft => Some(InputAction::SecondaryDirectionRight),
        InputAction::SecondaryDirectionRight => Some(InputAction::SecondaryDirectionLeft),
        _ => None,
    }
}

/// Two bindings that are axis bindings on the same pad name the same axis
/// and opposite halves of it.
pub open spec fn opposite_halves(b: InputBinding, c: InputBinding) -> bool {
    match (b, c) {
        (
            InputBinding::GamepadAxis { pad: p, axis: x, direction: d },
            InputBinding::GamepadAxis { pad: q, axis: y, direction: e },
        ) => p == q ==> x == y && d != e,
        _ => true,
    }
}

/// Opposite directions are bound, by default, to opposite halves of one
/// stick axis: no half-axis drives both a direction and its opposite.
pub proof fn lemma_default_opposite_half_axes(a: InputAction, i: int, j: int)
    requires
        opposite_direction(a) is Some,
        0 <= i < default_bindings(a).len(),
        0 <= j < default_bindings(opposite_direction(a).unwrap()).len(),
    ensures
        opposite_halves(default_bindings(a)[i], default_bindings(opposite_direction(a).unwrap())[j]),
{
    lemma_default_bindings_listed();
}

/// The engine's default bindings, action by action: a key (or mouse button)
/// first; for a direction, pad 0's d-pad button at that position and the
/// left stick pushed that way (down is positive Y, right is positive X);
/// the bottom, right and left face buttons for `Action1/2/3`; start for `Back`.
pub proof fn lemma_default_bindings_listed()
    ensures
        default_bindings(InputAction::MainDirectionUp) == seq![(InputBinding::Keyboard(KeyboardKey::KEY_W)), (InputBinding::GamepadButton { pad: 0, button: GamepadButton::GAMEPAD_BUTTON_LEFT_FACE_UP }), (InputBinding::GamepadAxis { pad: 0, axis: GamepadAxis::GAMEPAD_AXIS_LEFT_Y, direction: AxisDirection::Negative })],
        default_bindings(InputAction::MainDirectionDown) == seq![(InputBinding::Keyboard(KeyboardKey::KEY_S)), (InputBinding::GamepadButton { pad: 0, button: GamepadButton::GAMEPAD_BUTTON_LEFT_FACE_DOWN }), (InputBinding::GamepadAxis { pad: 0, axis: GamepadAxis::GAMEPAD_AXIS_LEFT_Y, direction: AxisDirection::Positive })],
        default_bindings(InputAction::MainDirectionLeft) == seq![(InputBinding::Keyboard(KeyboardKey::KEY_A)), (InputBinding::GamepadButton { pad: 0, button: GamepadButton::GAMEPAD_BUTTON_LEFT_FACE_LEFT }), (InputBinding::GamepadAxis { pad: 0, axis: GamepadAxis::GAMEPAD_AXIS_LEFT_X, direction: AxisDirection::Negative })],
        default_bindings(InputAction::MainDirectionRight) == seq![(InputBinding::Keyboard(KeyboardKey::KEY_D)), (InputBinding::GamepadButton { pad: 0, button: GamepadButton::GAMEPAD_BUTTON_LEFT_FACE_RIGHT }), (InputBinding::GamepadAxis { pad: 0, axis: GamepadAxis::GAMEPAD_AXIS_LEFT_X, direction: AxisDirection::Positive })],
        default_bindings(InputAction::SecondaryDirectionUp) == seq![(InputBinding::Keyboard(KeyboardKey::KEY_UP)), (InputBinding::GamepadButton { pad: 0, button: GamepadButton::GAMEPAD_BUTTON_LEFT_FACE_UP }), (InputBinding::GamepadAxis { pad: 0, axis: GamepadAxis::GAMEPAD_AXIS_LEFT_Y, direction: AxisDirection::Negative })],
        default_bindings(InputAction::SecondaryDirectionDown) == seq![(InputBinding::Keyboard(KeyboardKey::KEY_DOWN)), (InputBinding::GamepadButton { pad: 0, button: GamepadButton::GAMEPAD_BUTTON_LEFT_FACE_DOWN }), (InputBinding::GamepadAxis { pad: 0, axis: GamepadAxis::GAMEPAD_AXIS_LEFT_Y, direction: AxisDirection::Positive })],
        default_bindings(InputAction::SecondaryDirectionLeft) == seq![(InputBinding::Keyboard(KeyboardKey::KEY_LEFT)), (InputBinding::GamepadButton { pad: 0, button: GamepadButton::GAMEPAD_BUTTON_LEFT_FACE_LEFT }), (InputBinding::GamepadAxis { pad: 0, axis: GamepadAxis::GAMEPAD_AXIS_LEFT_X, direction: AxisDirection::Negative })],
        default_bindings(InputAction::SecondaryDirectionRight) == seq![(InputBinding::Keyboard(KeyboardKey::KEY_RIGHT)), (InputBinding::GamepadButton { pad: 0, button: GamepadButton::GAMEPAD_BUTTON_LEFT_FACE_RIGHT }), (InputBinding::GamepadAxis { pad: 0, axis: GamepadAxis::GAMEPAD_AXIS_LEFT_X, direction: AxisDirection::Positive })],
        default_bindings(InputAction::Back) == seq![(InputBinding::Keyboard(KeyboardKey::KEY_ESCAPE)), (InputBinding::GamepadButton { pad: 0, button: GamepadButton::GAMEPAD_BUTTON_MIDDLE_RIGHT })],
        default_bindings(InputAction::Action1) == seq![(InputBinding::Keyboard(KeyboardKey::KEY_SPACE)), (InputBinding::MouseButton(MouseButton::MOUSE_BUTTON_LEFT)), (InputBinding::GamepadButton { pad: 0, button: GamepadButton::GAMEPAD_BUTTON_RIGHT_FACE_DOWN })],
        default_bindings(InputAction::Action2) == seq![(InputBinding::Keyboard(KeyboardKey::KEY_ENTER)), (InputBinding::MouseButton(MouseButton::MOUSE_BUTTON_RIGHT)), (InputBinding::GamepadButton { pad: 0, button: GamepadButton::GAMEPAD_BUTTON_RIGHT_FACE_RIGHT })],
        default_bindings(InputAction::Action3) == seq![(InputBinding::MouseButton(MouseButton::MOUSE_BUTTON_MIDDLE)), (InputBinding::GamepadButton { pad: 0, button: GamepadButton::GAMEPAD_BUTTON_RIGHT_FACE_LEFT })],
        default_bindings(InputAction::Special) == seq![(InputBinding::Keyboard(KeyboardKey::KEY_F12))],
        default_bindings(InputAction::ToggleDebug) == seq![(InputBinding::Keyboard(KeyboardKey::KEY_F11))],
        default_bindings(InputAction::ToggleFullscreen) == seq![(InputBinding::Keyboard(KeyboardKey::KEY_F10))],
{
}

impl Default for InputBindings {
    /// The engine's default assignments for every action.
    fn default() -> (r: Self)
        ensures
            r.is_dirty(),
            forall|a: InputAction| #[trigger] r.bindings_of(a) == default_bindings(a),
    {
        let k = |key: KeyboardKey| -> (b: InputBinding)
            ensures
                b == InputBinding::Keyboard(key),
            { InputBinding::Keyboard(key) };
        let m = |btn: MouseButton| -> (b: InputBinding)
            ensures
                b == InputBinding::MouseButton(btn),
            { InputBinding::MouseButton(btn) };
        let map = vec![
            vec![k(KeyboardKey::KEY_W)],
            vec![k(KeyboardKey::KEY_S)],
            vec![k(KeyboardKey::KEY_A)],
            vec![k(KeyboardKey::KEY_D)],
            vec![k(KeyboardKey::KEY_UP)],
            vec![k(KeyboardKey::KEY_DOWN)],
            vec![k(KeyboardKey::KEY_LEFT)],
            vec![k(KeyboardKey::KEY_RIGHT)],
            vec![k(KeyboardKey::KEY_ESCAPE)],
            vec![k(KeyboardKey::KEY_SPACE), m(MouseButton::MOUSE_BUTTON_LEFT)],
            vec![k(KeyboardKey::KEY_ENTER), m(MouseButton::MOUSE_BUTTON_RIGHT)],
            vec![m(MouseButton::MOUSE_BUTTON_MIDDLE)],
            vec![k(KeyboardKey::KEY_F12)],
            vec![k(KeyboardKey::KEY_F11)],
            vec![k(KeyboardKey::KEY_F10)],
        ];
        let mut bindings = InputBindings { map, dirty: true };
        assert forall|a: InputAction| #[trigger] bindings.bindings_of(a) == keyboard_mouse_defaults(a) by {
            match a {
                InputAction::MainDirectionUp => assert(bindings.bindings_of(a) =~= keyboard_mouse_defaults(a)),
                InputAction::MainDirectionDown => assert(bindings.bindings_of(a) =~= keyboard_mouse_defaults(a)),
                InputAction::MainDirectionLeft => assert(bindings.bindings_of(a) =~= keyboard_mouse_defaults(a)),
                InputAction::MainDirectionRight => assert(bindings.bindings_of(a) =~= keyboard_mouse_defaults(a)),
                InputAction::SecondaryDirectionUp => assert(bindings.bindings_of(a) =~= keyboard_mouse_defaults(a)),
                InputAction::SecondaryDirectionDown => assert(bindings.bindings_of(a) =~= keyboard_mouse_defaults(a)),
                InputAction::SecondaryDirectionLeft => assert(bindings.bindings_of(a) =~= keyboard_mouse_defaults(a)),
                InputAction::SecondaryDirectionRight => assert(bindings.bindings_of(a) =~= keyboard_mouse_defaults(a)),
                InputAction::Back => assert(bindings.bindings_of(a) =~= keyboard_mouse_defaults(a)),
                InputAction::Action1 => assert(bindings.bindings_of(a) =~= keyboard_mouse_defaults(a)),
                InputAction::Action2 => assert(bindings.bindings_of(a) =~= keyboard_mouse_defaults(a)),
                InputAction::Action3 => assert(bindings.bindings_of(a) =~= keyboard_mouse_defaults(a)),
                InputAction::Special => assert(bindings.bindings_of(a) =~= keyboard_mouse_defaults(a)),
                InputAction::ToggleDebug => assert(bindings.bindings_of(a) =~= keyboard_mouse_defaults(a)),
                InputAction::ToggleFullscreen => assert(bindings.bindings_of(a) =~= keyboard_mouse_defaults(a)),
            }
        }
        bindings.add_pad0_defaults();
        bindings
    }
}

impl InputBindings {
    /// Append one direction's pad-0 d-pad button and stick half-axis to both
    /// its main and its secondary action.
    fn add_direction_defaults(
        &mut self,
        button: GamepadButton,
        axis: GamepadAxis,
        direction: AxisDirection,
        main: InputAction,
        secondary: InputAction,
    )
        requires
            main != secondary,
        ensures
            final(self).is_dirty(),
            final(self).bindings_of(main) == old(self).bindings_of(main) + seq![
                pad0_button(button),
                pad0_axis(axis, direction),
            ],
            final(self).bindings_of(secondary) == old(self).bindings_of(secondary) + seq![
                pad0_button(button),
                pad0_axis(axis, direction),
            ],
            forall|a: InputAction|
                a != main && a != secondary ==> #[trigger] final(self).bindings_of(a) == old(self).bindings_of(a),
    {
        let btn = InputBinding::GamepadButton { pad: 0, button };
        let stick = InputBinding::GamepadAxis { pad: 0, axis, direction };
        self.add_binding(main, btn);
        self.add_binding(main, stick);
        self.add_binding(secondary, btn);
        self.add_binding(secondary, stick);
        assert(self.bindings_of(main) =~= old(self).bindings_of(main) + seq![btn, stick]);
        assert(self.bindings_of(secondary) =~= old(self).bindings_of(secondary) + seq![btn, stick]);
    }

    /// Additively bind pad 0: the d-pad and left stick to both the main and
    /// the secondary directions, the face buttons to `Action1/2/3`, and start
    /// to `Back`. Keyboard and mouse bindings are kept; this only appends.
    fn add_pad0_defaults(&mut self)
        ensures
            final(self).is_dirty(),
            forall|a: InputAction| #[trigger] final(self).bindings_of(a) == old(self).bindings_of(a) + pad0_defaults(a),
    {
        let ghost start = *self;
        self.add_direction_defaults(
            GamepadButton::GAMEPAD_BUTTON_LEFT_FACE_UP,
            GamepadAxis::GAMEPAD_AXIS_LEFT_Y,
            AxisDirection::Negative,
            InputAction::MainDirectionUp,
            InputAction::SecondaryDirectionUp,
        );
        self.add_direction_defaults(
            GamepadButton::GAMEPAD_BUTTON_LEFT_FACE_DOWN,
            GamepadAxis::GAMEPAD_AXIS_LEFT_Y,
            AxisDirection::Positive,
            InputAction::MainDirectionDown,
            InputAction::SecondaryDirectionDown,
        );
        self.add_direction_defaults(
            GamepadButton::GAMEPAD_BUTTON_LEFT_FACE_LEFT,
            GamepadAxis::GAMEPAD_AXIS_LEFT_X,
            AxisDirection::Negative,
            InputAction::MainDirectionLeft,
            InputAction::SecondaryDirectionLeft,
        );
        self.add_direction_defaults(
            GamepadButton::GAMEPAD_BUTTON_LEFT_FACE_RIGHT,
            GamepadAxis::GAMEPAD_AXIS_LEFT_X,
            AxisDirection::Positive,
            InputAction::MainDirectionRight,
            InputAction::SecondaryDirectionRight,
        );
        self.add_binding(
            InputAction::Action1,
            InputBinding::GamepadButton { pad: 0, button: GamepadButton::GAMEPAD_BUTTON_RIGHT_FACE_DOWN },
        );
        self.add_binding(
            InputAction::Action2,
            InputBinding::GamepadButton { pad: 0, button: GamepadButton::GAMEPAD_BUTTON_RIGHT_FACE_RIGHT },
        );
        self.add_binding(
            InputAction::Action3,
            InputBinding::GamepadButton { pad: 0, button: GamepadButton::GAMEPAD_BUTTON_RIGHT_FACE_LEFT },
        );
        self.add_binding(
            InputAction::Back,
            InputBinding::GamepadButton { pad: 0, button: GamepadButton::GAMEPAD_BUTTON_MIDDLE_RIGHT },
        );
        assert forall|a: InputAction| #[trigger] self.bindings_of(a) == start.bindings_of(a) + pad0_defaults(a) by {
            match a {
                InputAction::Action1 | InputAction::Action2 | InputAction::Action3 | InputAction::Back => {
                    assert(self.bindings_of(a) =~= start.bindings_of(a) + pad0_defaults(a));
                },
                InputAction::Special | InputAction::ToggleDebug | InputAction::ToggleFullscreen => {
                    assert(self.bindings_of(a) =~= start.bindings_of(a) + pad0_defaults(a));
                },
                _ => {},
            }
        }
    }
}

/// The script-side cache of bindings: for every action (in slot order) that
/// has a binding, its canonical name and the text of its first binding.
pub open spec fn cache_entries(b: InputBindings) -> Seq<(Seq<char>, Seq<char>)> {
    all_actions_spec().filter(|a: InputAction| b.bindings_of(a).len() > 0).map_values(
        |a: InputAction| (action_name(a), binding_text(b.bindings_of(a)[0])),
    )
}

/// The view of a list of string pairs.
pub open spec fn pairs_view(v: Seq<(String, String)>) -> Seq<(Seq<char>, Seq<char>)> {
    v.map_values(|p: (String, String)| (p.0@, p.1@))
}

impl InputBindings {
    /// The entries of the script-side bindings cache: every bound action's
    /// canonical name with its first binding's text, in slot order.
    pub fn bindings_cache_entries(&self) -> (r: Vec<(String, String)>)
        ensures
            pairs_view(r@) == cache_entries(*self),
    {
        let actions = all_actions();
        let mut r: Vec<(String, String)> = Vec::new();
        let mut i: usize = 0;
        while i < actions.len()
            invariant
                actions@ == all_actions_spec(),
                i <= actions.len(),
                pairs_view(r@) == actions@.take(i as int).filter(
                    |a: InputAction| self.bindings_of(a).len() > 0,
                ).map_values(|a: InputAction| (action_name(a), binding_text(self.bindings_of(a)[0]))),
            decreases actions.len() - i,
        {
            let action = actions[i];
            let ghost p = |a: InputAction| self.bindings_of(a).len() > 0;
            let ghost f = |a: InputAction| (action_name(a), binding_text(self.bindings_of(a)[0]));
            let ghost before = actions@.take(i as int);
            let ghost after = actions@.take(i + 1);
            assert(after.drop_last() =~= before);
            assert(after.last() == action);
            reveal_with_fuel(Seq::filter, 1);
            assert(after.filter(p) == if p(action) { before.filter(p).push(action) } else { before.filter(p) });
            let ghost old_r = r@;
            let bindings = self.get_bindings(action);
            if bindings.len() > 0 {
                let key = String::from_str(action_to_str(action));
                let value = binding_to_str(bindings[0]);
                r.push((key, value));
                assert(pairs_view(r@) =~= pairs_view(old_r).push((key@, value@)));
                assert(before.filter(p).push(action).map_values(f) =~= before.filter(p).map_values(f).push(f(action)));
            }
            i = i + 1;
        }
        assert(actions@.take(actions.len() as int) =~= actions@);
        r
    }
}

/// Look up the cached binding text of an action named `action` (canonical
/// name or alias; an unknown name is looked up as it is).
pub fn cached_binding(entries: &Vec<(String, String)>, action: &str) -> (r: Option<String>)
    ensures
        match r {
            Some(v) => lookup_first(pairs_view(entries@), canonical_action_text(action@)) == Some(v@),
            None => lookup_first(pairs_view(entries@), canonical_action_text(action@)) is None,
        },
{
    let key = canonical_action_name(action);
    let mut i: usize = 0;
    assert(pairs_view(entries@).skip(0) =~= pairs_view(entries@));
    while i < entries.len()
        invariant
            i <= entries.len(),
            key@ == canonical_action_text(action@),
            lookup_first(pairs_view(entries@), key@) == lookup_first(pairs_view(entries@).skip(i as int), key@),
        decreases entries.len() - i,
    {
        let entry = &entries[i];
        assert(pairs_view(entries@).skip(i as int)[0] == (entry.0@, entry.1@));
        assert(pairs_view(entries@).skip(i as int).drop_first() =~= pairs_view(entries@).skip(i + 1));
        if str_eq(entry.0.as_str(), key.as_str()) {
            return Some(entry.1.clone());
        }
        i = i + 1;
    }
    None
}

/// Looking up an action's name among the cache entries built from a list of
/// actions finds that action's first binding, if it is in the list and bound.
proof fn lemma_cache_lookup_actions(b: InputBindings, actions: Seq<InputAction>, a: InputAction)
    ensures
        lookup_first(
            actions.filter(|x: InputAction| b.bindings_of(x).len() > 0).map_values(
                |x: InputAction| (action_name(x), binding_text(b.bindings_of(x)[0])),
            ),
            action_name(a),
        ) == if actions.contains(a) && b.bindings_of(a).len() > 0 {
            Some(binding_text(b.bindings_of(a)[0]))
        } else {
            None
        },
    decreases actions.len(),
{
    let p = |x: InputAction| b.bindings_of(x).len() > 0;
    let f = |x: InputAction| (action_name(x), binding_text(b.bindings_of(x)[0]));
    if actions.len() > 0 {
        let init = actions.drop_last();
        let last = actions.last();
        lemma_cache_lookup_actions(b, init, a);
        reveal_with_fuel(Seq::filter, 1);
        assert(actions.filter(p) == if p(last) { init.filter(p).push(last) } else { init.filter(p) });
        if p(last) {
            assert(init.filter(p).push(last).map_values(f) =~= init.filter(p).map_values(f).push(f(last)));
            lemma_lookup_first_push(init.filter(p).map_values(f), f(last), action_name(a));
        }
        lemma_action_name_roundtrip(a);
        lemma_action_name_roundtrip(last);
        assert(actions =~= init.push(last));
        if init.contains(a) {
            let j = choose|j: int| 0 <= j < init.len() && init[j] == a;
            assert(actions[j] == a);
        }
        if actions.contains(a) && !init.contains(a) {
            let j = choose|j: int| 0 <= j < actions.len() && actions[j] == a;
            if j < init.len() {
                assert(init[j] == a);
            }
        }
    } else {
        assert(actions.filter(p) =~= Seq::<InputAction>::empty());
    }
}

/// What a script reads for an action from the bindings cache, by canonical
/// name or by alias, is the text of that action's first binding, or nothing
/// if it is unbound.
pub proof fn lemma_cached_binding_is_first_binding(b: InputBindings, a: InputAction, name: Seq<char>)
    requires
        action_by_name(name) == Some(a),
    ensures
        lookup_first(cache_entries(b), canonical_action_text(name)) == if b.bindings_of(a).len() > 0 {
            Some(binding_text(b.bindings_of(a)[0]))
        } else {
            None
        },
{
    lemma_cache_lookup_actions(b, all_actions_spec(), a);
    lemma_action_index_bijection(a, 0);
    assert(all_actions_spec()[a.spec_index() as int] == a);
}

/// Distinct actions have distinct slots.
proof fn lemma_index_injective(a: InputAction, b: InputAction)
    ensures
        a != b ==> a.spec_index() != b.spec_index(),
{
}

} // verus!
