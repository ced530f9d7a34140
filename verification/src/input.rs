//! Per-frame digital input state.
//!
//! [`InputState`] holds, per logical action, whether it is held this frame
//! and whether it was just pressed or just released. The hardware sources
//! that drive each action live in [`InputBindings`](crate::input_bindings::InputBindings).
//! The analog values of a frame (wheel delta, cursor positions) are
//! floating-point and are kept beside this state by the caller.
use vstd::prelude::*;

verus! {

/// Transient boolean state of a single logical action.
#[derive(Clone, Copy, Debug, PartialEq, Eq, Structural)]
pub struct BoolState {
    /// Whether the action is currently active/held this frame.
    pub active: bool,
    /// Whether the action was just pressed this frame.
    pub just_pressed: bool,
    /// Whether the action was just released this frame.
    pub just_released: bool,
}

impl Default for BoolState {
    fn default() -> (r: Self)
        ensures
            !r.active && !r.just_pressed && !r.just_released,
    {
        BoolState { active: false, just_pressed: false, just_released: false }
    }
}

impl BoolState {
    /// Clear the one-shot edge flags, leaving `active` (held state) untouched.
    pub fn clear_edge(&mut self)
        ensures
            final(self).active == old(self).active,
            !final(self).just_pressed,
            !final(self).just_released,
    {
        self.just_pressed = false;
        self.just_released = false;
    }

    /// Force this action to read as not held and not just pressed, without
    /// touching `just_released` (a release must never be suppressed).
    pub fn force_inactive(&mut self)
        ensures
            !final(self).active,
            !final(self).just_pressed,
            final(self).just_released == old(self).just_released,
    {
        self.active = false;
        self.just_pressed = false;
    }

    /// OR the edges of a `was -> now` transition into this state (never
    /// clearing an edge an earlier diff set) and take `now` as the held state.
    pub fn apply_edge(&mut self, was: bool, now: bool)
        ensures
            final(self).just_pressed == (old(self).just_pressed || (now && !was)),
            final(self).just_released == (old(self).just_released || (!now && was)),
            final(self).active == now,
    {
        self.just_pressed = self.just_pressed || (now && !was);
        self.just_released = self.just_released || (!now && was);
        self.active = now;
    }
}

/// The per-frame state of every digital action, including the raw left
/// mouse button (which is not routed through bindings).
#[derive(Clone, Copy, Debug, PartialEq, Eq, Structural)]
pub struct InputState {
    pub maindirection_up: BoolState,
    pub maindirection_left: BoolState,
    pub maindirection_down: BoolState,
    pub maindirection_right: BoolState,
    pub secondarydirection_up: BoolState,
    pub secondarydirection_down: BoolState,
    pub secondarydirection_left: BoolState,
    pub secondarydirection_right: BoolState,
    pub action_back: BoolState,
    pub action_1: BoolState,
    pub action_2: BoolState,
    pub action_3: BoolState,
    pub mode_debug: BoolState,
    pub fullscreen_toggle: BoolState,
    pub action_special: BoolState,
    pub mouse_left_button: BoolState,
}

/// A state with nothing held and no edges.
pub open spec fn is_idle(b: BoolState) -> bool {
    !b.active && !b.just_pressed && !b.just_released
}

impl Default for InputState {
    fn default() -> (r: Self)
        ensures
            forall|i: int| 0 <= i < 16 ==> is_idle(#[trigger] r.digital_states()[i]),
    {
        InputState {
            maindirection_up: BoolState::default(),
            maindirection_left: BoolState::default(),
            maindirection_down: BoolState::default(),
            maindirection_right: BoolState::default(),
            secondarydirection_up: BoolState::default(),
            secondarydirection_down: BoolState::default(),
            secondarydirection_left: BoolState::default(),
            secondarydirection_right: BoolState::default(),
            action_back: BoolState::default(),
            action_1: BoolState::default(),
            action_2: BoolState::default(),
            action_3: BoolState::default(),
            mode_debug: BoolState::default(),
            fullscreen_toggle: BoolState::default(),
            action_special: BoolState::default(),
            mouse_left_button: BoolState::default(),
        }
    }
}

impl InputState {
    /// Every digital field, `mouse_left_button` last: the single list that
    /// `clear_edges` and its contract range over.
    pub open spec fn digital_states(self) -> Seq<BoolState> {
        seq![
            self.maindirection_up,
            self.maindirection_left,
            self.maindirection_down,
            self.maindirection_right,
            self.secondarydirection_up,
            self.secondarydirection_down,
            self.secondarydirection_left,
            self.secondarydirection_right,
            self.action_back,
            self.action_1,
            self.action_2,
            self.action_3,
            self.mode_debug,
            self.fullscreen_toggle,
            self.action_special,
            self.mouse_left_button,
        ]
    }

    /// The keyboard-sourced digital fields: every digital field but
    /// `mouse_left_button`.
    pub open spec fn keyboard_states(self) -> Seq<BoolState> {
        self.digital_states().take(15)
    }

    /// Clear `just_pressed`/`just_released` on every digital field
    /// (including `mouse_left_button`), leaving `active` untouched.
    pub fn clear_edges(&mut self)
        ensures
            final(self).digital_states() == old(self).digital_states().map_values(
                |b: BoolState| without_edges(b),
            ),
            final(self).maindirection_up == without_edges(old(self).maindirection_up),
            final(self).maindirection_left == without_edges(old(self).maindirection_left),
            final(self).maindirection_down == without_edges(old(self).maindirection_down),
            final(self).maindirection_right == without_edges(old(self).maindirection_right),
            final(self).secondarydirection_up == without_edges(old(self).secondarydirection_up),
            final(self).secondarydirection_down == without_edges(old(self).secondarydirection_down),
            final(self).secondarydirection_left == without_edges(old(self).secondarydirection_left),
            final(self).secondarydirection_right == without_edges(old(self).secondarydirection_right),
            final(self).action_back == without_edges(old(self).action_back),
            final(self).action_1 == without_edges(old(self).action_1),
            final(self).action_2 == without_edges(old(self).action_2),
            final(self).action_3 == without_edges(old(self).action_3),
            final(self).mode_debug == without_edges(old(self).mode_debug),
            final(self).fullscreen_toggle == without_edges(old(self).fullscreen_toggle),
            final(self).action_special == without_edges(old(self).action_special),
            final(self).mouse_left_button == without_edges(old(self).mouse_left_button),
    {
        self.maindirection_up.clear_edge();
        self.maindirection_left.clear_edge();
        self.maindirection_down.clear_edge();
        self.maindirection_right.clear_edge();
        self.secondarydirection_up.clear_edge();
        self.secondarydirection_down.clear_edge();
        self.secondarydirection_left.clear_edge();
        self.secondarydirection_right.clear_edge();
        self.action_back.clear_edge();
        self.action_1.clear_edge();
        self.action_2.clear_edge();
        self.action_3.clear_edge();
        self.mode_debug.clear_edge();
        self.fullscreen_toggle.clear_edge();
        self.action_special.clear_edge();
        self.mouse_left_button.clear_edge();
        assert(self.digital_states() =~= old(self).digital_states().map_values(
            |b: BoolState| without_edges(b),
        ));
    }
}

impl InputState {
    /// Make every keyboard-sourced action read as not held and not just
    /// pressed (while the GUI has keyboard focus), keeping its releases;
    /// the raw left mouse button is untouched.
    pub fn force_keyboard_inactive(&mut self)
        ensures
            final(self).keyboard_states() == old(self).keyboard_states().map_values(
                |b: BoolState| forced_inactive(b),
            ),
            final(self).maindirection_up == forced_inactive(old(self).maindirection_up),
            final(self).maindirection_left == forced_inactive(old(self).maindirection_left),
            final(self).maindirection_down == forced_inactive(old(self).maindirection_down),
            final(self).maindirection_right == forced_inactive(old(self).maindirection_right),
            final(self).secondarydirection_up == forced_inactive(old(self).secondarydirection_up),
            final(self).secondarydirection_down == forced_inactive(old(self).secondarydirection_down),
            final(self).secondarydirection_left == forced_inactive(old(self).secondarydirection_left),
            final(self).secondarydirection_right == forced_inactive(old(self).secondarydirection_right),
            final(self).action_back == forced_inactive(old(self).action_back),
            final(self).action_1 == forced_inactive(old(self).action_1),
            final(self).action_2 == forced_inactive(old(self).action_2),
            final(self).action_3 == forced_inactive(old(self).action_3),
            final(self).mode_debug == forced_inactive(old(self).mode_debug),
            final(self).fullscreen_toggle == forced_inactive(old(self).fullscreen_toggle),
            final(self).action_special == forced_inactive(old(self).action_special),
            final(self).mouse_left_button == old(self).mouse_left_button,
    {
        self.maindirection_up.force_inactive();
        self.maindirection_left.force_inactive();
        self.maindirection_down.force_inactive();
        self.maindirection_right.force_inactive();
        self.secondarydirection_up.force_inactive();
        self.secondarydirection_down.force_inactive();
        self.secondarydirection_left.force_inactive();
        self.secondarydirection_right.force_inactive();
        self.action_back.force_inactive();
        self.action_1.force_inactive();
        self.action_2.force_inactive();
        self.action_3.force_inactive();
        self.mode_debug.force_inactive();
        self.fullscreen_toggle.force_inactive();
        self.action_special.force_inactive();
        assert(self.keyboard_states() =~= old(self).keyboard_states().map_values(
            |b: BoolState| forced_inactive(b),
        ));
    }
}

/// A state forced to read as not held and not just pressed, its release kept.
pub open spec fn forced_inactive(b: BoolState) -> BoolState {
    BoolState { active: false, just_pressed: false, just_released: b.just_released }
}

/// A state with its edge flags cleared and its held flag kept.
pub open spec fn without_edges(b: BoolState) -> BoolState {
    BoolState { active: b.active, just_pressed: false, just_released: false }
}

} // verus!
