//! Small flag resources: the determinism taint, the debug-mode marker, the
//! per-overlay debug toggles and the per-frame GUI click consumption.
use vstd::prelude::*;

verus! {

/// Whether this logic-thread session has hit a known determinism hazard.
#[derive(Clone, Copy, Debug, PartialEq, Eq, Structural)]
pub struct DeterminismTaint {
    tainted: bool,
}

impl Default for DeterminismTaint {
    fn default() -> (r: Self)
        ensures
            !r.tainted(),
    {
        DeterminismTaint { tainted: false }
    }
}

impl DeterminismTaint {
    /// Whether the session is tainted.
    pub closed spec fn tainted(self) -> bool {
        self.tainted
    }

    /// Mark the session tainted. Idempotent: once tainted, stays tainted.
    pub fn taint(&mut self)
        ensures
            final(self).tainted(),
    {
        self.tainted = true;
    }

    /// Whether the session has been tainted.
    pub fn is_tainted(&self) -> (r: bool)
        ensures
            r == self.tainted(),
    {
        self.tainted
    }
}

/// Whether a taint flag that starts as `start` is set after a sequence of
/// calls on it, each a `taint` (`true`) or a read (`false`): `taint` sets the
/// flag and a read leaves it as it is.
pub open spec fn tainted_after(start: bool, calls: Seq<bool>) -> bool
    decreases calls.len(),
{
    if calls.len() == 0 {
        start
    } else {
        tainted_after(start, calls.drop_last()) || calls.last()
    }
}

/// Once tainted, always tainted: from the default (untainted) flag, a
/// sequence of calls leaves it tainted exactly when it holds at least one
/// `taint`; from a tainted flag, every sequence leaves it tainted.
pub proof fn lemma_taint_is_sticky(calls: Seq<bool>)
    ensures
        tainted_after(false, calls) == calls.contains(true),
        tainted_after(true, calls),
    decreases calls.len(),
{
    if calls.len() > 0 {
        let init = calls.drop_last();
        lemma_taint_is_sticky(init);
        if init.contains(true) {
            let j = choose|j: int| 0 <= j < init.len() && init[j] == true;
            assert(calls[j] == true);
        }
        if calls.contains(true) && !calls.last() {
            let j = choose|j: int| 0 <= j < calls.len() && calls[j] == true;
            assert(init[j] == true);
        }
        if calls.last() {
            assert(calls[calls.len() - 1] == true);
        }
    } else {
        assert(!calls.contains(true));
    }
}

/// One call on a taint flag, as the methods' contracts describe it:
/// `taint` (`true`) leaves it tainted, a read (`false`) leaves it unchanged.
pub open spec fn taint_step(before: DeterminismTaint, after: DeterminismTaint, call: bool) -> bool {
    if call {
        after.tainted()
    } else {
        after == before
    }
}

/// Over any sequence of calls, the flag read at the end is what
/// [`tainted_after`] says: untainted at the start, it is tainted exactly
/// when some call was a `taint`; tainted at the start, it stays tainted.
pub proof fn lemma_taint_sequence(states: Seq<DeterminismTaint>, calls: Seq<bool>)
    requires
        states.len() == calls.len() + 1,
        forall|i: int| 0 <= i < calls.len() ==> #[trigger] taint_step(states[i], states[i + 1], calls[i]),
    ensures
        states.last().tainted() == tainted_after(states[0].tainted(), calls),
        !states[0].tainted() ==> (states.last().tainted() == calls.contains(true)),
        states[0].tainted() ==> states.last().tainted(),
    decreases calls.len(),
{
    lemma_taint_is_sticky(calls);
    if calls.len() > 0 {
        let n = calls.len() - 1;
        assert(taint_step(states[n], states[n + 1], calls[n]));
        lemma_taint_sequence(states.drop_last(), calls.drop_last());
        assert(states.drop_last().last() == states[n]);
    }
}

/// Marker: when present, systems may draw overlays or print extra logs.
#[derive(Clone, Copy)]
pub struct DebugMode {}

/// Which world-space debug overlays are drawn while debug mode is on.
#[derive(Clone, Copy, Debug, PartialEq, Eq, Structural)]
pub struct DebugOverlayConfig {
    /// Outlines around box colliders.
    pub show_collider_boxes: bool,
    /// Crosshairs at entity positions.
    pub show_position_crosshairs: bool,
    /// Per-entity signal text.
    pub show_entity_signals: bool,
    /// Bounding boxes around world-space text.
    pub show_text_bounds: bool,
    /// Bounding boxes around screen-space sprites.
    pub show_sprite_bounds: bool,
}

impl Default for DebugOverlayConfig {
    /// Every overlay enabled.
    fn default() -> (r: Self)
        ensures
            r.show_collider_boxes,
            r.show_position_crosshairs,
            r.show_entity_signals,
            r.show_text_bounds,
            r.show_sprite_bounds,
    {
        DebugOverlayConfig {
            show_collider_boxes: true,
            show_position_crosshairs: true,
            show_entity_signals: true,
            show_text_bounds: true,
            show_sprite_bounds: true,
        }
    }
}

/// Whether a click has already been consumed by the GUI this frame.
#[derive(Clone, Copy, Debug, PartialEq, Eq, Structural)]
pub struct GuiInputState {
    pub click_consumed_this_frame: bool,
}

impl Default for GuiInputState {
    fn default() -> (r: Self)
        ensures
            !r.click_consumed_this_frame,
    {
        GuiInputState { click_consumed_this_frame: false }
    }
}

} // verus!
