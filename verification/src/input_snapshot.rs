//! Frozen per-frame input snapshot handed to script callbacks.
//!
//! The directional buttons combine the main (WASD) and secondary (arrow)
//! directions; the action buttons are copied as they are. The snapshot
//! mirrors the script-side table `input.digital.<button>.<flag>`.
use vstd::prelude::*;

use crate::input::{BoolState, InputState};

verus! {

/// State of a single digital input button.
#[derive(Clone, Copy, Debug, PartialEq, Eq, Structural)]
pub struct DigitalButtonState {
    /// Whether the button is currently held down.
    pub pressed: bool,
    /// Whether the button was just pressed this frame.
    pub just_pressed: bool,
    /// Whether the button was just released this frame.
    pub just_released: bool,
}

impl Default for DigitalButtonState {
    fn default() -> (r: Self)
        ensures
            !r.pressed && !r.just_pressed && !r.just_released,
    {
        DigitalButtonState { pressed: false, just_pressed: false, just_released: false }
    }
}

/// The button state a single action's state reads as.
pub open spec fn button_of(state: BoolState) -> DigitalButtonState {
    DigitalButtonState {
        pressed: state.active,
        just_pressed: state.just_pressed,
        just_released: state.just_released,
    }
}

/// The button state two actions read as together: each flag is the OR of
/// the two actions' flags.
pub open spec fn button_of_either(a: BoolState, b: BoolState) -> DigitalButtonState {
    DigitalButtonState {
        pressed: a.active || b.active,
        just_pressed: a.just_pressed || b.just_pressed,
        just_released: a.just_released || b.just_released,
    }
}

impl DigitalButtonState {
    /// Create from a single action's state.
    pub fn from_bool_state(state: &BoolState) -> (r: Self)
        ensures
            r == button_of(*state),
    {
        DigitalButtonState {
            pressed: state.active,
            just_pressed: state.just_pressed,
            just_released: state.just_released,
        }
    }
}

/// All digital input states of a snapshot.
#[derive(Clone, Copy, Debug, PartialEq, Eq, Structural)]
pub struct DigitalInputs {
    pub up: DigitalButtonState,
    pub down: DigitalButtonState,
    pub left: DigitalButtonState,
    pub right: DigitalButtonState,
    pub action_1: DigitalButtonState,
    pub action_2: DigitalButtonState,
    pub back: DigitalButtonState,
    pub special: DigitalButtonState,
}

impl Default for DigitalInputs {
    fn default() -> (r: Self)
        ensures
            r == DigitalInputs::default_spec(),
    {
        DigitalInputs {
            up: DigitalButtonState::default(),
            down: DigitalButtonState::default(),
            left: DigitalButtonState::default(),
            right: DigitalButtonState::default(),
            action_1: DigitalButtonState::default(),
            action_2: DigitalButtonState::default(),
            back: DigitalButtonState::default(),
            special: DigitalButtonState::default(),
        }
    }
}

impl DigitalInputs {
    /// The buttons in the order of [`DigitalButton`].
    pub open spec fn buttons(self) -> Seq<DigitalButtonState> {
        seq![
            self.up,
            self.down,
            self.left,
            self.right,
            self.action_1,
            self.action_2,
            self.back,
            self.special,
        ]
    }
}

/// Analog input values; reserved, with no fields yet.
#[derive(Clone, Copy, Debug, PartialEq, Eq, Structural)]
pub struct AnalogInputs {}

impl Default for AnalogInputs {
    fn default() -> (r: Self) {
        AnalogInputs {}
    }
}

/// Frozen snapshot of all input state for a single frame.
#[derive(Clone, Copy, Debug, PartialEq, Eq, Structural)]
pub struct InputSnapshot {
    pub digital: DigitalInputs,
    pub analog: AnalogInputs,
}

impl Default for InputSnapshot {
    fn default() -> (r: Self)
        ensures
            r.digital == DigitalInputs::default_spec(),
    {
        InputSnapshot { digital: DigitalInputs::default(), analog: AnalogInputs::default() }
    }
}

impl DigitalInputs {
    /// Every button released, with no edges.
    pub open spec fn default_spec() -> DigitalInputs {
        let idle = DigitalButtonState { pressed: false, just_pressed: false, just_released: false };
        DigitalInputs {
            up: idle,
            down: idle,
            left: idle,
            right: idle,
            action_1: idle,
            action_2: idle,
            back: idle,
            special: idle,
        }
    }
}

/// The digital inputs a frame's state reads as.
pub open spec fn digital_inputs_of(input: InputState) -> DigitalInputs {
    DigitalInputs {
        up: button_of_either(input.maindirection_up, input.secondarydirection_up),
        down: button_of_either(input.maindirection_down, input.secondarydirection_down),
        left: button_of_either(input.maindirection_left, input.secondarydirection_left),
        right: button_of_either(input.maindirection_right, input.secondarydirection_right),
        action_1: button_of(input.action_1),
        action_2: button_of(input.action_2),
        back: button_of(input.action_back),
        special: button_of(input.action_special),
    }
}

/// Each snapshot button reads only the actions of its own name: two frames
/// that agree on those actions give the same state for that button, whatever
/// else differs between them.
pub proof fn lemma_snapshot_buttons_read_own_actions(a: InputState, b: InputState)
    ensures
        a.action_1 == b.action_1 ==> digital_inputs_of(a).action_1 == digital_inputs_of(b).action_1,
        a.action_2 == b.action_2 ==> digital_inputs_of(a).action_2 == digital_inputs_of(b).action_2,
        a.action_back == b.action_back ==> digital_inputs_of(a).back == digital_inputs_of(b).back,
        a.action_special == b.action_special ==> digital_inputs_of(a).special == digital_inputs_of(b).special,
        a.maindirection_up == b.maindirection_up && a.secondarydirection_up == b.secondarydirection_up
            ==> digital_inputs_of(a).up == digital_inputs_of(b).up,
        a.maindirection_down == b.maindirection_down && a.secondarydirection_down == b.secondarydirection_down
            ==> digital_inputs_of(a).down == digital_inputs_of(b).down,
        a.maindirection_left == b.maindirection_left && a.secondarydirection_left == b.secondarydirection_left
            ==> digital_inputs_of(a).left == digital_inputs_of(b).left,
        a.maindirection_right == b.maindirection_right && a.secondarydirection_right == b.secondarydirection_right
            ==> digital_inputs_of(a).right == digital_inputs_of(b).right,
{
}

fn either(a: &BoolState, b: &BoolState) -> (r: DigitalButtonState)
    ensures
        r == button_of_either(*a, *b),
{
    DigitalButtonState {
        pressed: a.active || b.active,
        just_pressed: a.just_pressed || b.just_pressed,
        just_released: a.just_released || b.just_released,
    }
}

impl InputSnapshot {
    /// Create a snapshot from the current input state, combining the main
    /// (WASD) and secondary (arrow) directions into one set of directions.
    pub fn from_input_state(input: &InputState) -> (r: Self)
        ensures
            r.digital == digital_inputs_of(*input),
            r.digital.action_1.pressed == input.action_1.active,
            r.digital.action_1.just_pressed == input.action_1.just_pressed,
            r.digital.action_1.just_released == input.action_1.just_released,
            r.digital.action_2.pressed == input.action_2.active,
            r.digital.action_2.just_pressed == input.action_2.just_pressed,
            r.digital.action_2.just_released == input.action_2.just_released,
            r.digital.back.pressed == input.action_back.active,
            r.digital.back.just_pressed == input.action_back.just_pressed,
            r.digital.back.just_released == input.action_back.just_released,
            r.digital.special.pressed == input.action_special.active,
            r.digital.special.just_pressed == input.action_special.just_pressed,
            r.digital.special.just_released == input.action_special.just_released,
            r.digital.up.pressed == (input.maindirection_up.active || input.secondarydirection_up.active),
            r.digital.up.just_pressed == (input.maindirection_up.just_pressed || input.secondarydirection_up.just_pressed),
            r.digital.up.just_released == (input.maindirection_up.just_released || input.secondarydirection_up.just_released),
            r.digital.down.pressed == (input.maindirection_down.active || input.secondarydirection_down.active),
            r.digital.down.just_pressed == (input.maindirection_down.just_pressed || input.secondarydirection_down.just_pressed),
            r.digital.down.just_released == (input.maindirection_down.just_released || input.secondarydirection_down.just_released),
            r.digital.left.pressed == (input.maindirection_left.active || input.secondarydirection_left.active),
            r.digital.left.just_pressed == (input.maindirection_left.just_pressed || input.secondarydirection_left.just_pressed),
            r.digital.left.just_released == (input.maindirection_left.just_released || input.secondarydirection_left.just_released),
            r.digital.right.pressed == (input.maindirection_right.active || input.secondarydirection_right.active),
            r.digital.right.just_pressed == (input.maindirection_right.just_pressed || input.secondarydirection_right.just_pressed),
            r.digital.right.just_released == (input.maindirection_right.just_released || input.secondarydirection_right.just_released),
    {
        InputSnapshot {
            digital: DigitalInputs {
                up: either(&input.maindirection_up, &input.secondarydirection_up),
                down: either(&input.maindirection_down, &input.secondarydirection_down),
                left: either(&input.maindirection_left, &input.secondarydirection_left),
                right: either(&input.maindirection_right, &input.secondarydirection_right),
                action_1: DigitalButtonState::from_bool_state(&input.action_1),
                action_2: DigitalButtonState::from_bool_state(&input.action_2),
                back: DigitalButtonState::from_bool_state(&input.action_back),
                special: DigitalButtonState::from_bool_state(&input.action_special),
            },
            analog: AnalogInputs::default(),
        }
    }
}

/// One digital button of a snapshot, in snapshot order.
#[derive(Clone, Copy, Debug, PartialEq, Eq, Structural)]
pub enum DigitalButton {
    Up,
    Down,
    Left,
    Right,
    Action1,
    Action2,
    Back,
    Special,
}

/// Every digital button, in snapshot order.
pub open spec fn all_buttons() -> Seq<DigitalButton> {
    seq![
        DigitalButton::Up,
        DigitalButton::Down,
        DigitalButton::Left,
        DigitalButton::Right,
        DigitalButton::Action1,
        DigitalButton::Action2,
        DigitalButton::Back,
        DigitalButton::Special,
    ]
}

/// The buttons (in snapshot order) whose state differs between two snapshots.
pub open spec fn changed_buttons(old: DigitalInputs, new: DigitalInputs) -> Seq<DigitalButton> {
    Seq::new(8, |i: int| i).filter(|i: int| old.buttons()[i] != new.buttons()[i]).map_values(
        |i: int| all_buttons()[i],
    )
}

/// The state a snapshot holds for a button, by the button's name.
pub open spec fn button_state(d: DigitalInputs, b: DigitalButton) -> DigitalButtonState {
    match b {
        DigitalButton::Up => d.up,
        DigitalButton::Down => d.down,
        DigitalButton::Left => d.left,
        DigitalButton::Right => d.right,
        DigitalButton::Action1 => d.action_1,
        DigitalButton::Action2 => d.action_2,
        DigitalButton::Back => d.back,
        DigitalButton::Special => d.special,
    }
}

/// The position of a button in snapshot order.
pub open spec fn button_slot(b: DigitalButton) -> int {
    match b {
        DigitalButton::Up => 0,
        DigitalButton::Down => 1,
        DigitalButton::Left => 2,
        DigitalButton::Right => 3,
        DigitalButton::Action1 => 4,
        DigitalButton::Action2 => 5,
        DigitalButton::Back => 6,
        DigitalButton::Special => 7,
    }
}

/// A button is listed as changed exactly when its own state differs
/// between the two snapshots, and it is listed at most once.
pub proof fn lemma_changed_buttons_differ(old: DigitalInputs, new: DigitalInputs, b: DigitalButton)
    ensures
        changed_buttons(old, new).contains(b) <==> button_state(old, b) != button_state(new, b),
        changed_buttons(old, new).no_duplicates(),
{
    let ids = Seq::new(8, |i: int| i);
    let p = |i: int| old.buttons()[i] != new.buttons()[i];
    let f = ids.filter(p);
    let i = button_slot(b);
    assert(all_buttons()[i] == b);
    assert(old.buttons()[i] == button_state(old, b));
    assert(new.buttons()[i] == button_state(new, b));
    assert forall|k: int| 0 <= k < f.len() implies 0 <= #[trigger] f[k] < 8 && p(f[k]) by {
        ids.lemma_filter_pred(p, k);
        assert(f.contains(f[k]));
        ids.lemma_filter_contains_rev(p, f[k]);
    }
    if button_state(old, b) != button_state(new, b) {
        assert(ids[i] == i);
        ids.lemma_filter_contains(p, i);
        let k = choose|k: int| 0 <= k < f.len() && f[k] == i;
        assert(changed_buttons(old, new)[k] == b);
    }
    if changed_buttons(old, new).contains(b) {
        let k = choose|k: int| 0 <= k < changed_buttons(old, new).len() && changed_buttons(old, new)[k] == b;
        assert(all_buttons()[f[k]] == b);
        assert(f[k] == i);
    }
    assert(ids.no_duplicates());
    lemma_filter_no_duplicates(ids, p);
    assert forall|a: int, c: int|
        0 <= a < changed_buttons(old, new).len() && 0 <= c < changed_buttons(old, new).len() && a != c
            implies changed_buttons(old, new)[a] != changed_buttons(old, new)[c] by {
        assert(f[a] != f[c]);
    }
}

/// Keeping the items of a sequence without duplicates that satisfy a
/// predicate gives a sequence without duplicates.
proof fn lemma_filter_no_duplicates<A>(s: Seq<A>, p: spec_fn(A) -> bool)
    requires
        s.no_duplicates(),
    ensures
        s.filter(p).no_duplicates(),
    decreases s.len(),
{
    reveal(Seq::filter);
    if s.len() > 0 {
        let d = s.drop_last();
        let x = s.last();
        assert(d.no_duplicates());
        lemma_filter_no_duplicates(d, p);
        if p(x) {
            let f = d.filter(p);
            if f.contains(x) {
                d.lemma_filter_contains_rev(p, x);
                let j = choose|j: int| 0 <= j < d.len() && d[j] == x;
                assert(s[j] == s[s.len() - 1]);
            }
            let g = f.push(x);
            assert(s.filter(p) == g);
            assert forall|a: int, c: int| 0 <= a < g.len() && 0 <= c < g.len() && a != c implies g[a] != g[c] by {
                if a < f.len() && c < f.len() {
                } else if a < f.len() {
                    assert(f.contains(f[a]));
                } else {
                    assert(f.contains(f[c]));
                }
            }
        }
    }
}

/// How the pooled script-side input table is brought up to date with a
/// frame's snapshot.
#[derive(Debug, PartialEq, Eq)]
pub enum InputTableUpdate {
    /// The table was already written for this frame: write nothing.
    Unchanged,
    /// Rewrite only these buttons' sub-tables.
    Changed(Vec<DigitalButton>),
    /// Nothing was ever written: write every button.
    Everything,
}

/// What planning an input table update does, given the frame and snapshot
/// the table was last written with (if ever): within the same frame nothing
/// is written and nothing recorded; on a new frame only the buttons that
/// changed since the last write are rewritten; the first time everything
/// is. The new frame and snapshot are recorded.
pub open spec fn input_update_planned(
    before: Option<(u64, InputSnapshot)>,
    after: Option<(u64, InputSnapshot)>,
    snapshot: InputSnapshot,
    frame_count: u64,
    update: InputTableUpdate,
) -> bool {
    match before {
        Some((f, _)) if f == frame_count => update == InputTableUpdate::Unchanged && after == before,
        Some((_, prev)) => update matches InputTableUpdate::Changed(v) && v@ == changed_buttons(
            prev.digital,
            snapshot.digital,
        ) && after == Some((frame_count, snapshot)),
        None => update == InputTableUpdate::Everything && after == Some((frame_count, snapshot)),
    }
}

/// The script-side input table, button by button in snapshot order, after
/// an update is written into it from `snapshot`.
pub open spec fn apply_input_table_update(
    table: Seq<DigitalButtonState>,
    snapshot: DigitalInputs,
    update: InputTableUpdate,
) -> Seq<DigitalButtonState> {
    match update {
        InputTableUpdate::Unchanged => table,
        InputTableUpdate::Everything => snapshot.buttons(),
        InputTableUpdate::Changed(v) => Seq::new(
            table.len(),
            |i: int| if v@.contains(all_buttons()[i]) { snapshot.buttons()[i] } else { table[i] },
        ),
    }
}

/// The input table always holds the snapshot last recorded: writing each
/// planned update into a table that held the previous recorded snapshot
/// leaves it holding the newly recorded one (the first snapshot of the
/// frame, when the frame did not change).
pub proof fn lemma_input_table_tracks_last_write(
    before: Option<(u64, InputSnapshot)>,
    after: Option<(u64, InputSnapshot)>,
    table: Seq<DigitalButtonState>,
    snapshot: InputSnapshot,
    frame_count: u64,
    update: InputTableUpdate,
)
    requires
        input_update_planned(before, after, snapshot, frame_count, update),
        table.len() == 8,
        before matches Some((_, prev)) ==> table == prev.digital.buttons(),
    ensures
        after matches Some((_, last)) && apply_input_table_update(table, snapshot.digital, update)
            == last.digital.buttons(),
{
    match before {
        Some((f, prev)) => {
            if f != frame_count {
                let v = update->Changed_0;
                let ids = Seq::new(8, |i: int| i);
                let p = |i: int| prev.digital.buttons()[i] != snapshot.digital.buttons()[i];
                assert forall|i: int| 0 <= i < 8 implies #[trigger] apply_input_table_update(
                    table,
                    snapshot.digital,
                    update,
                )[i] == snapshot.digital.buttons()[i] by {
                    if p(i) {
                        assert(ids[i] == i);
                        ids.lemma_filter_contains(p, i);
                        let k = choose|k: int| 0 <= k < ids.filter(p).len() && ids.filter(p)[k] == i;
                        assert(changed_buttons(prev.digital, snapshot.digital)[k] == all_buttons()[i]);
                        assert(v@.contains(all_buttons()[i]));
                    }
                }
                assert(apply_input_table_update(table, snapshot.digital, update) =~= snapshot.digital.buttons());
            }
        },
        None => {},
    }
}

/// Decide how to bring the pooled input table up to date, given the frame
/// number and snapshot it was last written with (if ever), and record the
/// new frame and snapshot in `last`.
///
/// Repeated calls within one frame change nothing; a new frame rewrites
/// only the buttons whose state changed since the last write.
pub fn plan_input_table_update(
    last: &mut Option<(u64, InputSnapshot)>,
    snapshot: &InputSnapshot,
    frame_count: u64,
) -> (r: InputTableUpdate)
    ensures
        input_update_planned(*old(last), *final(last), *snapshot, frame_count, r),
{
    let r = match *last {
        Some((f, prev)) => {
            if f == frame_count {
                return InputTableUpdate::Unchanged;
            }
            InputTableUpdate::Changed(changed_digital_buttons(&prev.digital, &snapshot.digital))
        },
        None => InputTableUpdate::Everything,
    };
    *last = Some((frame_count, *snapshot));
    r
}

/// The buttons (in snapshot order) whose state differs between two snapshots.
fn changed_digital_buttons(old: &DigitalInputs, new: &DigitalInputs) -> (r: Vec<DigitalButton>)
    ensures
        r@ == changed_buttons(*old, *new),
{
    let olds = [old.up, old.down, old.left, old.right, old.action_1, old.action_2, old.back, old.special];
    let news = [new.up, new.down, new.left, new.right, new.action_1, new.action_2, new.back, new.special];
    let names = [
        DigitalButton::Up,
        DigitalButton::Down,
        DigitalButton::Left,
        DigitalButton::Right,
        DigitalButton::Action1,
        DigitalButton::Action2,
        DigitalButton::Back,
        DigitalButton::Special,
    ];
    assert(olds@ =~= old.buttons());
    assert(news@ =~= new.buttons());
    assert(names@ =~= all_buttons());
    let mut r: Vec<DigitalButton> = Vec::new();
    let mut i: usize = 0;
    while i < 8
        invariant
            i <= 8,
            olds@ == old.buttons(),
            news@ == new.buttons(),
            names@ == all_buttons(),
            r@ == Seq::new(i as nat, |j: int| j).filter(|j: int| old.buttons()[j] != new.buttons()[j]).map_values(
                |j: int| all_buttons()[j],
            ),
        decreases 8 - i,
    {
        let ghost before = Seq::new(i as nat, |j: int| j);
        let ghost after = Seq::new((i + 1) as nat, |j: int| j);
        assert(after.drop_last() =~= before);
        assert(after.last() == i as int);
        reveal_with_fuel(Seq::filter, 1);
        if olds[i] != news[i] {
            r.push(names[i]);
        }
        i = i + 1;
    }
    r
}

} // verus!
