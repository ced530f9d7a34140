//! Planning of the pooled entity context handed to Lua callbacks.
//!
//! The context table is reused between callbacks. Each optional slot of it
//! (group, rotation, position tables, physics keys, sprite, ...) is either
//! filled from the entity's snapshot or reads nil. An occupancy mask keeps
//! one bit per slot that currently holds a value, so that a rebuild writes
//! nil only into slots that were filled before and leaves already-nil slots
//! alone. The plan computed here says, slot by slot, whether to fill, to
//! scrub to nil, or to keep; the table writes themselves are made by the
//! scripting layer. Scripts must not write into the context: the mask then
//! no longer tells the filled slots.
use vstd::prelude::*;

verus! {

/// Number of optional slots of an entity context.
pub const CTX_SLOT_COUNT: usize = 17;

/// A sprite as seen by a Lua callback: its texture key and flips.
#[derive(Clone, Copy, Debug)]
pub struct SpriteSnapshot<'a> {
    pub tex_key: &'a str,
    pub flip_h: bool,
    pub flip_v: bool,
}

/// The optional slots of an entity context, in the order of their bits in
/// the occupancy mask.
#[derive(Clone, Copy, Debug, PartialEq, Eq, Structural)]
pub enum CtxSlot {
    Group,
    Rotation,
    PreviousPhase,
    WorldRotation,
    ParentId,
    Pos,
    ScreenPos,
    Scale,
    WorldPos,
    WorldScale,
    Physics,
    Rect,
    Sprite,
    Animation,
    Signals,
    Phase,
    Timer,
}

/// The bit position of a slot.
pub open spec fn slot_index(slot: CtxSlot) -> int {
    match slot {
        CtxSlot::Group => 0,
        CtxSlot::Rotation => 1,
        CtxSlot::PreviousPhase => 2,
        CtxSlot::WorldRotation => 3,
        CtxSlot::ParentId => 4,
        CtxSlot::Pos => 5,
        CtxSlot::ScreenPos => 6,
        CtxSlot::Scale => 7,
        CtxSlot::WorldPos => 8,
        CtxSlot::WorldScale => 9,
        CtxSlot::Physics => 10,
        CtxSlot::Rect => 11,
        CtxSlot::Sprite => 12,
        CtxSlot::Animation => 13,
        CtxSlot::Signals => 14,
        CtxSlot::Phase => 15,
        CtxSlot::Timer => 16,
    }
}

/// Distinct slots have distinct bits, each below `CTX_SLOT_COUNT`.
pub proof fn lemma_slot_index_injective(a: CtxSlot, b: CtxSlot)
    ensures
        0 <= slot_index(a) < CTX_SLOT_COUNT,
        a != b ==> slot_index(a) != slot_index(b),
{
}

impl CtxSlot {
    /// The bit position of this slot in the occupancy mask.
    pub fn index(self) -> (r: usize)
        ensures
            r == slot_index(self),
            r < CTX_SLOT_COUNT,
    {
        match self {
            CtxSlot::Group => 0,
            CtxSlot::Rotation => 1,
            CtxSlot::PreviousPhase => 2,
            CtxSlot::WorldRotation => 3,
            CtxSlot::ParentId => 4,
            CtxSlot::Pos => 5,
            CtxSlot::ScreenPos => 6,
            CtxSlot::Scale => 7,
            CtxSlot::WorldPos => 8,
            CtxSlot::WorldScale => 9,
            CtxSlot::Physics => 10,
            CtxSlot::Rect => 11,
            CtxSlot::Sprite => 12,
            CtxSlot::Animation => 13,
            CtxSlot::Signals => 14,
            CtxSlot::Phase => 15,
            CtxSlot::Timer => 16,
        }
    }
}

/// What a rebuild does to one slot.
#[derive(Clone, Copy, Debug, PartialEq, Eq, Structural)]
pub enum SlotAction {
    /// Write the snapshot's value into the slot.
    Fill,
    /// Set the slot to nil: it held a value and the snapshot has none.
    Scrub,
    /// Leave the slot alone: it is nil and the snapshot has no value.
    Keep,
}

/// The action for one slot, from whether it is filled now and whether the
/// snapshot has a value for it.
pub open spec fn slot_action(filled: bool, present: bool) -> SlotAction {
    if present {
        SlotAction::Fill
    } else if filled {
        SlotAction::Scrub
    } else {
        SlotAction::Keep
    }
}

/// Whether bit `i` of `mask` is set.
pub open spec fn mask_bit(mask: u32, i: u32) -> bool {
    mask & (1u32 << i) != 0
}

proof fn lemma_mask_bit_or(m: u32, i: u32, j: u32)
    requires
        i < 32,
        j < 32,
    ensures
        mask_bit(m | (1u32 << i), j) == (mask_bit(m, j) || i == j),
{
    assert(((m | (1u32 << i)) & (1u32 << j) != 0) == ((m & (1u32 << j) != 0) || i == j))
        by (bit_vector)
        requires
            i < 32,
            j < 32,
    ;
}

proof fn lemma_mask_bit_zero(j: u32)
    requires
        j < 32,
    ensures
        !mask_bit(0u32, j),
{
    assert(0u32 & (1u32 << j) == 0) by (bit_vector);
}

/// The slots of a context that hold a value, one bit per slot.
#[derive(Clone, Copy, Debug)]
pub struct CtxOccupancy {
    mask: u32,
}

/// What a rebuild does, given the occupancy before it: one action per
/// slot, and the occupancy after it holds exactly the snapshot's slots.
pub open spec fn rebuild_planned(
    before: CtxOccupancy,
    after: CtxOccupancy,
    present: Seq<bool>,
    actions: Seq<SlotAction>,
) -> bool {
    &&& actions.len() == CTX_SLOT_COUNT
    &&& forall|i: int|
        0 <= i < CTX_SLOT_COUNT ==> #[trigger] actions[i] == slot_action(before.occupied(i), present[i])
    &&& forall|i: int| 0 <= i < CTX_SLOT_COUNT ==> #[trigger] after.occupied(i) == present[i]
}

/// The slots of a context after the actions are carried out on it: a
/// filled slot holds a value, a scrubbed one is nil, a kept one unchanged.
pub open spec fn apply_slot_actions(filled: Seq<bool>, actions: Seq<SlotAction>) -> Seq<bool> {
    Seq::new(
        filled.len(),
        |i: int|
            match actions[i] {
                SlotAction::Fill => true,
                SlotAction::Scrub => false,
                SlotAction::Keep => filled[i],
            },
    )
}

impl CtxOccupancy {
    /// Whether slot `i` holds a value.
    pub closed spec fn occupied(self, i: int) -> bool {
        0 <= i < CTX_SLOT_COUNT && mask_bit(self.mask, i as u32)
    }

    /// A fresh context: every slot reads nil.
    pub fn new() -> (r: Self)
        ensures
            forall|i: int| !#[trigger] r.occupied(i),
    {
        let r = CtxOccupancy { mask: 0 };
        assert forall|i: int| !#[trigger] r.occupied(i) by {
            if 0 <= i < CTX_SLOT_COUNT {
                lemma_mask_bit_zero(i as u32);
            }
        }
        r
    }

    /// Whether `slot` holds a value.
    pub fn is_occupied(&self, slot: CtxSlot) -> (r: bool)
        ensures
            r == self.occupied(slot_index(slot)),
    {
        let i = slot.index();
        self.mask & (1u32 << (i as u32)) != 0
    }

    /// Plans a rebuild of the context from a snapshot whose optional
    /// values are `present` (indexed by [`CtxSlot::index`]), and records
    /// the snapshot's slots as the filled ones.
    pub fn plan_rebuild(&mut self, present: &[bool]) -> (actions: Vec<SlotAction>)
        requires
            present@.len() == CTX_SLOT_COUNT,
        ensures
            rebuild_planned(*old(self), *final(self), present@, actions@),
    {
        let old_mask = self.mask;
        let ghost before = *self;
        let mut new_mask: u32 = 0;
        let mut actions: Vec<SlotAction> = Vec::new();
        let mut i: u32 = 0;
        proof {
            assert forall|j: u32| j < 32 implies !#[trigger] mask_bit(new_mask, j) by {
                lemma_mask_bit_zero(j);
            }
        }
        while i < 17
            invariant
                i <= 17,
                present@.len() == CTX_SLOT_COUNT,
                before.mask == old_mask,
                actions@.len() == i,
                forall|j: int|
                    0 <= j < i ==> #[trigger] actions@[j] == slot_action(before.occupied(j), present@[j]),
                forall|j: u32| j < 32 ==> #[trigger] mask_bit(new_mask, j) == (j < i && present@[j as int]),
            decreases 17 - i,
        {
            let bit: u32 = 1u32 << i;
            if present[i as usize] {
                proof {
                    assert forall|j: u32| j < 32 implies #[trigger] mask_bit(new_mask | bit, j) == (j < i + 1
                        && present@[j as int]) by {
                        lemma_mask_bit_or(new_mask, i, j);
                    }
                }
                new_mask = new_mask | bit;
                actions.push(SlotAction::Fill);
            } else {
                if old_mask & bit != 0 {
                    actions.push(SlotAction::Scrub);
                } else {
                    actions.push(SlotAction::Keep);
                }
                assert forall|j: u32| j < 32 implies #[trigger] mask_bit(new_mask, j) == (j < i + 1
                    && present@[j as int]) by {
                    if j == i {
                        assert(!present@[j as int]);
                    }
                }
            }
            i = i + 1;
        }
        self.mask = new_mask;
        proof {
            assert forall|j: int| 0 <= j < CTX_SLOT_COUNT implies #[trigger] self.occupied(j)
                == present@[j] by {
                assert(mask_bit(new_mask, j as u32) == (j < 17 && present@[j]));
            }
        }
        actions
    }
}

/// A rebuild leaves the context holding exactly the latest snapshot's
/// values, and the occupancy mask again tells the filled slots: provided
/// the mask told them before the rebuild (nothing else wrote into the
/// context), every slot the snapshot lacks reads nil afterwards, whether
/// it was scrubbed or kept, and every slot it has is filled.
pub proof fn lemma_rebuild_tracks_latest_snapshot(
    before: CtxOccupancy,
    after: CtxOccupancy,
    filled: Seq<bool>,
    present: Seq<bool>,
    actions: Seq<SlotAction>,
)
    requires
        filled.len() == CTX_SLOT_COUNT,
        present.len() == CTX_SLOT_COUNT,
        forall|i: int| 0 <= i < CTX_SLOT_COUNT ==> #[trigger] filled[i] == before.occupied(i),
        rebuild_planned(before, after, present, actions),
    ensures
        apply_slot_actions(filled, actions) == present,
        forall|i: int|
            0 <= i < CTX_SLOT_COUNT ==> (#[trigger] actions[i] == SlotAction::Fill <==> present[i]),
        forall|i: int|
            0 <= i < CTX_SLOT_COUNT ==> (#[trigger] actions[i] == SlotAction::Scrub <==> filled[i] && !present[i]),
        forall|i: int|
            0 <= i < CTX_SLOT_COUNT ==> (#[trigger] actions[i] == SlotAction::Keep <==> !filled[i] && !present[i]),
        forall|i: int|
            0 <= i < CTX_SLOT_COUNT ==> #[trigger] apply_slot_actions(filled, actions)[i] == after.occupied(i),
{
    assert forall|i: int| 0 <= i < CTX_SLOT_COUNT implies #[trigger] apply_slot_actions(filled, actions)[i]
        == present[i] by {
        assert(actions[i] == slot_action(before.occupied(i), present[i]));
    }
    assert(apply_slot_actions(filled, actions) =~= present);
}

} // verus!
