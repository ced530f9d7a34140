use aberred::edge_events::sync_states;
use aberred::entity_context::{CtxOccupancy, CtxSlot, SlotAction, SpriteSnapshot, CTX_SLOT_COUNT};

const SLOTS: [CtxSlot; CTX_SLOT_COUNT] = [
    CtxSlot::Group,
    CtxSlot::Rotation,
    CtxSlot::PreviousPhase,
    CtxSlot::WorldRotation,
    CtxSlot::ParentId,
    CtxSlot::Pos,
    CtxSlot::ScreenPos,
    CtxSlot::Scale,
    CtxSlot::WorldPos,
    CtxSlot::WorldScale,
    CtxSlot::Physics,
    CtxSlot::Rect,
    CtxSlot::Sprite,
    CtxSlot::Animation,
    CtxSlot::Signals,
    CtxSlot::Phase,
    CtxSlot::Timer,
];

fn presence(slots: &[CtxSlot]) -> [bool; CTX_SLOT_COUNT] {
    let mut present = [false; CTX_SLOT_COUNT];
    for slot in slots {
        present[slot.index()] = true;
    }
    present
}

// A snapshot with a map position and signals only.
fn sparse() -> [bool; CTX_SLOT_COUNT] {
    presence(&[CtxSlot::Pos, CtxSlot::Signals])
}

// A snapshot with every optional value.
fn full() -> [bool; CTX_SLOT_COUNT] {
    [true; CTX_SLOT_COUNT]
}

fn assert_shape(occupancy: &CtxOccupancy, present: &[bool; CTX_SLOT_COUNT]) {
    for slot in SLOTS {
        assert_eq!(occupancy.is_occupied(slot), present[slot.index()], "{slot:?}");
    }
}

#[test]
fn build_entity_context_pooled_sparse_then_sparse_leaves_absent_fields_nil() {
    let mut occupancy = CtxOccupancy::new();
    let actions = occupancy.plan_rebuild(&sparse());
    for slot in SLOTS {
        let expected = if sparse()[slot.index()] { SlotAction::Fill } else { SlotAction::Keep };
        assert_eq!(actions[slot.index()], expected, "{slot:?}");
    }
    assert_shape(&occupancy, &sparse());

    let actions = occupancy.plan_rebuild(&sparse());
    assert!(!actions.contains(&SlotAction::Scrub));
    assert_eq!(actions[CtxSlot::Pos.index()], SlotAction::Fill);
    assert_eq!(actions[CtxSlot::Signals.index()], SlotAction::Fill);
    assert_shape(&occupancy, &sparse());
}

#[test]
fn build_entity_context_pooled_sparse_then_full_reveals_fields() {
    let mut occupancy = CtxOccupancy::new();
    occupancy.plan_rebuild(&sparse());
    let actions = occupancy.plan_rebuild(&full());
    assert!(actions.iter().all(|a| *a == SlotAction::Fill));
    assert_shape(&occupancy, &full());
}

#[test]
fn build_entity_context_pooled_full_then_sparse_scrubs_fields() {
    let mut occupancy = CtxOccupancy::new();
    occupancy.plan_rebuild(&full());
    let actions = occupancy.plan_rebuild(&sparse());
    for slot in SLOTS {
        let expected = if sparse()[slot.index()] { SlotAction::Fill } else { SlotAction::Scrub };
        assert_eq!(actions[slot.index()], expected, "{slot:?}");
    }
    assert_shape(&occupancy, &sparse());
}

// Carrying out each plan on a model of the table keeps it equal to the
// latest snapshot, whatever came before.
#[test]
fn rebuilt_context_always_matches_latest_snapshot() {
    let snapshots = [
        sparse(),
        full(),
        presence(&[CtxSlot::Sprite, CtxSlot::Timer]),
        presence(&[]),
        presence(&[CtxSlot::Group, CtxSlot::Sprite]),
        sparse(),
    ];
    let mut occupancy = CtxOccupancy::new();
    let mut table = [false; CTX_SLOT_COUNT];
    for present in snapshots {
        let actions = occupancy.plan_rebuild(&present);
        for (i, action) in actions.iter().enumerate() {
            match action {
                SlotAction::Fill => table[i] = true,
                SlotAction::Scrub => {
                    assert!(table[i]);
                    table[i] = false;
                }
                SlotAction::Keep => assert!(!table[i]),
            }
        }
        assert_eq!(table, present);
        assert_shape(&occupancy, &present);
    }
}

#[test]
fn slot_indices_are_distinct_and_in_range() {
    let mut seen = [false; CTX_SLOT_COUNT];
    for slot in SLOTS {
        let i = slot.index();
        assert!(i < CTX_SLOT_COUNT);
        assert!(!seen[i]);
        seen[i] = true;
    }
}

#[test]
fn sprite_snapshot_holds_key_and_flips() {
    let sprite = SpriteSnapshot { tex_key: "player", flip_h: true, flip_v: false };
    let copy = sprite;
    assert_eq!(copy.tex_key, "player");
    assert!(copy.flip_h);
    assert!(!copy.flip_v);
}

#[test]
fn sync_states_reports_changes_once() {
    let mut states = vec![false; 5];
    let changed = sync_states(&mut states, &[true, false, false, true, false]);
    assert_eq!(changed, vec![0, 3]);
    assert_eq!(states, vec![true, false, false, true, false]);
    let changed = sync_states(&mut states, &[true, false, false, true, false]);
    assert!(changed.is_empty());
    let changed = sync_states(&mut states, &[false, true, false, true, true]);
    assert_eq!(changed, vec![0, 1, 4]);
    assert_eq!(states, vec![false, true, false, true, true]);
}
