//! Key and button state forwarding to the immediate-mode GUI: the GUI wants
//! one event per change of a key's or button's state, not the state itself
//! every frame. The last forwarded states are kept; each frame the polled
//! states are compared with them, and the changed positions are reported.
use vstd::prelude::*;

verus! {

/// Brings the forwarded `states` up to the polled `next` states and
/// returns the positions whose state changed, in increasing order: one
/// event is owed for each of them, with the new state `next[i]`.
pub fn sync_states(states: &mut Vec<bool>, next: &[bool]) -> (changed: Vec<usize>)
    requires
        old(states)@.len() == next@.len(),
    ensures
        final(states)@ == next@,
        forall|k: int| 0 <= k < changed@.len() ==> #[trigger] changed@[k] < next@.len(),
        forall|k: int, l: int| 0 <= k < l < changed@.len() ==> changed@[k] < changed@[l],
        forall|i: int|
            0 <= i < next@.len() ==> (#[trigger] old(states)@[i] != next@[i] <==> changed@.contains(
                i as usize,
            )),
{
    let ghost before = states@;
    let mut changed: Vec<usize> = Vec::new();
    let mut i: usize = 0;
    while i < next.len()
        invariant
            i <= next@.len(),
            states@.len() == next@.len(),
            before.len() == next@.len(),
            forall|j: int| 0 <= j < i ==> states@[j] == next@[j],
            forall|j: int| i <= j < next@.len() ==> states@[j] == before[j],
            forall|k: int| 0 <= k < changed@.len() ==> #[trigger] changed@[k] < i,
            forall|k: int, l: int| 0 <= k < l < changed@.len() ==> changed@[k] < changed@[l],
            forall|j: int| 0 <= j < i ==> (before[j] != next@[j] <==> changed@.contains(j as usize)),
        decreases next@.len() - i,
    {
        let down = next[i];
        if states[i] != down {
            let ghost prev = changed@;
            changed.push(i);
            proof {
                assert forall|j: int| 0 <= j < i + 1 implies (before[j] != next@[j] <==> changed@.contains(
                    j as usize,
                )) by {
                    if j == i {
                        assert(changed@[prev.len() as int] == i);
                    } else {
                        if prev.contains(j as usize) {
                            let k = choose|k: int| 0 <= k < prev.len() && prev[k] == j as usize;
                            assert(changed@[k] == j as usize);
                        }
                        if changed@.contains(j as usize) {
                            let k = choose|k: int| 0 <= k < changed@.len() && changed@[k] == j as usize;
                            assert(k < prev.len());
                            assert(prev[k] == j as usize);
                        }
                    }
                }
            }
            states.set(i, down);
        } else {
            proof {
                assert forall|j: int| 0 <= j < i + 1 implies (before[j] != next@[j] <==> changed@.contains(
                    j as usize,
                )) by {
                    if j == i {
                        if changed@.contains(j as usize) {
                            let k = choose|k: int| 0 <= k < changed@.len() && changed@[k] == j as usize;
                            assert(changed@[k] < i);
                        }
                    }
                }
            }
        }
        i = i + 1;
    }
    assert(states@ =~= next@);
    changed
}

} // verus!
