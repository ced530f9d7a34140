//! Once-per-key reporting: a set of keys already reported, kept as a list
//! of distinct texts.
use vstd::prelude::*;

use crate::text::{contains_text, texts};

verus! {

/// Records `key` among the keys already seen; `true` when it was not
/// among them, so a caller reports a condition once per key.
pub fn first_seen(keys: &mut Vec<String>, key: &str) -> (r: bool)
    ensures
        r == !texts(old(keys)@).to_set().contains(key@),
        texts(final(keys)@).to_set() == texts(old(keys)@).to_set().insert(key@),
{
    if contains_text(keys, key) {
        assert(texts(keys@).to_set() =~= texts(keys@).to_set().insert(key@));
        false
    } else {
        let ghost before = texts(keys@);
        keys.push(String::from_str(key));
        assert(texts(keys@) =~= before.push(key@));
        assert forall|x: Seq<char>| texts(keys@).contains(x) <==> before.contains(x) || x == key@ by {
            if x == key@ {
                assert(texts(keys@)[before.len() as int] == x);
            }
            if before.contains(x) {
                let j = choose|j: int| 0 <= j < before.len() && before[j] == x;
                assert(texts(keys@)[j] == x);
            }
            if texts(keys@).contains(x) && x != key@ {
                let j = choose|j: int| 0 <= j < texts(keys@).len() && texts(keys@)[j] == x;
                assert(before[j] == x);
            }
        }
        assert(texts(keys@).to_set() =~= before.to_set().insert(key@));
        true
    }
}

/// A key is reported once: the seen set only grows under `first_seen`,
/// so once a call has recorded `key`, every later seen set holds it and
/// every later call with `key` returns `false`.
pub proof fn lemma_first_seen_reports_once(seen: Set<Seq<char>>, key: Seq<char>, later: Set<Seq<char>>)
    requires
        seen.insert(key).subset_of(later),
    ensures
        later.contains(key),
{
}

} // verus!
