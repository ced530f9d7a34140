//! The set of entity group names whose member counts are published.
use vstd::prelude::*;

use crate::text::{contains_text, str_eq, texts};

verus! {

/// The set of group names to track for entity counting. Cleared when
/// switching scenes to avoid stale counts.
#[derive(Debug)]
pub struct TrackedGroups {
    groups: Vec<String>,
}

impl TrackedGroups {
    /// Each name is held once.
    #[verifier::type_invariant]
    spec fn names_distinct(self) -> bool {
        texts(self.groups@).no_duplicates()
    }
}

impl View for TrackedGroups {
    type V = Set<Seq<char>>;

    /// The tracked names.
    closed spec fn view(&self) -> Set<Seq<char>> {
        texts(self.groups@).to_set()
    }
}

impl Clone for TrackedGroups {
    /// The same tracked names.
    fn clone(&self) -> (r: Self)
        ensures
            r@ == self@,
    {
        proof {
            use_type_invariant(self);
        }
        let groups = self.groups.clone();
        assert forall|i: int| 0 <= i < groups@.len() implies groups@[i] == self.groups@[i] by {
            assert(cloned::<String>(self.groups@[i], groups@[i]));
        }
        assert(groups@ =~= self.groups@);
        TrackedGroups { groups }
    }
}

impl Default for TrackedGroups {
    /// No group tracked.
    fn default() -> (r: Self)
        ensures
            r@ == Set::<Seq<char>>::empty(),
    {
        let r = TrackedGroups { groups: Vec::new() };
        assert(texts(r.groups@).to_set() =~= Set::<Seq<char>>::empty());
        r
    }
}

impl TrackedGroups {
    /// Builder form of [`add_group`](Self::add_group).
    pub fn with(self, group_name: &str) -> (r: Self)
        ensures
            r@ == self@.insert(group_name@),
    {
        let mut groups = self;
        groups.add_group(group_name);
        groups
    }

    /// Track a group name (a no-op if it is tracked already).
    pub fn add_group(&mut self, group_name: &str)
        ensures
            final(self)@ == old(self)@.insert(group_name@),
    {
        proof {
            use_type_invariant(&*self);
        }
        if !contains_text(&self.groups, group_name) {
            let mut groups: Vec<String> = Vec::new();
            std::mem::swap(&mut groups, &mut self.groups);
            groups.push(String::from_str(group_name));
            assert(texts(groups@) =~= texts(old(self).groups@).push(group_name@));
            self.groups = groups;
        }
        proof {
            let old_t = texts(old(self).groups@);
            let new_t = texts(self.groups@);
            assert forall|x: Seq<char>| new_t.contains(x) <==> old_t.contains(x) || x == group_name@ by {
                if old_t.contains(group_name@) {
                    assert(new_t == old_t);
                } else {
                    if x == group_name@ {
                        assert(new_t[new_t.len() - 1] == x);
                    }
                    if old_t.contains(x) {
                        let j = choose|j: int| 0 <= j < old_t.len() && old_t[j] == x;
                        assert(new_t[j] == x);
                    }
                    if new_t.contains(x) && x != group_name@ {
                        let j = choose|j: int| 0 <= j < new_t.len() && new_t[j] == x;
                        assert(old_t[j] == x);
                    }
                }
            }
            assert(new_t.to_set() =~= old_t.to_set().insert(group_name@));
        }
    }

    /// Whether the group name is tracked.
    pub fn has_group(&self, group_name: &str) -> (r: bool)
        ensures
            r == self@.contains(group_name@),
    {
        contains_text(&self.groups, group_name)
    }

    /// Stop tracking a group name.
    pub fn remove_group(&mut self, group_name: &str)
        ensures
            final(self)@ == old(self)@.remove(group_name@),
    {
        proof {
            use_type_invariant(&*self);
        }
        let mut kept: Vec<String> = Vec::new();
        let mut i: usize = 0;
        while i < self.groups.len()
            invariant
                i <= self.groups.len(),
                self.groups == old(self).groups,
                texts(self.groups@).no_duplicates(),
                texts(kept@).no_duplicates(),
                forall|x: Seq<char>|
                    texts(kept@).contains(x) <==> (texts(self.groups@.take(i as int)).contains(x) && x != group_name@),
            decreases self.groups.len() - i,
        {
            let ghost prev = kept@;
            let ghost before = self.groups@.take(i as int);
            let ghost after = self.groups@.take(i + 1);
            assert(after =~= before.push(self.groups@[i as int]));
            assert(texts(after) =~= texts(before).push(self.groups@[i as int]@));
            if !str_eq(self.groups[i].as_str(), group_name) {
                kept.push(self.groups[i].clone());
                assert(texts(kept@) =~= texts(prev).push(self.groups@[i as int]@));
                proof {
                    let t = texts(self.groups@);
                    if texts(prev).contains(t[i as int]) {
                        assert(texts(before).contains(t[i as int]));
                        let j = choose|j: int| 0 <= j < texts(before).len() && texts(before)[j] == t[i as int];
                        assert(t[j] == t[i as int]);
                    }
                    assert forall|a: int, b: int| 0 <= a < b < texts(kept@).len() implies texts(kept@)[a] != texts(kept@)[b] by {
                        if b == texts(kept@).len() - 1 {
                            assert(texts(prev)[a] == texts(kept@)[a]);
                        } else {
                            assert(texts(prev)[a] == texts(kept@)[a]);
                            assert(texts(prev)[b] == texts(kept@)[b]);
                        }
                    }
                }
            }
            proof {
                assert forall|x: Seq<char>|
                    texts(kept@).contains(x) <==> (texts(after).contains(x) && x != group_name@) by {
                    let t = texts(before);
                    if texts(after).contains(x) && x != self.groups@[i as int]@ {
                        let j = choose|j: int| 0 <= j < texts(after).len() && texts(after)[j] == x;
                        assert(t[j] == x);
                    }
                    if t.contains(x) {
                        let j = choose|j: int| 0 <= j < t.len() && t[j] == x;
                        assert(texts(after)[j] == x);
                    }
                    if texts(kept@).contains(x) && texts(kept@) != texts(prev) {
                        let j = choose|j: int| 0 <= j < texts(kept@).len() && texts(kept@)[j] == x;
                        if j < texts(prev).len() {
                            assert(texts(prev)[j] == x);
                        }
                    }
                    if texts(prev).contains(x) {
                        let j = choose|j: int| 0 <= j < texts(prev).len() && texts(prev)[j] == x;
                        assert(texts(kept@)[j] == x);
                    }
                    if x == self.groups@[i as int]@ && x != group_name@ {
                        assert(texts(after)[i as int] == x);
                        assert(texts(kept@)[texts(kept@).len() - 1] == x);
                    }
                }
            }
            i = i + 1;
        }
        assert(self.groups@.take(self.groups.len() as int) =~= self.groups@);
        self.groups = kept;
        assert(self@ =~= old(self)@.remove(group_name@));
    }

    /// Every tracked group name, each once.
    pub fn iter(&self) -> (r: &[String])
        ensures
            texts(r@).to_set() == self@,
            texts(r@).no_duplicates(),
    {
        proof {
            use_type_invariant(self);
        }
        self.groups.as_slice()
    }
}

} // verus!
