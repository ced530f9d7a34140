//! Bookkeeping of text measurement: glyph metrics themselves are
//! floating-point and live with the renderer; the library keeps which
//! missing font keys were already reported.
use vstd::prelude::*;

use crate::text::texts;
use crate::warn_once::first_seen;

verus! {

/// Remembers which missing font keys were reported, so each is reported
/// once.
#[derive(Clone, Debug)]
pub struct FontMetricsWarnCache {
    reported: Vec<String>,
}

impl FontMetricsWarnCache {
    /// Font keys already reported missing.
    pub closed spec fn reported(self) -> Set<Seq<char>> {
        texts(self.reported@).to_set()
    }

    /// `true` the first time `key` is reported missing, `false` on every
    /// later call for the same key.
    pub fn warn_once(&mut self, key: &str) -> (r: bool)
        ensures
            r == !old(self).reported().contains(key@),
            final(self).reported() == old(self).reported().insert(key@),
    {
        first_seen(&mut self.reported, key)
    }
}

impl Default for FontMetricsWarnCache {
    fn default() -> (r: Self)
        ensures
            r.reported() == Set::<Seq<char>>::empty(),
    {
        let r = FontMetricsWarnCache { reported: Vec::new() };
        assert(texts(r.reported@).to_set() =~= Set::<Seq<char>>::empty());
        r
    }
}

} // verus!
