use std::collections::HashMap;
use vstd::prelude::*;
use vstd::std_specs::hash::{group_hash_axioms, spec_hash_map_iter};
use vstd::std_specs::iter::IteratorSpec;
use crate::protocol::style::Style;

verus! {

broadcast use group_hash_axioms;

/// The styles that the peer defined, by their id.
pub struct StyleCache(HashMap<u64, Style>);

impl View for StyleCache {
    type V = Map<u64, Style>;

    closed spec fn view(&self) -> Map<u64, Style> {
        self.0@
    }
}

impl Default for StyleCache {
    fn default() -> (r: StyleCache)
        ensures
            r@ == Map::<u64, Style>::empty(),
    {
        StyleCache(HashMap::new())
    }
}

impl StyleCache {
    /// All styles of the cache, each once, in no particular order.
    pub fn styles(&self) -> (r: Vec<(u64, Style)>)
        ensures
            r@.len() == self@.dom().len(),
            r@.no_duplicates(),
            forall|i: int|
                0 <= i < r@.len() ==> self@.contains_key(#[trigger] r@[i].0) && self@[r@[i].0]
                    == r@[i].1,
            forall|id: u64| self@.contains_key(id) ==> r@.contains((id, #[trigger] self@[id])),
    {
        let mut r: Vec<(u64, Style)> = Vec::new();
        let ghost entries = spec_hash_map_iter(&self.0).remaining();
        for entry in it: self.0.iter()
            invariant
                it.seq() == entries,
                entries.no_duplicates(),
                r@.len() == it.index(),
                forall|i: int| 0 <= i < r@.len() ==> #[trigger] r@[i] == (*entries[i].0, *entries[i].1),
        {
            r.push((*entry.0, *entry.1));
        }
        assert forall|id: u64| self@.contains_key(id) implies r@.contains(
            (id, #[trigger] self@[id]),
        ) by {
            assert(entries.contains((&id, &self@[id])));
            let i = choose|i: int| 0 <= i < entries.len() && entries[i] == (&id, &self@[id]);
            assert(r@[i] == (id, self@[id]));
        }
        assert forall|i: int, j: int| 0 <= i < r@.len() && 0 <= j < r@.len() && i != j implies r@[i]
            != r@[j] by {
            assert(entries[i] != entries[j]);
        }
        r
    }

    /// Stores `style` under `id`, in place of the style that was there.
    pub fn insert(&mut self, id: u64, style: Style)
        ensures
            final(self)@ == old(self)@.insert(id, style),
    {
        self.0.insert(id, style);
    }

    /// The style stored under `id`.
    pub fn get(&self, id: u64) -> (r: Option<&Style>)
        ensures
            r == if self@.contains_key(id) {
                Some(&self@[id])
            } else {
                None
            },
    {
        self.0.get(&id)
    }

    /// Forgets the style stored under `id`.
    pub fn remove(&mut self, id: u64)
        ensures
            final(self)@ == old(self)@.remove(id),
    {
        self.0.remove(&id);
    }
}

} // verus!
