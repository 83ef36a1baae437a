//! The boundary to `indexmap`: the map that keeps the views of an editor
//! in the order in which they were added. Nothing in this module is proved:
//! each item states what the outside function does to the entries of the
//! map.

use indexmap::IndexMap;
use vstd::prelude::*;
use crate::api::view::View;

verus! {

/// `indexmap::IndexMap`, a hash map that keeps its entries in the order of
/// insertion.
#[verifier::external_type_specification]
#[verifier::external_body]
#[verifier::reject_recursive_types(K)]
#[verifier::reject_recursive_types(V)]
#[verifier::reject_recursive_types(S)]
pub struct ExIndexMap<K, V, S>(IndexMap<K, V, S>);

/// The entries of a map of views, in their order.
pub uninterp spec fn spec_entries(map: IndexMap<usize, View>) -> Seq<(usize, View)>;

/// The place of the entry with the key `key` in `entries`, if there is
/// one.
pub open spec fn spec_place(entries: Seq<(usize, View)>, key: usize) -> Option<int> {
    if exists|i: int| 0 <= i < entries.len() && entries[i].0 == key {
        Some(choose|i: int| 0 <= i < entries.len() && entries[i].0 == key)
    } else {
        None
    }
}

/// `IndexMap::new`: a map without entries.
#[verifier::external_body]
pub(crate) fn map_new() -> (r: IndexMap<usize, View>)
    ensures
        spec_entries(r) == Seq::<(usize, View)>::empty(),
{
    IndexMap::new()
}

/// `IndexMap::len`: the number of entries.
#[verifier::external_body]
pub(crate) fn map_len(map: &IndexMap<usize, View>) -> (r: usize)
    ensures
        r == spec_entries(*map).len(),
{
    map.len()
}

/// `IndexMap::get_index_of`: the place of the entry with the key `key`.
/// No other entry has that key.
#[verifier::external_body]
pub(crate) fn map_get_index_of(map: &IndexMap<usize, View>, key: usize) -> (r: Option<usize>)
    ensures
        match r {
            Some(i) => i < spec_entries(*map).len() && forall|j: int|
                0 <= j < spec_entries(*map).len() ==> ((#[trigger] spec_entries(*map)[j]).0 == key
                    <==> j == i),
            None => forall|j: int|
                0 <= j < spec_entries(*map).len() ==> (#[trigger] spec_entries(*map)[j]).0 != key,
        },
{
    map.get_index_of(&key)
}

/// `IndexMap::get_index`: the entry at the place `index`, if the map has
/// that many entries.
#[verifier::external_body]
pub(crate) fn map_get_index(map: &IndexMap<usize, View>, index: usize) -> (r: Option<(&usize, &View)>)
    ensures
        match r {
            Some((key, view)) => index < spec_entries(*map).len() && (*key, *view) == spec_entries(
                *map,
            )[index as int],
            None => index >= spec_entries(*map).len(),
        },
{
    map.get_index(index)
}

/// `IndexMap::get_index_mut`: the view at the place `index`, to be changed
/// in place, if the map has that many entries. The key and the other
/// entries stay.
#[verifier::external_body]
pub(crate) fn map_get_index_mut(map: &mut IndexMap<usize, View>, index: usize) -> (r: Option<&mut View>)
    ensures
        match r {
            Some(view) => index < spec_entries(*old(map)).len() && *view == spec_entries(
                *old(map),
            )[index as int].1 && spec_entries(*final(map)) == spec_entries(*old(map)).update(
                index as int,
                (spec_entries(*old(map))[index as int].0, *final(view)),
            ),
            None => index >= spec_entries(*old(map)).len() && spec_entries(*final(map))
                == spec_entries(*old(map)),
        },
{
    map.get_index_mut(index).map(|(_, view)| view)
}

/// `IndexMap::insert`: where the map has an entry with the key `key`, the
/// entry keeps its place and gets the value `view`, and the value it had
/// is returned. Otherwise the pair becomes the last entry.
#[verifier::external_body]
pub(crate) fn map_insert(map: &mut IndexMap<usize, View>, key: usize, view: View) -> (r: Option<View>)
    ensures
        match spec_place(spec_entries(*old(map)), key) {
            Some(i) => r == Some(spec_entries(*old(map))[i].1) && spec_entries(*final(map))
                == spec_entries(*old(map)).update(i, (key, view)),
            None => r is None && spec_entries(*final(map)) == spec_entries(*old(map)).push(
                (key, view),
            ),
        },
{
    map.insert(key, view)
}

} // verus!
