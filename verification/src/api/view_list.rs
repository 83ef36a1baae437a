//! The views of an editor, in the order in which they were opened, one of
//! them being the current one.
//!
//! The views are kept in an `indexmap::IndexMap`, keyed by the number of
//! their id.

use indexmap::IndexMap;
use vstd::prelude::*;
use vstd::view::View as _;
use crate::api::view::View;
use crate::ordered::{
    map_get_index, map_get_index_mut, map_get_index_of, map_insert, map_len, map_new,
    spec_entries, spec_place,
};
use crate::protocol::view_id::ViewId;

verus! {

/// The views that an editor has open.
pub struct ViewList {
    index: Option<ViewId>,
    views: IndexMap<usize, View>,
}

/// Mathematical value of a [`ViewList`].
pub struct ViewListView {
    /// The id of the current view.
    pub index: Option<ViewId>,
    /// The views with the numbers of their ids, in the order in which they
    /// were added.
    pub views: Seq<(usize, View)>,
}

impl ViewListView {
    /// No two views of the list have the same id.
    pub open spec fn wf(self) -> bool {
        forall|i: int, j: int|
            0 <= i < j < self.views.len() ==> (#[trigger] self.views[i]).0 != (
            #[trigger] self.views[j]).0
    }

    /// The place of the view with the id `id`.
    pub open spec fn place(self, id: ViewId) -> Option<int> {
        spec_place(self.views, id.0)
    }

    /// The view with the id `id`.
    pub open spec fn get(self, id: ViewId) -> Option<View> {
        match self.place(id) {
            Some(i) => Some(self.views[i].1),
            None => None,
        }
    }

    /// The place of the current view.
    pub open spec fn current_place(self) -> Option<int> {
        match self.index {
            Some(id) => self.place(id),
            None => None,
        }
    }

    /// The list after a move of `step` places from the current view, going
    /// round at the ends: the view at the new place is current. A list
    /// whose current view is not set or not in the list stays as it is.
    pub open spec fn moved(self, step: int) -> ViewListView {
        match self.current_place() {
            Some(i) => ViewListView {
                index: Some(ViewId(self.views[(i + step) % (self.views.len() as int)].0)),
                ..self
            },
            None => self,
        }
    }

    /// The list after the view `view` was added under the id `id`: it is
    /// the current view. A view that was there under that id is replaced
    /// and the place is kept; otherwise the view comes last.
    pub open spec fn added(self, id: ViewId, view: View) -> ViewListView {
        ViewListView {
            index: Some(id),
            views: match self.place(id) {
                Some(i) => self.views.update(i, (id.0, view)),
                None => self.views.push((id.0, view)),
            },
        }
    }
}

impl vstd::view::View for ViewList {
    type V = ViewListView;

    closed spec fn view(&self) -> ViewListView {
        ViewListView { index: self.index, views: spec_entries(self.views) }
    }
}

impl Default for ViewList {
    fn default() -> (r: ViewList)
        ensures
            r@.index is None,
            r@.views.len() == 0,
            r@.wf(),
    {
        ViewList { index: None, views: map_new() }
    }
}

impl ViewList {
    /// The view with the id `id`.
    pub fn get(&self, id: &ViewId) -> (r: Option<&View>)
        ensures
            match r {
                Some(view) => self@.get(*id) == Some(*view),
                None => self@.get(*id) is None,
            },
    {
        match map_get_index_of(&self.views, id.0) {
            Some(i) => match map_get_index(&self.views, i) {
                Some((_, view)) => Some(view),
                None => None,
            },
            None => None,
        }
    }

    /// The view with the id `id`, to be changed in place.
    pub fn get_mut(&mut self, id: &ViewId) -> (r: Option<&mut View>)
        ensures
            final(self)@.index == old(self)@.index,
            match r {
                Some(view) => old(self)@.place(*id) is Some && *view == old(self)@.views[old(
                    self,
                )@.place(*id)->0].1 && final(self)@.views == old(self)@.views.update(
                    old(self)@.place(*id)->0,
                    (id.0, *final(view)),
                ),
                None => old(self)@.place(*id) is None && final(self)@.views == old(self)@.views,
            },
    {
        match map_get_index_of(&self.views, id.0) {
            Some(i) => {
                proof {
                    lemma_place(self@.views, id.0, i as int);
                }
                map_get_index_mut(&mut self.views, i)
            },
            None => {
                proof {
                    lemma_no_place(self@.views, id.0);
                }
                None
            },
        }
    }

    /// The current view, to be changed in place, if one is set and in the
    /// list.
    pub fn get_current_mut(&mut self) -> (r: Option<&mut View>)
        ensures
            final(self)@.index == old(self)@.index,
            match r {
                Some(view) => old(self)@.current_place() is Some && *view == old(
                    self,
                )@.views[old(self)@.current_place()->0].1 && final(self)@.views == old(
                    self,
                )@.views.update(
                    old(self)@.current_place()->0,
                    ((old(self)@.index->0).0, *final(view)),
                ),
                None => old(self)@.current_place() is None && final(self)@.views == old(
                    self,
                )@.views,
            },
    {
        match self.index {
            Some(index) => self.get_mut(&index),
            None => None,
        }
    }

    /// The current view, if one is set and in the list.
    pub fn get_current(&self) -> (r: Option<&View>)
        ensures
            match r {
                Some(view) => self@.index is Some && self@.get(self@.index->0) == Some(*view),
                None => self@.index is None || self@.get(self@.index->0) is None,
            },
    {
        match self.index {
            Some(id) => self.get(&id),
            None => None,
        }
    }

    /// The id of the current view.
    pub fn get_current_id(&self) -> (r: Option<ViewId>)
        ensures
            r == self@.index,
    {
        self.index
    }

    /// The place of the current view in the list.
    pub fn get_current_index(&self) -> (r: Option<usize>)
        ensures
            match r {
                Some(i) => self@.current_place() == Some(i as int),
                None => self@.current_place() is None,
            },
    {
        match self.index {
            Some(id) => {
                let place = map_get_index_of(&self.views, id.0);
                proof {
                    match place {
                        Some(i) => lemma_place(self@.views, id.0, i as int),
                        None => lemma_no_place(self@.views, id.0),
                    }
                }
                place
            },
            None => None,
        }
    }

    /// The views of the list, in order.
    pub fn get_all(&self) -> (r: Vec<&View>)
        ensures
            r@.len() == self@.views.len(),
            forall|i: int| 0 <= i < r@.len() ==> *(#[trigger] r@[i]) == self@.views[i].1,
    {
        let mut all: Vec<&View> = Vec::new();
        let len: usize = map_len(&self.views);
        let mut i: usize = 0;
        while i < len
            invariant
                i <= len,
                len == self@.views.len(),
                all@.len() == i,
                forall|k: int| 0 <= k < i ==> *(#[trigger] all@[k]) == self@.views[k].1,
            decreases len - i,
        {
            match map_get_index(&self.views, i) {
                Some((_, view)) => all.push(view),
                None => {},
            }
            i += 1;
        }
        all
    }

    /// The ids of the views of the list, in order.
    pub fn keys(&self) -> (r: Vec<ViewId>)
        ensures
            r@.len() == self@.views.len(),
            forall|i: int| 0 <= i < r@.len() ==> (#[trigger] r@[i]).0 == self@.views[i].0,
    {
        let mut keys: Vec<ViewId> = Vec::new();
        let len: usize = map_len(&self.views);
        let mut i: usize = 0;
        while i < len
            invariant
                i <= len,
                len == self@.views.len(),
                keys@.len() == i,
                forall|k: int| 0 <= k < i ==> (#[trigger] keys@[k]).0 == self@.views[k].0,
            decreases len - i,
        {
            match map_get_index(&self.views, i) {
                Some((key, _)) => keys.push(ViewId(*key)),
                None => {},
            }
            i += 1;
        }
        keys
    }

    /// The view at the place `index` of the list.
    pub fn get_index(&self, index: usize) -> (r: Option<&View>)
        ensures
            match r {
                Some(view) => index < self@.views.len() && *view == self@.views[index as int].1,
                None => index >= self@.views.len(),
            },
    {
        match map_get_index(&self.views, index) {
            Some((_, view)) => Some(view),
            None => None,
        }
    }

    /// The number of views in the list.
    pub fn len(&self) -> (r: usize)
        ensures
            r == self@.views.len(),
    {
        map_len(&self.views)
    }

    /// Whether the list holds no view.
    pub fn is_empty(&self) -> (r: bool)
        ensures
            r == (self@.views.len() == 0),
    {
        map_len(&self.views) == 0
    }

    /// Adds a view under the id `id` and makes it the current one.
    pub fn add(&mut self, id: ViewId, view: View)
        ensures
            final(self)@ == old(self)@.added(id, view),
            old(self)@.wf() ==> final(self)@.wf(),
    {
        proof {
            if self@.wf() {
                lemma_added_wf(self@, id, view);
            }
        }
        self.index = Some(id);
        let _ = map_insert(&mut self.views, id.0, view);
    }

    /// Makes the view before the current one the current one; from the
    /// first view the move goes round to the last.
    pub fn prev(&mut self)
        ensures
            final(self)@ == old(self)@.moved(old(self)@.views.len() - 1),
    {
        if let Some(current_view) = self.index {
            if let Some(dex) = map_get_index_of(&self.views, current_view.0) {
                let len: usize = map_len(&self.views);
                let target: usize = if dex == 0 {
                    len - 1
                } else {
                    dex - 1
                };
                proof {
                    lemma_place(self@.views, current_view.0, dex as int);
                    lemma_step_back(dex as int, len as int);
                }
                if let Some((view, _)) = map_get_index(&self.views, target) {
                    self.index = Some(ViewId(*view));
                }
            } else {
                proof {
                    lemma_no_place(self@.views, current_view.0);
                }
            }
        }
    }

    /// Makes the view after the current one the current one; from the
    /// last view the move goes round to the first.
    pub fn next(&mut self)
        ensures
            final(self)@ == old(self)@.moved(1),
    {
        if let Some(current_view) = self.index {
            if let Some(dex) = map_get_index_of(&self.views, current_view.0) {
                let len: usize = map_len(&self.views);
                let target: usize = if dex + 1 == len {
                    0
                } else {
                    dex + 1
                };
                proof {
                    lemma_place(self@.views, current_view.0, dex as int);
                    lemma_step_on(dex as int, len as int);
                }
                if let Some((view, _)) = map_get_index(&self.views, target) {
                    self.index = Some(ViewId(*view));
                }
            } else {
                proof {
                    lemma_no_place(self@.views, current_view.0);
                }
            }
        }
    }
}

/// Adding a view keeps the ids of a list apart.
pub proof fn lemma_added_wf(list: ViewListView, id: ViewId, view: View)
    requires
        list.wf(),
    ensures
        list.added(id, view).wf(),
{
    let after = list.added(id, view);
    match list.place(id) {
        Some(p) => {
            assert forall|i: int, j: int| 0 <= i < j < after.views.len() implies (
            #[trigger] after.views[i]).0 != (#[trigger] after.views[j]).0 by {
                assert(list.views[p].0 == id.0);
                assert(after.views[i].0 == list.views[i].0);
                assert(after.views[j].0 == list.views[j].0);
            }
        },
        None => {
            assert forall|i: int, j: int| 0 <= i < j < after.views.len() implies (
            #[trigger] after.views[i]).0 != (#[trigger] after.views[j]).0 by {
                if j == list.views.len() {
                    assert(list.views[i].0 != id.0);
                }
            }
        },
    }
}

/// In a list whose ids differ, a view stands at the place of its id.
pub proof fn lemma_place_of(list: ViewListView, i: int)
    requires
        list.wf(),
        0 <= i < list.views.len(),
    ensures
        list.place(ViewId(list.views[i].0)) == Some(i),
{
    let key = list.views[i].0;
    assert(list.views[i].0 == key);
    let p = spec_place(list.views, key)->0;
    if p < i {
        assert(list.views[p].0 != list.views[i].0);
    } else if i < p {
        assert(list.views[i].0 != list.views[p].0);
    }
}

/// Going on and then back, or back and then on, comes to the view one
/// started from, in a list whose ids differ.
pub proof fn lemma_there_and_back(list: ViewListView)
    requires
        list.wf(),
    ensures
        list.moved(1).moved(list.views.len() - 1) == list,
        list.moved(list.views.len() - 1).moved(1) == list,
{
    match list.current_place() {
        Some(i) => {
            let len = list.views.len() as int;
            let id = list.index->0;
            assert(list.views[i].0 == id.0);
            lemma_step_on(i, len);
            lemma_step_back(i, len);
            let on = (i + 1) % len;
            let back = (i + (len - 1)) % len;
            lemma_place_of(list, on);
            lemma_place_of(list, back);
            lemma_step_back(on, len);
            lemma_step_on(back, len);
            assert((on + (len - 1)) % len == i);
            assert((back + 1) % len == i);
        },
        None => {},
    }
}

/// The only place at which a key stands is its place.
pub proof fn lemma_place(entries: Seq<(usize, View)>, key: usize, i: int)
    requires
        0 <= i < entries.len(),
        forall|j: int| 0 <= j < entries.len() ==> ((#[trigger] entries[j]).0 == key <==> j == i),
    ensures
        spec_place(entries, key) == Some(i),
{
    assert(entries[i].0 == key);
}

/// A key that stands nowhere has no place.
pub proof fn lemma_no_place(entries: Seq<(usize, View)>, key: usize)
    requires
        forall|j: int| 0 <= j < entries.len() ==> (#[trigger] entries[j]).0 != key,
    ensures
        spec_place(entries, key) is None,
{
}

/// One step on from place `i` of `len`, going round at the end.
proof fn lemma_step_on(i: int, len: int)
    requires
        0 <= i < len,
    ensures
        (i + 1) % len == if i + 1 == len {
            0
        } else {
            i + 1
        },
{
    if i + 1 == len {
        assert(len % len == 0) by (nonlinear_arith)
            requires
                len > 0,
        ;
    } else {
        assert((i + 1) % len == i + 1) by (nonlinear_arith)
            requires
                0 <= i + 1 < len,
        ;
    }
}

/// One step back from place `i` of `len`, going round at the start.
proof fn lemma_step_back(i: int, len: int)
    requires
        0 <= i < len,
    ensures
        (i + (len - 1)) % len == if i == 0 {
            len - 1
        } else {
            i - 1
        },
{
    if i == 0 {
        assert((len - 1) % len == len - 1) by (nonlinear_arith)
            requires
                len > 0,
        ;
    } else {
        assert((i + (len - 1)) % len == i - 1) by (nonlinear_arith)
            requires
                0 < i < len,
        ;
    }
}

} // verus!
