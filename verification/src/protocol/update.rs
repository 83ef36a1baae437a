use serde_json::Value;
use vstd::prelude::*;
use crate::json::{as_array, is_object, member, spec_json, spec_jsons, Json};
use crate::protocol::operation::{
    operations_from_value, spec_operation_list, spec_operations, Operation, OperationView,
};
use crate::protocol::view_id::{spec_view_id, ViewId};
use crate::protocol::wire::{
    bool_member, optional_u64, spec_bool_member, spec_optional_u64, spec_string_member,
    spec_u64_member, spec_u64s, string_member, u64_member, u64s,
};

verus! {

/// A set of ranges of a view that the peer marks, such as the selections.
/// `payloads` is handed on as it came.
#[derive(Clone, Debug, PartialEq)]
pub struct Annotation {
    pub ty: String,
    pub ranges: Vec<[u64; 4]>,
    pub payloads: Value,
    pub n: u64,
}

/// Mathematical value of an [`Annotation`].
pub struct AnnotationView {
    pub ty: Seq<char>,
    pub ranges: Seq<Seq<u64>>,
    pub payloads: Json,
    pub n: u64,
}

impl View for Annotation {
    type V = AnnotationView;

    open spec fn view(&self) -> AnnotationView {
        AnnotationView {
            ty: self.ty@,
            ranges: self.ranges@.map_values(|range: [u64; 4]| range@),
            payloads: spec_json(self.payloads),
            n: self.n,
        }
    }
}

/// The values of a sequence of annotations, in order.
pub open spec fn spec_annotations(annotations: Seq<Annotation>) -> Seq<AnnotationView> {
    annotations.map_values(|a: Annotation| a@)
}

/// How a view's lines changed, as a list of operations against the lines
/// that the receiver holds.
#[derive(Clone, Debug, PartialEq)]
pub struct Update {
    pub rev: Option<u64>,
    pub operations: Vec<Operation>,
    pub annotations: Vec<Annotation>,
    pub pristine: bool,
}

/// Mathematical value of an [`Update`].
pub struct UpdateView {
    pub rev: Option<u64>,
    pub operations: Seq<OperationView>,
    pub annotations: Seq<AnnotationView>,
    pub pristine: bool,
}

impl View for Update {
    type V = UpdateView;

    open spec fn view(&self) -> UpdateView {
        UpdateView {
            rev: self.rev,
            operations: spec_operations(self.operations@),
            annotations: spec_annotations(self.annotations@),
            pristine: self.pristine,
        }
    }
}

/// An update together with the view it is for.
#[derive(Clone, Debug, PartialEq)]
pub struct UpdateNotification {
    pub update: Update,
    pub view_id: ViewId,
}

/// A range that a document describes: a list of four numbers.
pub open spec fn spec_range(json: Json) -> Option<Seq<u64>> {
    match spec_u64s(json) {
        Some(numbers) => if numbers.len() == 4 {
            Some(numbers)
        } else {
            None
        },
        None => None,
    }
}

/// The ranges that a document lists: `None` where the document is no array
/// or an item is no range.
pub open spec fn spec_ranges(json: Json) -> Option<Seq<Seq<u64>>> {
    match json.as_array() {
        Some(items) => if forall|i: int|
            0 <= i < items.len() ==> spec_range(#[trigger] items[i]) is Some {
            Some(Seq::new(items.len(), |i: int| spec_range(items[i])->0))
        } else {
            None
        },
        None => None,
    }
}

/// The annotation that a document describes: an object with the kind in
/// `type`, the ranges in `ranges`, any document in `payloads` and a count
/// in `n`.
pub open spec fn spec_annotation(json: Json) -> Option<AnnotationView> {
    let ty = spec_string_member(json, "type"@);
    let ranges = match json.member("ranges"@) {
        Some(found) => spec_ranges(found),
        None => None,
    };
    let payloads = json.member("payloads"@);
    let n = spec_u64_member(json, "n"@);
    if ty is Some && ranges is Some && payloads is Some && n is Some {
        Some(AnnotationView { ty: ty->0, ranges: ranges->0, payloads: payloads->0, n: n->0 })
    } else {
        None
    }
}

/// The annotations that a document lists: `None` where the document is no
/// array or an item is no annotation.
pub open spec fn spec_annotation_list(json: Json) -> Option<Seq<AnnotationView>> {
    match json.as_array() {
        Some(items) => if forall|i: int|
            0 <= i < items.len() ==> spec_annotation(#[trigger] items[i]) is Some {
            Some(Seq::new(items.len(), |i: int| spec_annotation(items[i])->0))
        } else {
            None
        },
        None => None,
    }
}

/// The update that a document describes: an object with the operations in
/// `ops` and the flag `pristine`. The revision `rev` may be missing or
/// `null`; the annotations may be missing, and are none then.
pub open spec fn spec_update(json: Json) -> Option<UpdateView> {
    let rev = spec_optional_u64(json, "rev"@);
    let operations = match json.member("ops"@) {
        Some(found) => spec_operation_list(found),
        None => None,
    };
    let annotations = match json.member("annotations"@) {
        None => Some(Seq::empty()),
        Some(found) => spec_annotation_list(found),
    };
    let pristine = spec_bool_member(json, "pristine"@);
    if rev is Some && operations is Some && annotations is Some && pristine is Some {
        Some(
            UpdateView {
                rev: rev->0,
                operations: operations->0,
                annotations: annotations->0,
                pristine: pristine->0,
            },
        )
    } else {
        None
    }
}

/// The update notification that a document describes: an object with the
/// update in `update` and the view in `view_id`.
pub open spec fn spec_update_notification(json: Json) -> Option<(UpdateView, ViewId)> {
    let update = match json.member("update"@) {
        Some(found) => spec_update(found),
        None => None,
    };
    let view_id = match json.member("view_id"@) {
        Some(found) => spec_view_id(found),
        None => None,
    };
    if update is Some && view_id is Some {
        Some((update->0, view_id->0))
    } else {
        None
    }
}

/// Reads a list of ranges from a JSON value.
pub fn ranges_from_value(value: &Value) -> (r: Option<Vec<[u64; 4]>>)
    ensures
        match r {
            Some(ranges) => spec_ranges(spec_json(*value)) == Some(
                ranges@.map_values(|range: [u64; 4]| range@),
            ),
            None => spec_ranges(spec_json(*value)) is None,
        },
{
    let items = match as_array(value) {
        Some(items) => items,
        None => return None,
    };
    let ghost docs = spec_jsons(items@);
    let mut ranges: Vec<[u64; 4]> = Vec::new();
    let mut i: usize = 0;
    while i < items.len()
        invariant
            i <= items.len(),
            docs == spec_jsons(items@),
            spec_json(*value).as_array() == Some(docs),
            ranges@.len() == i,
            forall|k: int| 0 <= k < i ==> spec_range(#[trigger] docs[k]) == Some(ranges@[k]@),
        decreases items.len() - i,
    {
        match u64s(&items[i]) {
            Some(numbers) => {
                if numbers.len() != 4 {
                    assert(spec_range(docs[i as int]) is None);
                    return None;
                }
                let range: [u64; 4] = [numbers[0], numbers[1], numbers[2], numbers[3]];
                assert(range@ =~= numbers@);
                ranges.push(range);
            },
            None => {
                assert(spec_range(docs[i as int]) is None);
                return None;
            },
        }
        i += 1;
    }
    assert(spec_ranges(spec_json(*value))->0 =~= ranges@.map_values(|range: [u64; 4]| range@));
    Some(ranges)
}

impl Annotation {
    /// Reads an annotation from a JSON value.
    pub fn from_value(value: &Value) -> (r: Option<Annotation>)
        ensures
            match r {
                Some(annotation) => spec_annotation(spec_json(*value)) == Some(annotation@),
                None => spec_annotation(spec_json(*value)) is None,
            },
    {
        let ty: String = match string_member(value, "type") {
            Some(ty) => ty,
            None => return None,
        };
        let ranges: Vec<[u64; 4]> = match member(value, "ranges") {
            Some(found) => match ranges_from_value(found) {
                Some(ranges) => ranges,
                None => return None,
            },
            None => return None,
        };
        let payloads: Value = match member(value, "payloads") {
            Some(found) => found.clone(),
            None => return None,
        };
        let n: u64 = match u64_member(value, "n") {
            Some(n) => n,
            None => return None,
        };
        Some(Annotation { ty, ranges, payloads, n })
    }
}

/// Reads a list of annotations from a JSON value.
pub fn annotations_from_value(value: &Value) -> (r: Option<Vec<Annotation>>)
    ensures
        match r {
            Some(annotations) => spec_annotation_list(spec_json(*value)) == Some(
                spec_annotations(annotations@),
            ),
            None => spec_annotation_list(spec_json(*value)) is None,
        },
{
    let items = match as_array(value) {
        Some(items) => items,
        None => return None,
    };
    let ghost docs = spec_jsons(items@);
    let mut annotations: Vec<Annotation> = Vec::new();
    let mut i: usize = 0;
    while i < items.len()
        invariant
            i <= items.len(),
            docs == spec_jsons(items@),
            spec_json(*value).as_array() == Some(docs),
            annotations@.len() == i,
            forall|k: int|
                0 <= k < i ==> spec_annotation(#[trigger] docs[k]) == Some(annotations@[k]@),
        decreases items.len() - i,
    {
        match Annotation::from_value(&items[i]) {
            Some(annotation) => annotations.push(annotation),
            None => {
                assert(spec_annotation(docs[i as int]) is None);
                return None;
            },
        }
        i += 1;
    }
    assert(spec_annotation_list(spec_json(*value))->0 =~= spec_annotations(annotations@));
    Some(annotations)
}

impl Update {
    /// Reads an update from a JSON value.
    pub fn from_value(value: &Value) -> (r: Option<Update>)
        ensures
            match r {
                Some(update) => spec_update(spec_json(*value)) == Some(update@),
                None => spec_update(spec_json(*value)) is None,
            },
    {
        let rev: Option<u64> = match optional_u64(value, "rev") {
            Some(rev) => rev,
            None => return None,
        };
        let operations: Vec<Operation> = match member(value, "ops") {
            Some(found) => match operations_from_value(found) {
                Some(operations) => operations,
                None => return None,
            },
            None => return None,
        };
        let annotations: Vec<Annotation> = match member(value, "annotations") {
            None => {
                let annotations: Vec<Annotation> = Vec::new();
                assert(spec_annotations(annotations@) =~= Seq::<AnnotationView>::empty());
                annotations
            },
            Some(found) => match annotations_from_value(found) {
                Some(annotations) => annotations,
                None => return None,
            },
        };
        let pristine: bool = match bool_member(value, "pristine") {
            Some(pristine) => pristine,
            None => return None,
        };
        Some(Update { rev, operations, annotations, pristine })
    }
}

impl UpdateNotification {
    /// Reads an update notification from a JSON value.
    pub fn from_value(value: &Value) -> (r: Option<UpdateNotification>)
        ensures
            match r {
                Some(note) => spec_update_notification(spec_json(*value)) == Some(
                    (note.update@, note.view_id),
                ),
                None => spec_update_notification(spec_json(*value)) is None,
            },
    {
        let update: Update = match member(value, "update") {
            Some(found) => match Update::from_value(found) {
                Some(update) => update,
                None => return None,
            },
            None => return None,
        };
        let view_id: ViewId = match member(value, "view_id") {
            Some(found) => match ViewId::from_value(found) {
                Some(view_id) => view_id,
                None => return None,
            },
            None => return None,
        };
        Some(UpdateNotification { update, view_id })
    }
}

} // verus!
