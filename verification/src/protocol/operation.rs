use serde_json::Value;
use vstd::prelude::*;
use crate::json::{as_array, as_str, is_object, member, spec_json, spec_jsons, Json};
use crate::protocol::line::{lines_from_value, spec_line_list, spec_lines, Line, LineView};
use crate::protocol::wire::{optional_u64, spec_optional_u64, spec_u64_member, u64_member};
use crate::text::str_eq;

verus! {

/// The five ways in which an update can describe a stretch of lines.
#[derive(Clone, Copy, Debug, PartialEq, Eq, Structural)]
pub enum OperationType {
    Copy,
    Skip,
    Invalidate,
    Update,
    Insert,
}

/// One step of an update: `nb_lines` lines, treated as `operation_type` says.
/// `line_num` is the new number of the first copied line, where the peer
/// gives one; `lines` are the lines supplied with an insert or an update.
#[derive(Clone, Debug, PartialEq)]
pub struct Operation {
    pub operation_type: OperationType,
    pub nb_lines: u64,
    pub line_num: Option<u64>,
    pub lines: Vec<Line>,
}

/// Mathematical value of an [`Operation`].
pub struct OperationView {
    pub operation_type: OperationType,
    pub nb_lines: u64,
    pub line_num: Option<u64>,
    pub lines: Seq<LineView>,
}

impl View for Operation {
    type V = OperationView;

    open spec fn view(&self) -> OperationView {
        OperationView {
            operation_type: self.operation_type,
            nb_lines: self.nb_lines,
            line_num: self.line_num,
            lines: spec_lines(self.lines@),
        }
    }
}

/// The values of a sequence of operations, in order.
pub open spec fn spec_operations(ops: Seq<Operation>) -> Seq<OperationView> {
    ops.map_values(|op: Operation| op@)
}

/// The operation type that a wire name stands for.
pub open spec fn spec_operation_type(name: Seq<char>) -> Option<OperationType> {
    if name == "copy"@ {
        Some(OperationType::Copy)
    } else if name == "skip"@ {
        Some(OperationType::Skip)
    } else if name == "invalidate"@ {
        Some(OperationType::Invalidate)
    } else if name == "update"@ {
        Some(OperationType::Update)
    } else if name == "ins"@ {
        Some(OperationType::Insert)
    } else {
        None
    }
}

/// Reads the wire name of an operation type; `None` for any other text.
pub fn deserialize_operation_type(name: &str) -> (r: Option<OperationType>)
    ensures
        r == spec_operation_type(name@),
{
    if str_eq(name, "copy") {
        Some(OperationType::Copy)
    } else if str_eq(name, "skip") {
        Some(OperationType::Skip)
    } else if str_eq(name, "invalidate") {
        Some(OperationType::Invalidate)
    } else if str_eq(name, "update") {
        Some(OperationType::Update)
    } else if str_eq(name, "ins") {
        Some(OperationType::Insert)
    } else {
        None
    }
}

/// The operation that a document describes. The document must be an
/// object with the type of the operation in `op` and the line count in
/// `n`. The line number `ln` may be missing or `null`; the lines may be
/// missing, and are none then. `None` for any other document.
pub open spec fn spec_operation(json: Json) -> Option<OperationView> {
    let operation_type = match json.member("op"@) {
        Some(Json::String(name)) => spec_operation_type(name),
        _ => None,
    };
    let nb_lines = spec_u64_member(json, "n"@);
    let line_num = spec_optional_u64(json, "ln"@);
    let lines = match json.member("lines"@) {
        None => Some(Seq::empty()),
        Some(found) => spec_line_list(found),
    };
    if json is Object && operation_type is Some && nb_lines is Some && line_num is Some
        && lines is Some {
        Some(
            OperationView {
                operation_type: operation_type->0,
                nb_lines: nb_lines->0,
                line_num: line_num->0,
                lines: lines->0,
            },
        )
    } else {
        None
    }
}

/// The operations that a document lists: `None` where the document is no
/// array or an item is no operation.
pub open spec fn spec_operation_list(json: Json) -> Option<Seq<OperationView>> {
    match json.as_array() {
        Some(items) => if forall|i: int|
            0 <= i < items.len() ==> spec_operation(#[trigger] items[i]) is Some {
            Some(Seq::new(items.len(), |i: int| spec_operation(items[i])->0))
        } else {
            None
        },
        None => None,
    }
}

impl Operation {
    /// Reads an operation from a JSON value.
    pub fn from_value(value: &Value) -> (r: Option<Operation>)
        ensures
            match r {
                Some(op) => spec_operation(spec_json(*value)) == Some(op@),
                None => spec_operation(spec_json(*value)) is None,
            },
    {
        if !is_object(value) {
            return None;
        }
        let operation_type: OperationType = match member(value, "op") {
            Some(found) => match as_str(found) {
                Some(name) => match deserialize_operation_type(name) {
                    Some(operation_type) => operation_type,
                    None => return None,
                },
                None => return None,
            },
            None => return None,
        };
        let nb_lines: u64 = match u64_member(value, "n") {
            Some(n) => n,
            None => return None,
        };
        let line_num: Option<u64> = match optional_u64(value, "ln") {
            Some(line_num) => line_num,
            None => return None,
        };
        let lines: Vec<Line> = match member(value, "lines") {
            None => {
                let lines: Vec<Line> = Vec::new();
                assert(spec_lines(lines@) =~= Seq::<LineView>::empty());
                lines
            },
            Some(found) => match lines_from_value(found) {
                Some(lines) => lines,
                None => return None,
            },
        };
        Some(Operation { operation_type, nb_lines, line_num, lines })
    }
}

/// Reads a list of operations from a JSON value.
pub fn operations_from_value(value: &Value) -> (r: Option<Vec<Operation>>)
    ensures
        match r {
            Some(ops) => spec_operation_list(spec_json(*value)) == Some(spec_operations(ops@)),
            None => spec_operation_list(spec_json(*value)) is None,
        },
{
    let items = match as_array(value) {
        Some(items) => items,
        None => return None,
    };
    let ghost docs = spec_jsons(items@);
    let mut ops: Vec<Operation> = Vec::new();
    let mut i: usize = 0;
    while i < items.len()
        invariant
            i <= items.len(),
            docs == spec_jsons(items@),
            spec_json(*value).as_array() == Some(docs),
            ops@.len() == i,
            forall|k: int| 0 <= k < i ==> spec_operation(#[trigger] docs[k]) == Some(ops@[k]@),
        decreases items.len() - i,
    {
        match Operation::from_value(&items[i]) {
            Some(op) => ops.push(op),
            None => {
                assert(spec_operation(docs[i as int]) is None);
                return None;
            },
        }
        i += 1;
    }
    assert(spec_operation_list(spec_json(*value))->0 =~= spec_operations(ops@));
    Some(ops)
}

} // verus!
