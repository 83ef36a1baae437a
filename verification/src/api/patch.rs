//! What an update does to a line cache, as mathematics.
//!
//! A cache stands for a whole document of `height` lines, of which only a
//! window is materialized: `before` unknown lines, then the known `lines`,
//! then `after` unknown lines. An update is a list of operations that the peer
//! computed against exactly that state. Applying it walks a read cursor over
//! the old cache and appends to a fresh cache; the fresh cache then replaces
//! the old one.

use vstd::prelude::*;
use crate::protocol::line::LineView;
use crate::protocol::operation::{OperationType, OperationView};

verus! {

/// Mathematical value of a line cache.
pub struct CacheView {
    pub before: nat,
    pub lines: Seq<LineView>,
    pub after: nat,
}

impl CacheView {
    /// The cache of a document of which nothing is known, not even a line.
    pub open spec fn empty() -> CacheView {
        CacheView { before: 0, lines: Seq::empty(), after: 0 }
    }

    /// Number of lines of the document that the cache stands for.
    pub open spec fn height(self) -> nat {
        self.before + self.lines.len() + self.after
    }

    /// The cache with `n` more unknown lines at its end. While no line is
    /// materialized they count as lines before the window, afterwards as
    /// lines after it.
    pub open spec fn invalidated(self, n: nat) -> CacheView {
        if self.lines.len() == 0 {
            CacheView { before: self.before + n, ..self }
        } else {
            CacheView { after: self.after + n, ..self }
        }
    }

    /// The cache with `lines` appended to its window.
    pub open spec fn extended(self, lines: Seq<LineView>) -> CacheView {
        CacheView { lines: self.lines + lines, ..self }
    }
}

/// Why an update cannot be applied to a cache. The cache and the peer then
/// disagree about the document, and no later update can be trusted.
#[derive(Clone, Copy, Debug, PartialEq, Eq, Structural)]
pub enum CacheError {
    /// A copy, skip or update asks for more lines than its source region of
    /// the old cache holds.
    Overrun,
    /// An insert or update does not supply as many lines as it announces.
    LineCountMismatch,
    /// The document described by the update has more lines than a `u64` counts.
    HeightOverflow,
}

/// State in the middle of an update: `old_ix` lines of the old cache are
/// consumed, and `new` is what the operations so far produced.
pub struct PatchView {
    pub old_ix: nat,
    pub new: CacheView,
}

impl PatchView {
    /// State before the first operation.
    pub open spec fn start() -> PatchView {
        PatchView { old_ix: 0, new: CacheView::empty() }
    }
}

/// `text` without its final newline character, if it ends in one.
pub open spec fn spec_trim_new_line(text: Seq<char>) -> Seq<char> {
    if text.len() > 0 && text.last() == '\n' {
        text.drop_last()
    } else {
        text
    }
}

/// An inserted line as the cache stores it: its text loses one final newline.
pub open spec fn spec_inserted(line: LineView) -> LineView {
    LineView { text: spec_trim_new_line(line.text), ..line }
}

/// The number of the first line at or after position `i` that has one.
pub open spec fn spec_first_line_num(lines: Seq<LineView>, i: int) -> Option<u64>
    decreases lines.len() - i,
{
    if i < 0 || i >= lines.len() {
        None
    } else if lines[i].line_num is Some {
        lines[i].line_num
    } else {
        spec_first_line_num(lines, i + 1)
    }
}

/// `num` moved by the distance from `from` to `to`, in 64-bit wrapping
/// arithmetic. Where `num + to - from` is a `u64`, that is the result.
pub open spec fn spec_shifted(num: u64, from: u64, to: u64) -> u64 {
    let exact = num + to - from;
    if exact < 0 {
        (exact + 0x1_0000_0000_0000_0000) as u64
    } else if exact > u64::MAX {
        (exact - 0x1_0000_0000_0000_0000) as u64
    } else {
        exact as u64
    }
}

/// The pair (`from`, `to`) by which copied lines are renumbered: from the
/// number of the first copied line that has one to the number that the copy
/// gives. `None` where the copy gives no number or no copied line has one.
pub open spec fn spec_shift(lines: Seq<LineView>, target: Option<u64>) -> Option<(u64, u64)> {
    match (spec_first_line_num(lines, 0), target) {
        (Some(from), Some(to)) => Some((from, to)),
        _ => None,
    }
}

/// A copied line under a renumbering: a line that has a number moves with
/// the shift, a continuation line stays without one.
pub open spec fn spec_shifted_line(line: LineView, shift: Option<(u64, u64)>) -> LineView {
    match (line.line_num, shift) {
        (Some(num), Some((from, to))) => LineView {
            line_num: Some(spec_shifted(num, from, to)),
            ..line
        },
        _ => line,
    }
}

/// The lines of a copy after renumbering towards `target`.
pub open spec fn spec_renumbered(lines: Seq<LineView>, target: Option<u64>) -> Seq<LineView> {
    lines.map_values(|l: LineView| spec_shifted_line(l, spec_shift(lines, target)))
}

/// An old line after an update operation: cursors and styles are the
/// supplied ones, text and number stay.
pub open spec fn spec_refreshed(old: LineView, supplied: LineView) -> LineView {
    LineView { cursor: supplied.cursor, styles: supplied.styles, ..old }
}

/// How many of the `n` lines from position `ix` of `old` are unknown lines
/// before its window.
pub open spec fn spec_lead(old: CacheView, ix: nat, n: nat) -> nat {
    if ix >= old.before {
        0
    } else if n <= old.before - ix {
        n
    } else {
        (old.before - ix) as nat
    }
}

/// How many of the `n` lines from position `ix` of `old` lie in its window.
pub open spec fn spec_body(old: CacheView, ix: nat, n: nat) -> nat {
    let lead = spec_lead(old, ix, n);
    let start = ix + lead;
    let rest = n - lead;
    if rest <= 0 || start >= old.before + old.lines.len() {
        0
    } else if rest <= old.before + old.lines.len() - start {
        rest as nat
    } else {
        (old.before + old.lines.len() - start) as nat
    }
}

/// The materialized lines among the `n` lines from position `ix` of `old`.
pub open spec fn spec_body_lines(old: CacheView, ix: nat, n: nat) -> Seq<LineView> {
    let body = spec_body(old, ix, n);
    if body == 0 {
        Seq::empty()
    } else {
        let first = ix + spec_lead(old, ix, n) - old.before;
        old.lines.subrange(first, first + body)
    }
}

/// A copy of `n` lines: the unknown lines before the window stay unknown,
/// the lines of the window are carried over and renumbered, and what is
/// left comes from the unknown lines after the window.
pub open spec fn spec_copy(old: CacheView, st: PatchView, n: nat, target: Option<u64>) -> PatchView {
    let lead = spec_lead(old, st.old_ix, n);
    let body = spec_body(old, st.old_ix, n);
    let tail = (n - lead - body) as nat;
    let copied = spec_renumbered(spec_body_lines(old, st.old_ix, n), target);
    PatchView {
        old_ix: st.old_ix + n,
        new: st.new.invalidated(lead).extended(copied).invalidated(tail),
    }
}

/// Whether the `n` lines from position `ix` all lie in the window of `old`.
/// No lines at all lie anywhere.
pub open spec fn spec_in_window(old: CacheView, ix: nat, n: nat) -> bool {
    n == 0 || (old.before <= ix && ix + n <= old.before + old.lines.len())
}

/// The old lines of an update operation, each with the cursors and styles
/// of the supplied line at the same place.
pub open spec fn spec_refreshed_lines(
    old: CacheView,
    ix: nat,
    supplied: Seq<LineView>,
) -> Seq<LineView> {
    Seq::new(
        supplied.len(),
        |i: int| spec_refreshed(old.lines[ix - old.before + i], supplied[i]),
    )
}

/// `st`, unless its new cache is higher than a `u64` counts.
pub open spec fn spec_checked(st: PatchView) -> Result<PatchView, CacheError> {
    if st.new.height() > u64::MAX {
        Err(CacheError::HeightOverflow)
    } else {
        Ok(st)
    }
}

/// The state after one operation, or the reason why it cannot be applied.
pub open spec fn spec_apply(old: CacheView, st: PatchView, op: OperationView) -> Result<
    PatchView,
    CacheError,
> {
    let n = op.nb_lines as nat;
    match op.operation_type {
        OperationType::Invalidate => spec_checked(
            PatchView { new: st.new.invalidated(n), ..st },
        ),
        OperationType::Skip => if st.old_ix + n > old.height() {
            Err(CacheError::Overrun)
        } else {
            Ok(PatchView { old_ix: st.old_ix + n, ..st })
        },
        OperationType::Copy => if st.old_ix + n > old.height() {
            Err(CacheError::Overrun)
        } else {
            spec_checked(spec_copy(old, st, n, op.line_num))
        },
        OperationType::Insert => if op.lines.len() != n {
            Err(CacheError::LineCountMismatch)
        } else {
            spec_checked(
                PatchView {
                    new: st.new.extended(op.lines.map_values(|l: LineView| spec_inserted(l))),
                    ..st
                },
            )
        },
        OperationType::Update => if !spec_in_window(old, st.old_ix, n) {
            Err(CacheError::Overrun)
        } else if op.lines.len() != n {
            Err(CacheError::LineCountMismatch)
        } else {
            spec_checked(
                PatchView {
                    old_ix: st.old_ix + n,
                    new: st.new.extended(spec_refreshed_lines(old, st.old_ix, op.lines)),
                },
            )
        },
    }
}

/// The state after the first `k` operations of `ops`, or the first reason
/// why one of them cannot be applied.
pub open spec fn spec_run(old: CacheView, ops: Seq<OperationView>, k: nat) -> Result<
    PatchView,
    CacheError,
>
    decreases k,
{
    if k == 0 || k > ops.len() {
        Ok(PatchView::start())
    } else {
        match spec_run(old, ops, (k - 1) as nat) {
            Ok(st) => spec_apply(old, st, ops[k - 1]),
            Err(e) => Err(e),
        }
    }
}

/// The cache that replaces `old` when the update `ops` is applied to it, or
/// the reason why the update is refused.
pub open spec fn spec_patched(old: CacheView, ops: Seq<OperationView>) -> Result<
    CacheView,
    CacheError,
> {
    match spec_run(old, ops, ops.len()) {
        Ok(st) => Ok(st.new),
        Err(e) => Err(e),
    }
}

/// Number of lines that an operation adds to the new cache: its line count,
/// but none for a skip.
pub open spec fn spec_output(op: OperationView) -> nat {
    if op.operation_type == OperationType::Skip {
        0
    } else {
        op.nb_lines as nat
    }
}

/// Number of lines of the old cache that an operation reads: its line count
/// for a copy, a skip and an update, none for the others.
pub open spec fn spec_input(op: OperationView) -> nat {
    match op.operation_type {
        OperationType::Copy | OperationType::Skip | OperationType::Update => op.nb_lines as nat,
        _ => 0,
    }
}

/// Sum of `spec_output` over the first `k` operations.
pub open spec fn spec_total_output(ops: Seq<OperationView>, k: nat) -> nat
    decreases k,
{
    if k == 0 || k > ops.len() {
        0
    } else {
        spec_total_output(ops, (k - 1) as nat) + spec_output(ops[k - 1])
    }
}

/// Sum of `spec_input` over the first `k` operations.
pub open spec fn spec_total_input(ops: Seq<OperationView>, k: nat) -> nat
    decreases k,
{
    if k == 0 || k > ops.len() {
        0
    } else {
        spec_total_input(ops, (k - 1) as nat) + spec_input(ops[k - 1])
    }
}

/// Sum of the line counts of the first `k` operations.
pub open spec fn spec_total_lines(ops: Seq<OperationView>, k: nat) -> nat
    decreases k,
{
    if k == 0 || k > ops.len() {
        0
    } else {
        spec_total_lines(ops, (k - 1) as nat) + ops[k - 1].nb_lines as nat
    }
}

/// Once an operation is refused, the update is refused for that reason.
pub proof fn lemma_run_error_sticks(old: CacheView, ops: Seq<OperationView>, k: nat, m: nat)
    requires
        k <= m <= ops.len(),
        spec_run(old, ops, k) is Err,
    ensures
        spec_run(old, ops, m) == spec_run(old, ops, k),
    decreases m,
{
    if k < m {
        lemma_run_error_sticks(old, ops, k, (m - 1) as nat);
    }
}

/// An operation that is accepted adds exactly the lines it announces to the
/// new cache and moves the cursor by the lines it reads, never past the end
/// of the old cache.
pub proof fn lemma_apply_counts(old: CacheView, st: PatchView, op: OperationView)
    requires
        st.old_ix <= old.height(),
        st.new.height() <= u64::MAX,
        spec_apply(old, st, op) is Ok,
    ensures
        spec_apply(old, st, op)->Ok_0.new.height() == st.new.height() + spec_output(op),
        spec_apply(old, st, op)->Ok_0.old_ix == st.old_ix + spec_input(op),
        spec_apply(old, st, op)->Ok_0.old_ix <= old.height(),
        spec_apply(old, st, op)->Ok_0.new.height() <= u64::MAX,
{
}

/// While the operations are accepted, the new cache is as high as the lines
/// they added, and the cursor stands after the lines they read.
pub proof fn lemma_run_counts(old: CacheView, ops: Seq<OperationView>, k: nat)
    requires
        k <= ops.len(),
        spec_run(old, ops, k) is Ok,
    ensures
        spec_run(old, ops, k)->Ok_0.new.height() == spec_total_output(ops, k),
        spec_run(old, ops, k)->Ok_0.old_ix == spec_total_input(ops, k),
        spec_run(old, ops, k)->Ok_0.old_ix <= old.height(),
        spec_run(old, ops, k)->Ok_0.new.height() <= u64::MAX,
    decreases k,
{
    if k > 0 {
        lemma_run_counts(old, ops, (k - 1) as nat);
        lemma_apply_counts(old, spec_run(old, ops, (k - 1) as nat)->Ok_0, ops[k - 1]);
    }
}

/// Height conservation. The cache that an accepted update leaves is as high
/// as the sum of the line counts of its operations, skips left out: a skip
/// reads lines of the old cache and adds none to the new one. The update
/// reads no more lines than the old cache has.
pub proof fn lemma_update_height(old: CacheView, ops: Seq<OperationView>)
    requires
        spec_patched(old, ops) is Ok,
    ensures
        spec_patched(old, ops)->Ok_0.height() == spec_total_output(ops, ops.len()),
        spec_total_input(ops, ops.len()) <= old.height(),
        spec_patched(old, ops)->Ok_0.height() <= u64::MAX,
{
    lemma_run_counts(old, ops, ops.len());
}

/// The line counts of the first `k` operations add up to the lines they add
/// to the new cache and the lines they skip.
pub proof fn lemma_total_lines(ops: Seq<OperationView>, k: nat)
    requires
        k <= ops.len(),
        forall|i: int|
            0 <= i < k ==> (#[trigger] ops[i]).operation_type == OperationType::Skip
                ==> ops[i].nb_lines == 0,
    ensures
        spec_total_lines(ops, k) == spec_total_output(ops, k),
    decreases k,
{
    if k > 0 {
        lemma_total_lines(ops, (k - 1) as nat);
    }
}

/// Height conservation for updates that skip nothing: the cache that such
/// an update leaves is as high as the sum of the line counts of all its
/// operations.
pub proof fn lemma_update_height_without_skips(old: CacheView, ops: Seq<OperationView>)
    requires
        spec_patched(old, ops) is Ok,
        forall|i: int|
            0 <= i < ops.len() ==> (#[trigger] ops[i]).operation_type == OperationType::Skip
                ==> ops[i].nb_lines == 0,
    ensures
        spec_patched(old, ops)->Ok_0.height() == spec_total_lines(ops, ops.len()),
{
    lemma_update_height(old, ops);
    lemma_total_lines(ops, ops.len());
}

/// The operation that copies `n` lines and leaves their numbers alone.
pub open spec fn spec_plain_copy(n: u64) -> OperationView {
    OperationView {
        operation_type: OperationType::Copy,
        nb_lines: n,
        line_num: None,
        lines: Seq::empty(),
    }
}

/// Copying everything changes nothing. An update that is one copy of as
/// many lines as the document has leaves the cache as it is: the unknown
/// lines stay unknown lines before and after the window, and the window
/// keeps its lines. (In a cache without a window all unknown lines count
/// as lines before it, so the law is stated for caches that count none
/// after an empty window.)
pub proof fn lemma_copy_all(old: CacheView)
    requires
        old.height() <= u64::MAX,
        old.lines.len() > 0 || old.after == 0,
    ensures
        spec_patched(old, seq![spec_plain_copy(old.height() as u64)]) == Ok::<
            CacheView,
            CacheError,
        >(old),
{
    let n = old.height();
    let ops = seq![spec_plain_copy(n as u64)];
    let start = PatchView::start();
    assert(spec_run(old, ops, 0) == Ok::<PatchView, CacheError>(start));
    assert(ops[0] == spec_plain_copy(n as u64));
    let source = spec_body_lines(old, 0, n);
    assert(spec_lead(old, 0, n) == old.before);
    assert(spec_body(old, 0, n) == old.lines.len());
    assert(source =~= old.lines);
    assert(spec_renumbered(source, None) =~= old.lines);
    let copied = spec_copy(old, start, n, None);
    assert(start.new.invalidated(old.before).lines =~= Seq::<LineView>::empty());
    assert(start.new.invalidated(old.before).extended(old.lines).lines =~= old.lines);
    assert(copied.new == old);
    assert(spec_run(old, ops, 1) == spec_apply(old, start, ops[0]));
}

/// Whether operation `op`, met with the cursor at `ix`, asks for more lines
/// than its source region of the old cache holds: a copy or a skip past the
/// end of the document, an update outside the window.
pub open spec fn spec_overruns(old: CacheView, ix: nat, op: OperationView) -> bool {
    match op.operation_type {
        OperationType::Copy | OperationType::Skip => ix + op.nb_lines > old.height(),
        OperationType::Update => !spec_in_window(old, ix, op.nb_lines as nat),
        _ => false,
    }
}

/// Overrun fails fast. An update whose operation `k` is the first to be
/// refused, and is refused for asking more lines than its source region
/// holds, is refused as a whole with `Overrun`: nothing is cut short or
/// padded.
pub proof fn lemma_overrun_refused(old: CacheView, ops: Seq<OperationView>, k: nat)
    requires
        k < ops.len(),
        spec_run(old, ops, k) is Ok,
        spec_overruns(old, spec_run(old, ops, k)->Ok_0.old_ix, ops[k as int]),
    ensures
        spec_patched(old, ops) == Err::<CacheView, CacheError>(CacheError::Overrun),
{
    assert(spec_run(old, ops, k + 1) == Err::<PatchView, CacheError>(CacheError::Overrun));
    lemma_run_error_sticks(old, ops, k + 1, ops.len());
}

} // verus!
