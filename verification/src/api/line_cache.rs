use vstd::prelude::*;
use vstd::string::{StrSliceExecFns, StringSliceAdditionalSpecFns};
use vstd::utf8::encode_utf8;
use crate::api::patch::{
    lemma_run_error_sticks, spec_apply, spec_body, spec_body_lines, spec_copy,
    spec_first_line_num, spec_in_window, spec_inserted, spec_lead, spec_patched, spec_refreshed,
    spec_refreshed_lines, spec_renumbered, spec_run, spec_shift, spec_shifted,
    spec_shifted_line, spec_trim_new_line, CacheError, CacheView, PatchView,
};
use crate::protocol::line::{spec_lines, Line, LineView};
use crate::protocol::operation::{spec_operations, Operation, OperationType, OperationView};
use crate::protocol::update::{Annotation, Update};

verus! {

/// The lines of a view that the front-end knows, as a window into a document
/// whose other lines it only counts.
#[derive(Debug)]
pub struct LineCache {
    invalid_before: u64,
    lines: Vec<Line>,
    invalid_after: u64,
    annotations: Vec<Annotation>,
}

impl View for LineCache {
    type V = CacheView;

    closed spec fn view(&self) -> CacheView {
        CacheView {
            before: self.invalid_before as nat,
            lines: spec_lines(self.lines@),
            after: self.invalid_after as nat,
        }
    }
}

/// The stretches of the lines `first..last` of a document that are not in
/// the window of `cache`: what lies before the window and what lies after
/// it, `last` being cut to the height of the document. With an empty window
/// the two are one stretch.
pub open spec fn spec_missing(cache: CacheView, first: u64, last: u64) -> Seq<(u64, u64)> {
    let last = if last < cache.height() {
        last
    } else {
        cache.height() as u64
    };
    let window_start = cache.before as u64;
    let window_end = (cache.before + cache.lines.len()) as u64;
    if cache.lines.len() == 0 {
        seq![(first, last)]
    } else {
        (if first < window_start {
            seq![(first, if last < window_start {
                last
            } else {
                window_start
            })]
        } else {
            Seq::empty()
        }) + (if last > window_end {
            seq![(if first > window_end {
                first
            } else {
                window_end
            }, last)]
        } else {
            Seq::empty()
        })
    }
}

/// Removes one newline character from the end of `text`, if it ends in one.
pub fn trim_new_line(text: &mut String)
    ensures
        final(text)@ == spec_trim_new_line(old(text)@),
{
    let len: usize = text.as_str().unicode_len();
    if len > 0 && text.as_str().get_char(len - 1) == '\n' {
        let trimmed: String = text.as_str().substring_char(0, len - 1).to_owned();
        assert(trimmed@ =~= old(text)@.drop_last());
        *text = trimmed;
    }
}

proof fn lemma_lines_push(lines: Seq<Line>, line: Line)
    ensures
        spec_lines(lines.push(line)) == spec_lines(lines).push(line@),
{
    assert(spec_lines(lines.push(line)) =~= spec_lines(lines).push(line@));
}

/// The number of the first line in `lines[start..end]` that has one.
fn first_line_num(lines: &Vec<Line>, start: usize, end: usize) -> (r: Option<u64>)
    requires
        start <= end <= lines.len(),
    ensures
        r == spec_first_line_num(spec_lines(lines@).subrange(start as int, end as int), 0),
{
    let ghost part = spec_lines(lines@).subrange(start as int, end as int);
    let mut i: usize = start;
    while i < end
        invariant
            start <= i <= end <= lines.len(),
            part == spec_lines(lines@).subrange(start as int, end as int),
            spec_first_line_num(part, 0) == spec_first_line_num(part, i - start),
        decreases end - i,
    {
        assert(part[i - start] == lines@[i as int]@);
        if lines[i].line_num.is_some() {
            return lines[i].line_num;
        }
        i += 1;
    }
    None
}

/// The cache under construction while an update is applied.
struct UpdateHelper {
    old_ix: u64,
    new_before: u64,
    new_lines: Vec<Line>,
    new_after: u64,
}

impl View for UpdateHelper {
    type V = PatchView;

    closed spec fn view(&self) -> PatchView {
        PatchView {
            old_ix: self.old_ix as nat,
            new: CacheView {
                before: self.new_before as nat,
                lines: spec_lines(self.new_lines@),
                after: self.new_after as nat,
            },
        }
    }
}

impl UpdateHelper {
    /// The cursor is inside the old cache and the new cache can be counted.
    spec fn wf(&self, prev: CacheView) -> bool {
        &&& self@.old_ix <= prev.height()
        &&& self@.new.height() <= u64::MAX
    }

    fn new() -> (r: UpdateHelper)
        ensures
            r@ == PatchView::start(),
    {
        let r = UpdateHelper { old_ix: 0, new_before: 0, new_lines: Vec::new(), new_after: 0 };
        assert(r@.new.lines =~= Seq::<LineView>::empty());
        r
    }

    /// Whether `n` more lines still leave the new cache countable.
    fn room(&self, n: u64) -> (r: bool)
        requires
            self@.new.height() <= u64::MAX,
        ensures
            r == (self@.new.height() + n <= u64::MAX),
    {
        let used: u64 = self.new_before + self.new_lines.len() as u64 + self.new_after;
        n <= u64::MAX - used
    }

    fn add_unknown(&mut self, n: u64)
        requires
            old(self)@.new.height() + n <= u64::MAX,
        ensures
            final(self)@ == (PatchView { new: old(self)@.new.invalidated(n as nat), ..old(self)@ }),
    {
        if self.new_lines.len() == 0 {
            self.new_before = self.new_before + n;
        } else {
            self.new_after = self.new_after + n;
        }
    }

    fn push_line(&mut self, line: Line)
        requires
            old(self)@.new.height() + 1 <= u64::MAX,
        ensures
            final(self)@ == (PatchView {
                new: old(self)@.new.extended(seq![line@]),
                ..old(self)@
            }),
    {
        proof {
            lemma_lines_push(self.new_lines@, line);
        }
        self.new_lines.push(line);
        assert(final(self)@.new.lines =~= old(self)@.new.lines + seq![line@]);
    }

    fn apply_invalidate(&mut self, nb_lines: u64) -> (r: Result<(), CacheError>)
        requires
            old(self)@.new.height() <= u64::MAX,
        ensures
            old(self)@.new.height() + nb_lines > u64::MAX ==> r == Err::<(), CacheError>(
                CacheError::HeightOverflow,
            ),
            old(self)@.new.height() + nb_lines <= u64::MAX ==> r is Ok && final(self)@ == (PatchView {
                new: old(self)@.new.invalidated(nb_lines as nat),
                ..old(self)@
            }),
    {
        if !self.room(nb_lines) {
            return Err(CacheError::HeightOverflow);
        }
        self.add_unknown(nb_lines);
        Ok(())
    }

    fn apply_skip(&mut self, prev: &LineCache, nb_lines: u64) -> (r: Result<(), CacheError>)
        requires
            old(self)@.old_ix <= prev@.height(),
        ensures
            old(self)@.old_ix + nb_lines > prev@.height() ==> r == Err::<(), CacheError>(
                CacheError::Overrun,
            ),
            old(self)@.old_ix + nb_lines <= prev@.height() ==> r is Ok && final(self)@ == (PatchView {
                old_ix: old(self)@.old_ix + nb_lines as nat,
                ..old(self)@
            }),
    {
        if nb_lines > prev.height() - self.old_ix {
            return Err(CacheError::Overrun);
        }
        self.old_ix = self.old_ix + nb_lines;
        Ok(())
    }

    fn apply_insert(&mut self, nb_lines: u64, lines: &Vec<Line>) -> (r: Result<(), CacheError>)
        requires
            old(self)@.new.height() <= u64::MAX,
        ensures
            lines.len() != nb_lines ==> r == Err::<(), CacheError>(CacheError::LineCountMismatch),
            lines.len() == nb_lines && old(self)@.new.height() + nb_lines > u64::MAX ==> r == Err::<
                (),
                CacheError,
            >(CacheError::HeightOverflow),
            lines.len() == nb_lines && old(self)@.new.height() + nb_lines <= u64::MAX ==> r is Ok
                && final(self)@ == (PatchView {
                new: old(self)@.new.extended(
                    spec_lines(lines@).map_values(|l: LineView| spec_inserted(l)),
                ),
                ..old(self)@
            }),
    {
        if lines.len() as u64 != nb_lines {
            return Err(CacheError::LineCountMismatch);
        }
        if !self.room(nb_lines) {
            return Err(CacheError::HeightOverflow);
        }
        let ghost inserted = spec_lines(lines@).map_values(|l: LineView| spec_inserted(l));
        let mut i: usize = 0;
        while i < lines.len()
            invariant
                i <= lines.len(),
                lines.len() == nb_lines,
                old(self)@.new.height() + nb_lines <= u64::MAX,
                inserted == spec_lines(lines@).map_values(|l: LineView| spec_inserted(l)),
                self@ == (PatchView {
                    new: old(self)@.new.extended(inserted.subrange(0, i as int)),
                    ..old(self)@
                }),
            decreases lines.len() - i,
        {
            let mut line: Line = lines[i].duplicate();
            trim_new_line(&mut line.text);
            assert(line@ == inserted[i as int]);
            let ghost before = self@.new.lines;
            self.push_line(line);
            assert(before + seq![line@] =~= old(self)@.new.lines + inserted.subrange(
                0,
                i as int + 1,
            ));
            i += 1;
        }
        assert(inserted.subrange(0, i as int) =~= inserted);
        Ok(())
    }

    fn apply_update(&mut self, prev: &LineCache, nb_lines: u64, lines: &Vec<Line>) -> (r: Result<
        (),
        CacheError,
    >)
        requires
            old(self).wf(prev@),
        ensures
            !spec_in_window(prev@, old(self)@.old_ix, nb_lines as nat) ==> r == Err::<(), CacheError>(
                CacheError::Overrun,
            ),
            spec_in_window(prev@, old(self)@.old_ix, nb_lines as nat) && lines.len() != nb_lines
                ==> r == Err::<(), CacheError>(CacheError::LineCountMismatch),
            spec_in_window(prev@, old(self)@.old_ix, nb_lines as nat) && lines.len() == nb_lines
                && old(self)@.new.height() + nb_lines > u64::MAX ==> r == Err::<(), CacheError>(
                CacheError::HeightOverflow,
            ),
            spec_in_window(prev@, old(self)@.old_ix, nb_lines as nat) && lines.len() == nb_lines
                && old(self)@.new.height() + nb_lines <= u64::MAX ==> r is Ok && final(self)@ == (
            PatchView {
                old_ix: old(self)@.old_ix + nb_lines as nat,
                new: old(self)@.new.extended(
                    spec_refreshed_lines(prev@, old(self)@.old_ix, spec_lines(lines@)),
                ),
            }),
    {
        proof {
            use_type_invariant(prev);
        }
        let window_end: u64 = prev.invalid_before + prev.lines.len() as u64;
        if nb_lines > 0 && (self.old_ix < prev.invalid_before || self.old_ix > window_end || nb_lines
            > window_end - self.old_ix) {
            return Err(CacheError::Overrun);
        }
        if lines.len() as u64 != nb_lines {
            return Err(CacheError::LineCountMismatch);
        }
        if !self.room(nb_lines) {
            return Err(CacheError::HeightOverflow);
        }
        let ghost refreshed = spec_refreshed_lines(prev@, old(self)@.old_ix, spec_lines(lines@));
        if nb_lines > 0 {
            let first: usize = (self.old_ix - prev.invalid_before) as usize;
            let mut i: usize = 0;
            while i < lines.len()
                invariant
                    i <= lines.len(),
                    lines.len() == nb_lines,
                    first == old(self)@.old_ix - prev@.before,
                    first + lines.len() <= prev.lines.len(),
                    old(self)@.new.height() + nb_lines <= u64::MAX,
                    refreshed == spec_refreshed_lines(prev@, old(self)@.old_ix, spec_lines(lines@)),
                    self@ == (PatchView {
                        new: old(self)@.new.extended(refreshed.subrange(0, i as int)),
                        ..old(self)@
                    }),
                decreases lines.len() - i,
            {
                let kept: Line = prev.lines[first + i].duplicate();
                let line = Line {
                    text: kept.text,
                    cursor: lines[i].cursor.clone(),
                    styles: lines[i].styles.clone(),
                    line_num: kept.line_num,
                };
                assert(line@ == spec_refreshed(prev@.lines[first + i], spec_lines(lines@)[i as int]));
                let ghost before = self@.new.lines;
                self.push_line(line);
                assert(before + seq![line@] =~= old(self)@.new.lines + refreshed.subrange(
                    0,
                    i as int + 1,
                ));
                i += 1;
            }
            assert(refreshed.subrange(0, i as int) =~= refreshed);
            self.old_ix = self.old_ix + nb_lines;
        } else {
            assert(old(self)@.new.lines + refreshed =~= old(self)@.new.lines);
        }
        Ok(())
    }

    fn apply_copy(&mut self, prev: &LineCache, nb_lines: u64, first_num: Option<u64>) -> (r: Result<
        (),
        CacheError,
    >)
        requires
            old(self).wf(prev@),
        ensures
            old(self)@.old_ix + nb_lines > prev@.height() ==> r == Err::<(), CacheError>(
                CacheError::Overrun,
            ),
            old(self)@.old_ix + nb_lines <= prev@.height() && old(self)@.new.height() + nb_lines
                > u64::MAX ==> r == Err::<(), CacheError>(CacheError::HeightOverflow),
            old(self)@.old_ix + nb_lines <= prev@.height() && old(self)@.new.height() + nb_lines
                <= u64::MAX ==> r is Ok && final(self)@ == spec_copy(
                prev@,
                old(self)@,
                nb_lines as nat,
                first_num,
            ),
    {
        proof {
            use_type_invariant(prev);
        }
        if nb_lines > prev.height() - self.old_ix {
            return Err(CacheError::Overrun);
        }
        if !self.room(nb_lines) {
            return Err(CacheError::HeightOverflow);
        }
        let ghost lead = spec_lead(prev@, old(self)@.old_ix, nb_lines as nat);
        let ghost body = spec_body(prev@, old(self)@.old_ix, nb_lines as nat);
        let ghost source = spec_body_lines(prev@, old(self)@.old_ix, nb_lines as nat);
        let ghost copied = spec_renumbered(source, first_num);

        let mut remaining: u64 = nb_lines;
        let mut ix: u64 = self.old_ix;
        if ix < prev.invalid_before {
            let unknown: u64 = if remaining <= prev.invalid_before - ix {
                remaining
            } else {
                prev.invalid_before - ix
            };
            self.add_unknown(unknown);
            ix = ix + unknown;
            remaining = remaining - unknown;
        }
        assert(ix == old(self)@.old_ix + lead);
        assert(remaining == nb_lines - lead);
        assert(self@.new == old(self)@.new.invalidated(lead));

        let window_end: u64 = prev.invalid_before + prev.lines.len() as u64;
        if remaining > 0 && ix < window_end {
            let known: u64 = if remaining <= window_end - ix {
                remaining
            } else {
                window_end - ix
            };
            let start: usize = (ix - prev.invalid_before) as usize;
            let end: usize = start + known as usize;
            assert(known == body);
            assert(source == prev@.lines.subrange(start as int, end as int));
            let from: Option<u64> = first_line_num(&prev.lines, start, end);
            let shift: Option<(u64, u64)> = match (from, first_num) {
                (Some(f), Some(t)) => Some((f, t)),
                _ => None,
            };
            assert(shift == spec_shift(source, first_num));
            let ghost base = self@;
            let mut i: usize = start;
            while i < end
                invariant
                    start <= i <= end <= prev.lines.len(),
                    end - start == known,
                    source == prev@.lines.subrange(start as int, end as int),
                    copied == spec_renumbered(source, first_num),
                    shift == spec_shift(source, first_num),
                    base.new.height() + known <= u64::MAX,
                    self@ == (PatchView {
                        new: base.new.extended(copied.subrange(0, i - start)),
                        ..base
                    }),
                decreases end - i,
            {
                let mut line: Line = prev.lines[i].duplicate();
                if let (Some(num), Some((f, t))) = (line.line_num, shift) {
                    line.line_num = Some(num.wrapping_add(t.wrapping_sub(f)));
                    assert(num.wrapping_add(t.wrapping_sub(f)) == spec_shifted(num, f, t));
                }
                assert(source[i - start] == prev.lines@[i as int]@);
                assert(line@ == spec_shifted_line(source[i - start], shift));
                assert(line@ == copied[i - start]);
                let ghost before = self@.new.lines;
                self.push_line(line);
                assert(before + seq![line@] =~= base.new.lines + copied.subrange(
                    0,
                    i - start + 1,
                ));
                i += 1;
            }
            assert(copied.subrange(0, i - start) =~= copied);
            ix = ix + known;
            remaining = remaining - known;
        } else {
            assert(body == 0);
            assert(self@.new.lines + copied =~= self@.new.lines);
        }
        assert(self@.new == old(self)@.new.invalidated(lead).extended(copied));
        assert(remaining == nb_lines - lead - body);
        self.add_unknown(remaining);
        self.old_ix = ix + remaining;
        Ok(())
    }

    /// Applies one operation of an update.
    fn apply(&mut self, prev: &LineCache, op: &Operation) -> (r: Result<(), CacheError>)
        requires
            old(self).wf(prev@),
        ensures
            match spec_apply(prev@, old(self)@, op@) {
                Ok(st) => r is Ok && final(self)@ == st && final(self).wf(prev@),
                Err(e) => r == Err::<(), CacheError>(e),
            },
    {
        match op.operation_type {
            OperationType::Copy => self.apply_copy(prev, op.nb_lines, op.line_num),
            OperationType::Skip => self.apply_skip(prev, op.nb_lines),
            OperationType::Invalidate => self.apply_invalidate(op.nb_lines),
            OperationType::Insert => self.apply_insert(op.nb_lines, &op.lines),
            OperationType::Update => self.apply_update(prev, op.nb_lines, &op.lines),
        }
    }
}

impl Default for LineCache {
    fn default() -> (r: LineCache)
        ensures
            r@ == CacheView::empty(),
            r.spec_annotations() == Seq::<Annotation>::empty(),
    {
        LineCache::new()
    }
}

impl LineCache {
    #[verifier::type_invariant]
    spec fn countable(&self) -> bool {
        self.invalid_before + self.lines.len() + self.invalid_after <= u64::MAX
    }

    /// The annotations that came with the last update.
    pub closed spec fn spec_annotations(&self) -> Seq<Annotation> {
        self.annotations@
    }

    /// The cache of a view of which nothing has been heard yet.
    pub fn new() -> (r: LineCache)
        ensures
            r@ == CacheView::empty(),
            r.spec_annotations() == Seq::<Annotation>::empty(),
    {
        let r = LineCache {
            invalid_before: 0,
            lines: Vec::new(),
            invalid_after: 0,
            annotations: Vec::new(),
        };
        assert(r@.lines =~= Seq::<LineView>::empty());
        r
    }

    /// Number of unknown lines before the window.
    pub fn before(&self) -> (r: u64)
        ensures
            r == self@.before,
    {
        self.invalid_before
    }

    /// Number of unknown lines after the window.
    pub fn after(&self) -> (r: u64)
        ensures
            r == self@.after,
    {
        self.invalid_after
    }

    /// The lines of the window.
    pub fn lines(&self) -> (r: &Vec<Line>)
        ensures
            spec_lines(r@) == self@.lines,
            r@.len() == self@.lines.len(),
            forall|i: int| 0 <= i < r@.len() ==> (#[trigger] r@[i])@ == self@.lines[i],
            self@.before + r@.len() + self@.after <= u64::MAX,
    {
        proof {
            use_type_invariant(self);
        }
        &self.lines
    }

    /// The annotations that came with the last update.
    pub fn annotations(&self) -> (r: &Vec<Annotation>)
        ensures
            r@ == self.spec_annotations(),
    {
        &self.annotations
    }

    /// Number of lines of the document.
    pub fn height(&self) -> (r: u64)
        ensures
            r == self@.height(),
    {
        proof {
            use_type_invariant(self);
        }
        self.invalid_before + self.lines.len() as u64 + self.invalid_after
    }

    /// Width of the widest line of the window, in bytes of its text; 0 for
    /// an empty window.
    pub fn width(&self) -> (r: usize)
        ensures
            forall|i: int|
                0 <= i < self@.lines.len() ==> encode_utf8((#[trigger] self@.lines[i]).text).len()
                    <= r,
            self@.lines.len() == 0 ==> r == 0,
            self@.lines.len() > 0 ==> exists|i: int|
                0 <= i < self@.lines.len() && encode_utf8((#[trigger] self@.lines[i]).text).len()
                    == r,
    {
        let mut widest: usize = 0;
        let ghost mut at: int = 0;
        let mut i: usize = 0;
        while i < self.lines.len()
            invariant
                i <= self.lines.len(),
                forall|k: int|
                    0 <= k < i ==> encode_utf8((#[trigger] self@.lines[k]).text).len() <= widest,
                i == 0 ==> widest == 0,
                i > 0 ==> 0 <= at < i && encode_utf8(self@.lines[at].text).len() == widest,
            decreases self.lines.len() - i,
        {
            let width: usize = self.lines[i].text.as_str().as_bytes().len();
            assert(self@.lines[i as int].text == self.lines[i as int].text@);
            assert(width == encode_utf8(self@.lines[i as int].text).len());
            if i == 0 || width > widest {
                widest = width;
                proof {
                    at = i as int;
                }
            }
            i += 1;
        }
        widest
    }

    /// The line with the number `n` of the document, counted from 0, if it
    /// is in the window.
    pub fn get_line(&self, n: u64) -> (r: Option<&Line>)
        ensures
            match r {
                Some(line) => self@.before <= n < self@.before + self@.lines.len() && line@
                    == self@.lines[n - self@.before],
                None => !(self@.before <= n < self@.before + self@.lines.len()),
            },
    {
        proof {
            use_type_invariant(self);
        }
        if n < self.invalid_before || n >= self.invalid_before + self.lines.len() as u64 {
            return None;
        }
        let ix: usize = (n - self.invalid_before) as usize;
        Some(&self.lines[ix])
    }

    /// The stretches of the lines `first..last` that are not in the
    /// window, as pairs of a first line and the line after the last, in
    /// rising order. `last` is cut to the height of the document.
    pub fn get_missing(&self, first: u64, last: u64) -> (r: Vec<(u64, u64)>)
        requires
            first < last,
            first < self@.height(),
        ensures
            r@ == spec_missing(self@, first, last),
    {
        proof {
            use_type_invariant(self);
        }
        let height: u64 = self.height();
        let last: u64 = if last < height {
            last
        } else {
            height
        };
        let window_start: u64 = self.invalid_before;
        let window_end: u64 = self.invalid_before + self.lines.len() as u64;
        let mut ret: Vec<(u64, u64)> = Vec::new();
        if window_start == window_end {
            ret.push((first, last));
            return ret;
        }
        if first < window_start {
            ret.push(
                (
                    first,
                    if last < window_start {
                        last
                    } else {
                        window_start
                    },
                ),
            );
        }
        if last > window_end {
            ret.push(
                (
                    if first > window_end {
                        first
                    } else {
                        window_end
                    },
                    last,
                ),
            );
        }
        ret
    }

    /// Applies an update of the peer. On success the cache is the one that
    /// the operations describe and holds the update's annotations. An update
    /// that does not fit the cache is refused and leaves the cache as it was.
    pub fn update(&mut self, update: Update) -> (r: Result<(), CacheError>)
        ensures
            match spec_patched(old(self)@, spec_operations(update.operations@)) {
                Ok(new) => r is Ok && final(self)@ == new && final(self).spec_annotations()
                    == update.annotations@,
                Err(e) => r == Err::<(), CacheError>(e) && final(self)@ == old(self)@
                    && final(self).spec_annotations() == old(self).spec_annotations(),
            },
    {
        let ghost ops = spec_operations(update.operations@);
        let mut helper = UpdateHelper::new();
        let mut i: usize = 0;
        while i < update.operations.len()
            invariant
                i <= update.operations.len(),
                *self == *old(self),
                ops == spec_operations(update.operations@),
                helper.wf(self@),
                spec_run(self@, ops, i as nat) == Ok::<PatchView, CacheError>(helper@),
            decreases update.operations.len() - i,
        {
            assert(ops[i as int] == update.operations@[i as int]@);
            match helper.apply(&*self, &update.operations[i]) {
                Ok(()) => {},
                Err(e) => {
                    proof {
                        lemma_run_error_sticks(self@, ops, (i + 1) as nat, ops.len());
                    }
                    return Err(e);
                },
            }
            i += 1;
        }
        *self = LineCache {
            invalid_before: helper.new_before,
            lines: helper.new_lines,
            invalid_after: helper.new_after,
            annotations: update.annotations,
        };
        Ok(())
    }

    /// Whether the document consists of one line without text.
    pub fn is_empty(&self) -> (r: bool)
        ensures
            r == (self@.before == 0 && self@.after == 0 && self@.lines.len() == 1
                && self@.lines[0].text.len() == 0),
    {
        self.invalid_before == 0 && self.invalid_after == 0 && self.lines.len() == 1
            && self.lines[0].text.as_str().unicode_len() == 0
    }
}

} // verus!
