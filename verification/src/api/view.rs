use vstd::prelude::*;
use vstd::string::{StrSliceExecFns, StringSliceAdditionalSpecFns};
use vstd::utf8::{decode_utf8, encode_utf8, encode_utf8_decode_utf8, is_char_boundary};
use vstd::view::View as _;
use vstd::wrapping::{i64_specs, usize_specs};
use crate::api::line_cache::LineCache;
use crate::api::patch::{spec_patched, CacheError, CacheView};
use crate::api::render::{CharRef, LineRef};
use crate::api::viewport::ViewPort;
use crate::protocol::config::ConfigChanges;
use crate::protocol::findreplace::{FindStatus, Status};
use crate::protocol::line::{Line, LineView, StyleDef};
use crate::protocol::operation::spec_operations;
use crate::protocol::update::UpdateNotification;
use crate::protocol::view_id::ViewId;

verus! {

/// What the front-end knows of one view.
pub struct View {
    pub id: ViewId,
    pub language: Option<String>,
    pub cache: LineCache,
    pub viewport: ViewPort,
    pub config: Option<ConfigChanges>,
    pub plugins: Vec<String>,
    pub find_status: Option<FindStatus>,
    pub replace_status: Option<Status>,
}

/// Where the style after `style` starts counting from, when `style` was
/// counted from `current`: 64-bit wrapping arithmetic throughout.
pub open spec fn spec_style_end(current: i64, style: StyleDef) -> i64 {
    i64_specs::wrapping_add(
        current,
        i64_specs::wrapping_add(style.offset, style.length as i64),
    )
}

/// What becomes of `style`, counted from `current`, in a line drawn from
/// column `offset` on. A style that starts and ends before the left edge
/// is dropped. One that starts at the edge or after it, where the edge
/// lies after the point the style is counted from, keeps its length and
/// has its offset counted from the edge. One that the edge cuts starts at
/// the edge and is shortened. Any other stays as it is.
pub open spec fn spec_render_style(offset: i64, current: i64, style: StyleDef) -> Option<StyleDef> {
    let length = style.length as i64;
    let start = i64_specs::wrapping_add(current, style.offset);
    let end = i64_specs::wrapping_add(start, length);
    if start < offset && end < offset {
        None
    } else if start >= offset && offset > current {
        Some(
            StyleDef {
                offset: i64_specs::wrapping_sub(start, offset),
                length: style.length,
                style_id: style.style_id,
            },
        )
    } else if end > offset && offset > start {
        Some(
            StyleDef {
                offset: 0,
                length: i64_specs::wrapping_sub(
                    i64_specs::wrapping_add(i64_specs::wrapping_sub(end, current), style.offset),
                    offset,
                ) as u64,
                style_id: style.style_id,
            },
        )
    } else {
        Some(style)
    }
}

/// The styles of a line drawn from column `offset` on: those from
/// position `i`, the first counted from `current`. Only a style that is
/// kept moves the point from which the next is counted.
pub open spec fn spec_render_line_styles_from(
    offset: i64,
    styles: Seq<StyleDef>,
    i: int,
    current: i64,
) -> Seq<StyleDef>
    decreases styles.len() - i,
{
    if i < 0 || i >= styles.len() {
        Seq::empty()
    } else {
        match spec_render_style(offset, current, styles[i]) {
            None => spec_render_line_styles_from(offset, styles, i + 1, current),
            Some(style) => seq![style] + spec_render_line_styles_from(
                offset,
                styles,
                i + 1,
                spec_style_end(current, styles[i]),
            ),
        }
    }
}

/// The styles of a line drawn from column `offset` on.
pub open spec fn spec_render_line_styles(offset: usize, styles: Seq<StyleDef>) -> Seq<StyleDef> {
    spec_render_line_styles_from(offset as i64, styles, 0, 0)
}

/// The styles of a line drawn from column `offset` on.
pub fn render_line_styles(offset: usize, styles: &[StyleDef]) -> (r: Vec<StyleDef>)
    ensures
        r@ == spec_render_line_styles(offset, styles@),
{
    let offset: i64 = offset as i64;
    let mut new_styles: Vec<StyleDef> = Vec::new();
    let mut current_index: i64 = 0;
    let mut i: usize = 0;
    while i < styles.len()
        invariant
            i <= styles.len(),
            spec_render_line_styles_from(offset, styles@, 0, 0) == new_styles@
                + spec_render_line_styles_from(offset, styles@, i as int, current_index),
        decreases styles.len() - i,
    {
        let style: StyleDef = styles[i];
        let length: i64 = style.length as i64;
        let start: i64 = current_index.wrapping_add(style.offset);
        let end: i64 = start.wrapping_add(length);
        let ghost rest = spec_render_line_styles_from(
            offset,
            styles@,
            i as int + 1,
            spec_style_end(current_index, style),
        );
        if start < offset && end < offset {
            i += 1;
            continue ;
        } else if start >= offset && offset > current_index {
            let moved = StyleDef {
                offset: start.wrapping_sub(offset),
                length: style.length,
                style_id: style.style_id,
            };
            new_styles.push(moved);
        } else if end > offset && offset > start {
            let cut = StyleDef {
                offset: 0,
                length: end.wrapping_sub(current_index).wrapping_add(style.offset).wrapping_sub(
                    offset,
                ) as u64,
                style_id: style.style_id,
            };
            new_styles.push(cut);
        } else {
            new_styles.push(style);
        }
        current_index = current_index.wrapping_add(style.offset.wrapping_add(length));
        i += 1;
    }
    new_styles
}

/// The style of the character in column `offset` of a drawn line: the
/// search over the styles from position `i` on, the first counted from
/// `current`.
pub open spec fn spec_index_style_from(
    offset: usize,
    styles: Seq<StyleDef>,
    i: int,
    current: usize,
) -> Option<u64>
    decreases styles.len() - i,
{
    if i < 0 || i >= styles.len() {
        None
    } else {
        let width = usize_specs::wrapping_add(
            styles[i].offset as usize,
            styles[i].length as usize,
        );
        if offset > current {
            None
        } else if offset > usize_specs::wrapping_add(current, width) {
            Some(styles[i].style_id)
        } else {
            spec_index_style_from(offset, styles, i + 1, usize_specs::wrapping_add(current, width))
        }
    }
}

/// The style of the character in column `offset` of a drawn line.
pub fn get_index_style(offset: usize, styles: &[StyleDef]) -> (r: Option<u64>)
    ensures
        r == spec_index_style_from(offset, styles@, 0, 0),
{
    let mut current_step: usize = 0;
    let mut i: usize = 0;
    while i < styles.len()
        invariant
            i <= styles.len(),
            spec_index_style_from(offset, styles@, 0, 0) == spec_index_style_from(
                offset,
                styles@,
                i as int,
                current_step,
            ),
        decreases styles.len() - i,
    {
        let style: StyleDef = styles[i];
        let width: usize = (style.offset as usize).wrapping_add(style.length as usize);
        if offset > current_step {
            return None;
        } else if offset > current_step.wrapping_add(width) {
            return Some(style.style_id);
        }
        current_step = current_step.wrapping_add(width);
        i += 1;
    }
    None
}

/// The first line of the cache's window that the viewport shows.
pub open spec fn spec_first_row(cache: CacheView, viewport: ViewPort) -> int {
    if viewport.vertical_offset <= cache.lines.len() {
        viewport.vertical_offset as int
    } else {
        cache.lines.len() as int
    }
}

/// The number of lines of the cache's window that the viewport shows.
pub open spec fn spec_rows(cache: CacheView, viewport: ViewPort) -> int {
    let left = cache.lines.len() - spec_first_row(cache, viewport);
    if viewport.height <= left {
        viewport.height as int
    } else {
        left
    }
}

/// Whether the text can be cut at the byte `offset`: the offset lies in
/// the text and does not split a character.
pub open spec fn spec_can_cut(text: Seq<char>, offset: u64) -> bool {
    offset <= encode_utf8(text).len() && is_char_boundary(encode_utf8(text), offset as int)
}

/// Whether `drawn` is `line` as a window shows it whose left edge is at
/// the byte `offset`.
pub open spec fn spec_draws(drawn: LineRef<'_>, line: LineView, offset: u64) -> bool {
    &&& drawn.text.spec_bytes() == encode_utf8(line.text).subrange(
        offset as int,
        encode_utf8(line.text).len() as int,
    )
    &&& drawn.cursor@ == line.cursor
    &&& drawn.styles@ == spec_render_line_styles(offset as usize, line.styles)
    &&& drawn.line_num == line.line_num
}

impl View {
    /// What is known of a view when it opens: nothing.
    pub fn new(id: ViewId) -> (r: View)
        ensures
            r.id == id,
            r.language is None,
            r.cache@ == CacheView::empty(),
            r.viewport == (ViewPort {
                width: 0,
                height: 0,
                horizontal_offset: 0,
                vertical_offset: 0,
            }),
            r.config is None,
            r.plugins@.len() == 0,
            r.find_status is None,
            r.replace_status is None,
    {
        View {
            id,
            language: None,
            cache: LineCache::new(),
            viewport: ViewPort::default(),
            config: None,
            plugins: Vec::new(),
            find_status: None,
            replace_status: None,
        }
    }

    /// Applies an update of the peer to the view's line cache.
    pub fn update(&mut self, update: UpdateNotification) -> (r: Result<(), CacheError>)
        ensures
            match spec_patched(old(self).cache@, spec_operations(update.update.operations@)) {
                Ok(new) => r is Ok && final(self).cache@ == new,
                Err(e) => r == Err::<(), CacheError>(e) && final(self).cache@ == old(self).cache@,
            },
            final(self).id == old(self).id,
            final(self).language == old(self).language,
            final(self).viewport == old(self).viewport,
            final(self).config == old(self).config,
            final(self).plugins == old(self).plugins,
            final(self).find_status == old(self).find_status,
            final(self).replace_status == old(self).replace_status,
    {
        self.cache.update(update.update)
    }

    /// Whether every line that the viewport shows can be cut at its left
    /// edge.
    pub open spec fn spec_can_render(&self) -> bool {
        forall|k: int|
            0 <= k < spec_rows(self.cache@, self.viewport) ==> spec_can_cut(
                (#[trigger] self.cache@.lines[spec_first_row(self.cache@, self.viewport)
                    + k]).text,
                self.viewport.horizontal_offset,
            )
    }

    /// Whether every line that the viewport shows can be cut at its left
    /// edge. Only then can the view be drawn.
    pub fn can_render(&self) -> (r: bool)
        ensures
            r == self.spec_can_render(),
    {
        let lines = self.cache.lines();
        let len: u64 = lines.len() as u64;
        let first: u64 = if self.viewport.vertical_offset <= len {
            self.viewport.vertical_offset
        } else {
            len
        };
        let rows: u64 = if self.viewport.height <= len - first {
            self.viewport.height
        } else {
            len - first
        };
        let offset: u64 = self.viewport.horizontal_offset;
        let mut k: usize = 0;
        while k < rows as usize
            invariant
                k <= rows,
                first + rows <= lines.len(),
                first == spec_first_row(self.cache@, self.viewport),
                rows == spec_rows(self.cache@, self.viewport),
                offset == self.viewport.horizontal_offset,
                self.cache@.lines.len() == lines@.len(),
                forall|j: int| 0 <= j < lines@.len() ==> self.cache@.lines[j] == lines@[j]@,
                forall|j: int|
                    0 <= j < k ==> spec_can_cut(
                        (#[trigger] self.cache@.lines[first + j]).text,
                        offset,
                    ),
            decreases rows - k,
        {
            let text: &str = lines[first as usize + k].text.as_str();
            let ghost row = spec_first_row(self.cache@, self.viewport) + k as int;
            assert(self.cache@.lines[row].text == text@);
            assert(text.spec_bytes() == encode_utf8(text@));
            let width: usize = text.as_bytes().len();
            if offset > width as u64 || !text.is_char_boundary(offset as usize) {
                assert(!spec_can_cut(self.cache@.lines[row].text, offset));
                return false;
            }
            assert(spec_can_cut(self.cache@.lines[row].text, offset));
            k += 1;
        }
        true
    }

    /// The lines that the viewport shows, top to bottom, each cut at the
    /// left edge of the viewport.
    pub fn render_lines(&self) -> (r: Vec<LineRef<'_>>)
        requires
            self.spec_can_render(),
        ensures
            r@.len() == spec_rows(self.cache@, self.viewport),
            forall|k: int|
                0 <= k < r@.len() ==> spec_draws(
                    #[trigger] r@[k],
                    self.cache@.lines[spec_first_row(self.cache@, self.viewport) + k],
                    self.viewport.horizontal_offset,
                ),
    {
        let lines = self.cache.lines();
        let len: u64 = lines.len() as u64;
        let first: u64 = if self.viewport.vertical_offset <= len {
            self.viewport.vertical_offset
        } else {
            len
        };
        let rows: u64 = if self.viewport.height <= len - first {
            self.viewport.height
        } else {
            len - first
        };
        let offset: u64 = self.viewport.horizontal_offset;
        let mut drawn: Vec<LineRef<'_>> = Vec::new();
        let mut k: usize = 0;
        while k < rows as usize
            invariant
                k <= rows,
                first + rows <= lines.len(),
                first == spec_first_row(self.cache@, self.viewport),
                rows == spec_rows(self.cache@, self.viewport),
                offset == self.viewport.horizontal_offset,
                self.spec_can_render(),
                self.cache@.lines.len() == lines@.len(),
                forall|j: int| 0 <= j < lines@.len() ==> self.cache@.lines[j] == lines@[j]@,
                drawn@.len() == k,
                forall|j: int|
                    0 <= j < k ==> spec_draws(
                        #[trigger] drawn@[j],
                        self.cache@.lines[first + j],
                        offset,
                    ),
            decreases rows - k,
        {
            let line: &Line = &lines[first as usize + k];
            let ghost row = spec_first_row(self.cache@, self.viewport) + k as int;
            assert(spec_can_cut(self.cache@.lines[row].text, offset));
            let text: &str = line.text.as_str();
            assert(self.cache@.lines[row] == line@);
            assert(text.spec_bytes() == encode_utf8(line@.text));
            let width: usize = text.as_bytes().len();
            assert(offset <= width);
            let (_, shown) = text.split_at(offset as usize);
            drawn.push(
                LineRef {
                    text: shown,
                    styles: render_line_styles(offset as usize, line.styles.as_slice()),
                    cursor: line.cursor.as_slice(),
                    line_num: line.line_num,
                },
            );
            k += 1;
        }
        drawn
    }

    /// The characters that the viewport shows, row by row, each with its
    /// place in the window and its style.
    pub fn render_chars(&self) -> (r: Vec<Vec<CharRef>>)
        requires
            self.spec_can_render(),
        ensures
            r@.len() == spec_rows(self.cache@, self.viewport),
            forall|y: int|
                0 <= y < r@.len() ==> spec_draws_chars(
                    (#[trigger] r@[y])@,
                    self.cache@.lines[spec_first_row(self.cache@, self.viewport) + y],
                    self.viewport.horizontal_offset,
                    y,
                ),
    {
        let lines = self.render_lines();
        let ghost first = spec_first_row(self.cache@, self.viewport);
        let ghost offset = self.viewport.horizontal_offset;
        let mut rows: Vec<Vec<CharRef>> = Vec::new();
        let mut y: usize = 0;
        while y < lines.len()
            invariant
                y <= lines.len(),
                rows@.len() == y,
                first == spec_first_row(self.cache@, self.viewport),
                offset == self.viewport.horizontal_offset,
                lines@.len() == spec_rows(self.cache@, self.viewport),
                forall|k: int|
                    0 <= k < lines@.len() ==> spec_draws(
                        #[trigger] lines@[k],
                        self.cache@.lines[first + k],
                        offset,
                    ),
                forall|k: int|
                    0 <= k < y ==> spec_draws_chars(
                        (#[trigger] rows@[k])@,
                        self.cache@.lines[first + k],
                        offset,
                        k,
                    ),
            decreases lines.len() - y,
        {
            let line: &LineRef<'_> = &lines[y];
            let ghost source = self.cache@.lines[first + y];
            assert(spec_draws(*line, source, offset));
            proof {
                encode_utf8_decode_utf8(line.text@);
            }
            assert(line.text@ == spec_shown_text(source.text, offset));
            let width: usize = line.text.unicode_len();
            let mut row: Vec<CharRef> = Vec::new();
            let mut x: usize = 0;
            while x < width
                invariant
                    x <= width,
                    width == line.text@.len(),
                    row@.len() == x,
                    line.styles@ == spec_render_line_styles(offset as usize, source.styles),
                    forall|j: int|
                        0 <= j < x ==> #[trigger] row@[j] == spec_char_ref(
                            line.text@,
                            line.styles@,
                            j,
                            y as int,
                        ),
                decreases width - x,
            {
                row.push(
                    CharRef {
                        character: line.text.get_char(x),
                        style_id: get_index_style(x, line.styles.as_slice()),
                        position: (x as u32, y as u32),
                    },
                );
                x += 1;
            }
            rows.push(row);
            y += 1;
        }
        rows
    }
}

/// The text of a line that a window shows whose left edge is at the byte
/// `offset`.
pub open spec fn spec_shown_text(text: Seq<char>, offset: u64) -> Seq<char> {
    decode_utf8(encode_utf8(text).subrange(offset as int, encode_utf8(text).len() as int))
}

/// The character in column `x` of row `y`, for a row with the shown text
/// `text` and the drawn styles `styles`. Column and row are cut to 32 bits.
pub open spec fn spec_char_ref(text: Seq<char>, styles: Seq<StyleDef>, x: int, y: int) -> CharRef {
    CharRef {
        position: (x as usize as u32, y as usize as u32),
        character: text[x],
        style_id: spec_index_style_from(x as usize, styles, 0, 0),
    }
}

/// Whether `row` holds the characters of `line` as row `y` of a window
/// shows them whose left edge is at the byte `offset`.
pub open spec fn spec_draws_chars(row: Seq<CharRef>, line: LineView, offset: u64, y: int) -> bool {
    let text = spec_shown_text(line.text, offset);
    let styles = spec_render_line_styles(offset as usize, line.styles);
    &&& row.len() == text.len()
    &&& forall|x: int| 0 <= x < row.len() ==> #[trigger] row[x] == spec_char_ref(text, styles, x, y)
}

} // verus!
