use vstd::prelude::*;
use crate::protocol::scroll_to::ScrollTo;

verus! {

/// The rectangle of a document that is on screen.
pub struct ViewPort {
    pub width: u64,
    pub height: u64,
    pub horizontal_offset: u64,
    pub vertical_offset: u64,
}

/// Offset along one axis after a scroll to `target`, for a window of `extent`
/// cells that starts at `offset`: the window moves just far enough for
/// `target` to be its last cell when it lay beyond the end, and starts at
/// `target` when it lay before the start. For a window without extent and
/// the last target there is, the offset after the target wraps to 0.
pub open spec fn spec_scrolled(offset: u64, extent: u64, target: u64) -> u64 {
    if target >= offset && target - offset >= extent {
        if target - extent == u64::MAX {
            0
        } else {
            (target - extent + 1) as u64
        }
    } else if target < offset {
        target
    } else {
        offset
    }
}

impl Default for ViewPort {
    fn default() -> (r: ViewPort)
        ensures
            r.width == 0,
            r.height == 0,
            r.horizontal_offset == 0,
            r.vertical_offset == 0,
    {
        ViewPort { width: 0, height: 0, horizontal_offset: 0, vertical_offset: 0 }
    }
}

impl ViewPort {
    /// Sets the size of the window and leaves its position alone.
    pub fn resize(&mut self, width: u64, height: u64)
        ensures
            final(self).width == width,
            final(self).height == height,
            final(self).horizontal_offset == old(self).horizontal_offset,
            final(self).vertical_offset == old(self).vertical_offset,
    {
        self.width = width;
        self.height = height;
    }

    /// Moves the window so that the position named by `scroll` is inside it.
    pub fn scroll_to(&mut self, scroll: ScrollTo)
        ensures
            final(self).width == old(self).width,
            final(self).height == old(self).height,
            final(self).vertical_offset == spec_scrolled(
                old(self).vertical_offset,
                old(self).height,
                scroll.line,
            ),
            final(self).horizontal_offset == spec_scrolled(
                old(self).horizontal_offset,
                old(self).width,
                scroll.column,
            ),
    {
        let line: u64 = scroll.line;
        let column: u64 = scroll.column;
        let vertical_offset: u64 = self.vertical_offset;
        let horizontal_offset: u64 = self.horizontal_offset;
        let height: u64 = self.height;
        let width: u64 = self.width;
        if line >= vertical_offset && line - vertical_offset >= height {
            self.vertical_offset = (line - height).wrapping_add(1);
        } else if line < vertical_offset {
            self.vertical_offset = line;
        }
        if column >= horizontal_offset && column - horizontal_offset >= width {
            self.horizontal_offset = (column - width).wrapping_add(1);
        } else if column < horizontal_offset && horizontal_offset > 0 {
            self.horizontal_offset = column;
        }
    }
}

} // verus!
