//! The window of grid rows shown in the viewport.

use vstd::prelude::*;
use crate::layout::GridLayout;

verus! {

/// Window height actually used for `visible_rows`: a viewport too short for
/// one row still shows one.
pub open spec fn effective_rows(visible_rows: int) -> int {
    if visible_rows >= 1 {
        visible_rows
    } else {
        1
    }
}

/// Largest first row that still fills a window of `visible_rows` rows over a
/// grid of `rows` rows.
pub open spec fn max_start(rows: int, visible_rows: int) -> int {
    if rows > visible_rows {
        rows - visible_rows
    } else {
        0
    }
}

/// First visible row after scrolling the window that starts at `start` as
/// little as keeps `cursor_row` in view, then clamping it to the grid.
pub open spec fn reconciled_start(start: int, cursor_row: int, rows: int, visible_rows: int) -> int {
    let vis = effective_rows(visible_rows);
    let moved = if cursor_row < start {
        cursor_row
    } else if cursor_row > start + vis - 1 {
        cursor_row - vis + 1
    } else {
        start
    };
    if moved <= max_start(rows, vis) {
        moved
    } else {
        max_start(rows, vis)
    }
}

/// The visible window: its first row and its height in rows.
#[derive(Clone, Copy, Debug, PartialEq, Eq, Structural)]
pub struct ViewportScroller {
    pub window_start: usize,
    pub visible_rows: usize,
}

impl ViewportScroller {
    /// A window of one row at the top of the grid.
    pub fn new() -> (r: ViewportScroller)
        ensures
            r.window_start == 0,
            r.visible_rows == 1,
    {
        ViewportScroller { window_start: 0, visible_rows: 1 }
    }

    /// Whether `row` is among the rows shown.
    pub open spec fn shows(&self, row: int) -> bool {
        self.window_start <= row <= self.window_start + self.visible_rows - 1
    }

    /// Resets the window height to `visible_rows` and scrolls as little as
    /// keeps `cursor_row` in view, within the grid of `layout`.
    pub fn reconcile(&mut self, cursor_row: usize, layout: &GridLayout, visible_rows: usize)
        ensures
            final(self).visible_rows == effective_rows(visible_rows as int),
            final(self).window_start == reconciled_start(
                old(self).window_start as int,
                cursor_row as int,
                layout.rows as int,
                visible_rows as int,
            ),
            final(self).window_start <= max_start(layout.rows as int, final(self).visible_rows as int),
            cursor_row < layout.rows || (layout.rows == 0 && cursor_row == 0) ==> final(self).shows(
                cursor_row as int,
            ),
    {
        let vis: usize = if visible_rows >= 1 {
            visible_rows
        } else {
            1
        };
        let start = self.window_start;
        let moved: usize = if cursor_row < start {
            cursor_row
        } else if cursor_row - start >= vis {
            cursor_row - vis + 1
        } else {
            start
        };
        let limit: usize = if layout.rows > vis {
            layout.rows - vis
        } else {
            0
        };
        self.window_start = if moved <= limit {
            moved
        } else {
            limit
        };
        self.visible_rows = vis;
    }
}

/// Reconciling a second time with the same cursor row and grid leaves the
/// window where the first reconciliation put it.
pub proof fn lemma_reconcile_idempotent(start: int, cursor_row: int, rows: int, visible_rows: int)
    requires
        0 <= start,
        0 <= cursor_row,
        0 <= rows,
    ensures
        reconciled_start(
            reconciled_start(start, cursor_row, rows, visible_rows),
            cursor_row,
            rows,
            visible_rows,
        ) == reconciled_start(start, cursor_row, rows, visible_rows),
{
}

/// When the cursor sits on the last row of the grid and the window shrinks
/// so that the row would fall below it, the cursor's row becomes the
/// window's last row.
pub proof fn lemma_shrink_keeps_last_row(start: int, rows: int, visible_rows: int)
    requires
        visible_rows >= 1,
        0 <= start <= rows - 1,
        rows - 1 > start + visible_rows - 1,
    ensures
        reconciled_start(start, rows - 1, rows, visible_rows) == rows - 1 - visible_rows + 1,
{
}

} // verus!
