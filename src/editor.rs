//! A viewing session over one buffer: cursor, grid and scrolled window kept
//! consistent with one another.

use vstd::prelude::*;
use crate::cursor::{moved, valid_offset, CursorModel, Direction};
use crate::layout::GridLayout;
use crate::render::{render, rendered, Cell};
use crate::scroller::{effective_rows, max_start, reconciled_start, ViewportScroller};

verus! {

/// A session over the bytes of one file, viewed in a pane of `width` by
/// `height` cells.
pub struct Editor<'a> {
    pub bytes: &'a Vec<u8>,
    pub width: u16,
    pub height: u16,
    pub layout: GridLayout,
    pub cursor: CursorModel,
    pub scroller: ViewportScroller,
}

impl<'a> Editor<'a> {
    /// The grid matches the pane width, the cursor is on a byte of the
    /// buffer, and the window lies within the grid and shows the cursor's
    /// row.
    pub open spec fn wf(&self) -> bool {
        &&& self.layout.is_layout_for(self.width as int, self.bytes@.len() as int)
        &&& valid_offset(self.cursor.offset as int, self.bytes@.len() as int)
        &&& self.scroller.visible_rows >= 1
        &&& self.scroller.window_start <= max_start(
            self.layout.rows as int,
            self.scroller.visible_rows as int,
        )
        &&& self.scroller.shows(self.layout.row_of(self.cursor.offset as int))
    }

    /// A session with the cursor on the first byte and a window of one row
    /// at the top, before the pane's size is known.
    pub fn from(items: &'a Vec<u8>) -> (e: Editor<'a>)
        ensures
            e.wf(),
            e.bytes == items,
            e.cursor.offset == 0,
            e.scroller.window_start == 0,
            e.scroller.visible_rows == 1,
            e.width == 0,
            e.height == 0,
    {
        Editor {
            bytes: items,
            width: 0,
            height: 0,
            layout: GridLayout::compute(0, items.len()),
            cursor: CursorModel::new(),
            scroller: ViewportScroller::new(),
        }
    }

    /// Adopts a pane of `width` by `height` cells: the grid is laid out anew
    /// and the window scrolled as little as keeps the cursor in view.
    pub fn resize(&mut self, width: u16, height: u16)
        requires
            old(self).wf(),
        ensures
            final(self).wf(),
            final(self).bytes == old(self).bytes,
            final(self).width == width,
            final(self).height == height,
            final(self).cursor == old(self).cursor,
            final(self).scroller.visible_rows == effective_rows(height as int),
            final(self).scroller.window_start == reconciled_start(
                old(self).scroller.window_start as int,
                final(self).layout.row_of(old(self).cursor.offset as int),
                final(self).layout.rows as int,
                height as int,
            ),
    {
        let layout = GridLayout::compute(width, self.bytes.len());
        let row = layout.row(self.cursor.offset);
        proof {
            crate::layout::lemma_row_in_grid(
                self.bytes@.len() as int,
                layout.columns as int,
                self.cursor.offset as int,
            );
        }
        self.scroller.reconcile(row, &layout, height as usize);
        self.layout = layout;
        self.width = width;
        self.height = height;
    }

    /// Moves the cursor one step in `direction`, then scrolls the window as
    /// little as keeps the cursor in view.
    pub fn move_cursor(&mut self, direction: Direction)
        requires
            old(self).wf(),
        ensures
            final(self).wf(),
            final(self).bytes == old(self).bytes,
            final(self).width == old(self).width,
            final(self).height == old(self).height,
            final(self).layout == old(self).layout,
            final(self).cursor.offset == moved(
                old(self).cursor.offset as int,
                direction,
                old(self).layout.columns as int,
                old(self).bytes@.len() as int,
            ),
            final(self).scroller.visible_rows == old(self).scroller.visible_rows,
            final(self).scroller.window_start == reconciled_start(
                old(self).scroller.window_start as int,
                old(self).layout.row_of(final(self).cursor.offset as int),
                old(self).layout.rows as int,
                old(self).scroller.visible_rows as int,
            ),
    {
        let len = self.bytes.len();
        self.cursor.step(direction, self.layout.columns, len);
        let row = self.layout.row(self.cursor.offset);
        proof {
            crate::layout::lemma_row_in_grid(
                len as int,
                self.layout.columns as int,
                self.cursor.offset as int,
            );
        }
        let visible = self.scroller.visible_rows;
        self.scroller.reconcile(row, &self.layout, visible);
    }

    /// The hex and ASCII matrices of the visible window.
    pub fn render(&self) -> (m: (Vec<Vec<Cell>>, Vec<Vec<Cell>>))
        requires
            self.wf(),
        ensures
            (crate::render::matrix_view(m.0@), crate::render::matrix_view(m.1@)) == rendered(
                self.bytes@,
                self.layout,
                self.cursor,
                self.scroller,
            ),
    {
        render(self.bytes, &self.layout, &self.cursor, &self.scroller)
    }
}

/// Every state a session reaches keeps the cursor on a byte of the buffer
/// (at zero when the buffer is empty) and its row inside the window.
pub proof fn lemma_session_invariant(e: Editor)
    requires
        e.wf(),
    ensures
        e.bytes@.len() == 0 ==> e.cursor.offset == 0,
        e.bytes@.len() > 0 ==> e.cursor.offset <= e.bytes@.len() - 1,
        e.scroller.window_start <= e.layout.row_of(e.cursor.offset as int),
        e.layout.row_of(e.cursor.offset as int) <= e.scroller.window_start
            + e.scroller.visible_rows - 1,
{
}

} // verus!
