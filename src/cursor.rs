//! The selected byte and its movement through the grid.

use vstd::prelude::*;

verus! {

/// A direction of cursor movement.
#[derive(Clone, Copy, Debug, PartialEq, Eq, Structural)]
pub enum Direction {
    Left,
    Right,
    Up,
    Down,
}

/// Offset reached from `offset` by one move in `dir`, in a buffer of `n`
/// bytes laid out `columns` to a row. Every move clamps at the ends of the
/// buffer; none wraps around. Down moves only where a next row exists, and
/// lands on the last byte where that row is too short for the same column;
/// from the last row it stays. An empty buffer keeps the offset at zero.
pub open spec fn moved(offset: int, dir: Direction, columns: int, n: int) -> int {
    if n == 0 {
        0
    } else {
        match dir {
            Direction::Left => if offset - 1 >= 0 {
                offset - 1
            } else {
                0
            },
            Direction::Right => if offset + 1 <= n - 1 {
                offset + 1
            } else {
                n - 1
            },
            Direction::Down => if offset + columns <= n - 1 {
                offset + columns
            } else if offset / columns < (n - 1) / columns {
                n - 1
            } else {
                offset
            },
            Direction::Up => if offset >= columns {
                offset - columns
            } else {
                0
            },
        }
    }
}

/// An offset that names a byte of a buffer of `n` bytes, or zero when the
/// buffer is empty.
pub open spec fn valid_offset(offset: int, n: int) -> bool {
    if n == 0 {
        offset == 0
    } else {
        0 <= offset < n
    }
}

/// The linear offset of the selected byte.
#[derive(Clone, Copy, Debug, PartialEq, Eq, Structural)]
pub struct CursorModel {
    pub offset: usize,
}

impl CursorModel {
    /// A cursor on the first byte.
    pub fn new() -> (r: CursorModel)
        ensures
            r.offset == 0,
    {
        CursorModel { offset: 0 }
    }

    /// Moves one step in `direction` within a buffer of `len` bytes laid out
    /// `columns` to a row.
    pub fn step(&mut self, direction: Direction, columns: usize, len: usize)
        requires
            valid_offset(old(self).offset as int, len as int),
            columns >= 1,
        ensures
            final(self).offset == moved(old(self).offset as int, direction, columns as int, len as int),
            valid_offset(final(self).offset as int, len as int),
    {
        if len == 0 {
            self.offset = 0;
            return;
        }
        let last = len - 1;
        let offset = self.offset;
        self.offset = match direction {
            Direction::Left => if offset >= 1 {
                offset - 1
            } else {
                0
            },
            Direction::Right => if offset < last {
                offset + 1
            } else {
                last
            },
            Direction::Down => if last - offset >= columns {
                offset + columns
            } else if offset / columns < last / columns {
                last
            } else {
                offset
            },
            Direction::Up => if offset >= columns {
                offset - columns
            } else {
                0
            },
        };
    }
}

/// A move right followed by a move left returns to the starting byte, away
/// from the buffer's ends; so does a move down followed by a move up where
/// a full row of bytes lies ahead.
pub proof fn lemma_moves_undo(offset: int, columns: int, n: int)
    requires
        columns >= 1,
        0 < offset < n - 1,
    ensures
        moved(moved(offset, Direction::Right, columns, n), Direction::Left, columns, n) == offset,
        offset + columns <= n - 1 ==> moved(
            moved(offset, Direction::Down, columns, n),
            Direction::Up,
            columns,
            n,
        ) == offset,
{
}

/// Every move keeps the cursor on a byte of the buffer.
pub proof fn lemma_move_stays_valid(offset: int, dir: Direction, columns: int, n: int)
    requires
        columns >= 1,
        valid_offset(offset, n),
    ensures
        valid_offset(moved(offset, dir, columns, n), n),
{
}

} // verus!
