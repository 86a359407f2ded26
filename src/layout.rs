//! Arrangement of a linear byte buffer into rows of equal width.

use vstd::prelude::*;

verus! {

/// Number of byte columns that fit in a pane `width` cells wide: each byte
/// takes two hex digits and one separator, and at least one column is kept.
pub open spec fn columns_for(width: int) -> int {
    if (width - 1) / 3 >= 1 {
        (width - 1) / 3
    } else {
        1
    }
}

/// Number of rows needed to hold `n` bytes, `columns` to a row.
pub open spec fn rows_for(n: int, columns: int) -> int {
    if n % columns == 0 {
        n / columns
    } else {
        n / columns + 1
    }
}

/// Row and column counts of the grid.
#[derive(Clone, Copy, Debug, PartialEq, Eq, Structural)]
pub struct GridLayout {
    pub columns: usize,
    pub rows: usize,
}

impl GridLayout {
    /// Whether this is the layout for a pane `viewport_width` cells wide over
    /// `buffer_len` bytes.
    pub open spec fn is_layout_for(&self, viewport_width: int, buffer_len: int) -> bool {
        &&& self.columns == columns_for(viewport_width)
        &&& self.rows == rows_for(buffer_len, self.columns as int)
    }

    pub open spec fn wf(&self) -> bool {
        self.columns >= 1
    }

    /// Row of the grid that holds byte `offset`.
    pub open spec fn row_of(&self, offset: int) -> int {
        offset / (self.columns as int)
    }

    /// Derives the grid for a pane `viewport_width` cells wide; a pane too
    /// narrow for one column still gets one.
    pub fn compute(viewport_width: u16, buffer_len: usize) -> (r: GridLayout)
        ensures
            r.is_layout_for(viewport_width as int, buffer_len as int),
            r.wf(),
            viewport_width < 4 ==> r.columns == 1 && r.rows == buffer_len,
    {
        let columns: usize = if viewport_width >= 4 {
            ((viewport_width - 1) / 3) as usize
        } else {
            1
        };
        let rows: usize = if buffer_len % columns == 0 {
            buffer_len / columns
        } else {
            assert(buffer_len / columns < usize::MAX) by (nonlinear_arith)
                requires
                    columns >= 2,
                    buffer_len <= usize::MAX,
            ;
            buffer_len / columns + 1
        };
        GridLayout { columns, rows }
    }

    /// Row of the grid that holds byte `offset`.
    pub fn row(&self, offset: usize) -> (r: usize)
        requires
            self.wf(),
        ensures
            r == self.row_of(offset as int),
    {
        offset / self.columns
    }
}

/// Every byte of the buffer lies in one of the grid's rows; an empty buffer
/// has no rows, and offset zero lies in row zero.
pub proof fn lemma_row_in_grid(n: int, columns: int, offset: int)
    requires
        columns >= 1,
        0 <= n,
        0 <= offset < n || offset == 0,
    ensures
        n == 0 ==> rows_for(n, columns) == 0 && offset / columns == 0,
        0 <= offset < n ==> 0 <= offset / columns < rows_for(n, columns),
{
    if n == 0 {
        assert(0int % columns == 0 && 0int / columns == 0) by (nonlinear_arith)
            requires
                columns >= 1,
        ;
    } else if offset < n {
        assert(offset / columns <= n / columns) by (nonlinear_arith)
            requires
                columns >= 1,
                0 <= offset < n,
        {
            vstd::arithmetic::div_mod::lemma_div_is_ordered(offset, n, columns);
        }
        assert(0 <= offset / columns) by (nonlinear_arith)
            requires
                columns >= 1,
                0 <= offset,
        ;
        if n % columns == 0 {
            assert(offset / columns < n / columns) by (nonlinear_arith)
                requires
                    columns >= 1,
                    0 <= offset < n,
                    n % columns == 0,
            {
                vstd::arithmetic::div_mod::lemma_fundamental_div_mod(n, columns);
                vstd::arithmetic::div_mod::lemma_fundamental_div_mod(offset, columns);
                vstd::arithmetic::div_mod::lemma_mod_bound(offset, columns);
            }
        }
    }
}

} // verus!
