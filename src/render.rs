//! The two cell matrices shown side by side: hex digits and ASCII glyphs.

use vstd::prelude::*;
use crate::cursor::CursorModel;
use crate::layout::{columns_for, GridLayout};
use crate::scroller::ViewportScroller;

verus! {

/// One cell of a pane: its text and whether it is the cursor's cell.
#[derive(Clone, Debug, PartialEq, Eq)]
pub struct Cell {
    pub text: Vec<char>,
    pub highlighted: bool,
}

impl View for Cell {
    type V = (Seq<char>, bool);

    open spec fn view(&self) -> (Seq<char>, bool) {
        (self.text@, self.highlighted)
    }
}

/// Uppercase hexadecimal digit of `v`, for `v` below 16.
pub open spec fn hex_digit(v: u8) -> char {
    if v < 10 {
        ((48 + v) as u8) as char
    } else {
        ((55 + v) as u8) as char
    }
}

/// Two uppercase hexadecimal digits of `b`.
pub open spec fn hex_text(b: u8) -> Seq<char> {
    seq![hex_digit(b / 16), hex_digit(b % 16)]
}

/// ASCII control characters: codes 0x00 to 0x1F and 0x7F.
pub open spec fn is_control(b: u8) -> bool {
    b < 0x20 || b == 0x7f
}

/// The glyph shown for `b`: the byte as a character, or `.` for a control
/// character.
pub open spec fn glyph_text(b: u8) -> Seq<char> {
    if is_control(b) {
        seq!['.']
    } else {
        seq![b as char]
    }
}

/// The cell shown past the end of the buffer.
pub open spec fn blank_cell() -> (Seq<char>, bool) {
    (seq![' '], false)
}

/// Hex cell for position `idx` of `items` with the cursor at `cursor`.
pub open spec fn hex_cell(items: Seq<u8>, cursor: int, idx: int) -> (Seq<char>, bool) {
    if idx < items.len() {
        (hex_text(items[idx]), idx == cursor)
    } else {
        blank_cell()
    }
}

/// ASCII cell for position `idx` of `items` with the cursor at `cursor`.
pub open spec fn ascii_cell(items: Seq<u8>, cursor: int, idx: int) -> (Seq<char>, bool) {
    if idx < items.len() {
        (glyph_text(items[idx]), idx == cursor)
    } else {
        blank_cell()
    }
}

/// Cell for position `idx` of the hex pane when `hex` holds, else of the
/// ASCII pane.
pub open spec fn pane_cell(hex: bool, items: Seq<u8>, cursor: int, idx: int) -> (Seq<char>, bool) {
    if hex {
        hex_cell(items, cursor, idx)
    } else {
        ascii_cell(items, cursor, idx)
    }
}

/// The matrix of `count` rows of `columns` cells from grid row `start` on.
pub open spec fn pane_matrix(
    hex: bool,
    items: Seq<u8>,
    cursor: int,
    columns: int,
    start: int,
    count: int,
) -> Seq<Seq<(Seq<char>, bool)>> {
    Seq::new(
        count as nat,
        |r: int| Seq::new(columns as nat, |c: int| pane_cell(hex, items, cursor, (start + r) * columns + c)),
    )
}

/// The abstract contents of a matrix of cells.
pub open spec fn matrix_view(m: Seq<Vec<Cell>>) -> Seq<Seq<(Seq<char>, bool)>> {
    Seq::new(m.len(), |r: int| Seq::new(m[r]@.len(), |c: int| m[r]@[c]@))
}

fn hex_digit_char(v: u8) -> (r: char)
    requires
        v < 16,
    ensures
        r == hex_digit(v),
{
    if v < 10 {
        (48u8 + v) as char
    } else {
        (55u8 + v) as char
    }
}

/// The hex cell for a byte of the buffer.
pub fn hex_cell_of(b: u8, highlighted: bool) -> (r: Cell)
    ensures
        r@ == (hex_text(b), highlighted),
{
    let text = vec![hex_digit_char(b / 16), hex_digit_char(b % 16)];
    proof {
        assert(text@ =~= hex_text(b));
    }
    Cell { text, highlighted }
}

/// Whether `b` is an ASCII control character.
pub fn is_control_byte(b: u8) -> (r: bool)
    ensures
        r == is_control(b),
{
    b < 0x20 || b == 0x7f
}

/// The ASCII cell for a byte of the buffer.
pub fn ascii_cell_of(b: u8, highlighted: bool) -> (r: Cell)
    ensures
        r@ == (glyph_text(b), highlighted),
{
    let c: char = if is_control_byte(b) {
        '.'
    } else {
        b as char
    };
    let text = vec![c];
    proof {
        assert(text@ =~= glyph_text(b));
    }
    Cell { text, highlighted }
}

fn blank() -> (r: Cell)
    ensures
        r@ == blank_cell(),
{
    let text = vec![' '];
    proof {
        assert(text@ =~= seq![' ']);
    }
    Cell { text, highlighted: false }
}

/// Position of the cell in column `c` of grid row `r`, or `None` where it
/// exceeds the machine's offsets and so lies past any buffer.
fn cell_index(r: usize, columns: usize, c: usize) -> (i: Option<usize>)
    ensures
        i matches Some(v) ==> v == r * columns + c,
        i is None ==> r * columns + c > usize::MAX,
{
    match r.checked_mul(columns) {
        Some(base) => base.checked_add(c),
        None => {
            assert(r * columns + c > usize::MAX) by (nonlinear_arith)
                requires
                    r * columns > usize::MAX,
                    c >= 0,
            ;
            None
        },
    }
}

/// Builds `count` rows of `columns` cells of one pane, starting at grid row
/// `start`.
fn pane_rows(
    hex: bool,
    items: &Vec<u8>,
    cursor_pos: usize,
    columns: usize,
    start: usize,
    count: usize,
) -> (m: Vec<Vec<Cell>>)
    ensures
        matrix_view(m@) == pane_matrix(
            hex,
            items@,
            cursor_pos as int,
            columns as int,
            start as int,
            count as int,
        ),
{
    let n = items.len();
    let mut m: Vec<Vec<Cell>> = Vec::new();
    let mut r: usize = 0;
    while r < count
        invariant
            r <= count,
            n == items@.len(),
            m@.len() == r,
            forall|i: int|
                0 <= i < r ==> #[trigger] m@[i]@.len() == columns,
            forall|i: int, j: int|
                0 <= i < r && 0 <= j < columns ==> #[trigger] m@[i]@[j]@ == pane_cell(
                    hex,
                    items@,
                    cursor_pos as int,
                    (start + i) * columns + j,
                ),
        decreases count - r,
    {
        let mut row: Vec<Cell> = Vec::new();
        let mut c: usize = 0;
        while c < columns
            invariant
                c <= columns,
                r < count,
                    n == items@.len(),
                row@.len() == c,
                forall|j: int|
                    0 <= j < c ==> #[trigger] row@[j]@ == pane_cell(
                        hex,
                        items@,
                        cursor_pos as int,
                        (start + r) * columns + j,
                    ),
            decreases columns - c,
        {
            let cell = match start.checked_add(r) {
                Some(grid_row) => match cell_index(grid_row, columns, c) {
                    Some(idx) => {
                        if idx < n {
                            if hex {
                                hex_cell_of(items[idx], idx == cursor_pos)
                            } else {
                                ascii_cell_of(items[idx], idx == cursor_pos)
                            }
                        } else {
                            blank()
                        }
                    },
                    None => blank(),
                },
                None => {
                    assert((start + r) * columns + c > usize::MAX) by (nonlinear_arith)
                        requires
                            start + r > usize::MAX,
                            columns >= 1,
                            c >= 0,
                    ;
                    blank()
                },
            };
            row.push(cell);
            c = c + 1;
        }
        m.push(row);
        r = r + 1;
    }
    proof {
        let want = pane_matrix(hex, items@, cursor_pos as int, columns as int, start as int, count as int);
        assert forall|i: int| 0 <= i < count implies #[trigger] matrix_view(m@)[i] =~= want[i] by {}
        assert(matrix_view(m@) =~= want);
    }
    m
}

/// Rows of hex cells for a pane `width` cells wide: `visible_rows` grid rows
/// from row `start` on, with the cursor at `cursor_pos`.
pub fn build_hex_rows(
    items: &Vec<u8>,
    cursor_pos: usize,
    width: u16,
    start: usize,
    visible_rows: usize,
) -> (m: Vec<Vec<Cell>>)
    ensures
        matrix_view(m@) == pane_matrix(
            true,
            items@,
            cursor_pos as int,
            columns_for(width as int),
            start as int,
            visible_rows as int,
        ),
{
    let layout = GridLayout::compute(width, items.len());
    pane_rows(true, items, cursor_pos, layout.columns, start, visible_rows)
}

/// Rows of ASCII cells for a pane whose hex twin is `width` cells wide:
/// `visible_rows` grid rows from row `start` on, with the cursor at
/// `cursor_pos`.
pub fn build_ascii_rows(
    items: &Vec<u8>,
    cursor_pos: usize,
    width: u16,
    start: usize,
    visible_rows: usize,
) -> (m: Vec<Vec<Cell>>)
    ensures
        matrix_view(m@) == pane_matrix(
            false,
            items@,
            cursor_pos as int,
            columns_for(width as int),
            start as int,
            visible_rows as int,
        ),
{
    let layout = GridLayout::compute(width, items.len());
    pane_rows(false, items, cursor_pos, layout.columns, start, visible_rows)
}

/// The hex and ASCII matrices for the window of `scroller` over `buffer`
/// laid out by `layout`, with the cursor's cell highlighted in both.
pub open spec fn rendered(
    buffer: Seq<u8>,
    layout: GridLayout,
    cursor: CursorModel,
    scroller: ViewportScroller,
) -> (Seq<Seq<(Seq<char>, bool)>>, Seq<Seq<(Seq<char>, bool)>>) {
    (
        pane_matrix(
            true,
            buffer,
            cursor.offset as int,
            layout.columns as int,
            scroller.window_start as int,
            scroller.visible_rows as int,
        ),
        pane_matrix(
            false,
            buffer,
            cursor.offset as int,
            layout.columns as int,
            scroller.window_start as int,
            scroller.visible_rows as int,
        ),
    )
}

/// Renders the visible window as a hex matrix and an ASCII matrix of
/// `visible_rows` rows of `columns` cells each.
pub fn render(
    buffer: &Vec<u8>,
    layout: &GridLayout,
    cursor: &CursorModel,
    scroller: &ViewportScroller,
) -> (m: (Vec<Vec<Cell>>, Vec<Vec<Cell>>))
    ensures
        (matrix_view(m.0@), matrix_view(m.1@)) == rendered(buffer@, *layout, *cursor, *scroller),
{
    let hex = pane_rows(
        true,
        buffer,
        cursor.offset,
        layout.columns,
        scroller.window_start,
        scroller.visible_rows,
    );
    let ascii = pane_rows(
        false,
        buffer,
        cursor.offset,
        layout.columns,
        scroller.window_start,
        scroller.visible_rows,
    );
    (hex, ascii)
}

/// Rendering reads its inputs only: two renderings of the same state give
/// the same matrices, and both matrices have `visible_rows` rows of
/// `columns` cells.
pub proof fn lemma_render_deterministic(
    buffer: Seq<u8>,
    layout: GridLayout,
    cursor: CursorModel,
    scroller: ViewportScroller,
    first: (Seq<Vec<Cell>>, Seq<Vec<Cell>>),
    second: (Seq<Vec<Cell>>, Seq<Vec<Cell>>),
)
    requires
        (matrix_view(first.0), matrix_view(first.1)) == rendered(buffer, layout, cursor, scroller),
        (matrix_view(second.0), matrix_view(second.1)) == rendered(buffer, layout, cursor, scroller),
    ensures
        matrix_view(first.0) == matrix_view(second.0),
        matrix_view(first.1) == matrix_view(second.1),
        first.0.len() == scroller.visible_rows,
        first.1.len() == scroller.visible_rows,
        forall|r: int| 0 <= r < scroller.visible_rows ==> #[trigger] first.0[r]@.len() == layout.columns,
        forall|r: int| 0 <= r < scroller.visible_rows ==> #[trigger] first.1[r]@.len() == layout.columns,
{
    let want = rendered(buffer, layout, cursor, scroller);
    assert(matrix_view(first.0) == want.0);
    assert(matrix_view(first.1) == want.1);
    assert(matrix_view(first.0).len() == first.0.len());
    assert(matrix_view(first.1).len() == first.1.len());
    assert forall|r: int| 0 <= r < scroller.visible_rows implies #[trigger] first.0[r]@.len()
        == layout.columns by {
        assert(matrix_view(first.0)[r].len() == layout.columns);
    }
    assert forall|r: int| 0 <= r < scroller.visible_rows implies #[trigger] first.1[r]@.len()
        == layout.columns by {
        assert(matrix_view(first.1)[r].len() == layout.columns);
    }
}

} // verus!
