use hexrus::cursor::{CursorModel, Direction};
use hexrus::editor::Editor;
use hexrus::layout::GridLayout;
use hexrus::render::{build_ascii_rows, build_hex_rows, render, Cell};
use hexrus::scroller::ViewportScroller;

fn text(c: &Cell) -> String {
    c.text.iter().collect()
}

fn texts(m: &Vec<Vec<Cell>>) -> Vec<Vec<String>> {
    m.iter().map(|r| r.iter().map(text).collect()).collect()
}

fn check_session(e: &Editor) {
    let n = e.bytes.len();
    if n == 0 {
        assert_eq!(e.cursor.offset, 0);
    } else {
        assert!(e.cursor.offset <= n - 1);
    }
    let row = e.cursor.offset / e.layout.columns;
    assert!(e.scroller.visible_rows >= 1);
    assert!(e.scroller.window_start <= row);
    assert!(row <= e.scroller.window_start + e.scroller.visible_rows - 1);
    let max_start = e.layout.rows.saturating_sub(e.scroller.visible_rows);
    assert!(e.scroller.window_start <= max_start);
}

#[test]
fn down_moves_a_row_and_stops_on_last_row() {
    let mut c = CursorModel::new();
    c.step(Direction::Down, 4, 10);
    assert_eq!(c.offset, 4);
    c.step(Direction::Down, 4, 10);
    assert_eq!(c.offset, 8);
    c.step(Direction::Down, 4, 10);
    assert_eq!(c.offset, 8);
}

#[test]
fn down_into_short_last_row_lands_on_last_byte() {
    let mut c = CursorModel { offset: 6 };
    c.step(Direction::Down, 4, 10);
    assert_eq!(c.offset, 9);
    c.step(Direction::Down, 4, 10);
    assert_eq!(c.offset, 9);
    let mut d = CursorModel { offset: 9 };
    d.step(Direction::Down, 4, 10);
    assert_eq!(d.offset, 9);
}

#[test]
fn down_scenario_in_a_session() {
    let data: Vec<u8> = (0u8..10).collect();
    let mut e = Editor::from(&data);
    e.resize(13, 3);
    assert_eq!(e.layout, GridLayout { columns: 4, rows: 3 });
    assert_eq!(e.scroller.visible_rows, 3);
    e.move_cursor(Direction::Down);
    assert_eq!(e.cursor.offset, 4);
    e.move_cursor(Direction::Down);
    assert_eq!(e.cursor.offset, 8);
    e.move_cursor(Direction::Down);
    assert_eq!(e.cursor.offset, 8);
    assert_eq!(e.scroller.window_start, 0);
}

#[test]
fn new_session_shows_one_row() {
    let data: Vec<u8> = vec![7; 5];
    let e = Editor::from(&data);
    assert_eq!(e.cursor.offset, 0);
    assert_eq!(e.scroller, ViewportScroller { window_start: 0, visible_rows: 1 });
    assert_eq!(e.layout, GridLayout { columns: 1, rows: 5 });
}

#[test]
fn byte_cells_hex_and_ascii() {
    let data: Vec<u8> = vec![0x41, 0x01];
    let hex = build_hex_rows(&data, 5, 7, 0, 1);
    let ascii = build_ascii_rows(&data, 5, 7, 0, 1);
    assert_eq!(texts(&hex), vec![vec!["41".to_string(), "01".to_string()]]);
    assert_eq!(texts(&ascii), vec![vec!["A".to_string(), ".".to_string()]]);
}

#[test]
fn narrow_viewport_keeps_one_column() {
    let l = GridLayout::compute(3, 10);
    assert_eq!(l.columns, 1);
    assert_eq!(l.rows, 10);
    let l0 = GridLayout::compute(0, 7);
    assert_eq!(l0, GridLayout { columns: 1, rows: 7 });
}

#[test]
fn shrinking_window_keeps_cursor_on_last_row() {
    let data: Vec<u8> = vec![0; 40];
    let mut e = Editor::from(&data);
    e.resize(13, 10);
    for _ in 0..40 {
        e.move_cursor(Direction::Right);
    }
    assert_eq!(e.cursor.offset, 39);
    assert_eq!(e.layout.rows, 10);
    assert_eq!(e.scroller.window_start, 0);
    e.resize(13, 4);
    assert_eq!(e.scroller.window_start, 9 - 4 + 1);
    check_session(&e);
}

#[test]
fn layout_formulas() {
    assert_eq!(GridLayout::compute(4, 5), GridLayout { columns: 1, rows: 5 });
    assert_eq!(GridLayout::compute(49, 32), GridLayout { columns: 16, rows: 2 });
    assert_eq!(GridLayout::compute(49, 33), GridLayout { columns: 16, rows: 3 });
    assert_eq!(GridLayout::compute(50, 0), GridLayout { columns: 16, rows: 0 });
    assert_eq!(GridLayout::compute(u16::MAX, 1), GridLayout { columns: 21844, rows: 1 });
    assert_eq!(GridLayout::compute(49, 40).row(35), 2);
}

#[test]
fn right_then_left_and_down_then_up_restore() {
    for o in 1..19usize {
        let mut c = CursorModel { offset: o };
        c.step(Direction::Right, 4, 20);
        c.step(Direction::Left, 4, 20);
        assert_eq!(c.offset, o);
        if o + 4 <= 19 {
            let mut d = CursorModel { offset: o };
            d.step(Direction::Down, 4, 20);
            d.step(Direction::Up, 4, 20);
            assert_eq!(d.offset, o);
        }
    }
}

#[test]
fn moves_clamp_at_ends() {
    let mut c = CursorModel::new();
    c.step(Direction::Left, 4, 10);
    assert_eq!(c.offset, 0);
    c.step(Direction::Up, 4, 10);
    assert_eq!(c.offset, 0);
    let mut c = CursorModel { offset: 2 };
    c.step(Direction::Up, 4, 10);
    assert_eq!(c.offset, 0);
    let mut c = CursorModel { offset: 9 };
    c.step(Direction::Right, 4, 10);
    assert_eq!(c.offset, 9);
    let mut c = CursorModel { offset: 6 };
    c.step(Direction::Up, 4, 10);
    assert_eq!(c.offset, 2);
    let mut e = CursorModel::new();
    for d in [Direction::Left, Direction::Right, Direction::Up, Direction::Down] {
        e.step(d, 4, 0);
        assert_eq!(e.offset, 0);
    }
}

#[test]
fn every_visited_state_keeps_the_invariant() {
    let data: Vec<u8> = (0..=255u8).cycle().take(1000).collect();
    let mut e = Editor::from(&data);
    check_session(&e);
    let dirs = [Direction::Down, Direction::Right, Direction::Down, Direction::Left, Direction::Up];
    let sizes = [(49u16, 5u16), (13, 2), (3, 1), (80, 0), (100, 30), (7, 7)];
    for i in 0..3000usize {
        e.move_cursor(dirs[(i * 7 + i / 3) % dirs.len()]);
        check_session(&e);
        if i % 97 == 0 {
            let (w, h) = sizes[(i / 97) % sizes.len()];
            e.resize(w, h);
            check_session(&e);
        }
    }
}

#[test]
fn empty_buffer_session() {
    let data: Vec<u8> = Vec::new();
    let mut e = Editor::from(&data);
    e.resize(49, 5);
    for d in [Direction::Down, Direction::Right, Direction::Left, Direction::Up] {
        e.move_cursor(d);
        assert_eq!(e.cursor.offset, 0);
        check_session(&e);
    }
    let (hex, ascii) = e.render();
    assert_eq!(hex.len(), 5);
    assert!(hex.iter().flatten().all(|c| text(c) == " " && !c.highlighted));
    assert!(ascii.iter().flatten().all(|c| text(c) == " " && !c.highlighted));
}

#[test]
fn reconcile_twice_is_reconcile_once() {
    let layout = GridLayout { columns: 4, rows: 25 };
    for start in [0usize, 3, 10, 21, 40] {
        for row in [0usize, 2, 9, 15, 24] {
            for vis in [0usize, 1, 3, 8, 30] {
                let mut s = ViewportScroller { window_start: start, visible_rows: 5 };
                s.reconcile(row, &layout, vis);
                let once = s;
                s.reconcile(row, &layout, vis);
                assert_eq!(s, once);
            }
        }
    }
}

#[test]
fn reconcile_scrolls_minimally() {
    let layout = GridLayout { columns: 4, rows: 25 };
    let mut s = ViewportScroller { window_start: 5, visible_rows: 4 };
    s.reconcile(6, &layout, 4);
    assert_eq!(s.window_start, 5);
    s.reconcile(2, &layout, 4);
    assert_eq!(s.window_start, 2);
    s.reconcile(12, &layout, 4);
    assert_eq!(s.window_start, 9);
    s.reconcile(24, &layout, 4);
    assert_eq!(s.window_start, 21);
    let mut t = ViewportScroller { window_start: 22, visible_rows: 4 };
    t.reconcile(23, &layout, 4);
    assert_eq!(t.window_start, 21);
    let mut u = ViewportScroller { window_start: 7, visible_rows: 3 };
    u.reconcile(3, &GridLayout { columns: 4, rows: 5 }, 10);
    assert_eq!(u, ViewportScroller { window_start: 0, visible_rows: 10 });
    let mut v = ViewportScroller::new();
    v.reconcile(4, &layout, 0);
    assert_eq!(v, ViewportScroller { window_start: 4, visible_rows: 1 });
}

#[test]
fn render_twice_gives_same_matrices() {
    let data: Vec<u8> = (0..50u8).collect();
    let layout = GridLayout::compute(16, data.len());
    let cursor = CursorModel { offset: 17 };
    let scroller = ViewportScroller { window_start: 2, visible_rows: 4 };
    let first = render(&data, &layout, &cursor, &scroller);
    let second = render(&data, &layout, &cursor, &scroller);
    assert_eq!(first, second);
    assert_eq!(first.0.len(), 4);
    assert!(first.0.iter().all(|r| r.len() == 5));
    assert!(first.1.iter().all(|r| r.len() == 5));
}

#[test]
fn render_highlights_cursor_and_pads() {
    let data: Vec<u8> = vec![0x00, 0x1f, 0x20, 0x7e, 0x7f, 0xab, 0x30];
    let layout = GridLayout::compute(10, data.len());
    assert_eq!(layout.columns, 3);
    let cursor = CursorModel { offset: 5 };
    let scroller = ViewportScroller { window_start: 1, visible_rows: 3 };
    let (hex, ascii) = render(&data, &layout, &cursor, &scroller);
    assert_eq!(
        texts(&hex),
        vec![
            vec!["7E".to_string(), "7F".to_string(), "AB".to_string()],
            vec!["30".to_string(), " ".to_string(), " ".to_string()],
            vec![" ".to_string(), " ".to_string(), " ".to_string()],
        ]
    );
    assert_eq!(
        texts(&ascii),
        vec![
            vec!["~".to_string(), ".".to_string(), "\u{ab}".to_string()],
            vec!["0".to_string(), " ".to_string(), " ".to_string()],
            vec![" ".to_string(), " ".to_string(), " ".to_string()],
        ]
    );
    let lit: Vec<(usize, usize)> = (0..3)
        .flat_map(|r| (0..3).map(move |c| (r, c)))
        .filter(|&(r, c)| hex[r][c].highlighted)
        .collect();
    assert_eq!(lit, vec![(0, 2)]);
    assert!(ascii[0][2].highlighted);
    assert_eq!(ascii.iter().flatten().filter(|c| c.highlighted).count(), 1);
    let top = render(&data, &layout, &cursor, &ViewportScroller { window_start: 0, visible_rows: 1 });
    assert_eq!(texts(&top.0), vec![vec!["00".to_string(), "1F".to_string(), "20".to_string()]]);
    assert_eq!(texts(&top.1), vec![vec![".".to_string(), ".".to_string(), " ".to_string()]]);
}

#[test]
fn build_rows_far_past_the_end() {
    let data: Vec<u8> = vec![1, 2, 3];
    let hex = build_hex_rows(&data, 0, 10, usize::MAX - 2, 2);
    assert_eq!(hex.len(), 2);
    let tail = build_hex_rows(&data, 0, 0, usize::MAX, 3);
    assert_eq!(texts(&tail), vec![vec![" "], vec![" "], vec![" "]]);
    assert!(hex.iter().flatten().all(|c| text(c) == " " && !c.highlighted));
    let ascii = build_ascii_rows(&data, 0, 10, 0, 2);
    assert_eq!(texts(&ascii)[0], vec![".", ".", "."]);
    assert!(ascii[0][0].highlighted);
}

#[test]
fn session_renders_visible_window() {
    let data: Vec<u8> = b"Hello, hex viewer!".to_vec();
    let mut e = Editor::from(&data);
    e.resize(13, 2);
    for _ in 0..3 {
        e.move_cursor(Direction::Down);
    }
    assert_eq!(e.cursor.offset, 12);
    assert_eq!(e.scroller.window_start, 2);
    let (hex, ascii) = e.render();
    assert_eq!(texts(&hex)[0], vec!["65", "78", "20", "76"]);
    assert_eq!(texts(&ascii)[1], vec!["i", "e", "w", "e"]);
    assert!(ascii[1][0].highlighted);
    assert!(hex[1][0].highlighted);
}
