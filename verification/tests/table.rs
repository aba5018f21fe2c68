//! The data table.
use rote::data::{from_delimited_str, DataSet, Delimiter};
use rote::tui::table::{
    build_header, build_row, cell_style, compute_col_widths, row_label, row_num_style, row_num_width, sanitize,
    truncate, visible_column_range, visible_row_range, CellState, RowState, TableState,
    MAX_COL_WIDTH, MIN_COL_WIDTH,
};
use rote::tui::{Color, TextStyle};

fn load(text: &str) -> DataSet {
    from_delimited_str(text, Delimiter::Tab, true).unwrap()
}

fn small_ds() -> DataSet {
    load("first_name\tage\tcity\nAlice\t30\tPortland\nBob\t25\tSeattle\nCarol\t41\tBoise\n")
}

// ── Initialization ────────────────────────────────────────────────────────

#[test]
fn new_initializes_all_pending_upcoming() {
    let ds = small_ds();
    let rows = ds.row_count();
    let cols = ds.column_count();
    let state = TableState::new(rows, cols, &ds);

    for r in 0..rows {
        assert_eq!(state.row_state(r), RowState::Upcoming);
        for c in 0..cols {
            assert_eq!(state.cell_state(r, c), CellState::Pending);
        }
    }
}

// ── State transitions ─────────────────────────────────────────────────────

#[test]
fn set_cell_state_round_trips() {
    let ds = small_ds();
    let mut state = TableState::new(ds.row_count(), ds.column_count(), &ds);
    state.set_cell_state(0, 0, CellState::Done);
    assert_eq!(state.cell_state(0, 0), CellState::Done);
    assert_eq!(state.cell_state(0, 1), CellState::Pending);
}

#[test]
fn set_row_state_round_trips() {
    let ds = small_ds();
    let mut state = TableState::new(ds.row_count(), ds.column_count(), &ds);
    state.set_row_state(1, RowState::InProgress);
    assert_eq!(state.row_state(1), RowState::InProgress);
    assert_eq!(state.row_state(0), RowState::Upcoming);
}

// ── Column widths ─────────────────────────────────────────────────────────

fn check_widths(widths: &[u16]) {
    for &w in widths {
        assert!(w >= MIN_COL_WIDTH, "width {w} below minimum");
        assert!(w <= MAX_COL_WIDTH, "width {w} above maximum");
    }
}

#[test]
fn column_widths_small() {
    let ds = small_ds();
    let state = TableState::new(ds.row_count(), ds.column_count(), &ds);
    check_widths(state.column_widths());
    // "first_name" is 10 chars: expect width 10.
    assert_eq!(state.column_widths()[0], 10);
}

#[test]
fn column_widths_within_limits() {
    let long = "x".repeat(100);
    let ds = load(&format!("a\t{long}\tc\nb\tb\t{long}\n"));
    let state = TableState::new(ds.row_count(), ds.column_count(), &ds);
    check_widths(state.column_widths());
    assert_eq!(state.column_widths(), &[4, 30, 30]);
}

#[test]
fn column_widths_follow_header_and_cells() {
    let widths = |text: &str, has_headers: bool| {
        compute_col_widths(&from_delimited_str(text, Delimiter::Tab, has_headers).unwrap())
    };
    assert_eq!(widths("id\n1\n", true), vec![4]);
    assert_eq!(widths("number\n1\n", true), vec![6]);
    assert_eq!(widths("id\n1234567\n", true), vec![7]);
    // Without a header, or with an empty one, there is room for the label.
    assert_eq!(widths("id\n1\n", false), vec![8]);
    assert_eq!(widths("id\t\n1\t2\n", true), vec![4, 8]);
}

#[test]
fn column_widths_count_bytes() {
    let ds = load("a\n\u{e9}\u{e9}\u{e9}\u{e9}\u{e9}\n");
    let state = TableState::new(ds.row_count(), ds.column_count(), &ds);
    assert_eq!(state.column_widths(), &[10]);
}

// ── Viewport ──────────────────────────────────────────────────────────────

#[test]
fn viewport_row0_inprogress_stays_at_top() {
    let ds = small_ds();
    let rows = 50_usize.max(ds.row_count());
    let cols = ds.column_count();
    let mut state = TableState::new(rows, cols, &ds);

    state.set_row_state(0, RowState::InProgress);
    state.update_viewport(20);
    assert_eq!(state.viewport_row, 0);
}

#[test]
fn viewport_mid_inprogress_scrolls() {
    let ds = small_ds();
    let mut state = TableState::new(50, ds.column_count(), &ds);

    state.set_row_state(25, RowState::InProgress);
    state.update_viewport(20);
    // active row 25, target_offset = 20/3 = 6 (min 1)
    // desired = 25 - 6 = 19, max_start = 50 - 20 = 30
    assert_eq!(state.viewport_row, 19);
}

#[test]
fn viewport_last_row_inprogress() {
    let ds = small_ds();
    let mut state = TableState::new(50, ds.column_count(), &ds);

    state.set_row_state(49, RowState::InProgress);
    state.update_viewport(20);
    // desired = 49 - 6 = 43, max_start = 50 - 20 = 30
    assert_eq!(state.viewport_row, 30);
}

#[test]
fn the_active_row_is_always_visible() {
    let ds = small_ds();
    for visible in 1..8u16 {
        for active in 0..5usize {
            let mut state = TableState::new(5, ds.column_count(), &ds);
            state.set_row_state(active, RowState::InProgress);
            state.update_viewport(visible);
            assert!(state.viewport_row <= active);
            assert!(active < state.viewport_row + usize::from(visible));
        }
    }
}

#[test]
fn the_active_row_is_in_progress_or_done_last() {
    let ds = small_ds();
    let mut state = TableState::new(5, ds.column_count(), &ds);
    assert_eq!(state.active_row(), 0);
    state.set_row_state(1, RowState::Done);
    state.set_row_state(3, RowState::Done);
    assert_eq!(state.active_row(), 3);
    state.set_row_state(2, RowState::InProgress);
    assert_eq!(state.active_row(), 2);
    state.viewport_row = 4;
    state.update_viewport(0);
    assert_eq!(state.viewport_row, 4);
}

#[test]
fn columns_that_fit_are_visible() {
    let ds = small_ds();
    let mut state = TableState::new(ds.row_count(), ds.column_count(), &ds);
    assert_eq!(state.column_widths(), &[10, 4, 8]);
    assert_eq!(visible_column_range(&state, 3, 9), Vec::<usize>::new());
    assert_eq!(visible_column_range(&state, 3, 14), vec![0]);
    assert_eq!(visible_column_range(&state, 3, 15), vec![0, 1]);
    assert_eq!(visible_column_range(&state, 3, 23), vec![0, 1]);
    assert_eq!(visible_column_range(&state, 3, 24), vec![0, 1, 2]);
    assert_eq!(visible_column_range(&state, 3, u16::MAX), vec![0, 1, 2]);
    state.viewport_col = 1;
    assert_eq!(visible_column_range(&state, 3, 12), vec![1]);
    assert_eq!(visible_column_range(&state, 3, 13), vec![1, 2]);
    state.viewport_col = 9;
    assert_eq!(visible_column_range(&state, 3, 17), Vec::<usize>::new());
}

#[test]
fn rows_that_fit_are_visible() {
    let ds = small_ds();
    let mut state = TableState::new(5, ds.column_count(), &ds);
    state.viewport_row = 2;
    assert_eq!(visible_row_range(&state, 5, 2), (2, 4));
    assert_eq!(visible_row_range(&state, 5, 9), (2, 5));
    assert_eq!(visible_row_range(&state, 1, 9), (1, 1));
}

// ── Appearance ────────────────────────────────────────────────────────────

#[test]
fn styles_follow_states() {
    let style = |color, bold| TextStyle { color, bold };
    for row in [RowState::Upcoming, RowState::InProgress, RowState::Done] {
        assert_eq!(cell_style(CellState::Done, row), style(Color::Green, true));
    }
    assert_eq!(cell_style(CellState::Pending, RowState::InProgress), style(Color::Plain, false));
    assert_eq!(cell_style(CellState::Pending, RowState::Upcoming), style(Color::DarkGray, false));
    assert_eq!(cell_style(CellState::Pending, RowState::Done), style(Color::DarkGray, false));
    assert_eq!(row_num_style(RowState::InProgress), style(Color::Yellow, true));
    assert_eq!(row_num_style(RowState::Done), style(Color::Green, false));
    assert_eq!(row_num_style(RowState::Upcoming), style(Color::DarkGray, false));
}

#[test]
fn headers_and_rows_as_shown() {
    let ds = load("name\t\tnote\nA\u{7}lice\t30\tfine\n");
    let mut state = TableState::new(1, 3, &ds);
    state.set_cell_state(0, 1, CellState::Done);
    assert_eq!(build_header(&ds, &vec![0, 1, 2]), vec!["name", "Column 2", "note"]);
    let cells = build_row(&ds, &state, 0, &vec![0, 1]);
    assert_eq!(cells[0].0, "Alice");
    assert_eq!(cells[0].1, TextStyle { color: Color::DarkGray, bold: false });
    assert_eq!(cells[1].0, "30");
    assert_eq!(cells[1].1, TextStyle { color: Color::Green, bold: true });
}

#[test]
fn row_numbers_are_right_aligned() {
    assert_eq!(row_num_width(0), 2);
    assert_eq!(row_num_width(99), 2);
    assert_eq!(row_num_width(100), 3);
    assert_eq!(row_label(0, 3), "  1");
    assert_eq!(row_label(99, 2), "100");
}

// ── Sanitization ──────────────────────────────────────────────────────────

#[test]
fn sanitize_strips_escape_sequences() {
    let raw = "\x1b[31mred\x1b[0m";
    let clean = sanitize(raw);
    // ESC (0x1b) is stripped; visible chars remain.
    assert!(!clean.contains('\x1b'));
    assert!(clean.contains('r'));
    assert!(clean.contains('e'));
    assert!(clean.contains('d'));
}

#[test]
fn sanitize_strips_all_control_chars() {
    let raw = "hello\x00world\x1fend\x7fhere";
    let clean = sanitize(raw);
    assert_eq!(clean, "helloworldendhere");
}

#[test]
fn sanitizing_twice_changes_nothing() {
    let clean = sanitize("a\tb\u{85}\u{e9}\x7f");
    assert_eq!(clean, "ab\u{85}\u{e9}");
    assert_eq!(sanitize(&clean), clean);
}

#[test]
fn long_text_is_truncated_by_characters() {
    let exact: String = "\u{e9}".repeat(30);
    assert_eq!(truncate(&exact), exact);
    let long: String = "\u{e9}".repeat(31);
    assert_eq!(truncate(&long), format!("{}\u{2026}", "\u{e9}".repeat(29)));
    assert_eq!(truncate(""), "");
}
