//! Reusable data table for the training and playback screens.
//!
//! Holds the cell/row state grid, viewport position, and cached column widths.
use vstd::prelude::*;
use crate::data::parse::DataSetView;
use crate::data::DataSet;
use crate::text;
use super::{Color, TextStyle};

verus! {

/// The state of a single data cell.
#[derive(Debug, Clone, Copy, PartialEq, Eq, Structural)]
pub enum CellState {
    /// Not yet filled in.
    Pending,
    /// Value has been entered.
    Done,
}

/// The lifecycle state of a data row.
#[derive(Debug, Clone, Copy, PartialEq, Eq, Structural)]
pub enum RowState {
    /// Not yet started.
    Upcoming,
    /// Currently being processed.
    InProgress,
    /// All steps complete.
    Done,
}

/// The narrowest column.
pub const MIN_COL_WIDTH: u16 = 4;

/// The widest column.
pub const MAX_COL_WIDTH: u16 = 30;

/// The contents of a [`TableState`].
#[verifier::ext_equal]
pub struct TableView {
    /// `[row][col]` cell states.
    pub cells: Seq<Seq<CellState>>,
    /// Row states.
    pub rows: Seq<RowState>,
    /// Index of the first visible row.
    pub viewport_row: nat,
    /// Index of the first visible column.
    pub viewport_col: nat,
    /// Column widths.
    pub widths: Seq<u16>,
}

/// The index of the first row in progress from `from` on.
pub open spec fn first_in_progress(rows: Seq<RowState>, from: nat) -> Option<nat>
    decreases rows.len() - from,
{
    if from >= rows.len() {
        None
    } else if rows[from as int] == RowState::InProgress {
        Some(from)
    } else {
        first_in_progress(rows, from + 1)
    }
}

/// The index of the last of the first `n` rows that is done.
pub open spec fn last_done(rows: Seq<RowState>, n: nat) -> Option<nat>
    decreases n,
{
    if n == 0 {
        None
    } else if rows[n - 1] == RowState::Done {
        Some((n - 1) as nat)
    } else {
        last_done(rows, (n - 1) as nat)
    }
}

/// The smaller of two numbers.
pub open spec fn lesser(a: int, b: int) -> int {
    if a <= b {
        a
    } else {
        b
    }
}

/// The greater of two numbers.
pub open spec fn greater(a: int, b: int) -> int {
    if a >= b {
        a
    } else {
        b
    }
}

/// The first visible row such that the active row stands in the top third of the
/// visible ones, without scrolling past the last row.
pub open spec fn scrolled(active: nat, row_count: nat, visible: nat) -> nat {
    let offset = lesser(greater(visible as int / 3, 1), visible - 1);
    lesser(greater(active - offset, 0), greater(row_count - visible, 0)) as nat
}

impl TableView {
    /// The first row in progress, or else the last row that is done, or else the
    /// first row.
    pub open spec fn active(self) -> nat {
        match first_in_progress(self.rows, 0) {
            Some(row) => row,
            None => match last_done(self.rows, self.rows.len()) {
                Some(row) => row,
                None => 0,
            },
        }
    }

    /// Whether the table is for data of this shape.
    pub open spec fn shaped(self, data: DataSetView) -> bool {
        &&& self.rows.len() == data.rows.len()
        &&& self.cells.len() == data.rows.len()
        &&& forall|row: int|
            0 <= row < self.cells.len() ==> (#[trigger] self.cells[row]).len() == data.column_count
    }

    /// Whether there is a cell at a position.
    pub open spec fn has_cell(self, row: int, col: int) -> bool {
        0 <= row < self.cells.len() && 0 <= col < self.cells[row].len()
    }

    /// The table with another state of a cell.
    pub open spec fn with_cell(self, row: int, col: int, state: CellState) -> Self {
        TableView { cells: self.cells.update(row, self.cells[row].update(col, state)), ..self }
    }

    /// The table with another state of a row.
    pub open spec fn with_row(self, row: int, state: RowState) -> Self {
        TableView { rows: self.rows.update(row, state), ..self }
    }
}

/// A size in bytes as the executable code sees it.
pub open spec fn byte_len(text: Seq<char>) -> nat {
    (vstd::utf8::encode_utf8(text).len() as usize) as nat
}

/// The width of what stands over a column, within limits: of its header, or of the
/// label `Column N` where there is none.
pub open spec fn header_width(data: DataSetView, col: nat) -> nat {
    let label = if data.headers is Some && data.headers->0[col as int].len() > 0 {
        byte_len(data.headers->0[col as int])
    } else {
        7 + text::decimal(col + 1).len()
    };
    greater(lesser(label as int, MAX_COL_WIDTH as int), MIN_COL_WIDTH as int) as nat
}

/// The width of a column over its header and its cells in the first `n` rows:
/// the widest of them, within limits.
pub open spec fn column_width(data: DataSetView, col: nat, n: nat) -> nat
    decreases n,
{
    if n == 0 {
        header_width(data, col)
    } else {
        greater(
            column_width(data, col, (n - 1) as nat) as int,
            lesser(byte_len(data.rows[n - 1][col as int]) as int, MAX_COL_WIDTH as int),
        ) as nat
    }
}

/// The space that `n` columns from `from` on take, with a gap between two columns.
pub open spec fn columns_span(widths: Seq<u16>, from: nat, n: nat) -> nat
    decreases n,
{
    if n == 0 {
        0
    } else if n == 1 {
        widths[from as int] as nat
    } else {
        columns_span(widths, from, (n - 1) as nat) + 1 + widths[from + n - 1] as nat
    }
}

/// Holds cell/row states, viewport position, and cached column widths.
pub struct TableState {
    /// `[row][col]` cell states.
    cell_states: Vec<Vec<CellState>>,
    row_states: Vec<RowState>,
    /// Index of the first visible row.
    pub viewport_row: usize,
    /// Index of the first visible column (horizontal scroll).
    pub viewport_col: usize,
    /// Cached column widths, computed from the full dataset on construction.
    column_widths: Vec<u16>,
}

impl View for TableState {
    type V = TableView;

    closed spec fn view(&self) -> TableView {
        TableView {
            cells: Seq::new(self.cell_states@.len(), |row: int| self.cell_states@[row]@),
            rows: self.row_states@,
            viewport_row: self.viewport_row as nat,
            viewport_col: self.viewport_col as nat,
            widths: self.column_widths@,
        }
    }
}

impl TableState {
    /// Create a new `TableState` for a dataset with the given shape.
    ///
    /// All cells start as `Pending`, all rows as `Upcoming`.
    /// Column widths are computed from the full dataset and cached.
    pub fn new(row_count: usize, col_count: usize, dataset: &DataSet) -> (state: Self)
        ensures
            state@.cells == Seq::new(
                row_count as nat,
                |row: int| Seq::new(col_count as nat, |col: int| CellState::Pending),
            ),
            state@.rows == Seq::new(row_count as nat, |row: int| RowState::Upcoming),
            state@.viewport_row == 0,
            state@.viewport_col == 0,
            state@.widths.len() == dataset@.column_count,
            forall|col: int|
                0 <= col < state@.widths.len() ==> #[trigger] state@.widths[col] == column_width(
                    dataset@,
                    col as nat,
                    dataset@.rows.len(),
                ),
    {
        let mut cell_states: Vec<Vec<CellState>> = Vec::new();
        let mut row: usize = 0;
        while row < row_count
            invariant
                row <= row_count,
                cell_states@.len() == row,
                forall|r: int|
                    0 <= r < row ==> (#[trigger] cell_states@[r])@ == Seq::new(
                        col_count as nat,
                        |col: int| CellState::Pending,
                    ),
            decreases row_count - row,
        {
            let cells: Vec<CellState> = vec![CellState::Pending; col_count];
            assert(cells@ =~= Seq::new(col_count as nat, |col: int| CellState::Pending));
            cell_states.push(cells);
            row = row + 1;
        }
        let row_states: Vec<RowState> = vec![RowState::Upcoming; row_count];
        let column_widths = compute_col_widths(dataset);
        let state = TableState {
            cell_states,
            row_states,
            viewport_row: 0,
            viewport_col: 0,
            column_widths,
        };
        assert(state@.cells =~= Seq::new(
            row_count as nat,
            |row: int| Seq::new(col_count as nat, |col: int| CellState::Pending),
        ));
        assert(state@.rows =~= Seq::new(row_count as nat, |row: int| RowState::Upcoming));
        state
    }

    /// Set the state of a single cell.
    pub fn set_cell_state(&mut self, row: usize, col: usize, state: CellState)
        requires
            old(self)@.has_cell(row as int, col as int),
        ensures
            final(self)@ == old(self)@.with_cell(row as int, col as int, state),
    {
        let ghost before = self@;
        let mut cells: Vec<CellState> = Vec::new();
        std::mem::swap(&mut cells, &mut self.cell_states[row]);
        cells[col] = state;
        self.cell_states[row] = cells;
        assert(self@.cells =~= before.with_cell(row as int, col as int, state).cells);
    }

    /// Set the state of a row.
    pub fn set_row_state(&mut self, row: usize, state: RowState)
        requires
            row < old(self)@.rows.len(),
        ensures
            final(self)@ == old(self)@.with_row(row as int, state),
    {
        self.row_states[row] = state;
    }

    /// Get the state of a single cell.
    pub fn cell_state(&self, row: usize, col: usize) -> (state: CellState)
        requires
            self@.has_cell(row as int, col as int),
        ensures
            state == self@.cells[row as int][col as int],
    {
        self.cell_states[row][col]
    }

    /// Get the state of a row.
    pub fn row_state(&self, row: usize) -> (state: RowState)
        requires
            row < self@.rows.len(),
        ensures
            state == self@.rows[row as int],
    {
        self.row_states[row]
    }

    /// Number of rows.
    pub fn row_count(&self) -> (count: usize)
        ensures
            count == self@.rows.len(),
    {
        self.row_states.len()
    }

    /// Recalculate `viewport_row` so the active row stays visible,
    /// roughly in the top third of the visible area.
    ///
    /// The "active row" is the first `InProgress` row, or the last `Done` row
    /// if none is in progress.
    pub fn update_viewport(&mut self, visible_rows: u16)
        ensures
            final(self)@ == (TableView {
                viewport_row: if visible_rows == 0 {
                    old(self)@.viewport_row
                } else {
                    scrolled(old(self)@.active(), old(self)@.rows.len(), visible_rows as nat)
                },
                ..old(self)@
            }),
    {
        let visible: usize = visible_rows as usize;
        if visible == 0 {
            return;
        }
        let active = self.active_row();
        // Target position: top third of the visible area.
        let third: usize = visible / 3;
        let at_least_one: usize = if third >= 1 {
            third
        } else {
            1
        };
        let offset: usize = if at_least_one <= visible - 1 {
            at_least_one
        } else {
            visible - 1
        };
        // Desired viewport_row so the active row sits at the offset.
        let desired: usize = if active >= offset {
            active - offset
        } else {
            0
        };
        // Clamp: don't scroll past the last row.
        let rows: usize = self.row_states.len();
        let max_start: usize = if rows >= visible {
            rows - visible
        } else {
            0
        };
        self.viewport_row = if desired <= max_start {
            desired
        } else {
            max_start
        };
    }

    /// The index of the first `InProgress` row, or the last `Done` row,
    /// or 0 if none qualify.
    pub fn active_row(&self) -> (row: usize)
        ensures
            row == self@.active(),
    {
        // First InProgress.
        let mut row: usize = 0;
        while row < self.row_states.len()
            invariant
                row <= self.row_states.len(),
                first_in_progress(self@.rows, 0) == first_in_progress(self@.rows, row as nat),
            decreases self.row_states.len() - row,
        {
            if self.row_states[row] == RowState::InProgress {
                return row;
            }
            row = row + 1;
        }
        // Last Done.
        let mut n: usize = self.row_states.len();
        while n > 0
            invariant
                n <= self.row_states.len(),
                first_in_progress(self@.rows, 0) is None,
                last_done(self@.rows, self@.rows.len()) == last_done(self@.rows, n as nat),
            decreases n,
        {
            n = n - 1;
            if self.row_states[n] == RowState::Done {
                return n;
            }
        }
        0
    }

    /// Cached column widths (one per column in the dataset).
    pub fn column_widths(&self) -> (widths: &[u16])
        ensures
            widths@ == self@.widths,
    {
        self.column_widths.as_slice()
    }
}

/// How a cell is shown.
pub open spec fn style_of_cell(cell: CellState, row: RowState) -> TextStyle {
    match (cell, row) {
        (CellState::Done, _) => TextStyle { color: Color::Green, bold: true },
        (CellState::Pending, RowState::InProgress) => TextStyle {
            color: Color::Plain,
            bold: false,
        },
        (CellState::Pending, _) => TextStyle { color: Color::DarkGray, bold: false },
    }
}

/// How a row number is shown.
pub open spec fn style_of_row(row: RowState) -> TextStyle {
    match row {
        RowState::InProgress => TextStyle { color: Color::Yellow, bold: true },
        RowState::Done => TextStyle { color: Color::Green, bold: false },
        RowState::Upcoming => TextStyle { color: Color::DarkGray, bold: false },
    }
}

/// Map semantic `(CellState, RowState)` to a style.
///
/// This is the single place that controls visual treatment.
/// Changing how "Done" looks means changing only this function.
pub fn cell_style(cell: CellState, row: RowState) -> (style: TextStyle)
    ensures
        style == style_of_cell(cell, row),
{
    match (cell, row) {
        (CellState::Done, _) => TextStyle { color: Color::Green, bold: true },
        (CellState::Pending, RowState::InProgress) => TextStyle {
            color: Color::Plain,
            bold: false,
        },
        (CellState::Pending, RowState::Upcoming) => TextStyle {
            color: Color::DarkGray,
            bold: false,
        },
        (CellState::Pending, RowState::Done) => TextStyle {
            color: Color::DarkGray,
            bold: false,
        },
    }
}

/// Style for the row-number cell on the left.
pub fn row_num_style(row: RowState) -> (style: TextStyle)
    ensures
        style == style_of_row(row),
{
    match row {
        RowState::InProgress => TextStyle { color: Color::Yellow, bold: true },
        RowState::Done => TextStyle { color: Color::Green, bold: false },
        RowState::Upcoming => TextStyle { color: Color::DarkGray, bold: false },
    }
}

/// Returns the list of column indices visible from `viewport_col` that fit
/// within `available_width` terminal columns.
pub fn visible_column_range(state: &TableState, col_count: usize, available_width: u16) -> (cols:
    Vec<usize>)
    requires
        col_count <= state@.widths.len(),
    ensures
        forall|i: int| 0 <= i < cols@.len() ==> #[trigger] cols@[i] == state@.viewport_col + i,
        cols@.len() > 0 ==> state@.viewport_col + cols@.len() <= col_count,
        columns_span(state@.widths, state@.viewport_col, cols@.len()) <= available_width,
        state@.viewport_col + cols@.len() < col_count ==> columns_span(
            state@.widths,
            state@.viewport_col,
            cols@.len() + 1,
        ) > available_width,
{
    let mut cols: Vec<usize> = Vec::new();
    let mut used: u32 = 0;
    let mut col: usize = state.viewport_col;
    while col < col_count
        invariant
            col_count <= state@.widths.len(),
            col == state@.viewport_col + cols@.len(),
            cols@.len() > 0 ==> col <= col_count,
            forall|i: int| 0 <= i < cols@.len() ==> #[trigger] cols@[i] == state@.viewport_col + i,
            used == columns_span(state@.widths, state@.viewport_col, cols@.len()),
            used <= available_width,
        ensures
            col == state@.viewport_col + cols@.len(),
            cols@.len() > 0 ==> col <= col_count,
            forall|i: int| 0 <= i < cols@.len() ==> #[trigger] cols@[i] == state@.viewport_col + i,
            used == columns_span(state@.widths, state@.viewport_col, cols@.len()),
            used <= available_width,
            col < col_count ==> columns_span(
                state@.widths,
                state@.viewport_col,
                cols@.len() + 1,
            ) > available_width,
        decreases col_count - col,
    {
        let width: u32 = state.column_widths[col] as u32;
        // +1 for the inter-column gap between cells.
        let needed: u32 = if cols.is_empty() {
            width
        } else {
            width + 1
        };
        if used + needed > available_width as u32 {
            break;
        }
        used = used + needed;
        cols.push(col);
        col = col + 1;
    }
    cols
}

/// The rows visible from `viewport_row` that fit into `available_rows` lines: the
/// first one, and the one behind the last.
pub fn visible_row_range(state: &TableState, row_count: usize, available_rows: u16) -> (rows: (
    usize,
    usize,
))
    ensures
        rows.0 == lesser(state@.viewport_row as int, row_count as int),
        rows.1 == lesser(rows.0 + available_rows, row_count as int),
{
    let first: usize = if state.viewport_row <= row_count {
        state.viewport_row
    } else {
        row_count
    };
    let left: usize = row_count - first;
    if left <= available_rows as usize {
        (first, row_count)
    } else {
        (first, first + available_rows as usize)
    }
}

/// The label over a column: its header, or `Column N` where there is none.
pub open spec fn label_of(data: DataSetView, col: nat) -> Seq<char> {
    if data.headers is Some && col < data.headers->0.len() && data.headers->0[col as int].len() > 0 {
        shortened(data.headers->0[col as int])
    } else {
        "Column "@ + text::decimal(col + 1)
    }
}

/// The label over a column: its header, or `Column N` where there is none.
pub fn column_label(dataset: &DataSet, col: usize) -> (label: String)
    ensures
        label@ == label_of(dataset@, col as nat),
{
    if let Some(headers) = dataset.headers() {
        if col < headers.len() {
            assert(headers.deep_view()[col as int] == headers@[col as int]@);
            if !headers[col].as_str().is_empty() {
                return truncate(&headers[col]);
            }
        }
    }
    text::joined("Column ", &text::decimal_text(col as u128 + 1))
}

/// The labels over the visible columns.
pub fn build_header(dataset: &DataSet, visible_cols: &Vec<usize>) -> (labels: Vec<String>)
    ensures
        labels.deep_view() == Seq::new(
            visible_cols@.len(),
            |i: int| label_of(dataset@, visible_cols@[i] as nat),
        ),
{
    let mut labels: Vec<String> = Vec::new();
    let mut i: usize = 0;
    while i < visible_cols.len()
        invariant
            i <= visible_cols.len(),
            labels@.len() == i,
            forall|k: int|
                0 <= k < i ==> (#[trigger] labels@[k])@ == label_of(
                    dataset@,
                    visible_cols@[k] as nat,
                ),
        decreases visible_cols.len() - i,
    {
        labels.push(column_label(dataset, visible_cols[i]));
        i = i + 1;
    }
    assert(labels.deep_view() =~= Seq::new(
        visible_cols@.len(),
        |i: int| label_of(dataset@, visible_cols@[i] as nat),
    ));
    labels
}

/// The width of the row-number column: wide enough for the largest row number,
/// and for two digits.
pub fn row_num_width(row_count: usize) -> (width: usize)
    ensures
        width == greater(text::decimal(row_count as nat).len() as int, 2),
{
    let digits = text::decimal_text(row_count as u128).as_str().unicode_len();
    if digits >= 2 {
        digits
    } else {
        2
    }
}

/// Text with spaces in front, up to a width.
pub open spec fn padded(text: Seq<char>, width: nat) -> Seq<char> {
    if text.len() >= width {
        text
    } else {
        Seq::new((width - text.len()) as nat, |i: int| ' ') + text
    }
}

/// The number of a row as shown, counted from one and right-aligned.
pub fn row_label(row: usize, width: usize) -> (label: String)
    ensures
        label@ == padded(text::decimal(row as nat + 1), width as nat),
{
    let number = text::decimal_text(row as u128 + 1);
    let len = number.as_str().unicode_len();
    let mut label = String::new();
    let mut i: usize = len;
    while i < width
        invariant
            len <= i,
            i <= width || i == len,
            label@ =~= Seq::new((i - len) as nat, |k: int| ' '),
        decreases width - i,
    {
        label.push(' ');
        i = i + 1;
    }
    label.append(&number);
    assert(label@ =~= padded(text::decimal(row as nat + 1), width as nat));
    label
}

/// A cell as shown: without non-printable characters, and cut to the column width.
pub open spec fn cell_text(data: DataSetView, row: nat, col: nat) -> Seq<char> {
    if row < data.rows.len() && col < data.rows[row as int].len() {
        shortened(sanitized(data.rows[row as int][col as int]))
    } else {
        seq![]
    }
}

/// The visible cells of a row as shown, each with its style.
pub fn build_row(dataset: &DataSet, state: &TableState, row: usize, visible_cols: &Vec<usize>) -> (
    cells: Vec<(String, TextStyle)>)
    requires
        row < state@.rows.len(),
        forall|i: int|
            0 <= i < visible_cols@.len() ==> state@.has_cell(
                row as int,
                #[trigger] visible_cols@[i] as int,
            ),
    ensures
        cells@.len() == visible_cols@.len(),
        forall|i: int|
            0 <= i < cells@.len() ==> {
                &&& (#[trigger] cells@[i]).0@ == cell_text(
                    dataset@,
                    row as nat,
                    visible_cols@[i] as nat,
                )
                &&& cells@[i].1 == style_of_cell(
                    state@.cells[row as int][visible_cols@[i] as int],
                    state@.rows[row as int],
                )
            },
{
    let row_state = state.row_state(row);
    let mut cells: Vec<(String, TextStyle)> = Vec::new();
    let mut i: usize = 0;
    while i < visible_cols.len()
        invariant
            i <= visible_cols.len(),
            row < state@.rows.len(),
            row_state == state@.rows[row as int],
            forall|i: int|
                0 <= i < visible_cols@.len() ==> state@.has_cell(
                    row as int,
                    #[trigger] visible_cols@[i] as int,
                ),
            cells@.len() == i,
            forall|i: int|
                0 <= i < cells@.len() ==> {
                    &&& (#[trigger] cells@[i]).0@ == cell_text(
                        dataset@,
                        row as nat,
                        visible_cols@[i] as nat,
                    )
                    &&& cells@[i].1 == style_of_cell(
                        state@.cells[row as int][visible_cols@[i] as int],
                        state@.rows[row as int],
                    )
                },
        decreases visible_cols.len() - i,
    {
        let col = visible_cols[i];
        let shown = match dataset.row(row) {
            Some(cells) => {
                if col < cells.len() {
                    assert(cells.deep_view()[col as int] == cells@[col as int]@);
                    truncate(&sanitize(&cells[col]))
                } else {
                    let nothing = String::new();
                    assert(nothing@ =~= seq![]);
                    nothing
                }
            },
            None => {
                let nothing = String::new();
                assert(nothing@ =~= seq![]);
                nothing
            },
        };
        cells.push((shown, cell_style(state.cell_state(row, col), row_state)));
        i = i + 1;
    }
    cells
}

/// The width of a column's header, within limits.
fn seed_width(dataset: &DataSet, col: usize) -> (width: u16)
    requires
        col < dataset@.column_count,
    ensures
        width == header_width(dataset@, col as nat),
        MIN_COL_WIDTH <= width <= MAX_COL_WIDTH,
{
    let longest: usize = MAX_COL_WIDTH as usize;
    if let Some(headers) = dataset.headers() {
        assert(headers.deep_view()[col as int] == headers@[col as int]@);
        if !headers[col].as_str().is_empty() {
            let len: usize = headers[col].as_str().len();
            return if len >= longest {
                MAX_COL_WIDTH
            } else if len <= MIN_COL_WIDTH as usize {
                MIN_COL_WIDTH
            } else {
                len as u16
            };
        }
    }
    // "Column N" fallback width.
    let digits: usize = text::decimal_text(col as u128 + 1).as_str().unicode_len();
    if digits >= longest - 7 {
        MAX_COL_WIDTH
    } else {
        (digits + 7) as u16
    }
}

/// Compute column widths from the full dataset.
///
/// For each column: max of header width (or, without a header, label width) and
/// all cell widths, capped at `MAX_COL_WIDTH`, floored at `MIN_COL_WIDTH`.
pub fn compute_col_widths(dataset: &DataSet) -> (widths: Vec<u16>)
    ensures
        widths@.len() == dataset@.column_count,
        forall|col: int|
            0 <= col < widths@.len() ==> #[trigger] widths@[col] == column_width(
                dataset@,
                col as nat,
                dataset@.rows.len(),
            ),
        forall|col: int|
            0 <= col < widths@.len() ==> MIN_COL_WIDTH <= #[trigger] widths@[col] <= MAX_COL_WIDTH,
{
    let mut widths: Vec<u16> = Vec::new();
    let col_count = dataset.column_count();
    let row_count = dataset.row_count();
    let mut col: usize = 0;
    while col < col_count
        invariant
            col <= col_count,
            col_count == dataset@.column_count,
            row_count == dataset@.rows.len(),
            dataset@.rectangular(),
            widths@.len() == col,
            forall|c: int|
                0 <= c < col ==> #[trigger] widths@[c] == column_width(
                    dataset@,
                    c as nat,
                    dataset@.rows.len(),
                ),
            forall|c: int| 0 <= c < col ==> MIN_COL_WIDTH <= #[trigger] widths@[c] <= MAX_COL_WIDTH,
        decreases col_count - col,
    {
        let mut width: u16 = seed_width(dataset, col);
        let mut row: usize = 0;
        while row < row_count
            invariant
                row <= row_count,
                col < col_count,
                col_count == dataset@.column_count,
                row_count == dataset@.rows.len(),
                width == column_width(dataset@, col as nat, row as nat),
                MIN_COL_WIDTH <= width <= MAX_COL_WIDTH,
            decreases row_count - row,
        {
            if let Some(cells) = dataset.row(row) {
                assert(cells.deep_view()[col as int] == cells@[col as int]@);
                let len: usize = cells[col].as_str().len();
                let capped: u16 = if len >= MAX_COL_WIDTH as usize {
                    MAX_COL_WIDTH
                } else {
                    len as u16
                };
                if capped > width {
                    width = capped;
                }
            }
            row = row + 1;
        }
        widths.push(width);
        col = col + 1;
    }
    widths
}

/// Whether a character is printable.
pub open spec fn printable(c: char) -> bool {
    c as u32 >= 0x20 && c as u32 != 0x7f
}

/// Text without its non-printable characters.
pub open spec fn sanitized(text: Seq<char>) -> Seq<char> {
    text.filter(|c: char| printable(c))
}

/// Strip non-printable characters (0x00-0x1f and 0x7f) from a string.
pub fn sanitize(s: &str) -> (clean: String)
    ensures
        clean@ == sanitized(s@),
{
    let len = s.unicode_len();
    let mut clean = String::new();
    let mut i: usize = 0;
    proof {
        reveal(Seq::filter);
        assert(s@.take(0) =~= Seq::empty());
        assert(clean@ =~= sanitized(s@.take(0)));
    }
    while i < len
        invariant
            i <= len,
            len == s@.len(),
            clean@ == sanitized(s@.take(i as int)),
        decreases len - i,
    {
        proof {
            reveal(Seq::filter);
            assert(s@.take(i + 1).drop_last() =~= s@.take(i as int));
        }
        let c = s.get_char(i);
        let code: u32 = c as u32;
        if code >= 0x20 && code != 0x7f {
            clean.push(c);
        }
        i = i + 1;
    }
    assert(s@.take(len as int) =~= s@);
    clean
}

/// Text cut to the widest column, with an ellipsis in place of what is cut off.
pub open spec fn shortened(text: Seq<char>) -> Seq<char> {
    if text.len() <= MAX_COL_WIDTH {
        text
    } else {
        text.take(MAX_COL_WIDTH - 1).push('…')
    }
}

/// Truncate a string to `MAX_COL_WIDTH` characters, appending `…` if truncated.
pub fn truncate(s: &str) -> (short: String)
    ensures
        short@ == shortened(s@),
{
    let max: usize = MAX_COL_WIDTH as usize;
    if s.unicode_len() <= max {
        s.to_owned()
    } else {
        let mut short = s.substring_char(0, max - 1).to_owned();
        short.push('…');
        assert(short@ =~= shortened(s@));
        short
    }
}

/// The active row is always among the visible ones.
pub proof fn law_active_row_visible(table: TableView, visible: nat)
    requires
        table.rows.len() > 0,
        visible > 0,
    ensures
        scrolled(table.active(), table.rows.len(), visible) <= table.active()
            < scrolled(table.active(), table.rows.len(), visible) + visible,
{
    lemma_active_is_row(table);
}

/// There is no scrolling past the last row.
pub proof fn law_no_scrolling_past_end(active: nat, row_count: nat, visible: nat)
    requires
        visible > 0,
    ensures
        scrolled(active, row_count, visible) + visible <= row_count || scrolled(
            active,
            row_count,
            visible,
        ) == 0,
{
}

/// The active row is a row.
proof fn lemma_active_is_row(table: TableView)
    requires
        table.rows.len() > 0,
    ensures
        table.active() < table.rows.len(),
{
    lemma_first_in_progress(table.rows, 0);
    lemma_last_done(table.rows, table.rows.len());
}

proof fn lemma_first_in_progress(rows: Seq<RowState>, from: nat)
    ensures
        first_in_progress(rows, from) matches Some(row) ==> row < rows.len(),
    decreases rows.len() - from,
{
    if from < rows.len() {
        lemma_first_in_progress(rows, from + 1);
    }
}

proof fn lemma_last_done(rows: Seq<RowState>, n: nat)
    ensures
        last_done(rows, n) matches Some(row) ==> row < n,
    decreases n,
{
    if n > 0 {
        lemma_last_done(rows, (n - 1) as nat);
    }
}

/// Sanitizing leaves only printable characters and does nothing a second time,
/// and what is shown of a cell is never longer than the widest column.
pub proof fn law_cells_are_printable(text: Seq<char>)
    ensures
        forall|i: int| 0 <= i < sanitized(text).len() ==> printable(#[trigger] sanitized(text)[i]),
        shortened(sanitized(text)).len() <= MAX_COL_WIDTH,
        sanitized(sanitized(text)) == sanitized(text),
{
    lemma_sanitized_printable(text);
    lemma_printable_kept(sanitized(text));
}

proof fn lemma_sanitized_printable(text: Seq<char>)
    ensures
        forall|i: int| 0 <= i < sanitized(text).len() ==> printable(#[trigger] sanitized(text)[i]),
    decreases text.len(),
{
    reveal(Seq::filter);
    if text.len() > 0 {
        lemma_sanitized_printable(text.drop_last());
    }
}

proof fn lemma_printable_kept(text: Seq<char>)
    requires
        forall|i: int| 0 <= i < text.len() ==> printable(#[trigger] text[i]),
    ensures
        sanitized(text) == text,
    decreases text.len(),
{
    reveal(Seq::filter);
    if text.len() > 0 {
        lemma_printable_kept(text.drop_last());
        assert(printable(text[text.len() - 1]));
        assert(text.drop_last().push(text.last()) =~= text);
    }
}

/// Setting a cell changes that cell and nothing else.
pub proof fn law_one_cell_changes(
    table: TableView,
    row: int,
    col: int,
    state: CellState,
    other_row: int,
    other_col: int,
)
    requires
        table.has_cell(row, col),
        table.has_cell(other_row, other_col),
    ensures
        ({
            let after = table.with_cell(row, col, state);
            &&& after.cells[row][col] == state
            &&& other_row != row || other_col != col ==> after.cells[other_row][other_col]
                == table.cells[other_row][other_col]
            &&& after.has_cell(other_row, other_col)
            &&& after.cells.len() == table.cells.len()
            &&& after.rows == table.rows
            &&& after.viewport_row == table.viewport_row
            &&& after.viewport_col == table.viewport_col
            &&& after.widths == table.widths
        }),
{
}

/// Setting a row changes the state of that row and nothing else.
pub proof fn law_one_row_changes(table: TableView, row: int, state: RowState, other: int)
    requires
        0 <= row < table.rows.len(),
        0 <= other < table.rows.len(),
    ensures
        ({
            let after = table.with_row(row, state);
            &&& after.rows[row] == state
            &&& other != row ==> after.rows[other] == table.rows[other]
            &&& after.rows.len() == table.rows.len()
            &&& after.cells == table.cells
            &&& after.viewport_row == table.viewport_row
            &&& after.viewport_col == table.viewport_col
            &&& after.widths == table.widths
        }),
{
}

/// The active row is the first one in progress; where none is, the last one that is
/// done; and where none is that either, the first row.
pub proof fn law_which_row_is_active(table: TableView, row: int)
    requires
        0 <= row < table.rows.len(),
    ensures
        table.active() < table.rows.len(),
        table.rows[row] == RowState::InProgress ==> table.active() <= row
            && table.rows[table.active() as int] == RowState::InProgress,
        (forall|r: int| 0 <= r < table.rows.len() ==> table.rows[r] != RowState::InProgress)
            && table.rows[row] == RowState::Done ==> table.active() >= row
            && table.rows[table.active() as int] == RowState::Done,
        (forall|r: int|
            0 <= r < table.rows.len() ==> #[trigger] table.rows[r] == RowState::Upcoming)
            ==> table.active() == 0,
{
    lemma_which_in_progress(table.rows, 0);
    lemma_which_done(table.rows, table.rows.len());
}

/// The search for a row in progress finds the first one.
proof fn lemma_which_in_progress(rows: Seq<RowState>, from: nat)
    ensures
        match first_in_progress(rows, from) {
            Some(row) => {
                &&& from <= row < rows.len()
                &&& rows[row as int] == RowState::InProgress
                &&& forall|r: int|
                    from <= r < row ==> #[trigger] rows[r] != RowState::InProgress
            },
            None => forall|r: int|
                from <= r < rows.len() ==> #[trigger] rows[r] != RowState::InProgress,
        },
    decreases rows.len() - from,
{
    if from < rows.len() {
        lemma_which_in_progress(rows, from + 1);
    }
}

/// The search for a row that is done finds the last one.
proof fn lemma_which_done(rows: Seq<RowState>, n: nat)
    requires
        n <= rows.len(),
    ensures
        match last_done(rows, n) {
            Some(row) => {
                &&& row < n
                &&& rows[row as int] == RowState::Done
                &&& forall|r: int| row < r < n ==> #[trigger] rows[r] != RowState::Done
            },
            None => forall|r: int| 0 <= r < n ==> #[trigger] rows[r] != RowState::Done,
        },
    decreases n,
{
    if n > 0 {
        lemma_which_done(rows, (n - 1) as nat);
    }
}

/// The active row stands a third of the way down, one line at least, as long as there
/// are rows enough above and below it; the table is scrolled no further than needed to
/// show its first or its last rows.
pub proof fn law_active_row_in_top_third(active: nat, row_count: nat, visible: nat)
    requires
        active < row_count,
        visible >= 2,
    ensures
        ({
            let first = scrolled(active, row_count, visible);
            let above = if visible < 6 {
                1
            } else {
                visible as int / 3
            };
            &&& active <= above ==> first == 0
            &&& active >= above && active - above + visible <= row_count ==> first + above
                == active
            &&& active >= above && active - above + visible > row_count ==> first == if row_count
                >= visible {
                row_count - visible
            } else {
                0
            }
        }),
{
}

/// A column is wide enough for what stands over it and for each of its cells, or as
/// wide as a column can be; it is no wider than the widest of them, unless the
/// narrowest column is wider still.
pub proof fn law_column_fits_contents(data: DataSetView, col: nat, n: nat, row: int)
    requires
        n <= data.rows.len(),
    ensures
        4 <= column_width(data, col, n) <= 30,
        0 <= row < n ==> byte_len(data.rows[row][col as int]) <= column_width(data, col, n)
            || column_width(data, col, n) == 30,
        data.headers is Some && data.headers->0[col as int].len() > 0 ==> byte_len(
            data.headers->0[col as int],
        ) <= column_width(data, col, n) || column_width(data, col, n) == 30,
        data.headers is None || data.headers->0[col as int].len() == 0 ==> "Column "@.len()
            + text::decimal(col + 1).len() <= column_width(data, col, n) || column_width(
            data,
            col,
            n,
        ) == 30,
        column_width(data, col, n) == 4 || column_width(data, col, n) <= over_column(data, col)
            || exists|r: int|
            0 <= r < n && column_width(data, col, n) <= byte_len(
                #[trigger] data.rows[r][col as int],
            ),
    decreases n,
{
    reveal_strlit("Column ");
    if n > 0 {
        law_column_fits_contents(data, col, (n - 1) as nat, row);
        let before = column_width(data, col, (n - 1) as nat);
        if column_width(data, col, n) > before {
            assert(column_width(data, col, n) <= byte_len(data.rows[n - 1][col as int]));
        } else if before != 4 && before > over_column(data, col) {
            let r = choose|r: int|
                0 <= r < n - 1 && before <= byte_len(#[trigger] data.rows[r][col as int]);
            assert(column_width(data, col, n) <= byte_len(data.rows[r][col as int]));
        }
    }
}

/// The size of what stands over a column: its header, if there is one that is not
/// empty, or else the label with its number.
pub open spec fn over_column(data: DataSetView, col: nat) -> nat {
    if data.headers is Some && data.headers->0[col as int].len() > 0 {
        byte_len(data.headers->0[col as int])
    } else {
        "Column "@.len() + text::decimal(col + 1).len()
    }
}

/// Columns side by side take the space of the left ones, a gap of one, and the space of
/// the right ones.
pub proof fn law_columns_side_by_side(widths: Seq<u16>, from: nat, left: nat, right: nat)
    requires
        left > 0,
        right > 0,
    ensures
        columns_span(widths, from, left + right) == columns_span(widths, from, left) + 1
            + columns_span(widths, from + left, right),
        columns_span(widths, from, 0) == 0,
        columns_span(widths, from, 1) == widths[from as int],
    decreases right,
{
    if right > 1 {
        law_columns_side_by_side(widths, from, left, (right - 1) as nat);
        assert(from + left + right - 1 == from + (left + right) - 1);
    }
}

/// Sanitizing takes out control characters and nothing else: every other character
/// stays where it is between the others.
pub proof fn law_only_control_characters_go(before: Seq<char>, c: char, behind: Seq<char>)
    ensures
        sanitized(before + seq![c] + behind) == if c < ' ' || c == '\x7f' {
            sanitized(before) + sanitized(behind)
        } else {
            sanitized(before) + seq![c] + sanitized(behind)
        },
        sanitized(Seq::empty()) == Seq::<char>::empty(),
{
    let pred = |c: char| printable(c);
    Seq::filter_distributes_over_add(before + seq![c], behind, pred);
    Seq::filter_distributes_over_add(before, seq![c], pred);
    assert(seq![c].filter(pred) =~= if printable(c) {
        seq![c]
    } else {
        seq![]
    }) by {
        reveal(Seq::filter);
        reveal_with_fuel(Seq::filter, 2);
        assert(seq![c].drop_last() =~= seq![]);
    }
    assert(sanitized(Seq::empty()) =~= Seq::<char>::empty()) by {
        reveal(Seq::filter);
    }
    assert(sanitized(before) + Seq::<char>::empty() + sanitized(behind) =~= sanitized(before)
        + sanitized(behind));
}

/// A text that fits is shown as it is; of a longer one all places but the last show how
/// it begins, and the last an ellipsis.
pub proof fn law_how_text_is_cut(text: Seq<char>, i: int)
    ensures
        text.len() <= 30 ==> shortened(text) == text,
        text.len() > 30 ==> {
            &&& shortened(text).len() == 30
            &&& shortened(text)[29] == '…'
            &&& 0 <= i < 29 ==> shortened(text)[i] == text[i]
        },
{
}

/// A cell that is short and has no control characters is shown as it is; where there
/// is no cell nothing is shown.
pub proof fn law_plain_cells_are_shown(data: DataSetView, row: nat, col: nat)
    ensures
        row < data.rows.len() && col < data.rows[row as int].len() ==> {
            let cell = data.rows[row as int][col as int];
            cell.len() <= 30 && (forall|i: int|
                0 <= i < cell.len() ==> ' ' <= #[trigger] cell[i] && cell[i] != '\x7f')
                ==> cell_text(data, row, col) == cell
        },
        row >= data.rows.len() || col >= data.rows[row as int].len() ==> cell_text(
            data,
            row,
            col,
        ).len() == 0,
{
    if row < data.rows.len() && col < data.rows[row as int].len() {
        let cell = data.rows[row as int][col as int];
        if forall|i: int|
            0 <= i < cell.len() ==> ' ' <= #[trigger] cell[i] && cell[i] != '\x7f' {
            assert forall|i: int| 0 <= i < cell.len() implies printable(#[trigger] cell[i]) by {
                lemma_visible(cell[i]);
            }
            lemma_printable_kept(cell);
        }
    }
}

/// A character that is no control character is printable.
proof fn lemma_visible(c: char)
    requires
        ' ' <= c && c != '\x7f',
    ensures
        printable(c),
{
}

/// Padding puts spaces in front, as many as are missing, and takes nothing away.
pub proof fn law_padding_in_front(text: Seq<char>, width: nat, i: int)
    ensures
        padded(text, width).len() == if text.len() >= width {
            text.len()
        } else {
            width
        },
        0 <= i < text.len() ==> padded(text, width)[padded(text, width).len() - text.len() + i]
            == text[i],
        0 <= i < padded(text, width).len() - text.len() ==> padded(text, width)[i] == ' ',
{
}

/// A header that fits is the label as it is; without one the label is the column's
/// number, counted from one.
pub proof fn law_labels(data: DataSetView, col: nat)
    ensures
        data.headers is Some && col < data.headers->0.len() && 0 < data.headers->0[col as int].len()
            <= 30 ==> label_of(data, col) == data.headers->0[col as int],
        data.headers is None ==> text::digits_value(label_of(data, col).skip(7)) == col + 1,
{
    reveal_strlit("Column ");
    text::law_decimal_stands_for_number(col + 1);
    if data.headers is None {
        assert(label_of(data, col).skip(7) =~= text::decimal(col + 1));
    }
}

/// A cell that is done looks different from one that is not, whatever their rows are
/// like, and rows of different states have different numbers.
pub proof fn law_states_look_different(one: RowState, other: RowState)
    ensures
        style_of_cell(CellState::Done, one) != style_of_cell(CellState::Pending, other),
        style_of_cell(CellState::Done, one) == style_of_cell(CellState::Done, other),
        one == RowState::InProgress && other != RowState::InProgress ==> style_of_cell(
            CellState::Pending,
            one,
        ) != style_of_cell(CellState::Pending, other),
        one != other ==> style_of_row(one) != style_of_row(other),
{
}

} // verus!
