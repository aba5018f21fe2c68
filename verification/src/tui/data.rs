//! Data preview screen: is the first row headers or data?
use vstd::prelude::*;
use crate::data::parse::DataSetView;
use crate::data::DataSet;
use crate::text;
use super::table;
use super::table::{MAX_COL_WIDTH, MIN_COL_WIDTH};
use super::{Color, KeyCode, KeyPress, Span, SpanView};

verus! {

/// How many rows the preview looks at.
pub const MAX_PREVIEW_ROWS: usize = 20;

/// What the preview screen shows.
#[derive(Debug, Clone, Copy, PartialEq, Eq, Structural)]
pub enum Screen {
    /// Waiting for the user to press `h` or `d`.
    WaitingForHeaderChoice,
    /// User chose; showing the configured table summary.
    ShowingDataSummary { with_headers: bool },
}

/// How the preview screen ends.
#[derive(Debug, Clone, Copy, PartialEq, Eq, Structural)]
pub enum LoopOutcome {
    Continue { with_headers: bool },
    Quit,
}

/// What a key leads to: the screen shown next, and how it ends, if it does.
pub open spec fn pressed(screen: Screen, key: KeyPress) -> (Screen, Option<LoopOutcome>) {
    if key.quits() {
        (screen, Some(LoopOutcome::Quit))
    } else {
        match screen {
            Screen::WaitingForHeaderChoice => if key.code == KeyCode::Char('h') {
                (Screen::ShowingDataSummary { with_headers: true }, None)
            } else if key.code == KeyCode::Char('d') {
                (Screen::ShowingDataSummary { with_headers: false }, None)
            } else {
                (screen, None)
            },
            Screen::ShowingDataSummary { with_headers } => if key.code == KeyCode::Enter {
                (screen, Some(LoopOutcome::Continue { with_headers }))
            } else {
                (screen, None)
            },
        }
    }
}

/// Handles a key press.
pub fn handle_event(key: KeyPress, screen: &mut Screen) -> (outcome: Option<LoopOutcome>)
    ensures
        (*final(screen), outcome) == pressed(*old(screen), key),
{
    // Quit from anywhere.
    if key.is_quit() {
        return Some(LoopOutcome::Quit);
    }
    match *screen {
        Screen::WaitingForHeaderChoice => {
            if key.code == KeyCode::Char('h') {
                *screen = Screen::ShowingDataSummary { with_headers: true };
            } else if key.code == KeyCode::Char('d') {
                *screen = Screen::ShowingDataSummary { with_headers: false };
            }
            None
        },
        Screen::ShowingDataSummary { with_headers } => {
            if key.code == KeyCode::Enter {
                Some(LoopOutcome::Continue { with_headers })
            } else {
                None
            }
        },
    }
}

/// The data set as the user configured it, unless they quit.
pub fn configured(dataset: DataSet, outcome: LoopOutcome) -> (data: Option<DataSet>)
    ensures
        match outcome {
            LoopOutcome::Continue { with_headers } => data is Some && data->0@ == if with_headers {
                dataset@.headed()
            } else {
                dataset@
            },
            LoopOutcome::Quit => data is None,
        },
{
    match outcome {
        LoopOutcome::Continue { with_headers: true } => Some(dataset.with_first_row_as_headers()),
        LoopOutcome::Continue { with_headers: false } => Some(dataset),
        LoopOutcome::Quit => None,
    }
}

/// Whether the first row is shown as headers.
pub open spec fn shows_headers(screen: Screen) -> bool {
    screen == (Screen::ShowingDataSummary { with_headers: true })
}

/// The title over the table.
pub open spec fn title(data: DataSetView, screen: Screen) -> Seq<char> {
    match screen {
        Screen::WaitingForHeaderChoice => " Data Preview "@,
        Screen::ShowingDataSummary { with_headers } => {
            let rows = if with_headers && data.rows.len() > 0 {
                (data.rows.len() - 1) as nat
            } else {
                data.rows.len()
            };
            " Data Preview — "@ + text::decimal(rows) + " rows × "@ + text::decimal(
                data.column_count,
            ) + " columns "@
        },
    }
}

/// The title over the table.
pub fn table_title(dataset: &DataSet, screen: Screen) -> (shown: String)
    ensures
        shown@ == title(dataset@, screen),
{
    match screen {
        Screen::WaitingForHeaderChoice => " Data Preview ".to_owned(),
        Screen::ShowingDataSummary { with_headers } => {
            let mut rows: usize = dataset.row_count();
            if with_headers && rows > 0 {
                rows = rows - 1;
            }
            let mut shown = " Data Preview — ".to_owned();
            shown.append(&text::decimal_text(rows as u128));
            shown.append(" rows × ");
            shown.append(&text::decimal_text(dataset.column_count() as u128));
            shown.append(" columns ");
            shown
        },
    }
}

/// The labels over the columns: the first row, or `Column N`.
pub open spec fn header_labels(data: DataSetView, screen: Screen) -> Seq<Seq<char>> {
    if shows_headers(screen) {
        if data.rows.len() > 0 {
            data.rows[0]
        } else {
            seq![]
        }
    } else {
        Seq::new(data.column_count, |col: int| "Column "@ + text::decimal((col + 1) as nat))
    }
}

/// The labels over the columns, and the index of the first row that is data.
pub fn build_header_row(dataset: &DataSet, screen: Screen) -> (header: (Vec<String>, usize))
    ensures
        header.0.deep_view() == header_labels(dataset@, screen),
        header.1 == if shows_headers(screen) {
            1int
        } else {
            0
        },
{
    let mut labels: Vec<String> = Vec::new();
    match screen {
        Screen::ShowingDataSummary { with_headers: true } => {
            // Use actual row-0 values as column names; data starts at row 1.
            if let Some(row) = dataset.row(0) {
                let mut col: usize = 0;
                while col < row.len()
                    invariant
                        col <= row.len(),
                        labels.deep_view() == row.deep_view().take(col as int),
                    decreases row.len() - col,
                {
                    let ghost before = labels.deep_view();
                    labels.push(row[col].clone());
                    assert(labels.deep_view() =~= before.push(row.deep_view()[col as int]));
                    col = col + 1;
                }
            }
            assert(labels.deep_view() =~= header_labels(dataset@, screen));
            (labels, 1)
        },
        _ => {
            // Auto-generated "Column N" names; all rows are data.
            let columns = dataset.column_count();
            let mut col: usize = 0;
            while col < columns
                invariant
                    col <= columns,
                    labels@.len() == col,
                    forall|k: int|
                        0 <= k < col ==> (#[trigger] labels@[k])@ == "Column "@ + text::decimal(
                            (k + 1) as nat,
                        ),
                decreases columns - col,
            {
                labels.push(text::joined("Column ", &text::decimal_text(col as u128 + 1)));
                col = col + 1;
            }
            assert(labels.deep_view() =~= header_labels(dataset@, screen));
            (labels, 0)
        },
    }
}

/// Texts with a separator between two of them.
pub open spec fn separated(texts: Seq<Seq<char>>, separator: Seq<char>) -> Seq<char>
    decreases texts.len(),
{
    if texts.len() == 0 {
        seq![]
    } else if texts.len() == 1 {
        texts[0]
    } else {
        separated(texts.drop_last(), separator) + separator + texts.last()
    }
}

/// Joins texts with a separator between two of them.
pub fn join(texts: &[String], separator: &str) -> (joined: String)
    ensures
        joined@ == separated(texts.deep_view(), separator@),
{
    let mut joined = String::new();
    let ghost all = texts.deep_view();
    let mut i: usize = 0;
    assert(joined@ =~= separated(all.take(0), separator@));
    while i < texts.len()
        invariant
            i <= texts.len(),
            all == texts.deep_view(),
            joined@ == separated(all.take(i as int), separator@),
        decreases texts.len() - i,
    {
        assert(all.take(i + 1).drop_last() =~= all.take(i as int));
        assert(all.take(i + 1).last() == texts@[i as int]@);
        if i > 0 {
            joined.append(separator);
        } else {
            assert(joined@ + texts@[0]@ =~= texts@[0]@);
        }
        joined.append(&texts[i]);
        i = i + 1;
    }
    assert(all.take(all.len() as int) =~= all);
    joined
}

/// The hint that leads on.
pub open spec fn continue_hint() -> Seq<SpanView> {
    seq![
        super::colored_span("[Enter]"@, Color::Green),
        super::plain_span(" Continue   "@),
        super::colored_span("[q]"@, Color::Red),
        super::plain_span(" Quit"@),
    ]
}

/// The lines below the table.
pub open spec fn prompt(data: DataSetView, screen: Screen) -> Seq<Seq<SpanView>> {
    match screen {
        Screen::WaitingForHeaderChoice => seq![
            seq![super::plain_span("Is row 1 headers or data?"@)],
            seq![
                super::colored_span("[h]"@, Color::Green),
                super::plain_span(" Headers   "@),
                super::colored_span("[d]"@, Color::Green),
                super::plain_span(" Data   "@),
                super::colored_span("[q]"@, Color::Red),
                super::plain_span(" Quit"@),
            ],
        ],
        Screen::ShowingDataSummary { with_headers: true } => seq![
            seq![super::plain_span("Headers: "@ + separated(header_labels(data, screen), ", "@))],
            continue_hint(),
        ],
        Screen::ShowingDataSummary { with_headers: false } => seq![
            seq![super::plain_span("All rows are data, no headers."@)],
            continue_hint(),
        ],
    }
}

/// The hint that leads on.
fn continue_spans() -> (spans: Vec<Span>)
    ensures
        spans.deep_view() == continue_hint(),
{
    let mut spans: Vec<Span> = Vec::new();
    spans.push(super::colored("[Enter]", Color::Green));
    spans.push(super::plain(" Continue   "));
    spans.push(super::colored("[q]", Color::Red));
    spans.push(super::plain(" Quit"));
    assert(spans.deep_view() =~= continue_hint());
    spans
}

/// The lines below the table.
pub fn prompt_lines(dataset: &DataSet, screen: Screen) -> (lines: Vec<Vec<Span>>)
    ensures
        lines.deep_view() == prompt(dataset@, screen),
{
    let mut lines: Vec<Vec<Span>> = Vec::new();
    match screen {
        Screen::WaitingForHeaderChoice => {
            lines.push(super::line(super::plain("Is row 1 headers or data?")));
            let mut spans: Vec<Span> = Vec::new();
            spans.push(super::colored("[h]", Color::Green));
            spans.push(super::plain(" Headers   "));
            spans.push(super::colored("[d]", Color::Green));
            spans.push(super::plain(" Data   "));
            spans.push(super::colored("[q]", Color::Red));
            spans.push(super::plain(" Quit"));
            assert(spans.deep_view() =~= prompt(dataset@, screen)[1]);
            lines.push(spans);
        },
        Screen::ShowingDataSummary { with_headers: true } => {
            let (names, _) = build_header_row(dataset, screen);
            let names = join(names.as_slice(), ", ");
            lines.push(super::line(super::plain(&text::joined("Headers: ", &names))));
            lines.push(continue_spans());
        },
        Screen::ShowingDataSummary { with_headers: false } => {
            lines.push(super::line(super::plain("All rows are data, no headers.")));
            lines.push(continue_spans());
        },
    }
    assert(lines.deep_view() =~= prompt(dataset@, screen));
    lines
}

/// The width of a column in the preview over its label and its cells in the first
/// `n` rows.
pub open spec fn preview_width(data: DataSetView, col: nat, n: nat) -> nat
    decreases n,
{
    if n == 0 {
        table::greater(
            table::lesser((7 + text::decimal(col + 1).len()) as int, MAX_COL_WIDTH as int),
            MIN_COL_WIDTH as int,
        ) as nat
    } else {
        table::greater(
            preview_width(data, col, (n - 1) as nat) as int,
            table::lesser(table::byte_len(data.rows[n - 1][col as int]) as int, MAX_COL_WIDTH as int),
        ) as nat
    }
}

/// The rows that the preview looks at.
pub open spec fn previewed(data: DataSetView) -> nat {
    table::lesser(data.rows.len() as int, MAX_PREVIEW_ROWS as int) as nat
}

/// The column widths of the preview.
///
/// Starts with the width of auto-generated "Column N" labels so they
/// are never truncated in the initial header-choice screen.
pub fn compute_col_widths(dataset: &DataSet) -> (widths: Vec<u16>)
    ensures
        widths@.len() == dataset@.column_count,
        forall|col: int|
            0 <= col < widths@.len() ==> #[trigger] widths@[col] == preview_width(
                dataset@,
                col as nat,
                previewed(dataset@),
            ),
        forall|col: int|
            0 <= col < widths@.len() ==> MIN_COL_WIDTH <= #[trigger] widths@[col] <= MAX_COL_WIDTH,
{
    let mut widths: Vec<u16> = Vec::new();
    let col_count = dataset.column_count();
    let row_count: usize = if dataset.row_count() <= MAX_PREVIEW_ROWS {
        dataset.row_count()
    } else {
        MAX_PREVIEW_ROWS
    };
    let mut col: usize = 0;
    while col < col_count
        invariant
            col <= col_count,
            col_count == dataset@.column_count,
            row_count == previewed(dataset@),
            widths@.len() == col,
            forall|c: int|
                0 <= c < col ==> #[trigger] widths@[c] == preview_width(
                    dataset@,
                    c as nat,
                    previewed(dataset@),
                ),
            forall|c: int| 0 <= c < col ==> MIN_COL_WIDTH <= #[trigger] widths@[c] <= MAX_COL_WIDTH,
        decreases col_count - col,
    {
        let digits: usize = text::decimal_text(col as u128 + 1).as_str().unicode_len();
        let mut width: u16 = if digits >= MAX_COL_WIDTH as usize - 7 {
            MAX_COL_WIDTH
        } else {
            (digits + 7) as u16
        };
        let mut row: usize = 0;
        while row < row_count
            invariant
                row <= row_count,
                col < col_count,
                col_count == dataset@.column_count,
                row_count == previewed(dataset@),
                width == preview_width(dataset@, col as nat, row as nat),
                MIN_COL_WIDTH <= width <= MAX_COL_WIDTH,
            decreases row_count - row,
        {
            if let Some(cells) = dataset.row(row) {
                assert(cells.deep_view()[col as int] == cells@[col as int]@);
                let len: usize = cells[col].as_str().len();
                let capped: u16 = if len >= MAX_COL_WIDTH as usize {
                    MAX_COL_WIDTH
                } else {
                    len as u16
                };
                if capped > width {
                    width = capped;
                }
            }
            row = row + 1;
        }
        widths.push(width);
        col = col + 1;
    }
    widths
}

/// Whether the preview can cut a text: it is short, or the cut is between two
/// characters.
pub open spec fn cuttable(text: Seq<char>) -> bool {
    table::byte_len(text) > MAX_COL_WIDTH ==> vstd::utf8::is_char_boundary(
        vstd::utf8::encode_utf8(text),
        MAX_COL_WIDTH - 1,
    )
}

/// What the preview shows of a text: all of it, or, where it takes more bytes than
/// the widest column, those before the last place and an ellipsis.
pub open spec fn cut(text: Seq<char>, short: Seq<char>) -> bool {
    if table::byte_len(text) > MAX_COL_WIDTH {
        &&& short.len() > 0
        &&& short.last() == '…'
        &&& vstd::utf8::encode_utf8(short.drop_last()) == vstd::utf8::encode_utf8(
            text,
        ).subrange(0, MAX_COL_WIDTH - 1)
    } else {
        short == text
    }
}

/// Truncate a string to the width of the widest column, in bytes.
pub fn truncate(s: &str) -> (short: String)
    requires
        cuttable(s@),
    ensures
        cut(s@, short@),
{
    let max: usize = MAX_COL_WIDTH as usize;
    if s.len() > max {
        let (kept, _) = s.split_at(max - 1);
        let mut short = kept.to_owned();
        short.push('…');
        assert(short@.drop_last() =~= kept@);
        short
    } else {
        s.to_owned()
    }
}

/// A row of the preview.
pub struct PreviewRow {
    /// The row's number as shown.
    pub number: String,
    /// The cells as shown.
    pub cells: Vec<String>,
    /// Whether the row is the one that the user is asked about.
    pub highlighted: bool,
}

/// The rows of the preview: up to twenty data rows, numbered from one.
pub fn build_data_rows(dataset: &DataSet, screen: Screen, data_start: usize) -> (rows: Vec<
    PreviewRow,
>)
    requires
        forall|r: int, c: int|
            data_start <= r < data_start + MAX_PREVIEW_ROWS && r < dataset@.rows.len() && 0 <= c
                < dataset@.rows[r].len() ==> cuttable(#[trigger] dataset@.rows[r][c]),
    ensures
        rows@.len() == table::greater(
            0,
            table::lesser(dataset@.rows.len() - data_start, MAX_PREVIEW_ROWS as int),
        ),
        forall|i: int|
            0 <= i < rows@.len() ==> {
                &&& (#[trigger] rows@[i]).number@ == text::decimal((i + 1) as nat)
                &&& rows@[i].highlighted == (data_start + i == 0 && screen
                    == Screen::WaitingForHeaderChoice)
                &&& rows@[i].cells@.len() == dataset@.column_count
                &&& forall|c: int|
                    0 <= c < dataset@.column_count ==> cut(
                        dataset@.rows[data_start + i][c],
                        (#[trigger] rows@[i].cells@[c])@,
                    )
            },
{
    let mut rows: Vec<PreviewRow> = Vec::new();
    let row_count = dataset.row_count();
    let col_count = dataset.column_count();
    let mut row: usize = data_start;
    while row < row_count && rows.len() < MAX_PREVIEW_ROWS
        invariant
            row_count == dataset@.rows.len(),
            col_count == dataset@.column_count,
            row == data_start + rows@.len(),
            rows@.len() > 0 ==> row <= row_count,
            rows@.len() <= MAX_PREVIEW_ROWS,
            forall|r: int, c: int|
                data_start <= r < data_start + MAX_PREVIEW_ROWS && r < dataset@.rows.len() && 0 <= c
                    < dataset@.rows[r].len() ==> cuttable(#[trigger] dataset@.rows[r][c]),
            forall|i: int|
                0 <= i < rows@.len() ==> {
                    &&& (#[trigger] rows@[i]).number@ == text::decimal((i + 1) as nat)
                    &&& rows@[i].highlighted == (data_start + i == 0 && screen
                        == Screen::WaitingForHeaderChoice)
                    &&& rows@[i].cells@.len() == dataset@.column_count
                    &&& forall|c: int|
                        0 <= c < dataset@.column_count ==> cut(
                            dataset@.rows[data_start + i][c],
                            (#[trigger] rows@[i].cells@[c])@,
                        )
                },
        decreases row_count - row,
    {
        let mut cells: Vec<String> = Vec::new();
        if let Some(values) = dataset.row(row) {
            let mut col: usize = 0;
            while col < values.len()
                invariant
                    col <= values.len(),
                    row < dataset@.rows.len(),
                    values.deep_view() == dataset@.rows[row as int],
                    values@.len() == dataset@.column_count,
                    cells@.len() == col,
                    forall|c: int|
                        0 <= c < dataset@.rows[row as int].len() ==> cuttable(
                            #[trigger] dataset@.rows[row as int][c],
                        ),
                    forall|c: int|
                        0 <= c < col ==> cut(
                            dataset@.rows[row as int][c],
                            (#[trigger] cells@[c])@,
                        ),
                decreases values.len() - col,
            {
                assert(dataset@.rows[row as int][col as int] == values@[col as int]@);
                cells.push(truncate(&values[col]));
                col = col + 1;
            }
        }
        let number = text::decimal_text((row - data_start) as u128 + 1);
        // Highlight row 1 when asking the headers question.
        let highlighted = row == 0 && screen == Screen::WaitingForHeaderChoice;
        rows.push(PreviewRow { number, cells, highlighted });
        row = row + 1;
    }
    rows
}

/// The choice that the user makes is the one that the preview shows and goes on with:
/// `h` takes the first row as headers, `d` as data, and Enter goes on with the choice
/// made last.
pub proof fn law_choice_is_kept(first: KeyPress, second: KeyPress)
    requires
        !first.ctrl,
        second.code == KeyCode::Enter,
    ensures
        ({
            let (shown, ended) = pressed(Screen::WaitingForHeaderChoice, first);
            &&& first.code == KeyCode::Char('h') ==> ended is None && pressed(shown, second).1
                == Some(LoopOutcome::Continue { with_headers: true }) && shows_headers(shown)
            &&& first.code == KeyCode::Char('d') ==> ended is None && pressed(shown, second).1
                == Some(LoopOutcome::Continue { with_headers: false }) && !shows_headers(shown)
            &&& first.code == KeyCode::Char('q') ==> ended == Some(LoopOutcome::Quit)
            &&& first.code != KeyCode::Char('h') && first.code != KeyCode::Char('d') && first.code
                != KeyCode::Char('q') ==> shown == Screen::WaitingForHeaderChoice && ended is None
        }),
{
}

/// The preview ends only by quitting, or by Enter once the choice is made; a choice
/// that was made stays as it is.
pub proof fn law_preview_ends(screen: Screen, key: KeyPress)
    ensures
        pressed(screen, key).1 == Some(LoopOutcome::Quit) <==> key.code == KeyCode::Char('q')
            || key.code == KeyCode::Char('c') && key.ctrl,
        pressed(screen, key).1 is Some && pressed(screen, key).1->0 is Continue ==> screen
            is ShowingDataSummary && key.code == KeyCode::Enter,
        screen is ShowingDataSummary ==> pressed(screen, key).0 == screen,
{
}

/// Joining two lists of texts joins each and puts the separator between them.
pub proof fn law_joined_lists(left: Seq<Seq<char>>, right: Seq<Seq<char>>, separator: Seq<char>)
    requires
        left.len() > 0,
        right.len() > 0,
    ensures
        separated(left + right, separator) == separated(left, separator) + separator + separated(
            right,
            separator,
        ),
        separated(Seq::empty(), separator).len() == 0,
        forall|text: Seq<char>| #[trigger] separated(seq![text], separator) == text,
    decreases right.len(),
{
    let whole = left + right;
    assert(whole.last() == right.last());
    if right.len() == 1 {
        assert(whole.drop_last() =~= left);
    } else {
        law_joined_lists(left, right.drop_last(), separator);
        assert(whole.drop_last() =~= left + right.drop_last());
        assert(separated(left, separator) + separator + separated(right.drop_last(), separator)
            + separator + right.last() =~= separated(left, separator) + separator + (separated(
            right.drop_last(),
            separator,
        ) + separator + right.last()));
    }
}

/// The labels over the preview are the first row where it is taken as headers, and
/// otherwise the numbers of the columns, counted from one, with one for each column.
pub proof fn law_preview_labels(data: DataSetView, screen: Screen, col: int)
    requires
        data.rectangular(),
        data.rows.len() > 0,
        0 <= col < data.column_count,
    ensures
        header_labels(data, screen).len() == data.column_count,
        screen == (Screen::ShowingDataSummary { with_headers: true }) ==> header_labels(
            data,
            screen,
        )[col] == data.rows[0][col],
        screen != (Screen::ShowingDataSummary { with_headers: true }) ==> text::digits_value(
            header_labels(data, screen)[col].skip(7),
        ) == col + 1,
{
    reveal_strlit("Column ");
    text::law_decimal_stands_for_number((col + 1) as nat);
    let label = "Column "@ + text::decimal((col + 1) as nat);
    assert(label.skip(7) =~= text::decimal((col + 1) as nat));
}

/// A column of the preview is wide enough for its number and for each of its cells that
/// the preview looks at, or as wide as a column can be.
pub proof fn law_preview_fits_contents(data: DataSetView, col: nat, n: nat, row: int)
    requires
        n <= data.rows.len(),
    ensures
        4 <= preview_width(data, col, n) <= 30,
        0 <= row < n ==> table::byte_len(data.rows[row][col as int]) <= preview_width(data, col, n)
            || preview_width(data, col, n) == 30,
        "Column "@.len() + text::decimal(col + 1).len() <= preview_width(data, col, n)
            || preview_width(data, col, n) == 30,
        preview_width(data, col, n) <= "Column "@.len() + text::decimal(col + 1).len() || exists|r: int|
            0 <= r < n && preview_width(data, col, n) <= table::byte_len(
                #[trigger] data.rows[r][col as int],
            ),
    decreases n,
{
    reveal_strlit("Column ");
    text::law_decimal_stands_for_number(col + 1);
    if n > 0 {
        law_preview_fits_contents(data, col, (n - 1) as nat, row);
        let before = preview_width(data, col, (n - 1) as nat);
        if preview_width(data, col, n) > before {
            assert(preview_width(data, col, n) <= table::byte_len(
                data.rows[n - 1][col as int],
            ));
        } else if before > "Column "@.len() + text::decimal(col + 1).len() {
            let r = choose|r: int|
                0 <= r < n - 1 && before <= table::byte_len(#[trigger] data.rows[r][col as int]);
            assert(preview_width(data, col, n) <= table::byte_len(data.rows[r][col as int]));
        }
    }
}

/// Taking the first row as headers shows the table as it will be: with the title of the
/// table that is gone on with.
pub proof fn law_title_shows_what_comes(data: DataSetView)
    requires
        data.headers is None,
    ensures
        title(data, Screen::ShowingDataSummary { with_headers: true }) == title(
            data.headed(),
            Screen::ShowingDataSummary { with_headers: false },
        ),
{
}

/// Playback and training get the table that the user chose: with its first row as
/// headers, or all rows as data.
pub proof fn law_chosen_table(dataset: DataSet, outcome: LoopOutcome, data: Option<DataSet>)
    requires
        call_ensures(configured, (dataset, outcome), data),
        dataset@.headers is None,
        dataset@.rows.len() > 0,
    ensures
        data is None <==> outcome == LoopOutcome::Quit,
        outcome == (LoopOutcome::Continue { with_headers: true }) ==> {
            &&& data->0@.headers == Some(dataset@.rows[0])
            &&& data->0@.rows.len() == dataset@.rows.len() - 1
            &&& forall|k: int|
                1 <= k < dataset@.rows.len() ==> data->0@.rows[k - 1] == #[trigger] dataset@.rows[k]
        },
        outcome == (LoopOutcome::Continue { with_headers: false }) ==> data->0@ == dataset@,
{
}

} // verus!
