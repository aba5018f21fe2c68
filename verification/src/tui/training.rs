//! Training screen: shows what is being recorded while a row is demonstrated.
use vstd::prelude::*;
use crate::cdp::protocol;
use crate::cdp::protocol::Event;
use crate::data::parse::{DataSetView, Row};
use crate::data::DataSet;
use crate::json::JsonView;
use crate::text;
use crate::training::recorder;
use crate::training::recording;
use crate::training::session;
use crate::training::session::TrainingView;
use crate::training::{Command, CommandView, TrainingCore, TrainingEvent, TrainingEventView};
use crate::workflow::{
    Resolution, ResolutionView, Selector, SelectorView, Step, StepView, ValueSource,
    ValueSourceView,
};
use super::data;
use super::table::{CellState, RowState, TableState, TableView};
use super::{Color, KeyCode, KeyPress, Span, SpanView};

verus! {

// ── Descriptions ──────────────────────────────────────────────────────────────

/// The name of a column: its header, or `Column N`.
pub open spec fn name_of_column(data: DataSetView, column: nat) -> Seq<char> {
    if data.headers is Some && column < data.headers->0.len() {
        data.headers->0[column as int]
    } else {
        "Column "@ + text::decimal(column + 1)
    }
}

/// The name of a column: its header, or `Column N`.
pub fn column_name(dataset: &DataSet, column: usize) -> (name: String)
    ensures
        name@ == name_of_column(dataset@, column as nat),
{
    if let Some(headers) = dataset.headers() {
        if column < headers.len() {
            assert(headers.deep_view()[column as int] == headers@[column as int]@);
            return headers[column].clone();
        }
    }
    text::joined("Column ", &text::decimal_text(column as u128 + 1))
}

/// Where a value comes from, in words.
pub open spec fn source_text(source: ValueSourceView) -> Seq<char> {
    match source {
        ValueSourceView::Column { index } => "column "@ + text::decimal(index + 1),
        ValueSourceView::Literal { value } => "literal \""@ + value + "\""@,
    }
}

/// Where a value comes from, in words.
pub fn describe_source(source: &ValueSource) -> (described: String)
    ensures
        described@ == source_text(source@),
{
    match source {
        ValueSource::Column { index } => text::joined(
            "column ",
            &text::decimal_text(*index as u128 + 1),
        ),
        ValueSource::Literal { value } => {
            let mut described = "literal \"".to_owned();
            described.append(value);
            described.append("\"");
            described
        },
    }
}

/// How an element is found, in words.
pub open spec fn resolution_text(resolution: ResolutionView) -> Seq<char> {
    match resolution {
        ResolutionView::Id { id } => "#"@ + id,
        ResolutionView::Css { selector } => selector,
        ResolutionView::XPath { path } => path,
        ResolutionView::TextContent { text } => "text \""@ + text + "\""@,
    }
}

/// An element, in words: its tag, and how it is found first.
pub open spec fn selector_text(selector: SelectorView) -> Seq<char> {
    let target = if selector.strategies.len() > 0 {
        resolution_text(selector.strategies[0])
    } else {
        selector.tag
    };
    selector.tag + " ("@ + target + ")"@
}

/// An element, in words: its tag, and how it is found first.
pub fn describe_selector(selector: &Selector) -> (described: String)
    ensures
        described@ == selector_text(selector@),
{
    let target = if selector.strategies.len() > 0 {
        assert(selector@.strategies[0] == selector.strategies@[0]@);
        match &selector.strategies[0] {
            Resolution::Id { id } => text::joined("#", id),
            Resolution::Css { selector } => selector.clone(),
            Resolution::XPath { path } => path.clone(),
            Resolution::TextContent { text } => {
                let mut quoted = "text \"".to_owned();
                quoted.append(text);
                quoted.append("\"");
                quoted
            },
        }
    } else {
        selector.tag.clone()
    };
    let mut described = selector.tag.clone();
    described.append(" (");
    described.append(&target);
    described.append(")");
    described
}

/// A step, in words.
pub open spec fn step_text(step: StepView) -> Seq<char> {
    match step {
        StepView::Click { selector, .. } => "Click "@ + selector_text(selector),
        StepView::Type { selector, source, .. } => "Type "@ + source_text(source) + " into "@
            + selector_text(selector),
        StepView::WaitForNavigation => "Wait for navigation"@,
    }
}

/// Summarize a step for status messages.
pub fn step_summary(step: &Step) -> (summary: String)
    ensures
        summary@ == step_text(step@),
{
    match step {
        Step::Click { selector, .. } => text::joined("Click ", &describe_selector(selector)),
        Step::Type { selector, source, .. } => {
            let mut summary = "Type ".to_owned();
            summary.append(&describe_source(source));
            summary.append(" into ");
            summary.append(&describe_selector(selector));
            summary
        },
        Step::WaitForNavigation => "Wait for navigation".to_owned(),
    }
}

// ── Training row ──────────────────────────────────────────────────────────────

/// The names of the columns, among the first `n`, whose cells are empty.
pub open spec fn empty_columns(data: DataSetView, row: Row, n: nat) -> Seq<Seq<char>>
    decreases n,
{
    if n == 0 {
        seq![]
    } else {
        let before = empty_columns(data, row, (n - 1) as nat);
        if row[n - 1].len() == 0 {
            before.push(name_of_column(data, (n - 1) as nat))
        } else {
            before
        }
    }
}

/// Why a row cannot be trained, if so: it does not exist, or has empty cells.
pub open spec fn training_obstacle(data: DataSetView, row_index: nat) -> Option<Seq<char>> {
    if row_index >= data.rows.len() {
        Some("training row is out of range"@)
    } else {
        let row = data.rows[row_index as int];
        let empty = empty_columns(data, row, row.len());
        if empty.len() == 0 {
            None
        } else {
            Some(
                "Training row has empty cells in: "@ + data::separated(empty, ", "@)
                    + ". Every column must have a value in the training row."@,
            )
        }
    }
}

/// Verify that the training row has no empty cells.
///
/// Column-order training requires every cell in the training row to have a
/// value so that left-to-right binding works without gaps.
pub fn validate_training_row(dataset: &DataSet, row_index: usize) -> (outcome: Result<(), String>)
    ensures
        match outcome {
            Ok(_) => training_obstacle(dataset@, row_index as nat) is None,
            Err(why) => training_obstacle(dataset@, row_index as nat) == Some(why@),
        },
{
    let row = match dataset.row(row_index) {
        Some(row) => row,
        None => return Err("training row is out of range".to_owned()),
    };
    let ghost cells = row.deep_view();
    let mut empty: Vec<String> = Vec::new();
    assert(empty.deep_view() =~= empty_columns(dataset@, cells, 0));
    let mut col: usize = 0;
    while col < row.len()
        invariant
            col <= row.len(),
            cells == row.deep_view(),
            empty.deep_view() == empty_columns(dataset@, cells, col as nat),
        decreases row.len() - col,
    {
        let ghost before = empty.deep_view();
        assert(cells[col as int] == row@[col as int]@);
        if row[col].as_str().is_empty() {
            empty.push(column_name(dataset, col));
            assert(empty.deep_view() =~= before.push(name_of_column(dataset@, col as nat)));
        }
        col = col + 1;
    }
    if empty.len() == 0 {
        Ok(())
    } else {
        let mut why = "Training row has empty cells in: ".to_owned();
        why.append(&data::join(empty.as_slice(), ", "));
        why.append(". Every column must have a value in the training row.");
        Err(why)
    }
}

/// A training row without empty cells is accepted, and no other.
pub proof fn law_training_row_full(data: DataSetView, row_index: nat)
    requires
        row_index < data.rows.len(),
    ensures
        training_obstacle(data, row_index) is None <==> forall|col: int|
            0 <= col < data.rows[row_index as int].len() ==> (
            #[trigger] data.rows[row_index as int][col]).len() > 0,
{
    let row = data.rows[row_index as int];
    lemma_empty_columns(data, row, row.len());
}

proof fn lemma_empty_columns(data: DataSetView, row: Row, n: nat)
    requires
        n <= row.len(),
    ensures
        empty_columns(data, row, n).len() == 0 <==> forall|col: int|
            0 <= col < n ==> (#[trigger] row[col]).len() > 0,
    decreases n,
{
    if n > 0 {
        lemma_empty_columns(data, row, (n - 1) as nat);
    }
}

// ── Screen ────────────────────────────────────────────────────────────────────

/// What the training screen knows.
pub struct TrainingScreen {
    pub table: TableState,
    /// Whether browser events are being captured.
    pub recording: bool,
    /// Whether all fields are mapped and end-of-row actions are being captured.
    pub capturing_transition: bool,
    pub last_status: String,
}

/// The contents of a [`TrainingScreen`].
#[verifier::ext_equal]
pub struct TrainingScreenView {
    pub table: TableView,
    pub recording: bool,
    pub capturing_transition: bool,
    pub last_status: Seq<char>,
}

impl View for TrainingScreen {
    type V = TrainingScreenView;

    open spec fn view(&self) -> TrainingScreenView {
        TrainingScreenView {
            table: self.table@,
            recording: self.recording,
            capturing_transition: self.capturing_transition,
            last_status: self.last_status@,
        }
    }
}

/// The status when recording starts.
pub open spec fn teaching_status(row_count: nat) -> Seq<char> {
    "Teaching row 1 of "@ + text::decimal(row_count) + ". Fill the form in the browser."@
}

/// The status when recording starts.
fn teaching(row_count: usize) -> (status: String)
    ensures
        status@ == teaching_status(row_count as nat),
{
    let mut status = "Teaching row 1 of ".to_owned();
    status.append(&text::decimal_text(row_count as u128));
    status.append(". Fill the form in the browser.");
    status
}

/// What a key press on the training screen asks for.
#[derive(Debug, Clone, Copy, PartialEq, Eq, Structural)]
pub enum TerminalAction {
    Continue,
    Quit,
    /// Enter pressed before recording: begin capturing.
    StartRecording,
    /// The row is trained: go on to playback.
    Done,
}

/// What a key press on the training screen asks for.
pub open spec fn asked(key: KeyPress, session: TrainingView, recording: bool) -> TerminalAction {
    if key.quits() {
        TerminalAction::Quit
    } else if key.code == KeyCode::Enter && !recording {
        TerminalAction::StartRecording
    } else if key.code == KeyCode::Enter && session.complete() {
        TerminalAction::Done
    } else {
        TerminalAction::Continue
    }
}

impl TrainingScreenView {
    /// The screen after a key press.
    pub open spec fn pressed(self, key: KeyPress, session: TrainingView) -> Self {
        match asked(key, session, self.recording) {
            TerminalAction::StartRecording => TrainingScreenView {
                recording: true,
                last_status: teaching_status(session.data.rows.len()),
                ..self
            },
            TerminalAction::Done => TrainingScreenView {
                table: self.table.with_row(session.current_row as int, RowState::Done),
                ..self
            },
            _ => self,
        }
    }

    /// Whether an event is about rows and cells that the table has.
    pub open spec fn fits(self, event: TrainingEventView, current_row: nat) -> bool {
        match event {
            TrainingEventView::ColumnBound { column, .. } => self.table.has_cell(
                current_row as int,
                column as int,
            ),
            TrainingEventView::RowAdvanced { row_index } => row_index < self.table.rows.len(),
            _ => true,
        }
    }

    /// The screen after an event of the training session.
    pub open spec fn told(
        self,
        event: TrainingEventView,
        data: DataSetView,
        current_row: nat,
    ) -> Self {
        match event {
            TrainingEventView::StepRecorded { index, step } => TrainingScreenView {
                last_status: if self.capturing_transition {
                    "Captured end-of-row step "@ + text::decimal(index + 1) + ": "@ + step_text(
                        step,
                    )
                } else {
                    "Step "@ + text::decimal(index + 1) + " recorded: "@ + step_text(step)
                },
                ..self
            },
            TrainingEventView::StepUpdated { .. } => self,
            TrainingEventView::SpeedChanged(_) => self,
            TrainingEventView::ColumnBound { column, step_index } => TrainingScreenView {
                last_status: "Mapped "@ + name_of_column(data, column) + " to step "@
                    + text::decimal(step_index + 1) + "."@,
                table: self.table.with_cell(current_row as int, column as int, CellState::Done),
                ..self
            },
            TrainingEventView::RowComplete { .. } => TrainingScreenView {
                capturing_transition: true,
                last_status:
                    "All fields mapped. Submit the form and navigate back, then press Enter."@,
                ..self
            },
            TrainingEventView::RowAdvanced { row_index } => TrainingScreenView {
                table: self.table.with_row(
                    if row_index > 0 {
                        row_index - 1
                    } else {
                        0
                    },
                    RowState::Done,
                ).with_row(row_index as int, RowState::InProgress),
                ..self
            },
            TrainingEventView::EmptyCellEncountered { column, row_index } => TrainingScreenView {
                last_status: "Row "@ + text::decimal(row_index + 1)
                    + " has an empty value for bound column "@ + name_of_column(data, column)
                    + "."@,
                ..self
            },
            TrainingEventView::NewFieldEncountered { column, value } => TrainingScreenView {
                last_status: "Row "@ + text::decimal(current_row + 1)
                    + " includes an unbound value for "@ + name_of_column(data, column) + ": "@ + (
                if value.len() == 0 {
                    "<empty>"@
                } else {
                    value
                }),
                ..self
            },
            TrainingEventView::Error(message) => TrainingScreenView {
                last_status: message,
                ..self
            },
        }
    }
}

impl TrainingScreen {
    /// The screen at the start of training, or why the first row cannot be trained.
    ///
    /// When `start_recording` is `true`, recording begins immediately without
    /// waiting for the user to press Enter.
    pub fn new(dataset: &DataSet, start_recording: bool) -> (screen: Result<Self, String>)
        ensures
            match screen {
                Ok(screen) => {
                    &&& training_obstacle(dataset@, 0) is None
                    &&& screen.recording == start_recording
                    &&& !screen.capturing_transition
                    &&& screen.last_status@ == if start_recording {
                        teaching_status(dataset@.rows.len())
                    } else {
                        "Navigate to your form and press Enter to start recording."@
                    }
                    &&& screen.table@.rows == Seq::new(
                        dataset@.rows.len(),
                        |row: int|
                            if row == 0 {
                                RowState::InProgress
                            } else {
                                RowState::Upcoming
                            },
                    )
                    &&& screen.table@.cells == Seq::new(
                        dataset@.rows.len(),
                        |row: int| Seq::new(dataset@.column_count, |col: int| CellState::Pending),
                    )
                    &&& screen.table@.viewport_row == 0
                    &&& screen.table@.viewport_col == 0
                    &&& screen.table@.widths.len() == dataset@.column_count
                    &&& forall|col: int|
                        0 <= col < dataset@.column_count
                            ==> #[trigger] screen.table@.widths[col] == super::table::column_width(
                            dataset@,
                            col as nat,
                            dataset@.rows.len(),
                        )
                },
                Err(why) => training_obstacle(dataset@, 0) == Some(why@),
            },
    {
        match validate_training_row(dataset, 0) {
            Ok(_) => {},
            Err(why) => return Err(why),
        }
        let mut table = TableState::new(dataset.row_count(), dataset.column_count(), dataset);
        table.set_row_state(0, RowState::InProgress);
        assert(table@.rows =~= Seq::new(
            dataset@.rows.len(),
            |row: int|
                if row == 0 {
                    RowState::InProgress
                } else {
                    RowState::Upcoming
                },
        ));
        let last_status = if start_recording {
            teaching(dataset.row_count())
        } else {
            "Navigate to your form and press Enter to start recording.".to_owned()
        };
        Ok(
            TrainingScreen {
                table,
                recording: start_recording,
                capturing_transition: false,
                last_status,
            },
        )
    }

    /// Handles a key press.
    pub fn handle_terminal_event(&mut self, key: KeyPress, session: &TrainingCore, dataset: &DataSet) -> (
        action: TerminalAction)
        requires
            session@.wf(),
            session@.data == dataset@,
            session@.current_row < old(self)@.table.rows.len(),
        ensures
            action == asked(key, session@, old(self)@.recording),
            final(self)@ == old(self)@.pressed(key, session@),
    {
        if key.is_quit() {
            return TerminalAction::Quit;
        }
        if key.code == KeyCode::Enter {
            if !self.recording {
                self.recording = true;
                self.last_status = teaching(dataset.row_count());
                return TerminalAction::StartRecording;
            }
            if session.is_row_complete() {
                // Training covers exactly row 1.
                // Mark it done and go on to playback.
                self.table.set_row_state(session.current_row_index(), RowState::Done);
                return TerminalAction::Done;
            }
        }
        TerminalAction::Continue
    }

    /// Takes in an event of the training session, whose current row is given.
    pub fn handle_training_event(
        &mut self,
        event: TrainingEvent,
        dataset: &DataSet,
        current_row: usize,
    )
        requires
            old(self)@.fits(event@, current_row as nat),
        ensures
            final(self)@ == old(self)@.told(event@, dataset@, current_row as nat),
    {
        match event {
            TrainingEvent::StepRecorded { index, step } => {
                let mut status = if self.capturing_transition {
                    "Captured end-of-row step ".to_owned()
                } else {
                    "Step ".to_owned()
                };
                status.append(&text::decimal_text(index as u128 + 1));
                if self.capturing_transition {
                    status.append(": ");
                } else {
                    status.append(" recorded: ");
                }
                status.append(&step_summary(&step));
                self.last_status = status;
            },
            TrainingEvent::StepUpdated { .. } => {},
            TrainingEvent::SpeedChanged(_) => {},
            TrainingEvent::ColumnBound { column, step_index } => {
                let mut status = "Mapped ".to_owned();
                status.append(&column_name(dataset, column));
                status.append(" to step ");
                status.append(&text::decimal_text(step_index as u128 + 1));
                status.append(".");
                self.last_status = status;
                self.table.set_cell_state(current_row, column, CellState::Done);
            },
            TrainingEvent::RowComplete { .. } => {
                self.capturing_transition = true;
                self.last_status =
                "All fields mapped. Submit the form and navigate back, then press Enter.".to_owned();
            },
            TrainingEvent::RowAdvanced { row_index } => {
                // Previous row is done; the new row is now in progress.
                let previous: usize = if row_index > 0 {
                    row_index - 1
                } else {
                    0
                };
                self.table.set_row_state(previous, RowState::Done);
                self.table.set_row_state(row_index, RowState::InProgress);
            },
            TrainingEvent::EmptyCellEncountered { column, row_index } => {
                let mut status = "Row ".to_owned();
                status.append(&text::decimal_text(row_index as u128 + 1));
                status.append(" has an empty value for bound column ");
                status.append(&column_name(dataset, column));
                status.append(".");
                self.last_status = status;
            },
            TrainingEvent::NewFieldEncountered { column, value } => {
                let mut status = "Row ".to_owned();
                status.append(&text::decimal_text(current_row as u128 + 1));
                status.append(" includes an unbound value for ");
                status.append(&column_name(dataset, column));
                status.append(": ");
                if value.as_str().is_empty() {
                    status.append("<empty>");
                } else {
                    status.append(&value);
                }
                self.last_status = status;
            },
            TrainingEvent::Error(message) => {
                self.last_status = message;
            },
        }
    }

    /// Takes in that browser events were missed.
    pub fn handle_lagged(&mut self, skipped: u64)
        ensures
            final(self)@ == (TrainingScreenView {
                last_status: "Browser events lagged; skipped "@ + text::decimal(skipped as nat)
                    + " events. Continue teaching this row."@,
                ..old(self)@
            }),
    {
        let mut status = "Browser events lagged; skipped ".to_owned();
        status.append(&text::decimal_text(skipped as u128));
        status.append(" events. Continue teaching this row.");
        self.last_status = status;
    }

    /// Takes in that the browser is gone.
    pub fn handle_closed(&mut self)
        ensures
            final(self)@ == (TrainingScreenView {
                last_status: "Browser connection closed."@,
                ..old(self)@
            }),
    {
        self.last_status = "Browser connection closed.".to_owned();
    }
}

/// Only empty cells and new fields are noticed about a row.
proof fn lemma_notices(session: TrainingView, n: nat, i: int)
    requires
        0 <= i < session.notices(n).len(),
    ensures
        session.notices(n)[i] is EmptyCellEncountered || session.notices(n)[i]
            is NewFieldEncountered,
    decreases n,
{
    if n > 0 && i < session.notices((n - 1) as nat).len() {
        lemma_notices(session, (n - 1) as nat, i);
    }
}

/// Every event of a session is about rows and cells that a screen for the same
/// data has, and leaves the screen's table in that shape, given that there is a row
/// to be trained.
pub proof fn law_session_events_fit(
    before: TrainingView,
    command: CommandView,
    at: nat,
    done: nat,
    screen: TrainingScreenView,
    i: int,
)
    requires
        before.wf(),
        before.data.rows.len() > 0,
        screen.table.shaped(before.data),
        0 <= i < before.events(command, at).len(),
    ensures
        screen.fits(before.events(command, at)[i], before.after(command, at, done).current_row),
        screen.told(
            before.events(command, at)[i],
            before.data,
            before.after(command, at, done).current_row,
        ).table.shaped(before.data),
{
    match command {
        CommandView::BrowserInput { selector_info, .. } => {
            let existing = session::last_on_element(before.selectors, selector_info);
            TrainingView::lemma_next_unbound(before.bindings, existing, 0);
        },
        CommandView::AdvanceRow => {
            if before.can_advance() && i > 0 {
                lemma_notices(before.advanced(), before.data.column_count, i - 1);
            }
        },
        _ => {},
    }
}

/// A key press leaves the screen's table in the shape of the data, and the row
/// being demonstrated is one that the table has.
pub proof fn law_keys_keep_shape(
    session: TrainingView,
    key: KeyPress,
    screen: TrainingScreenView,
)
    requires
        session.wf(),
        session.data.rows.len() > 0,
        screen.table.shaped(session.data),
    ensures
        session.current_row < screen.table.rows.len(),
        screen.pressed(key, session).table.shaped(session.data),
{
}

// ── Browser events ────────────────────────────────────────────────────────────

/// The command that a browser event stands for: a message of the recorder, or a
/// navigation of the main frame.
pub open spec fn event_command(method: Seq<char>, params: JsonView) -> Option<CommandView> {
    if method == "Runtime.consoleAPICalled"@ {
        recorder::console_command(params)
    } else if method == "Page.frameNavigated"@ && params.field("frame"@) is Some
        && protocol::main_frame(params) {
        match params.field("frame"@)->0.text_field("url"@) {
            Some(url) => Some(CommandView::BrowserNavigation { url }),
            None => None,
        }
    } else {
        None
    }
}

/// The command that a browser event stands for, if any.
pub fn training_command_from_cdp_event(event: &Event) -> (command: Option<Command>)
    ensures
        command.deep_view() == event_command(event.method@, event.params@),
{
    if text::same_text(&event.method, "Runtime.consoleAPICalled") {
        recorder::parse_recorder_event(&event.params)
    } else if text::same_text(&event.method, "Page.frameNavigated") {
        let frame = event.params.get("frame")?;
        if !protocol::is_main_frame(&event.params) {
            return None;
        }
        let url = frame.text_at("url")?.clone();
        Some(Command::BrowserNavigation { url })
    } else {
        None
    }
}

// ── Status bar ────────────────────────────────────────────────────────────────

/// How many columns, among the first `n`, are bound.
pub open spec fn bound_count(bindings: Seq<Option<usize>>, n: nat) -> nat
    decreases n,
{
    if n == 0 {
        0
    } else {
        bound_count(bindings, (n - 1) as nat) + if bindings[n - 1] is Some {
            1nat
        } else {
            0nat
        }
    }
}

/// How many cells, among the first `n`, are not empty.
pub open spec fn filled_count(row: Row, n: nat) -> nat
    decreases n,
{
    if n == 0 {
        0
    } else {
        filled_count(row, (n - 1) as nat) + if row[n - 1].len() > 0 {
            1nat
        } else {
            0nat
        }
    }
}

/// How many columns are bound.
fn count_bound(bindings: &[Option<usize>]) -> (count: usize)
    ensures
        count == bound_count(bindings@, bindings@.len()),
{
    let mut count: usize = 0;
    let mut i: usize = 0;
    while i < bindings.len()
        invariant
            i <= bindings.len(),
            count <= i,
            count == bound_count(bindings@, i as nat),
        decreases bindings.len() - i,
    {
        if bindings[i].is_some() {
            count = count + 1;
        }
        i = i + 1;
    }
    count
}

/// How many cells are not empty.
fn count_filled(row: &[String]) -> (count: usize)
    ensures
        count == filled_count(row.deep_view(), row@.len()),
{
    let mut count: usize = 0;
    let mut i: usize = 0;
    while i < row.len()
        invariant
            i <= row.len(),
            count <= i,
            count == filled_count(row.deep_view(), i as nat),
        decreases row.len() - i,
    {
        assert(row.deep_view()[i as int] == row@[i as int]@);
        if !row[i].as_str().is_empty() {
            count = count + 1;
        }
        i = i + 1;
    }
    count
}

/// The headline of the screen.
pub open spec fn progress(screen: TrainingScreenView, session: TrainingView, total: nat) -> Seq<
    char,
> {
    let position = "Training — Row "@ + text::decimal(session.current_row + 1) + " of "@
        + text::decimal(total);
    if !screen.recording {
        position + "   Waiting to start"@
    } else {
        let required = if session.has_row() {
            filled_count(session.row(), session.row().len())
        } else {
            0
        };
        let mapped = position + "   Mapped "@ + text::decimal(
            bound_count(session.bindings, session.bindings.len()),
        ) + "/"@ + text::decimal(required) + " columns"@;
        if screen.capturing_transition {
            mapped + " — recording end-of-row actions"@
        } else {
            mapped
        }
    }
}

/// What the Enter key does.
pub open spec fn enter_hint(screen: TrainingScreenView) -> Seq<char> {
    if !screen.recording {
        " Start recording"@
    } else if screen.capturing_transition {
        " Form is ready — start playback"@
    } else {
        " (map all fields first)"@
    }
}

/// The key hints of the screen.
pub open spec fn hints(screen: TrainingScreenView) -> Seq<SpanView> {
    seq![
        super::colored_span("[q]"@, Color::Red),
        super::plain_span(" Quit   "@),
        super::colored_span("[Enter]"@, Color::Green),
        super::plain_span(enter_hint(screen)),
    ]
}

/// The lines of the status bar: headline, status, key hints.
pub fn status_lines(screen: &TrainingScreen, session: &TrainingCore, dataset: &DataSet) -> (lines:
    Vec<Vec<Span>>)
    ensures
        lines.deep_view() == seq![
            seq![super::plain_span(progress(screen@, session@, dataset@.rows.len()))],
            seq![super::plain_span(screen.last_status@)],
            hints(screen@),
        ],
{
    let mut headline = "Training — Row ".to_owned();
    headline.append(&text::decimal_text(session.current_row_index() as u128 + 1));
    headline.append(" of ");
    headline.append(&text::decimal_text(dataset.row_count() as u128));
    if !screen.recording {
        headline.append("   Waiting to start");
    } else {
        let required: usize = match session.current_row_data() {
            Some(row) => count_filled(row),
            None => 0,
        };
        headline.append("   Mapped ");
        headline.append(&text::decimal_text(count_bound(session.bound_columns()) as u128));
        headline.append("/");
        headline.append(&text::decimal_text(required as u128));
        headline.append(" columns");
        if screen.capturing_transition {
            headline.append(" — recording end-of-row actions");
        }
    }
    let enter = if !screen.recording {
        " Start recording"
    } else if screen.capturing_transition {
        " Form is ready — start playback"
    } else {
        " (map all fields first)"
    };
    let mut keys: Vec<Span> = Vec::new();
    keys.push(super::colored("[q]", Color::Red));
    keys.push(super::plain(" Quit   "));
    keys.push(super::colored("[Enter]", Color::Green));
    keys.push(super::plain(enter));
    assert(keys.deep_view() =~= hints(screen@));
    let mut lines: Vec<Vec<Span>> = Vec::new();
    lines.push(super::line(super::plain(&headline)));
    lines.push(super::line(super::plain(&screen.last_status)));
    lines.push(keys);
    assert(lines.deep_view() =~= seq![
        seq![super::plain_span(progress(screen@, session@, dataset@.rows.len()))],
        seq![super::plain_span(screen.last_status@)],
        hints(screen@),
    ]);
    lines
}

// ── Laws ──────────────────────────────────────────────────────────────────────

/// Enter starts recording first; once recording it ends training, but only when every
/// cell of the row that holds something is bound. The screen can be left at any time.
pub proof fn law_when_training_ends(key: KeyPress, session: TrainingView, recording: bool)
    requires
        session.wf(),
    ensures
        asked(key, session, recording) == TerminalAction::Quit <==> key.code == KeyCode::Char('q')
            || key.code == KeyCode::Char('c') && key.ctrl,
        asked(key, session, recording) == TerminalAction::StartRecording <==> key.code
            == KeyCode::Enter && !recording,
        asked(key, session, recording) == TerminalAction::Done <==> {
            &&& key.code == KeyCode::Enter
            &&& recording
            &&& session.current_row < session.data.rows.len()
            &&& forall|column: int|
                0 <= column < session.data.column_count
                    && session.data.rows[session.current_row as int][column].len() > 0 ==> (
                #[trigger] session.bindings[column]) is Some
        },
{
    recording::law_complete_row(session);
}

/// A key starts recording or marks the trained row as done; it changes nothing else on
/// the screen.
pub proof fn law_what_keys_change(key: KeyPress, session: TrainingView, screen: TrainingScreenView)
    requires
        session.current_row < screen.table.rows.len(),
    ensures
        ({
            let after = screen.pressed(key, session);
            &&& after.recording == (screen.recording || key.code == KeyCode::Enter)
            &&& after.capturing_transition == screen.capturing_transition
            &&& after.table.cells == screen.table.cells
            &&& asked(key, session, screen.recording) == TerminalAction::Done
                ==> after.table.rows[session.current_row as int] == RowState::Done
            &&& asked(key, session, screen.recording) != TerminalAction::Done ==> after.table
                == screen.table
        }),
{
}

/// The screen after the first `n` of some events.
pub open spec fn told_all(
    screen: TrainingScreenView,
    events: Seq<TrainingEventView>,
    data: DataSetView,
    current_row: nat,
    n: nat,
) -> TrainingScreenView
    decreases n,
{
    if n == 0 {
        screen
    } else {
        told_all(screen, events, data, current_row, (n - 1) as nat).told(
            events[n - 1],
            data,
            current_row,
        )
    }
}

/// The screen shows what is bound: as long as the row stays the same, every column that
/// is bound has its cell marked once the screen was told all that a command did; and
/// when typing has made the row complete, the screen knows.
pub proof fn law_bound_columns_are_marked(
    before: TrainingView,
    command: CommandView,
    at: nat,
    done: nat,
    screen: TrainingScreenView,
    column: int,
)
    requires
        before.wf(),
        before.steps.len() <= usize::MAX,
        before.data.rows.len() > 0,
        screen.table.shaped(before.data),
        command !is AdvanceRow,
        0 <= column < before.bindings.len(),
        before.bindings[column] is Some ==> screen.table.cells[before.current_row as int][column]
            == CellState::Done,
    ensures
        ({
            let after = before.after(command, at, done);
            let events = before.events(command, at);
            let shown = told_all(screen, events, before.data, before.current_row, events.len());
            &&& after.bindings[column] is Some
                ==> shown.table.cells[before.current_row as int][column] == CellState::Done
            &&& command is BrowserInput && after.complete() ==> shown.capturing_transition
            &&& shown.recording == screen.recording
            &&& shown.table.rows == screen.table.rows
        }),
{
    reveal_with_fuel(told_all, 4);
    match command {
        CommandView::BrowserInput { selector_info, tag, value } => {
            let existing = session::last_on_element(before.selectors, selector_info);
            TrainingView::lemma_next_unbound(before.bindings, existing, 0);
            TrainingView::lemma_last_on_element(before.selectors, selector_info);
            let typed = before.typed(selector_info, tag, value, at);
            let after = before.after(command, at, done);
            assert(after.row() == typed.row());
            assert(after.complete() == typed.complete());
        },
        _ => {},
    }
}

/// What the screen is told marks only what it is about: a bound column its one cell, an
/// advance the row behind and the row ahead; nothing else touches the table.
pub proof fn law_what_events_mark(
    screen: TrainingScreenView,
    event: TrainingEventView,
    data: DataSetView,
    current_row: nat,
    row: int,
    col: int,
)
    requires
        screen.fits(event, current_row),
        screen.table.has_cell(row, col),
        0 <= row < screen.table.rows.len(),
    ensures
        ({
            let after = screen.told(event, data, current_row);
            &&& after.table.cells[row][col] == match event {
                TrainingEventView::ColumnBound { column, .. } if row == current_row && col
                    == column => CellState::Done,
                _ => screen.table.cells[row][col],
            }
            &&& after.table.rows[row] == match event {
                TrainingEventView::RowAdvanced { row_index } if row == row_index =>
                    RowState::InProgress,
                TrainingEventView::RowAdvanced { row_index } if row + 1 == row_index =>
                    RowState::Done,
                _ => screen.table.rows[row],
            }
            &&& after.recording == screen.recording
            &&& after.capturing_transition == (screen.capturing_transition || event is RowComplete)
        }),
{
}

/// A navigation is recorded only for the main frame, with the address that the frame
/// went to; console messages count as the recorder's, and all other events are nothing.
pub proof fn law_which_events_are_recorded(
    method: Seq<char>,
    params: JsonView,
    frame: JsonView,
    url: Seq<char>,
)
    ensures
        method == "Page.frameNavigated"@ && params.field("frame"@) == Some(frame) && frame.field(
            "url"@,
        ) == Some(JsonView::Text(url)) && (frame.field("parentId"@) is None || frame.field(
            "parentId"@,
        ) == Some(JsonView::Null)) ==> event_command(method, params) == Some(
            CommandView::BrowserNavigation { url },
        ),
        method == "Page.frameNavigated"@ && params.field("frame"@) == Some(frame) && frame.field(
            "parentId"@,
        ) is Some && frame.field("parentId"@)->0 is Text ==> event_command(method, params) is None,
        method == "Runtime.consoleAPICalled"@ ==> event_command(method, params)
            == recorder::console_command(params),
        method != "Page.frameNavigated"@ && method != "Runtime.consoleAPICalled"@
            ==> event_command(method, params) is None,
{
    reveal_strlit("Page.frameNavigated");
    reveal_strlit("Runtime.consoleAPICalled");
    assert("Page.frameNavigated"@.len() == 19);
    assert("Runtime.consoleAPICalled"@.len() == 24);
}

/// Binding a column that was not bound counts one more, and unbinding it one less;
/// binding it anew makes no difference.
pub proof fn law_bound_columns_are_counted(
    bindings: Seq<Option<usize>>,
    n: nat,
    column: int,
    step: usize,
)
    requires
        n <= bindings.len(),
        0 <= column < n,
    ensures
        bound_count(bindings.update(column, Some(step)), n) == bound_count(
            bindings.update(column, None),
            n,
        ) + 1,
        (forall|c: int| 0 <= c < n ==> (#[trigger] bindings[c]) is None) ==> bound_count(
            bindings,
            n,
        ) == 0,
        (forall|c: int| 0 <= c < n ==> (#[trigger] bindings[c]) is Some) ==> bound_count(
            bindings,
            n,
        ) == n,
    decreases n,
{
    let with = bindings.update(column, Some(step));
    let without = bindings.update(column, None);
    if column == n - 1 {
        lemma_same_count(with, without, (n - 1) as nat);
    } else {
        law_bound_columns_are_counted(bindings, (n - 1) as nat, column, step);
    }
    lemma_uniform_count(bindings, n);
}

/// Bindings that are the same up to a column count the same.
proof fn lemma_same_count(one: Seq<Option<usize>>, other: Seq<Option<usize>>, n: nat)
    requires
        n <= one.len(),
        n <= other.len(),
        forall|c: int| 0 <= c < n ==> #[trigger] one[c] == other[c],
    ensures
        bound_count(one, n) == bound_count(other, n),
    decreases n,
{
    if n > 0 {
        lemma_same_count(one, other, (n - 1) as nat);
    }
}

/// Bindings that are all there, or none of which is, are counted as such.
proof fn lemma_uniform_count(bindings: Seq<Option<usize>>, n: nat)
    requires
        n <= bindings.len(),
    ensures
        (forall|c: int| 0 <= c < n ==> (#[trigger] bindings[c]) is None) ==> bound_count(
            bindings,
            n,
        ) == 0,
        (forall|c: int| 0 <= c < n ==> (#[trigger] bindings[c]) is Some) ==> bound_count(
            bindings,
            n,
        ) == n,
    decreases n,
{
    if n > 0 {
        lemma_uniform_count(bindings, (n - 1) as nat);
        assert(bindings[n - 1] is Some || bindings[n - 1] is None);
    }
}

/// Every cell is either counted as filled or named as empty; each that is empty is named
/// by the name of its column, in column order.
pub proof fn law_empty_cells_are_named(data: DataSetView, row: Row, n: nat, column: int)
    requires
        n <= row.len(),
    ensures
        empty_columns(data, row, n).len() + filled_count(row, n) == n,
        0 <= column < n && row[column].len() == 0 ==> {
            let place = column - filled_count(row, column as nat);
            &&& 0 <= place < empty_columns(data, row, n).len()
            &&& empty_columns(data, row, n)[place] == name_of_column(data, column as nat)
        },
    decreases n,
{
    if n > 0 {
        law_empty_cells_are_named(data, row, (n - 1) as nat, column);
    }
}

/// A column goes by its header, or by its number, counted from one, where there are no
/// headers.
pub proof fn law_column_names(data: DataSetView, column: nat)
    ensures
        data.headers is Some && column < data.headers->0.len() ==> name_of_column(data, column)
            == data.headers->0[column as int],
        data.headers is None ==> text::digits_value(name_of_column(data, column).skip(7)) == column
            + 1,
{
    reveal_strlit("Column ");
    text::law_decimal_stands_for_number(column + 1);
    if data.headers is None {
        assert(name_of_column(data, column).skip(7) =~= text::decimal(column + 1));
    }
}

/// In words a column goes by its number, counted from one, and a literal is quoted in
/// full.
pub proof fn law_sources_in_words(source: ValueSourceView)
    ensures
        match source {
            ValueSourceView::Column { index } => text::digits_value(source_text(source).skip(7))
                == index + 1,
            ValueSourceView::Literal { value } => source_text(source).subrange(
                9,
                9 + value.len() as int,
            ) == value && source_text(source).len() == value.len() + 10,
        },
{
    reveal_strlit("column ");
    reveal_strlit("literal \"");
    reveal_strlit("\"");
    match source {
        ValueSourceView::Column { index } => {
            text::law_decimal_stands_for_number(index + 1);
            assert(source_text(source).skip(7) =~= text::decimal(index + 1));
        },
        ValueSourceView::Literal { value } => {
            assert(source_text(source).subrange(9, 9 + value.len() as int) =~= value);
        },
    }
}

/// An element is described by its tag first, and by the way in which it is looked for
/// first.
pub proof fn law_elements_in_words(selector: SelectorView)
    ensures
        selector_text(selector).take(selector.tag.len() as int) == selector.tag,
        selector.strategies.len() > 0 && selector.strategies[0] is Css ==> selector_text(
            selector,
        ).skip(selector.tag.len() as int + 2).drop_last() == selector.strategies[0]->selector,
        selector.strategies.len() > 0 && selector.strategies[0] is Id ==> selector_text(
            selector,
        ).skip(selector.tag.len() as int + 3).drop_last() == selector.strategies[0]->id,
{
    reveal_strlit(" (");
    reveal_strlit(")");
    reveal_strlit("#");
    let whole = selector_text(selector);
    assert(whole.take(selector.tag.len() as int) =~= selector.tag);
    if selector.strategies.len() > 0 && selector.strategies[0] is Css {
        assert(whole.skip(selector.tag.len() as int + 2).drop_last()
            =~= selector.strategies[0]->selector);
    }
    if selector.strategies.len() > 0 && selector.strategies[0] is Id {
        assert(whole.skip(selector.tag.len() as int + 3).drop_last() =~= selector.strategies[0]->id);
    }
}

} // verus!
