//! Playback screen: a live data table driven by the playback engine's events.
//!
//! Starts at `Step` speed: the engine pauses after each `Type` step and waits
//! for the user to press Enter before continuing.
use vstd::prelude::*;
use crate::data::DataSet;
use crate::playback::engine::{EngineView, Input, Phase, Signal};
use crate::playback::laws;
use crate::playback::{
    ErrorAction, PlaybackControl, PlaybackEvent, PlaybackEventView, MAX_MULTIPLIER, MIN_MULTIPLIER,
};
use crate::text;
use crate::workflow::{PlaybackSpeed, Workflow, WorkflowView};
use super::table::{CellState, RowState, TableState, TableView};
use super::{Color, KeyCode, KeyPress, Span, SpanView};

verus! {

/// Result of the playback screen.
#[derive(Debug, PartialEq)]
pub enum PlaybackOutcome {
    /// Playback completed (possibly with some rows skipped).
    Done { rows_completed: usize, rows_skipped: usize },
    /// Playback stopped due to an error.
    Error(String),
}

/// By how much one key press changes the speed multiplier, in thousandths.
pub const MULTIPLIER_STEP: u32 = 250;

/// What the playback screen knows.
#[derive(Debug)]
pub struct ScreenState {
    pub total_rows: usize,
    pub current_row: usize,
    pub rows_completed: usize,
    pub rows_skipped: usize,
    pub speed: PlaybackSpeed,
    /// In thousandths.
    pub speed_multiplier: u32,
    pub status: String,
    pub finished: bool,
    pub error: Option<String>,
    /// Engine is paused at a confirmation gate (Step or Walk speed).
    pub waiting_for_confirmation: bool,
    /// Engine hit an error and is waiting for the user to choose an action.
    pub error_prompt: Option<String>,
}

/// The contents of a [`ScreenState`].
#[verifier::ext_equal]
pub struct ScreenView {
    pub total_rows: nat,
    pub current_row: nat,
    pub rows_completed: nat,
    pub rows_skipped: nat,
    pub speed: PlaybackSpeed,
    pub speed_multiplier: u32,
    pub status: Seq<char>,
    pub finished: bool,
    pub error: Option<Seq<char>>,
    pub waiting_for_confirmation: bool,
    pub error_prompt: Option<Seq<char>>,
}

impl View for ScreenState {
    type V = ScreenView;

    open spec fn view(&self) -> ScreenView {
        ScreenView {
            total_rows: self.total_rows as nat,
            current_row: self.current_row as nat,
            rows_completed: self.rows_completed as nat,
            rows_skipped: self.rows_skipped as nat,
            speed: self.speed,
            speed_multiplier: self.speed_multiplier,
            status: self.status@,
            finished: self.finished,
            error: self.error.deep_view(),
            waiting_for_confirmation: self.waiting_for_confirmation,
            error_prompt: self.error_prompt.deep_view(),
        }
    }
}

impl ScreenState {
    /// The screen before the first event.
    pub fn new(total_rows: usize, start_row: usize, speed: PlaybackSpeed) -> (state: Self)
        ensures
            state@ == (ScreenView {
                total_rows: total_rows as nat,
                current_row: start_row as nat,
                rows_completed: 0,
                rows_skipped: 0,
                speed,
                speed_multiplier: 1000,
                status: "Playing "@ + text::decimal(
                    if total_rows >= start_row {
                        (total_rows - start_row) as nat
                    } else {
                        0
                    },
                ) + " rows..."@,
                finished: false,
                error: None,
                waiting_for_confirmation: false,
                error_prompt: None,
            }),
    {
        let playback_rows: usize = if total_rows >= start_row {
            total_rows - start_row
        } else {
            0
        };
        let mut status = "Playing ".to_owned();
        status.append(&text::decimal_text(playback_rows as u128));
        status.append(" rows...");
        ScreenState {
            total_rows,
            current_row: start_row,
            rows_completed: 0,
            rows_skipped: 0,
            speed,
            speed_multiplier: 1000,
            status,
            finished: false,
            error: None,
            waiting_for_confirmation: false,
            error_prompt: None,
        }
    }
}

// ── Keys ──────────────────────────────────────────────────────────────────────

/// What a key press leads to.
#[verifier::ext_equal]
pub struct Reaction {
    /// The screen after it.
    pub state: ScreenView,
    /// What is sent to the engine.
    pub controls: Seq<PlaybackControl>,
    /// Whether the screen is left.
    pub quit: bool,
}

/// The speed that a key selects: 1/2/3 for Step/Walk/Run.
pub open spec fn selected_speed(code: KeyCode) -> Option<PlaybackSpeed> {
    if code == KeyCode::Char('1') {
        Some(PlaybackSpeed::Step)
    } else if code == KeyCode::Char('2') {
        Some(PlaybackSpeed::Walk)
    } else if code == KeyCode::Char('3') {
        Some(PlaybackSpeed::Run)
    } else {
        None
    }
}

/// The next faster speed multiplier.
pub open spec fn faster(multiplier: u32) -> u32 {
    if multiplier >= MAX_MULTIPLIER - MULTIPLIER_STEP {
        MAX_MULTIPLIER
    } else {
        (multiplier + MULTIPLIER_STEP) as u32
    }
}

/// The next slower speed multiplier.
pub open spec fn slower(multiplier: u32) -> u32 {
    if multiplier <= MIN_MULTIPLIER + MULTIPLIER_STEP {
        MIN_MULTIPLIER
    } else {
        (multiplier - MULTIPLIER_STEP) as u32
    }
}

impl ScreenView {
    /// The key has no effect.
    pub open spec fn ignored(self) -> Reaction {
        Reaction { state: self, controls: seq![], quit: false }
    }

    /// A key while the user is asked what to do about a failed step.
    pub open spec fn key_in_error(self, code: KeyCode) -> Reaction {
        if code == KeyCode::Char('s') {
            Reaction {
                state: ScreenView { error_prompt: None, ..self },
                controls: seq![PlaybackControl::ErrorResponse(ErrorAction::SkipRow)],
                quit: false,
            }
        } else if code == KeyCode::Char('r') {
            Reaction {
                state: ScreenView { error_prompt: None, ..self },
                controls: seq![PlaybackControl::ErrorResponse(ErrorAction::RetryRow)],
                quit: false,
            }
        } else if code == KeyCode::Char('q') {
            Reaction {
                state: ScreenView { error_prompt: None, error: self.error_prompt, ..self },
                controls: seq![PlaybackControl::ErrorResponse(ErrorAction::Stop)],
                quit: true,
            }
        } else {
            self.ignored()
        }
    }

    /// Space pauses: playback drops to Step speed. At Step speed it goes on.
    pub open spec fn space(self) -> Reaction {
        if self.speed == PlaybackSpeed::Step {
            Reaction {
                state: ScreenView { waiting_for_confirmation: false, ..self },
                controls: seq![
                    PlaybackControl::SetSpeed(PlaybackSpeed::Step),
                    PlaybackControl::Proceed,
                ],
                quit: false,
            }
        } else {
            Reaction {
                state: ScreenView { speed: PlaybackSpeed::Step, ..self },
                controls: seq![PlaybackControl::Pause],
                quit: false,
            }
        }
    }

    /// Another speed is selected. Away from Step speed, an open gate is passed.
    pub open spec fn select(self, speed: PlaybackSpeed) -> Reaction {
        if speed != PlaybackSpeed::Step && self.waiting_for_confirmation {
            Reaction {
                state: ScreenView { speed, waiting_for_confirmation: false, ..self },
                controls: seq![PlaybackControl::SetSpeed(speed), PlaybackControl::Proceed],
                quit: false,
            }
        } else {
            Reaction {
                state: ScreenView { speed, ..self },
                controls: seq![PlaybackControl::SetSpeed(speed)],
                quit: false,
            }
        }
    }

    /// Another speed multiplier is set.
    pub open spec fn rate(self, multiplier: u32) -> Reaction {
        Reaction {
            state: ScreenView { speed_multiplier: multiplier, ..self },
            controls: seq![PlaybackControl::SetSpeedMultiplier(multiplier)],
            quit: false,
        }
    }

    /// A key while playback is under way.
    pub open spec fn key_in_playback(self, code: KeyCode) -> Reaction {
        if code == KeyCode::Char('q') {
            Reaction {
                state: self,
                controls: seq![PlaybackControl::ErrorResponse(ErrorAction::Stop)],
                quit: true,
            }
        } else if code == KeyCode::Char(' ') {
            self.space()
        } else if code == KeyCode::Enter && self.waiting_for_confirmation {
            Reaction {
                state: ScreenView { waiting_for_confirmation: false, ..self },
                controls: seq![PlaybackControl::Proceed],
                quit: false,
            }
        } else if code == KeyCode::Char('+') {
            self.rate(faster(self.speed_multiplier))
        } else if code == KeyCode::Char('-') {
            self.rate(slower(self.speed_multiplier))
        } else {
            match selected_speed(code) {
                Some(speed) => self.select(speed),
                None => self.ignored(),
            }
        }
    }

    /// What a key press leads to. Ctrl-C always leaves; a finished screen is left
    /// with `q`; a failed step and running playback have keys of their own.
    pub open spec fn pressed(self, key: KeyPress) -> Reaction {
        if key.interrupts() {
            Reaction {
                state: self,
                controls: if self.finished {
                    seq![]
                } else {
                    seq![PlaybackControl::ErrorResponse(ErrorAction::Stop)]
                },
                quit: true,
            }
        } else if self.finished {
            Reaction { state: self, controls: seq![], quit: key.code == KeyCode::Char('q') }
        } else if self.error_prompt is Some {
            self.key_in_error(key.code)
        } else {
            self.key_in_playback(key.code)
        }
    }
}

/// Handles a key press. Returns whether the screen is to be left, and what is to
/// be sent to the engine.
pub fn handle_key_event(key: KeyPress, state: &mut ScreenState) -> (reaction: (
    bool,
    Vec<PlaybackControl>,
))
    ensures
        final(state)@ == old(state)@.pressed(key).state,
        reaction.0 == old(state)@.pressed(key).quit,
        reaction.1@ == old(state)@.pressed(key).controls,
{
    let ghost before = state@;
    let mut controls: Vec<PlaybackControl> = Vec::new();
    // Ctrl-C always quits.
    if key.is_interrupt() {
        if !state.finished {
            controls.push(PlaybackControl::ErrorResponse(ErrorAction::Stop));
        }
        assert(controls@ =~= before.pressed(key).controls);
        return (true, controls);
    }
    // When finished, only 'q' exits.
    if state.finished {
        assert(controls@ =~= before.pressed(key).controls);
        return (key.code == KeyCode::Char('q'), controls);
    }
    // ── Error prompt mode ─────────────────────────────────────────────
    if state.error_prompt.is_some() {
        let mut quit = false;
        match key.code {
            KeyCode::Char('s') => {
                state.error_prompt = None;
                controls.push(PlaybackControl::ErrorResponse(ErrorAction::SkipRow));
            },
            KeyCode::Char('r') => {
                state.error_prompt = None;
                controls.push(PlaybackControl::ErrorResponse(ErrorAction::RetryRow));
            },
            KeyCode::Char('q') => {
                state.error = state.error_prompt.take();
                controls.push(PlaybackControl::ErrorResponse(ErrorAction::Stop));
                quit = true;
            },
            _ => {},
        }
        assert(controls@ =~= before.key_in_error(key.code).controls);
        return (quit, controls);
    }
    // ── Normal playback mode ──────────────────────────────────────────
    match key.code {
        // Quit.
        KeyCode::Char('q') => {
            controls.push(PlaybackControl::ErrorResponse(ErrorAction::Stop));
            assert(controls@ =~= before.pressed(key).controls);
            return (true, controls);
        },
        // Space: pause or resume.
        KeyCode::Char(' ') => {
            if state.speed == PlaybackSpeed::Step {
                controls.push(PlaybackControl::SetSpeed(PlaybackSpeed::Step));
                controls.push(PlaybackControl::Proceed);
                state.waiting_for_confirmation = false;
            } else {
                controls.push(PlaybackControl::Pause);
                state.speed = PlaybackSpeed::Step;
            }
        },
        // Enter: proceed past a confirmation gate.
        KeyCode::Enter => {
            if state.waiting_for_confirmation {
                controls.push(PlaybackControl::Proceed);
                state.waiting_for_confirmation = false;
            }
        },
        // The speed multiplier.
        KeyCode::Char('+') => set_multiplier(state, &mut controls, true),
        KeyCode::Char('-') => set_multiplier(state, &mut controls, false),
        // Direct speed selection: 1/2/3 for Step/Walk/Run.
        KeyCode::Char('1') => select_speed(state, &mut controls, PlaybackSpeed::Step),
        KeyCode::Char('2') => select_speed(state, &mut controls, PlaybackSpeed::Walk),
        KeyCode::Char('3') => select_speed(state, &mut controls, PlaybackSpeed::Run),
        _ => {},
    }
    assert(controls@ =~= before.pressed(key).controls);
    (false, controls)
}

/// Selects a speed.
fn select_speed(state: &mut ScreenState, controls: &mut Vec<PlaybackControl>, speed: PlaybackSpeed)
    ensures
        final(state)@ == old(state)@.select(speed).state,
        final(controls)@ == old(controls)@ + old(state)@.select(speed).controls,
{
    state.speed = speed;
    controls.push(PlaybackControl::SetSpeed(speed));
    // If switching away from Step while at a gate, auto-proceed.
    if speed != PlaybackSpeed::Step && state.waiting_for_confirmation {
        controls.push(PlaybackControl::Proceed);
        state.waiting_for_confirmation = false;
    }
    assert(controls@ =~= old(controls)@ + old(state)@.select(speed).controls);
}

/// Changes the speed multiplier by one step.
fn set_multiplier(state: &mut ScreenState, controls: &mut Vec<PlaybackControl>, up: bool)
    ensures
        final(state)@ == old(state)@.rate(
            if up {
                faster(old(state)@.speed_multiplier)
            } else {
                slower(old(state)@.speed_multiplier)
            },
        ).state,
        final(controls)@ == old(controls)@ + old(state)@.rate(
            if up {
                faster(old(state)@.speed_multiplier)
            } else {
                slower(old(state)@.speed_multiplier)
            },
        ).controls,
{
    let now: u32 = state.speed_multiplier;
    let multiplier: u32 = if up {
        if now >= MAX_MULTIPLIER - MULTIPLIER_STEP {
            MAX_MULTIPLIER
        } else {
            now + MULTIPLIER_STEP
        }
    } else {
        if now <= MIN_MULTIPLIER + MULTIPLIER_STEP {
            MIN_MULTIPLIER
        } else {
            now - MULTIPLIER_STEP
        }
    };
    state.speed_multiplier = multiplier;
    controls.push(PlaybackControl::SetSpeedMultiplier(multiplier));
    assert(controls@ =~= old(controls)@ + seq![PlaybackControl::SetSpeedMultiplier(multiplier)]);
}

// ── Events ────────────────────────────────────────────────────────────────────

/// The status at a confirmation gate.
pub open spec fn gate_status(speed: PlaybackSpeed) -> Seq<char> {
    match speed {
        PlaybackSpeed::Step => "Field complete. [Enter] next field."@,
        PlaybackSpeed::Walk => "Row complete. [Enter] next row."@,
        PlaybackSpeed::Run => "Waiting..."@,
    }
}

/// The status when playback is over.
pub open spec fn final_status(stopped: bool, rows_completed: nat, rows_skipped: nat) -> Seq<char> {
    if stopped {
        "Stopped. "@ + text::decimal(rows_completed) + " completed, "@ + text::decimal(rows_skipped)
            + " skipped. Press [q] to quit."@
    } else {
        "Done! "@ + text::decimal(rows_completed) + " rows completed, "@ + text::decimal(
            rows_skipped,
        ) + " skipped. Press [q] to quit."@
    }
}

impl ScreenView {
    /// The screen after an event of the engine.
    pub open spec fn told(self, event: PlaybackEventView) -> ScreenView {
        match event {
            PlaybackEventView::RowStarted { row_index } => ScreenView {
                current_row: row_index,
                status: "Playing row "@ + text::decimal(row_index + 1) + " of "@ + text::decimal(
                    self.total_rows,
                ) + "..."@,
                ..self
            },
            PlaybackEventView::StepStarted { .. } => self,
            PlaybackEventView::StepCompleted { .. } => self,
            PlaybackEventView::WaitingForConfirmation => ScreenView {
                waiting_for_confirmation: true,
                status: gate_status(self.speed),
                ..self
            },
            PlaybackEventView::SpeedChanged(speed) => ScreenView { speed, ..self },
            PlaybackEventView::SpeedMultiplierChanged(speed_multiplier) => ScreenView {
                speed_multiplier,
                ..self
            },
            PlaybackEventView::RowCompleted { .. } => ScreenView {
                rows_completed: self.rows_completed + 1,
                waiting_for_confirmation: false,
                ..self
            },
            PlaybackEventView::StepFailed { row_index, step_index, error } => ScreenView {
                status: "Row "@ + text::decimal(row_index + 1) + ", step "@ + text::decimal(
                    step_index + 1,
                ) + ": "@ + error,
                error_prompt: Some(error),
                ..self
            },
            PlaybackEventView::Finished { rows_completed, rows_skipped } => ScreenView {
                rows_completed,
                rows_skipped,
                finished: true,
                status: final_status(self.error is Some, rows_completed, rows_skipped),
                ..self
            },
        }
    }

    /// The screen when the engine has ended without saying so.
    pub open spec fn abandoned(self) -> ScreenView {
        if self.finished {
            self
        } else {
            ScreenView {
                finished: true,
                status: final_status(true, self.rows_completed, self.rows_skipped),
                ..self
            }
        }
    }
}

/// The column that a step fills, if any.
pub open spec fn filled_column(step_to_column: Seq<Option<usize>>, step: nat) -> Option<usize> {
    if step < step_to_column.len() {
        step_to_column[step as int]
    } else {
        None
    }
}

/// Whether an event is about rows and cells that the table has.
pub open spec fn fits(
    event: PlaybackEventView,
    table: TableView,
    step_to_column: Seq<Option<usize>>,
) -> bool {
    match event {
        PlaybackEventView::RowStarted { row_index } => row_index < table.rows.len(),
        PlaybackEventView::RowCompleted { row_index } => row_index < table.rows.len(),
        PlaybackEventView::StepCompleted { row_index, step_index } => match filled_column(
            step_to_column,
            step_index,
        ) {
            Some(col) => table.has_cell(row_index as int, col as int),
            None => true,
        },
        _ => true,
    }
}

/// The table after an event of the engine.
pub open spec fn marked(
    table: TableView,
    event: PlaybackEventView,
    step_to_column: Seq<Option<usize>>,
) -> TableView {
    match event {
        PlaybackEventView::RowStarted { row_index } => table.with_row(
            row_index as int,
            RowState::InProgress,
        ),
        PlaybackEventView::RowCompleted { row_index } => table.with_row(
            row_index as int,
            RowState::Done,
        ),
        PlaybackEventView::StepCompleted { row_index, step_index } => match filled_column(
            step_to_column,
            step_index,
        ) {
            Some(col) => table.with_cell(row_index as int, col as int, CellState::Done),
            None => table,
        },
        _ => table,
    }
}

/// Takes in an event of the engine.
pub fn handle_playback_event(
    event: PlaybackEvent,
    state: &mut ScreenState,
    table_state: &mut TableState,
    step_to_column: &[Option<usize>],
)
    requires
        fits(event@, old(table_state)@, step_to_column@),
        event@ is RowCompleted ==> old(state).rows_completed < usize::MAX,
    ensures
        final(state)@ == old(state)@.told(event@),
        final(table_state)@ == marked(old(table_state)@, event@, step_to_column@),
{
    match event {
        PlaybackEvent::RowStarted { row_index } => {
            state.current_row = row_index;
            table_state.set_row_state(row_index, RowState::InProgress);
            let mut status = "Playing row ".to_owned();
            status.append(&text::decimal_text(row_index as u128 + 1));
            status.append(" of ");
            status.append(&text::decimal_text(state.total_rows as u128));
            status.append("...");
            state.status = status;
        },
        PlaybackEvent::StepStarted { .. } => {},
        PlaybackEvent::StepCompleted { row_index, step_index } => {
            // Flip the cell for the column this step fills (if any).
            // Clicks and navigations don't have column bindings; only Type steps do.
            if step_index < step_to_column.len() {
                if let Some(col) = step_to_column[step_index] {
                    table_state.set_cell_state(row_index, col, CellState::Done);
                }
            }
        },
        PlaybackEvent::WaitingForConfirmation => {
            state.waiting_for_confirmation = true;
            state.status = match state.speed {
                PlaybackSpeed::Step => "Field complete. [Enter] next field.".to_owned(),
                PlaybackSpeed::Walk => "Row complete. [Enter] next row.".to_owned(),
                PlaybackSpeed::Run => "Waiting...".to_owned(),
            };
        },
        PlaybackEvent::SpeedChanged(speed) => {
            state.speed = speed;
        },
        PlaybackEvent::SpeedMultiplierChanged(multiplier) => {
            state.speed_multiplier = multiplier;
        },
        PlaybackEvent::RowCompleted { row_index } => {
            state.rows_completed = state.rows_completed + 1;
            table_state.set_row_state(row_index, RowState::Done);
            state.waiting_for_confirmation = false;
        },
        PlaybackEvent::StepFailed { row_index, step_index, error } => {
            let mut status = "Row ".to_owned();
            status.append(&text::decimal_text(row_index as u128 + 1));
            status.append(", step ");
            status.append(&text::decimal_text(step_index as u128 + 1));
            status.append(": ");
            status.append(&error);
            state.status = status;
            state.error_prompt = Some(error);
        },
        PlaybackEvent::Finished { rows_completed, rows_skipped } => {
            state.rows_completed = rows_completed;
            state.rows_skipped = rows_skipped;
            state.finished = true;
            state.status = closing_status(state.error.is_some(), rows_completed, rows_skipped);
        },
    }
}

/// The status when playback is over.
fn closing_status(stopped: bool, rows_completed: usize, rows_skipped: usize) -> (status: String)
    ensures
        status@ == final_status(stopped, rows_completed as nat, rows_skipped as nat),
{
    let mut status = if stopped {
        "Stopped. ".to_owned()
    } else {
        "Done! ".to_owned()
    };
    status.append(&text::decimal_text(rows_completed as u128));
    if stopped {
        status.append(" completed, ");
    } else {
        status.append(" rows completed, ");
    }
    status.append(&text::decimal_text(rows_skipped as u128));
    status.append(" skipped. Press [q] to quit.");
    status
}

/// Takes in that the engine has ended without saying so.
pub fn handle_engine_gone(state: &mut ScreenState)
    ensures
        final(state)@ == old(state)@.abandoned(),
{
    if !state.finished {
        state.finished = true;
        state.status = closing_status(true, state.rows_completed, state.rows_skipped);
    }
}

/// What the screen reports when it is left.
pub fn outcome(state: &ScreenState) -> (outcome: PlaybackOutcome)
    ensures
        match state.error {
            Some(error) => outcome is Error && outcome->Error_0@ == error@,
            None => outcome == (PlaybackOutcome::Done {
                rows_completed: state.rows_completed,
                rows_skipped: state.rows_skipped,
            }),
        },
{
    match &state.error {
        Some(error) => PlaybackOutcome::Error(error.clone()),
        None => PlaybackOutcome::Done {
            rows_completed: state.rows_completed,
            rows_skipped: state.rows_skipped,
        },
    }
}

// ── Set-up ────────────────────────────────────────────────────────────────────

/// The first column, from `from` on, that is bound to a step.
pub open spec fn first_bound(bindings: Seq<Option<usize>>, step: nat, from: nat) -> Option<usize>
    decreases bindings.len() - from,
{
    if from >= bindings.len() {
        None
    } else if bindings[from as int] is Some && bindings[from as int]->0 == step {
        Some(from as usize)
    } else {
        first_bound(bindings, step, from + 1)
    }
}

/// For each step of a workflow, the column it fills (if any).
pub open spec fn filled_columns(workflow: WorkflowView) -> Seq<Option<usize>> {
    Seq::new(
        workflow.steps.len(),
        |step: int| first_bound(workflow.column_bindings, step as nat, 0),
    )
}

/// Reverse lookup: for each step, the column it fills (if any).
///
/// `column_bindings[col] = Some(step_idx)` means that step fills that column.
/// Inverted, a cell can be flipped Done when its step is completed.
pub fn step_to_column(workflow: &Workflow) -> (columns: Vec<Option<usize>>)
    ensures
        columns@ == filled_columns(workflow@),
{
    let mut columns: Vec<Option<usize>> = Vec::new();
    let mut step: usize = 0;
    while step < workflow.steps.len()
        invariant
            step <= workflow.steps.len(),
            columns@.len() == step,
            forall|s: int|
                0 <= s < step ==> #[trigger] columns@[s] == first_bound(
                    workflow@.column_bindings,
                    s as nat,
                    0,
                ),
        decreases workflow.steps.len() - step,
    {
        columns.push(column_of_step(workflow, step));
        step = step + 1;
    }
    assert(columns@ =~= filled_columns(workflow@));
    columns
}

/// The first column that is bound to a step.
fn column_of_step(workflow: &Workflow, step: usize) -> (column: Option<usize>)
    ensures
        column == first_bound(workflow@.column_bindings, step as nat, 0),
{
    let mut column: usize = 0;
    while column < workflow.column_bindings.len()
        invariant
            column <= workflow.column_bindings.len(),
            first_bound(workflow@.column_bindings, step as nat, 0) == first_bound(
                workflow@.column_bindings,
                step as nat,
                column as nat,
            ),
        decreases workflow.column_bindings.len() - column,
    {
        if let Some(bound) = workflow.column_bindings[column] {
            if bound == step {
                return Some(column);
            }
        }
        column = column + 1;
    }
    None
}

/// The table before playback: rows before `start_row` are already done.
pub fn initial_table(dataset: &DataSet, start_row: usize) -> (table: TableState)
    requires
        start_row <= dataset@.rows.len(),
    ensures
        table@.rows == Seq::new(
            dataset@.rows.len(),
            |row: int|
                if row < start_row {
                    RowState::Done
                } else {
                    RowState::Upcoming
                },
        ),
        table@.cells == Seq::new(
            dataset@.rows.len(),
            |row: int|
                Seq::new(
                    dataset@.column_count,
                    |col: int|
                        if row < start_row {
                            CellState::Done
                        } else {
                            CellState::Pending
                        },
                ),
        ),
        table@.viewport_row == 0,
        table@.viewport_col == 0,
        table@.widths.len() == dataset@.column_count,
        forall|col: int|
            0 <= col < table@.widths.len() ==> #[trigger] table@.widths[col]
                == super::table::column_width(dataset@, col as nat, dataset@.rows.len()),
{
    let rows = dataset.row_count();
    let cols = dataset.column_count();
    let mut table = TableState::new(rows, cols, dataset);
    let ghost widths = table@.widths;
    let mut row: usize = 0;
    while row < start_row
        invariant
            row <= start_row <= rows,
            table@.widths == widths,
            table@.rows.len() == rows,
            table@.cells.len() == rows,
            table@.viewport_row == 0,
            table@.viewport_col == 0,
            forall|r: int|
                0 <= r < rows ==> #[trigger] table@.rows[r] == if r < row {
                    RowState::Done
                } else {
                    RowState::Upcoming
                },
            forall|r: int|
                0 <= r < rows ==> (#[trigger] table@.cells[r]) == Seq::new(
                    cols as nat,
                    |col: int|
                        if r < row {
                            CellState::Done
                        } else {
                            CellState::Pending
                        },
                ),
        decreases start_row - row,
    {
        let ghost before = table@;
        let mut col: usize = 0;
        while col < cols
            invariant
                col <= cols,
                row < rows,
                before.cells.len() == rows,
                table@ == (TableView { cells: table@.cells, ..before }),
                table@.cells.len() == rows,
                forall|r: int|
                    0 <= r < rows && r != row ==> #[trigger] table@.cells[r] == before.cells[r],
                table@.cells[row as int].len() == cols,
                forall|c: int|
                    0 <= c < cols ==> #[trigger] table@.cells[row as int][c] == if c < col {
                        CellState::Done
                    } else {
                        CellState::Pending
                    },
            decreases cols - col,
        {
            table.set_cell_state(row, col, CellState::Done);
            col = col + 1;
        }
        table.set_row_state(row, RowState::Done);
        assert(table@.cells[row as int] =~= Seq::new(cols as nat, |col: int| CellState::Done));
        row = row + 1;
        assert forall|r: int| 0 <= r < rows implies (#[trigger] table@.cells[r]) == Seq::new(
            cols as nat,
            |col: int|
                if r < row {
                    CellState::Done
                } else {
                    CellState::Pending
                },
        ) by {
            assert(table@.cells[r] =~= Seq::new(
                cols as nat,
                |col: int|
                    if r < row {
                        CellState::Done
                    } else {
                        CellState::Pending
                    },
            ));
        }
    }
    assert(table@.rows =~= Seq::new(
        dataset@.rows.len(),
        |row: int|
            if row < start_row {
                RowState::Done
            } else {
                RowState::Upcoming
            },
    ));
    assert(table@.cells =~= Seq::new(
        dataset@.rows.len(),
        |row: int|
            Seq::new(
                dataset@.column_count,
                |col: int|
                    if row < start_row {
                        CellState::Done
                    } else {
                        CellState::Pending
                    },
            ),
    ));
    table
}

// ── Status bar ────────────────────────────────────────────────────────────────

/// The name of a playback speed.
pub open spec fn speed_name(speed: PlaybackSpeed) -> Seq<char> {
    match speed {
        PlaybackSpeed::Step => "Step"@,
        PlaybackSpeed::Walk => "Walk"@,
        PlaybackSpeed::Run => "Run"@,
    }
}

/// Human-readable label for a playback speed.
pub fn speed_label(speed: PlaybackSpeed) -> (label: &'static str)
    ensures
        label@ == speed_name(speed),
{
    match speed {
        PlaybackSpeed::Step => "Step",
        PlaybackSpeed::Walk => "Walk",
        PlaybackSpeed::Run => "Run",
    }
}

/// Key hints for the speed keys.
pub open spec fn speed_hints() -> Seq<SpanView> {
    seq![super::colored_span("[1-3]"@, Color::Cyan), super::plain_span(" Speed   "@)]
}

/// The hint that stops playback.
pub open spec fn stop_hint() -> Seq<SpanView> {
    seq![super::colored_span("[q]"@, Color::Red), super::plain_span(" Stop"@)]
}

/// The key hints of the screen.
pub open spec fn hints(state: ScreenView) -> Seq<SpanView> {
    if state.finished {
        seq![super::colored_span("[q]"@, Color::Red), super::plain_span(" Quit"@)]
    } else if state.error_prompt is Some {
        seq![
            super::colored_span("[s]"@, Color::Yellow),
            super::plain_span(" Skip row   "@),
            super::colored_span("[r]"@, Color::Yellow),
            super::plain_span(" Retry row   "@),
            super::colored_span("[q]"@, Color::Red),
            super::plain_span(" Stop"@),
        ]
    } else if state.waiting_for_confirmation {
        seq![super::colored_span("[Enter]"@, Color::Green), super::plain_span(" Proceed   "@)] + (
        if state.speed == PlaybackSpeed::Step {
            seq![super::colored_span("[Space]"@, Color::Green), super::plain_span(" Resume   "@)]
        } else {
            seq![]
        }) + speed_hints() + stop_hint()
    } else {
        seq![
            super::colored_span("[Space]"@, Color::Green),
            super::plain_span(
                if state.speed == PlaybackSpeed::Step {
                    " Resume   "@
                } else {
                    " Pause   "@
                },
            ),
        ] + speed_hints() + stop_hint()
    }
}

/// The headline of the screen.
pub open spec fn headline(state: ScreenView) -> Seq<char> {
    "Playback — Row "@ + text::decimal(state.current_row + 1) + " of "@ + text::decimal(
        state.total_rows,
    ) + "   Speed: "@ + speed_name(state.speed)
}

/// Key-hint spans for the 1/2/3 speed keys, and for stopping.
fn push_speed_and_stop(spans: &mut Vec<Span>)
    ensures
        final(spans).deep_view() == old(spans).deep_view() + speed_hints() + stop_hint(),
{
    spans.push(super::colored("[1-3]", Color::Cyan));
    spans.push(super::plain(" Speed   "));
    spans.push(super::colored("[q]", Color::Red));
    spans.push(super::plain(" Stop"));
    assert(spans.deep_view() =~= old(spans).deep_view() + speed_hints() + stop_hint());
}

/// The key hints of the screen.
pub fn hint_spans(state: &ScreenState) -> (spans: Vec<Span>)
    ensures
        spans.deep_view() == hints(state@),
{
    let mut spans: Vec<Span> = Vec::new();
    if state.finished {
        spans.push(super::colored("[q]", Color::Red));
        spans.push(super::plain(" Quit"));
    } else if state.error_prompt.is_some() {
        spans.push(super::colored("[s]", Color::Yellow));
        spans.push(super::plain(" Skip row   "));
        spans.push(super::colored("[r]", Color::Yellow));
        spans.push(super::plain(" Retry row   "));
        spans.push(super::colored("[q]", Color::Red));
        spans.push(super::plain(" Stop"));
    } else if state.waiting_for_confirmation {
        spans.push(super::colored("[Enter]", Color::Green));
        spans.push(super::plain(" Proceed   "));
        if state.speed == PlaybackSpeed::Step {
            spans.push(super::colored("[Space]", Color::Green));
            spans.push(super::plain(" Resume   "));
        }
        push_speed_and_stop(&mut spans);
    } else {
        spans.push(super::colored("[Space]", Color::Green));
        if state.speed == PlaybackSpeed::Step {
            spans.push(super::plain(" Resume   "));
        } else {
            spans.push(super::plain(" Pause   "));
        }
        push_speed_and_stop(&mut spans);
    }
    assert(spans.deep_view() =~= hints(state@));
    spans
}

/// The lines of the status bar: headline, status, key hints.
pub fn status_lines(state: &ScreenState) -> (lines: Vec<Vec<Span>>)
    ensures
        lines.deep_view() == seq![
            seq![super::plain_span(headline(state@))],
            seq![super::plain_span(state.status@)],
            hints(state@),
        ],
{
    let mut header = "Playback — Row ".to_owned();
    header.append(&text::decimal_text(state.current_row as u128 + 1));
    header.append(" of ");
    header.append(&text::decimal_text(state.total_rows as u128));
    header.append("   Speed: ");
    header.append(speed_label(state.speed));
    let mut lines: Vec<Vec<Span>> = Vec::new();
    lines.push(super::line(super::plain(&header)));
    lines.push(super::line(super::plain(&state.status)));
    lines.push(hint_spans(state));
    assert(lines.deep_view() =~= seq![
        seq![super::plain_span(headline(state@))],
        seq![super::plain_span(state.status@)],
        hints(state@),
    ]);
    lines
}

// ── Laws ──────────────────────────────────────────────────────────────────────

/// A column that a step fills is one that has a binding.
proof fn lemma_first_bound(bindings: Seq<Option<usize>>, step: nat, from: nat)
    ensures
        first_bound(bindings, step, from) matches Some(column) ==> column < bindings.len(),
    decreases bindings.len() - from,
{
    if from < bindings.len() {
        lemma_first_bound(bindings, step, from + 1);
    }
}

/// Every event of an engine is about rows and cells that a table for the same data
/// has, and leaves the table in that shape, provided the workflow has no more
/// bindings than columns.
pub proof fn law_engine_events_fit(before: EngineView, input: Input, table: TableView, i: int)
    requires
        before.wf(),
        before.workflow.steps.len() <= usize::MAX,
        before.workflow.column_bindings.len() <= before.workflow.column_count,
        table.shaped(before.data),
        0 <= i < before.turn(input).events.len(),
    ensures
        fits(before.turn(input).events[i], table, filled_columns(before.workflow)),
        marked(table, before.turn(input).events[i], filled_columns(before.workflow)).shaped(
            before.data,
        ),
{
    if let Some(step) = before.at_step() {
        lemma_first_bound(before.workflow.column_bindings, step as nat, 0);
    }
    laws::law_events_are_about_rows(before, input, i);
}

/// The screen after the first `n` of some events.
pub open spec fn told_all(screen: ScreenView, events: Seq<PlaybackEventView>, n: nat) -> ScreenView
    decreases n,
{
    if n == 0 {
        screen
    } else {
        told_all(screen, events, (n - 1) as nat).told(events[n - 1])
    }
}

/// The screen counts the rows as the engine does: where both agree before a turn,
/// they agree after it, and no row is counted that the data does not have.
pub proof fn law_screen_counts_rows(before: EngineView, input: Input, screen: ScreenView)
    requires
        before.wf(),
        before.workflow.steps.len() <= usize::MAX,
        screen.rows_completed == before.completed,
    ensures
        told_all(
            screen,
            before.turn(input).events,
            before.turn(input).events.len(),
        ).rows_completed == before.turn(input).state.completed,
        forall|i: int|
            0 <= i < before.turn(input).events.len() && (#[trigger] before.turn(
                input,
            ).events[i]) is RowCompleted ==> told_all(
                screen,
                before.turn(input).events,
                i as nat,
            ).rows_completed < before.data.rows.len(),
{
    let events = before.turn(input).events;
    lemma_told_count(before, input, screen, events.len());
    assert forall|i: int| 0 <= i < events.len() && (
    #[trigger] events[i]) is RowCompleted implies told_all(
        screen,
        events,
        i as nat,
    ).rows_completed < before.data.rows.len() by {
        lemma_rows_counted(before, input, i);
    }
}

/// A turn completes at most one row, and says so first; the final count is the
/// engine's.
proof fn lemma_rows_counted(before: EngineView, input: Input, i: int)
    requires
        before.wf(),
        before.workflow.steps.len() <= usize::MAX,
        0 <= i < before.turn(input).events.len(),
    ensures
        ({
            let after = before.turn(input);
            match after.events[i] {
                PlaybackEventView::RowCompleted { .. } => {
                    &&& i == 0
                    &&& before.completed < before.data.rows.len()
                    &&& after.state.completed == before.completed + 1
                },
                PlaybackEventView::Finished { rows_completed, .. } => rows_completed
                    == after.state.completed,
                _ => i == 0 ==> after.state.completed == before.completed,
            }
        }),
{
}

/// Without events no row is completed.
proof fn lemma_silent_turn(before: EngineView, input: Input)
    requires
        before.turn(input).events.len() == 0,
    ensures
        before.turn(input).state.completed == before.completed,
{
}

/// The count after the first `n` events of a turn.
proof fn lemma_told_count(before: EngineView, input: Input, screen: ScreenView, n: nat)
    requires
        before.wf(),
        before.workflow.steps.len() <= usize::MAX,
        screen.rows_completed == before.completed,
        n <= before.turn(input).events.len(),
    ensures
        told_all(screen, before.turn(input).events, n).rows_completed == if n == 0
            && before.turn(input).events.len() > 0 {
            before.completed
        } else {
            before.turn(input).state.completed
        },
    decreases n,
{
    if n > 0 {
        lemma_told_count(before, input, screen, (n - 1) as nat);
        lemma_rows_counted(before, input, n - 1);
    } else if before.turn(input).events.len() == 0 {
        lemma_silent_turn(before, input);
    }
}

/// Ctrl-C always leaves the screen, and stops playback that is not finished.
pub proof fn law_interrupt_leaves(state: ScreenView, key: KeyPress)
    requires
        key.interrupts(),
    ensures
        state.pressed(key).quit,
        !state.finished ==> state.pressed(key).controls == seq![
            PlaybackControl::ErrorResponse(ErrorAction::Stop),
        ],
{
}

/// A failed step is answered by skipping the row with `s`, retrying it with `r`, or
/// stopping with `q`; every other key leaves the question open.
pub proof fn law_error_keys(state: ScreenView, key: KeyPress)
    requires
        !state.finished,
        state.error_prompt is Some,
        !key.interrupts(),
    ensures
        state.pressed(key).controls == if key.code == KeyCode::Char('s') {
            seq![PlaybackControl::ErrorResponse(ErrorAction::SkipRow)]
        } else if key.code == KeyCode::Char('r') {
            seq![PlaybackControl::ErrorResponse(ErrorAction::RetryRow)]
        } else if key.code == KeyCode::Char('q') {
            seq![PlaybackControl::ErrorResponse(ErrorAction::Stop)]
        } else {
            seq![]
        },
        key.code == KeyCode::Char('s') || key.code == KeyCode::Char('r') || key.code
            == KeyCode::Char('q') || state.pressed(key).state == state,
{
}

/// The keys `+` and `-` keep the speed multiplier within its range.
pub proof fn law_multiplier_keys_in_range(multiplier: u32)
    requires
        MIN_MULTIPLIER <= multiplier <= MAX_MULTIPLIER,
    ensures
        MIN_MULTIPLIER <= faster(multiplier) <= MAX_MULTIPLIER,
        MIN_MULTIPLIER <= slower(multiplier) <= MAX_MULTIPLIER,
        faster(multiplier) >= multiplier >= slower(multiplier),
{
}

/// What the engine is told by the controls that a key sends, one after another.
pub open spec fn engine_after(engine: EngineView, controls: Seq<PlaybackControl>) -> EngineView
    decreases controls.len(),
{
    if controls.len() == 0 {
        engine
    } else {
        engine_after(engine, controls.drop_last()).turn(
            Input::Control(Signal::Received(controls.last())),
        ).state
    }
}

/// A key that changes the speed or its multiplier on the screen changes it just so in
/// the engine, between steps as well as at a gate: the two never disagree.
pub proof fn law_keys_reach_engine(screen: ScreenView, engine: EngineView, key: KeyPress)
    requires
        engine.wf(),
        engine.workflow.steps.len() <= usize::MAX,
        engine.phase is StepDrain || engine.phase is RowDrain || engine.phase is StepGate
            || engine.phase is RowGate,
        !screen.finished,
        screen.error_prompt is None,
        screen.speed == engine.speed,
        screen.speed_multiplier == engine.multiplier,
    ensures
        engine_after(engine, screen.pressed(key).controls).speed == screen.pressed(key).state.speed,
        engine_after(engine, screen.pressed(key).controls).multiplier == screen.pressed(
            key,
        ).state.speed_multiplier,
{
    reveal_with_fuel(engine_after, 3);
    let controls = screen.pressed(key).controls;
    if controls.len() == 2 {
        assert(controls.drop_last() =~= seq![controls[0]]);
        assert(seq![controls[0]].drop_last() =~= seq![]);
    } else if controls.len() == 1 {
        assert(controls.drop_last() =~= seq![]);
    }
}

/// At a gate, Enter and Space let playback go on; selecting Walk or Run does so too, and
/// selecting Step or changing the multiplier does not. Away from a gate nothing is let
/// go on but by Space at Step speed.
pub proof fn law_keys_that_proceed(screen: ScreenView, key: KeyPress)
    requires
        !screen.finished,
        screen.error_prompt is None,
        !key.ctrl,
    ensures
        screen.pressed(key).controls.contains(PlaybackControl::Proceed) <==> {
            ||| screen.waiting_for_confirmation && (key.code == KeyCode::Enter || key.code
                == KeyCode::Char('2') || key.code == KeyCode::Char('3'))
            ||| screen.speed == PlaybackSpeed::Step && key.code == KeyCode::Char(' ')
        },
        screen.pressed(key).controls.contains(PlaybackControl::Proceed)
            ==> !screen.pressed(key).state.waiting_for_confirmation && screen.pressed(
            key,
        ).controls.last() == PlaybackControl::Proceed,
        !screen.pressed(key).controls.contains(PlaybackControl::Proceed) ==> screen.pressed(
            key,
        ).state.waiting_for_confirmation == screen.waiting_for_confirmation,
{
    let controls = screen.pressed(key).controls;
    if controls.len() > 0 {
        assert(controls[controls.len() - 1] == controls.last());
    }
    if controls.contains(PlaybackControl::Proceed) {
        let i = choose|i: int|
            0 <= i < controls.len() && controls[i] == PlaybackControl::Proceed;
        assert(controls[i] == PlaybackControl::Proceed);
    } else if controls.len() > 0 {
        assert(controls.last() != PlaybackControl::Proceed);
    }
}

/// The keys 1, 2 and 3 select Step, Walk and Run, Space pauses by going to Step speed,
/// and no other key changes the speed.
pub proof fn law_speed_keys(screen: ScreenView, key: KeyPress)
    requires
        !screen.finished,
        screen.error_prompt is None,
    ensures
        screen.pressed(key).state.speed == if key.code == KeyCode::Char('1') {
            PlaybackSpeed::Step
        } else if key.code == KeyCode::Char('2') {
            PlaybackSpeed::Walk
        } else if key.code == KeyCode::Char('3') {
            PlaybackSpeed::Run
        } else if key.code == KeyCode::Char(' ') {
            PlaybackSpeed::Step
        } else {
            screen.speed
        },
{
}

/// The key `+` plays a quarter of the normal speed faster and `-` as much slower, and
/// one undoes the other, within the range of the multiplier; no other key changes it.
pub proof fn law_multiplier_keys(screen: ScreenView, key: KeyPress)
    requires
        !screen.finished,
        screen.error_prompt is None,
        250 <= screen.speed_multiplier <= 4000,
    ensures
        ({
            let now = screen.speed_multiplier;
            let after = screen.pressed(key).state.speed_multiplier;
            &&& key.code == KeyCode::Char('+') ==> after == if now + 250 <= 4000 {
                now + 250
            } else {
                4000
            }
            &&& key.code == KeyCode::Char('-') ==> after == if now - 250 >= 250 {
                now - 250
            } else {
                250
            }
            &&& key.code != KeyCode::Char('+') && key.code != KeyCode::Char('-') ==> after == now
        }),
        screen.speed_multiplier + 250 <= 4000 ==> slower(faster(screen.speed_multiplier))
            == screen.speed_multiplier,
{
}

/// The screen is left with `q` or Ctrl-C and in no other way, and playback is stopped
/// then unless it is over; on a screen that is finished no key does anything else.
pub proof fn law_how_screen_is_left(screen: ScreenView, key: KeyPress)
    ensures
        screen.pressed(key).quit <==> key.code == KeyCode::Char('q') || key.code == KeyCode::Char(
            'c',
        ) && key.ctrl,
        screen.pressed(key).quit && !screen.finished ==> screen.pressed(key).controls == seq![
            PlaybackControl::ErrorResponse(ErrorAction::Stop),
        ],
        screen.finished ==> screen.pressed(key).state == screen && screen.pressed(
            key,
        ).controls.len() == 0,
{
}

/// An answer to a failed step closes the question; what failed is kept as the error
/// only where playback is stopped for it.
pub proof fn law_answers_close_question(screen: ScreenView, key: KeyPress)
    requires
        !screen.finished,
        screen.error_prompt is Some,
        !key.ctrl,
    ensures
        screen.pressed(key).controls.len() > 0 <==> screen.pressed(key).state.error_prompt is None,
        key.code == KeyCode::Char('q') ==> screen.pressed(key).state.error == screen.error_prompt,
        key.code != KeyCode::Char('q') ==> screen.pressed(key).state.error == screen.error,
        screen.pressed(key).state.speed == screen.speed,
        screen.pressed(key).state.speed_multiplier == screen.speed_multiplier,
{
}

/// Whether the screen shows the engine as it is: its speed, its multiplier, the row it
/// is at, how many rows are completed, whether it waits at a gate or for an answer, and
/// whether it has reported its end.
pub open spec fn shows(screen: ScreenView, engine: EngineView) -> bool {
    &&& screen.speed == engine.speed
    &&& screen.speed_multiplier == engine.multiplier
    &&& screen.rows_completed == engine.completed
    &&& engine.in_row() ==> screen.current_row == engine.row
    &&& engine.phase is StepGate || engine.phase is RowGate ==> screen.waiting_for_confirmation
    &&& engine.phase is Failed ==> screen.error_prompt is Some
    &&& engine.phase is Completed ==> screen.finished && screen.rows_skipped == engine.skipped
}

/// A screen that shows the engine as it is still does so when it has been told all that
/// the engine says of what it did.
pub proof fn law_screen_follows_engine(before: EngineView, input: Input, screen: ScreenView)
    requires
        before.wf(),
        before.workflow.steps.len() <= usize::MAX,
        shows(screen, before),
    ensures
        shows(
            told_all(screen, before.turn(input).events, before.turn(input).events.len()),
            before.turn(input).state,
        ),
{
    match input {
        Input::Control(Signal::Received(_)) => lemma_controls_followed(before, input, screen),
        Input::Control(_) => lemma_signals_end_followed(before, input, screen),
        Input::StepDone(_) => lemma_steps_followed(before, input, screen),
        _ => lemma_waits_followed(before, input, screen),
    }
}

/// The screen after up to four events.
pub open spec fn told_few(screen: ScreenView, events: Seq<PlaybackEventView>) -> ScreenView {
    if events.len() == 0 {
        screen
    } else if events.len() == 1 {
        screen.told(events[0])
    } else if events.len() == 2 {
        screen.told(events[0]).told(events[1])
    } else if events.len() == 3 {
        screen.told(events[0]).told(events[1]).told(events[2])
    } else {
        screen.told(events[0]).told(events[1]).told(events[2]).told(events[3])
    }
}

/// Up to four events are told one after another.
proof fn lemma_told_few(screen: ScreenView, events: Seq<PlaybackEventView>)
    requires
        events.len() <= 4,
    ensures
        told_all(screen, events, events.len()) == told_few(screen, events),
{
    reveal_with_fuel(told_all, 5);
}

/// Signals that end, or that there are none, are followed.
proof fn lemma_signals_end_followed(before: EngineView, input: Input, screen: ScreenView)
    requires
        before.wf(),
        before.workflow.steps.len() <= usize::MAX,
        shows(screen, before),
        input is Control,
        input->Control_0 !is Received,
    ensures
        shows(
            told_all(screen, before.turn(input).events, before.turn(input).events.len()),
            before.turn(input).state,
        ),
{
    lemma_few_events(before, input);
    lemma_told_few(screen, before.turn(input).events);
}

/// Controls are followed.
proof fn lemma_controls_followed(before: EngineView, input: Input, screen: ScreenView)
    requires
        before.wf(),
        before.workflow.steps.len() <= usize::MAX,
        shows(screen, before),
        input is Control,
        input->Control_0 is Received,
    ensures
        shows(
            told_all(screen, before.turn(input).events, before.turn(input).events.len()),
            before.turn(input).state,
        ),
{
    match before.phase {
        Phase::Failed { .. } => lemma_answers_followed(before, input, screen),
        Phase::StepGate { .. } => lemma_field_gate_followed(before, input, screen),
        Phase::RowGate => lemma_row_gate_followed(before, input, screen),
        _ => lemma_adjustments_followed(before, input, screen),
    }
}

/// Controls behind a failed step are followed.
proof fn lemma_answers_followed(before: EngineView, input: Input, screen: ScreenView)
    requires
        before.wf(),
        before.workflow.steps.len() <= usize::MAX,
        shows(screen, before),
        input is Control,
        input->Control_0 is Received,
        before.phase is Failed,
    ensures
        shows(
            told_all(screen, before.turn(input).events, before.turn(input).events.len()),
            before.turn(input).state,
        ),
{
    lemma_few_events(before, input);
    lemma_told_few(screen, before.turn(input).events);
}

/// Controls at a gate behind a field are followed.
proof fn lemma_field_gate_followed(before: EngineView, input: Input, screen: ScreenView)
    requires
        before.wf(),
        before.workflow.steps.len() <= usize::MAX,
        shows(screen, before),
        input is Control,
        input->Control_0 is Received,
        before.phase is StepGate,
    ensures
        shows(
            told_all(screen, before.turn(input).events, before.turn(input).events.len()),
            before.turn(input).state,
        ),
{
    lemma_few_events(before, input);
    lemma_told_few(screen, before.turn(input).events);
}

/// Controls at a gate behind a row are followed.
proof fn lemma_row_gate_followed(before: EngineView, input: Input, screen: ScreenView)
    requires
        before.wf(),
        before.workflow.steps.len() <= usize::MAX,
        shows(screen, before),
        input is Control,
        input->Control_0 is Received,
        before.phase is RowGate,
    ensures
        shows(
            told_all(screen, before.turn(input).events, before.turn(input).events.len()),
            before.turn(input).state,
        ),
{
    lemma_few_events(before, input);
    lemma_told_few(screen, before.turn(input).events);
}

/// Controls elsewhere are followed.
proof fn lemma_adjustments_followed(before: EngineView, input: Input, screen: ScreenView)
    requires
        before.wf(),
        before.workflow.steps.len() <= usize::MAX,
        shows(screen, before),
        input is Control,
        input->Control_0 is Received,
        before.phase !is Failed,
        before.phase !is StepGate,
        before.phase !is RowGate,
    ensures
        shows(
            told_all(screen, before.turn(input).events, before.turn(input).events.len()),
            before.turn(input).state,
        ),
{
    lemma_few_events(before, input);
    lemma_told_few(screen, before.turn(input).events);
}

/// The ends of steps are followed.
proof fn lemma_steps_followed(before: EngineView, input: Input, screen: ScreenView)
    requires
        before.wf(),
        before.workflow.steps.len() <= usize::MAX,
        shows(screen, before),
        input is StepDone,
    ensures
        shows(
            told_all(screen, before.turn(input).events, before.turn(input).events.len()),
            before.turn(input).state,
        ),
{
    lemma_few_events(before, input);
    lemma_told_few(screen, before.turn(input).events);
}

/// Beginnings and the ends of waits are followed.
proof fn lemma_waits_followed(before: EngineView, input: Input, screen: ScreenView)
    requires
        before.wf(),
        before.workflow.steps.len() <= usize::MAX,
        shows(screen, before),
        input !is Control,
        input !is StepDone,
    ensures
        shows(
            told_all(screen, before.turn(input).events, before.turn(input).events.len()),
            before.turn(input).state,
        ),
{
    lemma_few_events(before, input);
    lemma_told_few(screen, before.turn(input).events);
}

/// A turn has few events.
proof fn lemma_few_events(before: EngineView, input: Input)
    requires
        before.wf(),
        before.workflow.steps.len() <= usize::MAX,
    ensures
        before.turn(input).events.len() <= 4,
{
}

/// What the screen is told changes only what it is about: a started row is the current
/// one, a completed row counts one more, a failed step asks for an answer, and the end
/// brings the engine's own counts. No event tells the screen an error by itself.
pub proof fn law_what_events_change(screen: ScreenView, event: PlaybackEventView)
    ensures
        ({
            let after = screen.told(event);
            &&& after.total_rows == screen.total_rows
            &&& after.error == screen.error
            &&& after.current_row == match event {
                PlaybackEventView::RowStarted { row_index } => row_index,
                _ => screen.current_row,
            }
            &&& after.rows_completed == match event {
                PlaybackEventView::RowCompleted { .. } => screen.rows_completed + 1,
                PlaybackEventView::Finished { rows_completed, .. } => rows_completed,
                _ => screen.rows_completed,
            }
            &&& after.rows_skipped == match event {
                PlaybackEventView::Finished { rows_skipped, .. } => rows_skipped,
                _ => screen.rows_skipped,
            }
            &&& after.error_prompt == match event {
                PlaybackEventView::StepFailed { error, .. } => Some(error),
                _ => screen.error_prompt,
            }
            &&& after.finished == (screen.finished || event is Finished)
            &&& event is WaitingForConfirmation ==> after.waiting_for_confirmation
            &&& event is RowCompleted ==> !after.waiting_for_confirmation
            &&& event !is WaitingForConfirmation && event !is RowCompleted
                ==> after.waiting_for_confirmation == screen.waiting_for_confirmation
        }),
{
}

/// A screen whose engine is gone is finished, with the counts that it had.
pub proof fn law_engine_gone_finishes(screen: ScreenView)
    ensures
        screen.abandoned().finished,
        screen.abandoned().rows_completed == screen.rows_completed,
        screen.abandoned().rows_skipped == screen.rows_skipped,
        screen.abandoned().error == screen.error,
        screen.finished ==> screen.abandoned() == screen,
{
}

/// A completed step marks the cell of its row in the column that is bound to it, and a
/// step that no column is bound to marks nothing.
pub proof fn law_step_marks_its_column(
    workflow: WorkflowView,
    table: TableView,
    row: nat,
    step: nat,
    column: int,
)
    requires
        0 <= column < workflow.column_bindings.len() <= usize::MAX,
        table.has_cell(row as int, column),
        step < workflow.steps.len() <= usize::MAX,
    ensures
        ({
            let event = PlaybackEventView::StepCompleted { row_index: row, step_index: step };
            let after = marked(table, event, filled_columns(workflow));
            &&& workflow.column_bindings[column] == Some(step as usize) && (forall|c: int|
                0 <= c < column ==> #[trigger] workflow.column_bindings[c] != Some(step as usize))
                ==> after.cells[row as int][column] == CellState::Done
            &&& (forall|c: int|
                0 <= c < workflow.column_bindings.len()
                    ==> #[trigger] workflow.column_bindings[c] != Some(step as usize))
                ==> after == table
        }),
{
    lemma_column_found(workflow.column_bindings, step, 0);
}

/// The search for the column that is bound to a step finds the first one.
proof fn lemma_column_found(bindings: Seq<Option<usize>>, step: nat, from: nat)
    requires
        bindings.len() <= usize::MAX,
        step <= usize::MAX,
    ensures
        match first_bound(bindings, step, from) {
            Some(column) => {
                &&& from <= column < bindings.len()
                &&& bindings[column as int] == Some(step as usize)
                &&& forall|c: int|
                    from <= c < column ==> #[trigger] bindings[c] != Some(step as usize)
            },
            None => forall|c: int|
                from <= c < bindings.len() ==> #[trigger] bindings[c] != Some(step as usize),
        },
    decreases bindings.len() - from,
{
    if from < bindings.len() {
        lemma_column_found(bindings, step, from + 1);
    }
}

/// A started row is marked as in progress and a completed one as done; no event but the
/// completion of a step marks a cell, and none unmarks one.
pub proof fn law_events_mark_rows(
    table: TableView,
    event: PlaybackEventView,
    step_to_column: Seq<Option<usize>>,
    row: int,
    col: int,
)
    requires
        fits(event, table, step_to_column),
        table.has_cell(row, col),
        row < table.rows.len(),
    ensures
        ({
            let after = marked(table, event, step_to_column);
            &&& after.rows[row] == match event {
                PlaybackEventView::RowStarted { row_index } if row_index == row =>
                    RowState::InProgress,
                PlaybackEventView::RowCompleted { row_index } if row_index == row => RowState::Done,
                _ => table.rows[row],
            }
            &&& event !is StepCompleted ==> after.cells == table.cells
            &&& table.cells[row][col] == CellState::Done ==> after.cells[row][col]
                == CellState::Done
            &&& event matches PlaybackEventView::StepCompleted { row_index, .. } ==> (row_index
                != row ==> after.cells[row][col] == table.cells[row][col])
        }),
{
}

/// The keys that are shown are those that do something: Enter only at a gate, the
/// answers only while one is asked for, and after the end only leaving.
pub proof fn law_hints_fit(screen: ScreenView)
    ensures
        hints(screen).contains(super::colored_span("[Enter]"@, Color::Green)) <==> !screen.finished
            && screen.error_prompt is None && screen.waiting_for_confirmation,
        hints(screen).contains(super::colored_span("[r]"@, Color::Yellow)) <==> !screen.finished
            && screen.error_prompt is Some,
        hints(screen).contains(super::colored_span("[q]"@, Color::Red)),
{
    reveal_strlit("[Enter]");
    reveal_strlit("[r]");
    reveal_strlit("[s]");
    reveal_strlit("[q]");
    reveal_strlit("[Space]");
    reveal_strlit("[1-3]");
    let all = hints(screen);
    let n = all.len() as int;
    assert("[Enter]"@.len() == 7 && "[r]"@.len() == 3 && "[s]"@.len() == 3);
    assert("[r]"@[1] == 'r' && "[s]"@[1] == 's' && "[q]"@[1] == 'q');
    assert("[Space]"@[1] == 'S' && "[Enter]"@[1] == 'E' && "[1-3]"@[1] == '1');
    assert(all[n - 2] == super::colored_span("[q]"@, Color::Red));
    if screen.finished {
    } else if screen.error_prompt is Some {
        assert(all[2] == super::colored_span("[r]"@, Color::Yellow));
    } else if screen.waiting_for_confirmation {
        assert(all[0] == super::colored_span("[Enter]"@, Color::Green));
    }
}

/// What the screen reports is the error it was stopped for, or else what was done.
pub proof fn law_what_is_reported(state: ScreenState, reported: PlaybackOutcome)
    requires
        call_ensures(outcome, (&state,), reported),
    ensures
        reported is Error <==> state.error is Some,
        reported matches PlaybackOutcome::Error(why) ==> state@.error == Some(why@),
        reported matches PlaybackOutcome::Done { rows_completed, rows_skipped } ==> rows_completed
            == state.rows_completed && rows_skipped == state.rows_skipped,
{
}

/// Before playback exactly the rows in front of the start row are done, with all of
/// their cells, and no row is in progress.
pub proof fn law_rows_done_before_start(
    dataset: DataSet,
    start_row: usize,
    table: TableState,
    row: int,
    col: int,
)
    requires
        start_row <= dataset@.rows.len(),
        call_ensures(initial_table, (&dataset, start_row), table),
        0 <= row < dataset@.rows.len(),
        0 <= col < dataset@.column_count,
    ensures
        table@.has_cell(row, col),
        table@.rows[row] == RowState::Done <==> row < start_row,
        table@.rows[row] == RowState::Upcoming <==> row >= start_row,
        table@.cells[row][col] == CellState::Done <==> row < start_row,
{
}

/// A failed step is shown with the reason in full, at the end of the status.
pub proof fn law_failure_is_shown(screen: ScreenView, row: nat, step: nat, error: Seq<char>)
    ensures
        ({
            let event = PlaybackEventView::StepFailed { row_index: row, step_index: step, error };
            let status = screen.told(event).status;
            &&& status.len() >= error.len()
            &&& status.skip(status.len() - error.len()) == error
        }),
{
    let event = PlaybackEventView::StepFailed { row_index: row, step_index: step, error };
    let status = screen.told(event).status;
    assert(status.skip(status.len() - error.len()) =~= error);
}

/// Different speeds have different names, also where they ask for confirmation.
pub proof fn law_speeds_are_told_apart(one: PlaybackSpeed, other: PlaybackSpeed)
    requires
        one != other,
    ensures
        speed_name(one) != speed_name(other),
        gate_status(one) != gate_status(other),
{
    reveal_strlit("Step");
    reveal_strlit("Walk");
    reveal_strlit("Run");
    assert("Step"@[0] == 'S' && "Walk"@[0] == 'W' && "Run"@[0] == 'R');
    reveal_strlit("Field complete. [Enter] next field.");
    reveal_strlit("Row complete. [Enter] next row.");
    reveal_strlit("Waiting...");
    assert("Field complete. [Enter] next field."@[0] == 'F');
    assert("Row complete. [Enter] next row."@[0] == 'R');
    assert("Waiting..."@[0] == 'W');
}

} // verus!
