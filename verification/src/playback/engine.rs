//! Playback engine: row iteration, step order, gates and error handling.
//!
//! The engine decides; the application acts. [`PlaybackEngine::pending`] says
//! what to do next, and [`PlaybackEngine::advance`] takes what came of it.
use vstd::prelude::*;
use crate::data::parse::DataSetView;
use crate::data::DataSet;
use crate::text;
use crate::time;
use crate::time::Delay;
use crate::workflow::{PlaybackSpeed, Step, StepView, Workflow, WorkflowView};
use super::{
    ErrorAction, PlaybackControl, PlaybackError, PlaybackEvent, PlaybackEventView, MAX_MULTIPLIER,
    MIN_MULTIPLIER,
};

verus! {

/// Whether playback at `speed` pauses for confirmation after `step`.
pub open spec fn step_gate(speed: PlaybackSpeed, step: StepView) -> bool {
    speed == PlaybackSpeed::Step && step is Type
}

/// Whether playback at `speed` pauses for confirmation after a row.
pub open spec fn row_gate(speed: PlaybackSpeed) -> bool {
    speed == PlaybackSpeed::Walk
}

/// Whether the engine should pause for confirmation after `step` at `speed`.
pub fn needs_step_gate(speed: PlaybackSpeed, step: &Step) -> (gate: bool)
    ensures
        gate == step_gate(speed, step@),
{
    match speed {
        PlaybackSpeed::Step => match step {
            Step::Type { .. } => true,
            Step::Click { .. } => false,
            Step::WaitForNavigation => false,
        },
        PlaybackSpeed::Walk => false,
        PlaybackSpeed::Run => false,
    }
}

/// Whether the engine should pause for confirmation after finishing a row.
pub fn needs_row_gate(speed: PlaybackSpeed) -> (gate: bool)
    ensures
        gate == row_gate(speed),
{
    speed == PlaybackSpeed::Walk
}

/// Outcome of executing a single step.
#[derive(Debug, Clone, Copy, PartialEq, Eq, Structural)]
pub enum StepOutcome {
    /// The step ran and its action was performed.
    Executed,
    /// The step was skipped (empty-cell rule applied).
    Skipped,
}

/// Summary of a completed playback run.
#[derive(Debug, Clone, Copy, PartialEq, Eq, Structural)]
pub struct PlaybackResult {
    /// Rows that completed every step successfully.
    pub rows_completed: usize,
    /// Rows that were skipped (error + `SkipRow` action).
    pub rows_skipped: usize,
}

/// What the engine is waiting for.
#[derive(Debug, Clone, Copy, PartialEq, Eq, Structural)]
pub enum Phase {
    /// To be started.
    Ready,
    /// A subscription to browser events, before a step, which perhaps has one
    /// already that was made for it.
    Subscribing { step: usize, held: bool },
    /// The delay before a step to pass; the step perhaps has a subscription.
    Sleeping { step: usize, held: bool },
    /// A step to be done, perhaps with the subscription made before the last one.
    Running { step: usize, subscribed: bool },
    /// Pending control signals to be taken in, after a step that was executed or
    /// skipped.
    StepDrain { step: usize, skipped: bool },
    /// The user to confirm a step.
    StepGate { step: usize },
    /// The user to say what to do about a failed step.
    Failed { step: usize },
    /// Pending control signals to be taken in, after the last step of a row.
    RowDrain,
    /// The delay after a row to pass.
    RowSleep,
    /// The user to confirm a row.
    RowGate,
    /// Nothing: all rows have been processed.
    Completed,
    /// Nothing: playback was stopped.
    Stopped,
    /// Nothing: the data has too few columns for the workflow.
    Rejected,
}

/// What came of looking for a control signal.
#[derive(Debug, Clone, Copy, PartialEq, Eq, Structural)]
pub enum Signal {
    /// A signal was there.
    Received(PlaybackControl),
    /// No signal was there.
    Empty,
    /// No signal will ever come again.
    Closed,
}

/// What came of a pending action.
#[derive(Debug, PartialEq)]
pub enum Input {
    /// Playback may start.
    Start,
    /// Browser events are being received.
    Subscribed,
    /// The delay has passed.
    Slept,
    /// The step is done, or has failed.
    StepDone(Result<StepOutcome, PlaybackError>),
    /// What came of looking for a control signal.
    Control(Signal),
}

/// What the application is to do next.
#[derive(Debug, PartialEq)]
pub enum Action {
    /// Start playback.
    Start,
    /// Subscribe to browser events for the step after the next one. Where `hold`
    /// is set, the subscription made before is held for the next step.
    Subscribe { hold: bool },
    /// Let time pass.
    Sleep(Delay),
    /// Execute a step for a row, with the subscription made before, if asked.
    RunStep { row_index: usize, step_index: usize, use_subscription: bool },
    /// Look for a control signal without waiting.
    PollControl,
    /// Wait for a control signal.
    AwaitControl,
    /// Return: playback is over.
    Finish(Result<PlaybackResult, PlaybackError>),
}

/// The state of the engine.
#[verifier::ext_equal]
pub struct EngineView {
    /// The workflow being replayed.
    pub workflow: WorkflowView,
    /// The data it is replayed for.
    pub data: DataSetView,
    /// The row that playback started at.
    pub start_row: nat,
    /// The row being processed.
    pub row: nat,
    /// Rows that completed every step.
    pub completed: nat,
    /// Rows that were skipped.
    pub skipped: nat,
    /// How often control returns to the user.
    pub speed: PlaybackSpeed,
    /// How fast delays pass, in thousandths.
    pub multiplier: u32,
    /// Whether browser events are subscribed to for a coming step.
    pub subscribed: bool,
    /// What the engine is waiting for.
    pub phase: Phase,
}

/// A state and the events on the way to it.
#[verifier::ext_equal]
pub struct Turn {
    pub state: EngineView,
    pub events: Seq<PlaybackEventView>,
}

impl Turn {
    /// Events that came before.
    pub open spec fn behind(self, earlier: Seq<PlaybackEventView>) -> Turn {
        Turn { events: earlier + self.events, ..self }
    }
}

impl EngineView {
    /// The state before playback.
    pub open spec fn initial(
        workflow: WorkflowView,
        data: DataSetView,
        speed: PlaybackSpeed,
        start_row: nat,
    ) -> Self {
        EngineView {
            workflow,
            data,
            start_row,
            row: start_row,
            completed: 0,
            skipped: 0,
            speed,
            multiplier: 1000,
            subscribed: false,
            phase: Phase::Ready,
        }
    }

    /// The step that the engine is at, if any.
    pub open spec fn at_step(self) -> Option<usize> {
        match self.phase {
            Phase::Subscribing { step, .. } => Some(step),
            Phase::Sleeping { step, .. } => Some(step),
            Phase::Running { step, .. } => Some(step),
            Phase::StepDrain { step, .. } => Some(step),
            Phase::StepGate { step } => Some(step),
            Phase::Failed { step } => Some(step),
            _ => None,
        }
    }

    /// Whether a row is being processed.
    pub open spec fn in_row(self) -> bool {
        self.at_step() is Some || self.phase is RowDrain || self.phase is RowSleep
            || self.phase is RowGate
    }

    /// The invariant of the engine.
    ///
    /// Every step has a delay; every row from the start row up to the current one
    /// was either completed or skipped; the row and the step being processed
    /// exist, and the data has the columns that the workflow expects; the
    /// multiplier is within its range.
    pub open spec fn wf(self) -> bool {
        &&& self.workflow.steps.len() <= self.workflow.step_delays.len()
        &&& self.data.rectangular()
        &&& self.start_row + self.completed + self.skipped == self.row
        &&& self.row > self.start_row ==> self.row <= self.data.rows.len()
        &&& self.in_row() ==> self.row < self.data.rows.len() && self.workflow.column_count
            <= self.data.column_count
        &&& self.at_step() matches Some(step) ==> step < self.workflow.steps.len()
        &&& MIN_MULTIPLIER <= self.multiplier <= MAX_MULTIPLIER
        &&& self.phase is Completed ==> self.row >= self.data.rows.len()
        &&& self.listening()
    }

    /// Whether a step waits for a navigation.
    pub open spec fn waiting(self, step: usize) -> bool {
        self.workflow.steps[step as int] is WaitForNavigation
    }

    /// Whether a step must have a subscription that was made before the step in
    /// front of it: it waits for a navigation, and is not the first one.
    pub open spec fn owed(self, step: usize) -> bool {
        step > 0 && self.waiting(step)
    }

    /// A step in front of a wait for navigation runs with a subscription in place,
    /// and the wait gets it; steps that do not wait get none.
    pub open spec fn listening(self) -> bool {
        match self.phase {
            Phase::Subscribing { step, held } => {
                &&& held == self.owed(step)
                &&& self.before_navigation(step)
            },
            Phase::Sleeping { step, held } => {
                &&& held == self.owed(step)
                &&& self.before_navigation(step) ==> self.subscribed
            },
            Phase::Running { step, subscribed } => {
                &&& subscribed == self.owed(step)
                &&& self.before_navigation(step) ==> self.subscribed
            },
            Phase::StepDrain { step, .. } => self.before_navigation(step) ==> self.subscribed,
            Phase::StepGate { step } => self.before_navigation(step) ==> self.subscribed,
            _ => true,
        }
    }

    /// The engine waits for something else.
    pub open spec fn waits(self, phase: Phase) -> Turn {
        Turn { state: EngineView { phase, ..self }, events: seq![] }
    }

    /// Whether a step is followed by a wait for navigation.
    pub open spec fn before_navigation(self, step: usize) -> bool {
        step + 1 < self.workflow.steps.len() && self.workflow.steps[step + 1] is WaitForNavigation
    }

    /// A step is executed, with the subscription held for it, if any.
    pub open spec fn launch(self, step: usize, held: bool) -> Turn {
        Turn {
            state: EngineView { phase: Phase::Running { step, subscribed: held }, ..self },
            events: seq![
                PlaybackEventView::StepStarted { row_index: self.row, step_index: step as nat },
            ],
        }
    }

    /// A step is executed after its delay. A step that the user confirms has none.
    pub open spec fn pace(self, step: usize, held: bool) -> Turn {
        if !step_gate(self.speed, self.workflow.steps[step as int])
            && self.workflow.step_delays[step as int] != 0 {
            self.waits(Phase::Sleeping { step, held })
        } else {
            self.launch(step, held)
        }
    }

    /// A step is begun, or the row is at its end.
    ///
    /// A wait for navigation takes the subscription that was made for it, and only
    /// then is one made for a wait behind it.
    pub open spec fn begin_step(self, step: nat) -> Turn {
        if step < self.workflow.steps.len() {
            let held = self.subscribed && self.waiting(step as usize);
            let begun = EngineView { subscribed: false, ..self };
            if self.before_navigation(step as usize) {
                begun.waits(Phase::Subscribing { step: step as usize, held })
            } else {
                begun.pace(step as usize, held)
            }
        } else {
            self.waits(Phase::RowDrain)
        }
    }

    /// A row is begun, or playback is at its end.
    pub open spec fn begin_row(self) -> Turn {
        if self.row < self.data.rows.len() {
            EngineView { subscribed: false, ..self }.begin_step(0).behind(
                seq![PlaybackEventView::RowStarted { row_index: self.row }],
            )
        } else {
            Turn {
                state: EngineView { phase: Phase::Completed, ..self },
                events: seq![self.finished()],
            }
        }
    }

    /// The event that playback is over.
    pub open spec fn finished(self) -> PlaybackEventView {
        PlaybackEventView::Finished { rows_completed: self.completed, rows_skipped: self.skipped }
    }

    /// The row is done.
    pub open spec fn complete_row(self) -> Turn {
        EngineView {
            completed: self.completed + 1,
            row: self.row + 1,
            ..self
        }.begin_row().behind(seq![PlaybackEventView::RowCompleted { row_index: self.row }])
    }

    /// The row is given up.
    pub open spec fn skip_row(self) -> Turn {
        EngineView { skipped: self.skipped + 1, row: self.row + 1, ..self }.begin_row()
    }

    /// The speed or its multiplier is changed; other signals have no effect.
    pub open spec fn adjusted(self, control: PlaybackControl) -> Turn {
        match control {
            PlaybackControl::SetSpeed(speed) => Turn {
                state: EngineView { speed, ..self },
                events: seq![PlaybackEventView::SpeedChanged(speed)],
            },
            PlaybackControl::SetSpeedMultiplier(thousandths) => Turn {
                state: EngineView { multiplier: super::clamped(thousandths), ..self },
                events: seq![
                    PlaybackEventView::SpeedMultiplierChanged(super::clamped(thousandths)),
                ],
            },
            PlaybackControl::Pause => Turn {
                state: EngineView { speed: PlaybackSpeed::Step, ..self },
                events: seq![PlaybackEventView::SpeedChanged(PlaybackSpeed::Step)],
            },
            PlaybackControl::Proceed => Turn { state: self, events: seq![] },
            PlaybackControl::ErrorResponse(_) => Turn { state: self, events: seq![] },
        }
    }

    /// The engine pauses for confirmation.
    pub open spec fn pause(self, phase: Phase) -> Turn {
        Turn {
            state: EngineView { phase, ..self },
            events: seq![PlaybackEventView::WaitingForConfirmation],
        }
    }

    /// All signals after a step have been taken in. A skipped step needs no
    /// confirmation.
    pub open spec fn after_step(self, step: usize, skipped: bool) -> Turn {
        if !skipped && step_gate(self.speed, self.workflow.steps[step as int]) {
            self.pause(Phase::StepGate { step })
        } else {
            self.begin_step(step as nat + 1)
        }
    }

    /// All signals after a row have been taken in.
    pub open spec fn after_row(self) -> Turn {
        if row_gate(self.speed) {
            self.pause(Phase::RowGate)
        } else if self.workflow.row_end_delay != 0 {
            self.waits(Phase::RowSleep)
        } else {
            self.complete_row()
        }
    }

    /// What the user wants done about a failed step.
    pub open spec fn answered(self, action: ErrorAction) -> Turn {
        match action {
            ErrorAction::SkipRow => self.skip_row(),
            ErrorAction::RetryRow => self.begin_row(),
            ErrorAction::Stop => Turn {
                state: EngineView { phase: Phase::Stopped, ..self },
                events: seq![self.finished()],
            },
        }
    }

    /// What a control signal leads to.
    pub open spec fn signalled(self, signal: Signal) -> Turn {
        match signal {
            Signal::Closed => match self.phase {
                Phase::StepDrain { .. } | Phase::StepGate { .. } | Phase::Failed { .. }
                | Phase::RowDrain | Phase::RowGate => self.waits(Phase::Stopped),
                _ => Turn { state: self, events: seq![] },
            },
            Signal::Empty => match self.phase {
                Phase::StepDrain { step, skipped } => self.after_step(step, skipped),
                Phase::RowDrain => self.after_row(),
                _ => Turn { state: self, events: seq![] },
            },
            Signal::Received(control) => match self.phase {
                Phase::StepDrain { .. } | Phase::RowDrain => self.adjusted(control),
                Phase::StepGate { step } => if control == PlaybackControl::Proceed {
                    self.begin_step(step as nat + 1)
                } else {
                    self.adjusted(control)
                },
                Phase::RowGate => if control == PlaybackControl::Proceed {
                    self.complete_row()
                } else {
                    self.adjusted(control)
                },
                Phase::Failed { .. } => match control {
                    PlaybackControl::ErrorResponse(action) => self.answered(action),
                    _ => self.adjusted(control),
                },
                _ => Turn { state: self, events: seq![] },
            },
        }
    }

    /// What the end of a step leads to.
    pub open spec fn stepped(
        self,
        step: usize,
        outcome: Result<StepOutcome, PlaybackError>,
    ) -> Turn {
        let done = PlaybackEventView::StepCompleted {
            row_index: self.row,
            step_index: step as nat,
        };
        match outcome {
            Ok(outcome) => self.waits(
                Phase::StepDrain { step, skipped: outcome == StepOutcome::Skipped },
            ).behind(seq![done]),
            Err(error) => self.waits(Phase::Failed { step }).behind(
                seq![
                    PlaybackEventView::StepFailed {
                        row_index: self.row,
                        step_index: step as nat,
                        error: super::error_text(error),
                    },
                ],
            ),
        }
    }

    /// What an input leads to. One that answers no pending action has no effect.
    pub open spec fn turn(self, input: Input) -> Turn {
        match (self.phase, input) {
            (Phase::Ready, Input::Start) => if self.data.column_count
                < self.workflow.column_count {
                self.waits(Phase::Rejected)
            } else {
                self.begin_row()
            },
            (Phase::Subscribing { step, held }, Input::Subscribed) => EngineView {
                subscribed: true,
                ..self
            }.pace(step, held),
            (Phase::Sleeping { step, held }, Input::Slept) => self.launch(step, held),
            (Phase::Running { step, .. }, Input::StepDone(outcome)) => self.stepped(step, outcome),
            (Phase::RowSleep, Input::Slept) => self.complete_row(),
            (_, Input::Control(signal)) => self.signalled(signal),
            _ => Turn { state: self, events: seq![] },
        }
    }

    /// What the application is asked to do next.
    pub open spec fn asks(self, action: Action) -> bool {
        match self.phase {
            Phase::Ready => action == Action::Start,
            Phase::Subscribing { held, .. } => action == (Action::Subscribe { hold: held }),
            Phase::Sleeping { step, .. } => action is Sleep && action->Sleep_0@ == time::at_speed(
                self.workflow.step_delays[step as int],
                self.multiplier as nat,
            ),
            Phase::Running { step, subscribed } => {
                &&& action is RunStep
                &&& action->row_index == self.row
                &&& action->step_index == step
                &&& action->use_subscription == subscribed
            },
            Phase::StepDrain { .. } | Phase::RowDrain => action == Action::PollControl,
            Phase::StepGate { .. } | Phase::Failed { .. } | Phase::RowGate => action
                == Action::AwaitControl,
            Phase::RowSleep => action is Sleep && action->Sleep_0@ == time::at_speed(
                self.workflow.row_end_delay,
                self.multiplier as nat,
            ),
            Phase::Completed => {
                &&& action is Finish
                &&& action->Finish_0 is Ok
                &&& action->Finish_0->Ok_0.rows_completed == self.completed
                &&& action->Finish_0->Ok_0.rows_skipped == self.skipped
            },
            Phase::Stopped => action == Action::Finish(Err(PlaybackError::Stopped)),
            Phase::Rejected => {
                &&& action is Finish
                &&& action->Finish_0 is Err
                &&& action->Finish_0->Err_0 is Other
                &&& action->Finish_0->Err_0->Other_0@ == self.rejection()
            },
        }
    }

    /// The message for data with too few columns.
    pub open spec fn rejection(self) -> Seq<char> {
        "data has "@ + text::decimal(self.data.column_count) + " column(s) but workflow expects "@
            + text::decimal(self.workflow.column_count)
    }
}

impl EngineView {
    /// The part of the invariant that does not depend on the phase.
    spec fn settled(self) -> bool {
        EngineView { phase: Phase::Ready, ..self }.wf()
    }

    /// Executing a step keeps the invariant, if the subscriptions are those it needs.
    proof fn lemma_pace_wf(self, step: usize, held: bool)
        requires
            self.settled(),
            self.row < self.data.rows.len(),
            self.workflow.column_count <= self.data.column_count,
            step < self.workflow.steps.len(),
            held == self.owed(step),
            self.before_navigation(step) ==> self.subscribed,
        ensures
            self.pace(step, held).state.wf(),
    {
    }

    /// Beginning a step keeps the invariant, if exactly a wait behind another step
    /// is subscribed to.
    proof fn lemma_begin_step_wf(self, step: nat)
        requires
            self.settled(),
            self.row < self.data.rows.len(),
            self.workflow.column_count <= self.data.column_count,
            step <= self.workflow.steps.len() <= usize::MAX,
            step < self.workflow.steps.len() && self.waiting(step as usize) ==> (self.subscribed
                <==> step > 0),
        ensures
            self.begin_step(step).state.wf(),
    {
        if step < self.workflow.steps.len() && !self.before_navigation(step as usize) {
            EngineView { subscribed: false, ..self }.lemma_pace_wf(
                step as usize,
                self.subscribed && self.waiting(step as usize),
            );
        }
    }

    /// Beginning a row keeps the invariant.
    proof fn lemma_begin_row_wf(self)
        requires
            self.settled(),
            self.workflow.column_count <= self.data.column_count,
            self.workflow.steps.len() <= usize::MAX,
        ensures
            self.begin_row().state.wf(),
    {
        if self.row < self.data.rows.len() {
            EngineView { subscribed: false, ..self }.lemma_begin_step_wf(0);
        }
    }

    /// Completing or skipping a row keeps the invariant.
    proof fn lemma_next_row_wf(self)
        requires
            self.wf(),
            self.in_row(),
            self.workflow.steps.len() <= usize::MAX,
        ensures
            self.complete_row().state.wf(),
            self.skip_row().state.wf(),
    {
        let row = self.row + 1;
        EngineView { completed: self.completed + 1, row, ..self }.lemma_begin_row_wf();
        EngineView { skipped: self.skipped + 1, row, ..self }.lemma_begin_row_wf();
    }
}

/// Every input keeps the invariant of the engine.
pub proof fn law_turns_keep_invariant(before: EngineView, input: Input)
    requires
        before.wf(),
        before.workflow.steps.len() <= usize::MAX,
    ensures
        before.turn(input).state.wf(),
{
    match before.phase {
        Phase::Ready => {
            if before.workflow.column_count <= before.data.column_count {
                before.lemma_begin_row_wf();
            }
        },
        Phase::Subscribing { step, held } => {
            EngineView { subscribed: true, ..before }.lemma_pace_wf(step, held);
        },
        Phase::StepDrain { step, .. } => before.lemma_begin_step_wf(step as nat + 1),
        Phase::StepGate { step } => before.lemma_begin_step_wf(step as nat + 1),
        Phase::Failed { .. } => {
            before.lemma_next_row_wf();
            before.lemma_begin_row_wf();
        },
        Phase::RowDrain | Phase::RowSleep | Phase::RowGate => before.lemma_next_row_wf(),
        _ => {},
    }
}

/// Orchestrates playback of a [`Workflow`] against a [`DataSet`].
pub struct PlaybackEngine {
    workflow: Workflow,
    data: DataSet,
    /// Row to start from.
    start_row: usize,
    /// Row being processed.
    row: usize,
    rows_completed: usize,
    rows_skipped: usize,
    speed: PlaybackSpeed,
    /// Multiplier applied to delay sleeps, in thousandths.
    ///
    /// 2000 = twice as fast (half the delay).
    speed_multiplier: u32,
    subscribed: bool,
    phase: Phase,
}

impl View for PlaybackEngine {
    type V = EngineView;

    closed spec fn view(&self) -> EngineView {
        EngineView {
            workflow: self.workflow@,
            data: self.data@,
            start_row: self.start_row as nat,
            row: self.row as nat,
            completed: self.rows_completed as nat,
            skipped: self.rows_skipped as nat,
            speed: self.speed,
            multiplier: self.speed_multiplier,
            subscribed: self.subscribed,
            phase: self.phase,
        }
    }
}

/// Adds an event.
fn emit(events: &mut Vec<PlaybackEvent>, event: PlaybackEvent)
    ensures
        final(events).deep_view() == old(events).deep_view() + seq![event@],
{
    let ghost before = events.deep_view();
    events.push(event);
    assert(events.deep_view() =~= before + seq![event@]);
}

impl PlaybackEngine {
    /// Create a new engine.
    pub fn new(
        workflow: Workflow,
        data: DataSet,
        speed: PlaybackSpeed,
        start_row: usize,
    ) -> (engine: Self)
        requires
            workflow@.steps.len() <= workflow@.step_delays.len(),
        ensures
            engine@ == EngineView::initial(workflow@, data@, speed, start_row as nat),
            engine@.wf(),
    {
        // A table whose columns are counted is known to be rectangular.
        let _columns: usize = data.column_count();
        PlaybackEngine {
            workflow,
            data,
            start_row,
            row: start_row,
            rows_completed: 0,
            rows_skipped: 0,
            speed,
            speed_multiplier: 1000,
            subscribed: false,
            phase: Phase::Ready,
        }
    }

    /// What the application is to do next.
    pub fn pending(&self) -> (action: Action)
        requires
            self@.wf(),
        ensures
            self@.asks(action),
    {
        match self.phase {
            Phase::Ready => Action::Start,
            Phase::Subscribing { held, .. } => Action::Subscribe { hold: held },
            Phase::Sleeping { step, .. } => {
                assert(self@.workflow.step_delays[step as int]
                    == self.workflow.step_delays@[step as int]@);
                Action::Sleep(self.workflow.step_delays[step].at_speed(self.speed_multiplier))
            },
            Phase::Running { step, subscribed } => Action::RunStep {
                row_index: self.row,
                step_index: step,
                use_subscription: subscribed,
            },
            Phase::StepDrain { .. } => Action::PollControl,
            Phase::RowDrain => Action::PollControl,
            Phase::StepGate { .. } => Action::AwaitControl,
            Phase::Failed { .. } => Action::AwaitControl,
            Phase::RowGate => Action::AwaitControl,
            Phase::RowSleep => Action::Sleep(
                self.workflow.row_end_delay.at_speed(self.speed_multiplier),
            ),
            Phase::Completed => Action::Finish(
                Ok(
                    PlaybackResult {
                        rows_completed: self.rows_completed,
                        rows_skipped: self.rows_skipped,
                    },
                ),
            ),
            Phase::Stopped => Action::Finish(Err(PlaybackError::Stopped)),
            Phase::Rejected => {
                let mut why = "data has ".to_owned();
                why.append(&text::decimal_text(self.data.column_count() as u128));
                why.append(" column(s) but workflow expects ");
                why.append(&text::decimal_text(self.workflow.column_count as u128));
                Action::Finish(Err(PlaybackError::Other(why)))
            },
        }
    }

    /// Take what came of the pending action, and return the resulting events.
    ///
    /// Each row gives [`PlaybackEvent::RowStarted`] / [`PlaybackEvent::RowCompleted`].
    /// Each step gives [`PlaybackEvent::StepStarted`] / [`PlaybackEvent::StepCompleted`]
    /// (or [`PlaybackEvent::StepFailed`] on error).
    /// When all rows are done (or the user stops) there is a [`PlaybackEvent::Finished`] event.
    pub fn advance(&mut self, input: Input) -> (events: Vec<PlaybackEvent>)
        requires
            old(self)@.wf(),
        ensures
            final(self)@ == old(self)@.turn(input).state,
            final(self)@.wf(),
            events.deep_view() == old(self)@.turn(input).events,
    {
        let ghost before = self@;
        let ghost given = input;
        let mut events: Vec<PlaybackEvent> = Vec::new();
        assert(events.deep_view() =~= Seq::empty());
        let steps: usize = self.workflow.steps.len();
        proof {
            law_turns_keep_invariant(before, given);
        }
        match (self.phase, input) {
            (Phase::Ready, Input::Start) => {
                if self.data.column_count() < self.workflow.column_count {
                    self.phase = Phase::Rejected;
                } else {
                    self.begin_row(&mut events);
                }
            },
            (Phase::Subscribing { step, held }, Input::Subscribed) => {
                self.subscribed = true;
                self.pace(step, held, &mut events);
            },
            (Phase::Sleeping { step, held }, Input::Slept) => {
                self.launch(step, held, &mut events);
            },
            (Phase::Running { step, .. }, Input::StepDone(outcome)) => {
                self.finish_step(step, outcome, &mut events);
            },
            (Phase::RowSleep, Input::Slept) => {
                self.complete_row(&mut events);
            },
            (_, Input::Control(signal)) => {
                self.take_signal(signal, &mut events);
            },
            _ => {},
        }
        assert(events.deep_view() =~= before.turn(given).events);
        events
    }

    /// Start executing a step, with the subscription held for it, if any.
    fn launch(&mut self, step: usize, held: bool, events: &mut Vec<PlaybackEvent>)
        ensures
            final(self)@ == old(self)@.launch(step, held).state,
            final(events).deep_view() == old(events).deep_view() + old(self)@.launch(
                step,
                held,
            ).events,
    {
        self.phase = Phase::Running { step, subscribed: held };
        emit(events, PlaybackEvent::StepStarted { row_index: self.row, step_index: step });
    }

    /// Start executing a step, after its delay.
    ///
    /// The delay comes *before* executing, matching training: `step_delays[i]` is
    /// the gap before step `i` was recorded, and the first step has none.
    fn pace(&mut self, step: usize, held: bool, events: &mut Vec<PlaybackEvent>)
        requires
            step < old(self)@.workflow.steps.len() <= old(self)@.workflow.step_delays.len(),
        ensures
            final(self)@ == old(self)@.pace(step, held).state,
            final(events).deep_view() == old(events).deep_view() + old(self)@.pace(
                step,
                held,
            ).events,
    {
        assert(self@.workflow.steps[step as int] == self.workflow.steps@[step as int]@);
        assert(self@.workflow.step_delays[step as int] == self.workflow.step_delays@[step as int]@);
        if !needs_step_gate(self.speed, &self.workflow.steps[step])
            && !self.workflow.step_delays[step].is_zero() {
            self.phase = Phase::Sleeping { step, held };
            assert(events.deep_view() =~= old(events).deep_view() + Seq::empty());
        } else {
            self.launch(step, held, events);
        }
    }

    /// Begin a step, or end the row behind its last one.
    fn begin_step(&mut self, step: usize, events: &mut Vec<PlaybackEvent>)
        requires
            old(self)@.workflow.steps.len() <= old(self)@.workflow.step_delays.len(),
        ensures
            final(self)@ == old(self)@.begin_step(step as nat).state,
            final(events).deep_view() == old(events).deep_view() + old(self)@.begin_step(
                step as nat,
            ).events,
    {
        if step < self.workflow.steps.len() {
            assert(self@.workflow.steps[step as int] == self.workflow.steps@[step as int]@);
            // Hand the subscription made before to a wait for navigation, ahead of
            // any new one.
            let held = self.subscribed && matches!(
                self.workflow.steps[step],
                Step::WaitForNavigation
            );
            self.subscribed = false;
            // If the *next* step is WaitForNavigation, subscribe to browser events
            // now, before executing the current step, to avoid the race
            // between the navigation trigger (e.g. a Click) and our subscription.
            if step + 1 < self.workflow.steps.len() {
                assert(self@.workflow.steps[step + 1] == self.workflow.steps@[step + 1]@);
                if matches!(self.workflow.steps[step + 1], Step::WaitForNavigation) {
                    self.phase = Phase::Subscribing { step, held };
                    assert(events.deep_view() =~= old(events).deep_view() + Seq::empty());
                    return;
                }
            }
            self.pace(step, held, events);
        } else {
            self.phase = Phase::RowDrain;
            assert(events.deep_view() =~= old(events).deep_view() + Seq::empty());
        }
    }

    /// Begin a row, or end playback behind the last one.
    fn begin_row(&mut self, events: &mut Vec<PlaybackEvent>)
        requires
            old(self)@.workflow.steps.len() <= old(self)@.workflow.step_delays.len(),
        ensures
            final(self)@ == old(self)@.begin_row().state,
            final(events).deep_view() == old(events).deep_view() + old(self)@.begin_row().events,
    {
        let ghost before = self@;
        let ghost earlier = events.deep_view();
        if self.row < self.data.row_count() {
            emit(events, PlaybackEvent::RowStarted { row_index: self.row });
            self.subscribed = false;
            self.begin_step(0, events);
            assert(events.deep_view() =~= earlier + before.begin_row().events);
        } else {
            self.phase = Phase::Completed;
            emit(
                events,
                PlaybackEvent::Finished {
                    rows_completed: self.rows_completed,
                    rows_skipped: self.rows_skipped,
                },
            );
        }
    }

    /// Count the row as completed and go on to the next.
    fn complete_row(&mut self, events: &mut Vec<PlaybackEvent>)
        requires
            old(self)@.wf(),
            old(self)@.in_row(),
        ensures
            final(self)@ == old(self)@.complete_row().state,
            final(events).deep_view() == old(events).deep_view() + old(self)@.complete_row().events,
    {
        let ghost before = self@;
        let ghost earlier = events.deep_view();
        let rows: usize = self.data.row_count();
        emit(events, PlaybackEvent::RowCompleted { row_index: self.row });
        self.rows_completed = self.rows_completed + 1;
        self.row = self.row + 1;
        self.begin_row(events);
        assert(events.deep_view() =~= earlier + before.complete_row().events);
    }

    /// Take in a change of speed; other signals have no effect.
    fn adjust(&mut self, control: PlaybackControl, events: &mut Vec<PlaybackEvent>)
        ensures
            final(self)@ == old(self)@.adjusted(control).state,
            final(events).deep_view() == old(events).deep_view() + old(self)@.adjusted(
                control,
            ).events,
    {
        match control {
            PlaybackControl::SetSpeed(speed) => {
                self.speed = speed;
                emit(events, PlaybackEvent::SpeedChanged(speed));
            },
            PlaybackControl::SetSpeedMultiplier(thousandths) => {
                let multiplier = super::clamp_multiplier(thousandths);
                self.speed_multiplier = multiplier;
                emit(events, PlaybackEvent::SpeedMultiplierChanged(multiplier));
            },
            PlaybackControl::Pause => {
                self.speed = PlaybackSpeed::Step;
                emit(events, PlaybackEvent::SpeedChanged(PlaybackSpeed::Step));
            },
            PlaybackControl::Proceed => {
                assert(events.deep_view() =~= old(events).deep_view() + Seq::empty());
            },
            PlaybackControl::ErrorResponse(_) => {
                assert(events.deep_view() =~= old(events).deep_view() + Seq::empty());
            },
        }
    }

    /// Take in what came of a step.
    fn finish_step(
        &mut self,
        step: usize,
        outcome: Result<StepOutcome, PlaybackError>,
        events: &mut Vec<PlaybackEvent>,
    )
        requires
            old(self)@.wf(),
            old(self)@.at_step() == Some(step),
        ensures
            final(self)@ == old(self)@.stepped(step, outcome).state,
            final(events).deep_view() == old(events).deep_view() + old(self)@.stepped(
                step,
                outcome,
            ).events,
    {
        let ghost before = self@;
        let ghost earlier = events.deep_view();
        match outcome {
            Ok(outcome) => {
                emit(
                    events,
                    PlaybackEvent::StepCompleted { row_index: self.row, step_index: step },
                );
                // Always take in pending control signals (speed changes) between
                // steps, even in ungated modes. This is what makes "slow down
                // from Run" work.
                self.phase = Phase::StepDrain { step, skipped: outcome == StepOutcome::Skipped };
            },
            Err(error) => {
                emit(
                    events,
                    PlaybackEvent::StepFailed {
                        row_index: self.row,
                        step_index: step,
                        error: error.message(),
                    },
                );
                self.phase = Phase::Failed { step };
            },
        }
        assert(events.deep_view() =~= earlier + before.stepped(step, outcome).events);
    }

    /// All signals after a step or a row have been taken in.
    fn drained(&mut self, events: &mut Vec<PlaybackEvent>)
        requires
            old(self)@.wf(),
        ensures
            final(self)@ == old(self)@.signalled(Signal::Empty).state,
            final(events).deep_view() == old(events).deep_view() + old(self)@.signalled(
                Signal::Empty,
            ).events,
    {
        let ghost before = self@;
        let ghost earlier = events.deep_view();
        match self.phase {
            Phase::StepDrain { step, skipped } => {
                let count: usize = self.workflow.steps.len();
                assert(self@.workflow.steps[step as int] == self.workflow.steps@[step as int]@);
                if !skipped && needs_step_gate(self.speed, &self.workflow.steps[step]) {
                    self.phase = Phase::StepGate { step };
                    emit(events, PlaybackEvent::WaitingForConfirmation);
                } else {
                    self.begin_step(step + 1, events);
                }
            },
            Phase::RowDrain => {
                if needs_row_gate(self.speed) {
                    self.phase = Phase::RowGate;
                    emit(events, PlaybackEvent::WaitingForConfirmation);
                } else if !self.workflow.row_end_delay.is_zero() {
                    // Reproduce the natural pause captured between the last step
                    // and row finalization during training.
                    self.phase = Phase::RowSleep;
                } else {
                    self.complete_row(events);
                }
            },
            _ => {},
        }
        assert(events.deep_view() =~= earlier + before.signalled(Signal::Empty).events);
    }

    /// Take in a control signal.
    fn received(&mut self, control: PlaybackControl, events: &mut Vec<PlaybackEvent>)
        requires
            old(self)@.wf(),
        ensures
            final(self)@ == old(self)@.signalled(Signal::Received(control)).state,
            final(events).deep_view() == old(events).deep_view() + old(self)@.signalled(
                Signal::Received(control),
            ).events,
    {
        let ghost before = self@;
        let ghost earlier = events.deep_view();
        match self.phase {
            // Proceed and ErrorResponse are only meaningful inside blocking gates.
            Phase::StepDrain { .. } => self.adjust(control, events),
            Phase::RowDrain => self.adjust(control, events),
            Phase::StepGate { step } => {
                let count: usize = self.workflow.steps.len();
                if control == PlaybackControl::Proceed {
                    self.begin_step(step + 1, events);
                } else {
                    self.adjust(control, events);
                }
            },
            Phase::RowGate => {
                if control == PlaybackControl::Proceed {
                    self.complete_row(events);
                } else {
                    self.adjust(control, events);
                }
            },
            Phase::Failed { .. } => match control {
                PlaybackControl::ErrorResponse(action) => self.answer(action, events),
                _ => self.adjust(control, events),
            },
            _ => {},
        }
        assert(events.deep_view() =~= earlier + before.signalled(Signal::Received(control)).events);
    }

    /// Do what the user wants done about a failed step.
    fn answer(&mut self, action: ErrorAction, events: &mut Vec<PlaybackEvent>)
        requires
            old(self)@.wf(),
            old(self)@.in_row(),
        ensures
            final(self)@ == old(self)@.answered(action).state,
            final(events).deep_view() == old(events).deep_view() + old(self)@.answered(
                action,
            ).events,
    {
        let rows: usize = self.data.row_count();
        match action {
            ErrorAction::SkipRow => {
                self.rows_skipped = self.rows_skipped + 1;
                self.row = self.row + 1;
                self.begin_row(events);
            },
            ErrorAction::RetryRow => self.begin_row(events),
            ErrorAction::Stop => {
                self.phase = Phase::Stopped;
                emit(
                    events,
                    PlaybackEvent::Finished {
                        rows_completed: self.rows_completed,
                        rows_skipped: self.rows_skipped,
                    },
                );
            },
        }
    }

    /// Take in what came of looking for a control signal.
    fn take_signal(&mut self, signal: Signal, events: &mut Vec<PlaybackEvent>)
        requires
            old(self)@.wf(),
        ensures
            final(self)@ == old(self)@.signalled(signal).state,
            final(events).deep_view() == old(events).deep_view() + old(self)@.signalled(
                signal,
            ).events,
    {
        match signal {
            Signal::Received(control) => self.received(control, events),
            Signal::Empty => self.drained(events),
            // Channel closed: treat as Stop.
            Signal::Closed => {
                match self.phase {
                    Phase::StepDrain { .. } | Phase::StepGate { .. } | Phase::Failed { .. }
                    | Phase::RowDrain | Phase::RowGate => {
                        self.phase = Phase::Stopped;
                    },
                    _ => {},
                }
                assert(events.deep_view() =~= old(events).deep_view() + Seq::empty());
            },
        }
    }

    /// The step at an index.
    pub fn step(&self, index: usize) -> (step: Option<&Step>)
        ensures
            match step {
                Some(step) => index < self@.workflow.steps.len() && step@
                    == self@.workflow.steps[index as int],
                None => index >= self@.workflow.steps.len(),
            },
    {
        if index < self.workflow.steps.len() {
            assert(self@.workflow.steps[index as int] == self.workflow.steps@[index as int]@);
            Some(&self.workflow.steps[index])
        } else {
            None
        }
    }

    /// The workflow being replayed.
    pub fn workflow(&self) -> (workflow: &Workflow)
        ensures
            workflow@ == self@.workflow,
    {
        &self.workflow
    }

    /// The data that the workflow is replayed for.
    pub fn data(&self) -> (data: &DataSet)
        ensures
            data@ == self@.data,
    {
        &self.data
    }

    /// Current playback speed.
    pub fn speed(&self) -> (speed: PlaybackSpeed)
        ensures
            speed == self@.speed,
    {
        self.speed
    }

    /// Current speed multiplier, in thousandths.
    pub fn speed_multiplier(&self) -> (thousandths: u32)
        ensures
            thousandths == self@.multiplier,
    {
        self.speed_multiplier
    }
}

} // verus!
