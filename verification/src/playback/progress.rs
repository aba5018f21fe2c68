//! How playback gets on: which step follows which, when rows end, what changes
//! the speed, how long is waited, and what is told about it.
use vstd::prelude::*;
use crate::time;
use crate::workflow::PlaybackSpeed;
use super::engine;
use super::engine::{Action, EngineView, Input, Phase, Signal, StepOutcome, Turn};
use super::{ErrorAction, PlaybackControl, PlaybackError, PlaybackEventView};

verus! {

// ── Steps ─────────────────────────────────────────────────────────────────────

/// Whether the step being run is reported to have ended well, executed or skipped.
pub open spec fn ends_well(before: EngineView, input: Input) -> bool {
    before.phase is Running && input is StepDone && input->StepDone_0 is Ok
}

/// Whether events tell of a row being started.
pub open spec fn starts_row(events: Seq<PlaybackEventView>) -> bool {
    exists|i: int| 0 <= i < events.len() && (#[trigger] events[i]) is RowStarted
}

/// How many steps of the row have ended well, as far as the phase shows it.
pub open spec fn steps_behind(state: EngineView) -> nat {
    match state.phase {
        Phase::Subscribing { step, .. } => step as nat,
        Phase::Sleeping { step, .. } => step as nat,
        Phase::Running { step, .. } => step as nat,
        Phase::Failed { step } => step as nat,
        Phase::StepDrain { step, .. } => step as nat + 1,
        Phase::StepGate { step } => step as nat + 1,
        Phase::RowDrain | Phase::RowSleep | Phase::RowGate => state.workflow.steps.len(),
        _ => 0,
    }
}

/// The steps of a row are run one after another: within a row a turn gets on by
/// exactly one step when a step ends well, and otherwise by none.
pub proof fn law_one_step_at_a_time(before: EngineView, input: Input)
    requires
        before.wf(),
        before.workflow.steps.len() <= usize::MAX,
        before.in_row(),
        !starts_row(before.turn(input).events),
        before.turn(input).state.in_row(),
    ensures
        before.turn(input).state.row == before.row,
        steps_behind(before.turn(input).state) == steps_behind(before) + if ends_well(
            before,
            input,
        ) {
            1int
        } else {
            0
        },
{
    lemma_row_started_told(before, input);
}

/// A row that is started, for the first time or again, starts with its first step
/// and with nothing held over: whenever a row is told to start, it is the row being
/// processed, none of its steps is behind, and no subscription is kept.
pub proof fn law_row_starts_at_its_beginning(before: EngineView, input: Input, i: int)
    requires
        before.wf(),
        before.workflow.steps.len() <= usize::MAX,
        0 <= i < before.turn(input).events.len(),
        before.turn(input).events[i] is RowStarted,
    ensures
        before.turn(input).events[i] == (PlaybackEventView::RowStarted {
            row_index: before.turn(input).state.row,
        }),
        before.turn(input).state.in_row(),
        !before.turn(input).state.subscribed,
        before.workflow.steps.len() > 0 ==> before.turn(input).state.at_step() == Some(0usize),
        before.workflow.steps.len() == 0 ==> before.turn(input).state.phase == Phase::RowDrain,
{
}

/// A turn that leads into another row, or into the same one again, says so.
proof fn lemma_row_started_told(before: EngineView, input: Input)
    requires
        before.wf(),
        before.workflow.steps.len() <= usize::MAX,
    ensures
        before.turn(input).state.in_row() && (before.turn(input).state.row != before.row
            || !before.in_row() || before.phase is Failed && before.turn(input).state.phase
            !is Failed) ==> starts_row(before.turn(input).events),
{
    let turn = before.turn(input);
    if turn.events.len() > 0 {
        assert(turn.events[0] is RowStarted ==> starts_row(turn.events));
        if turn.events.len() > 1 {
            assert(turn.events[1] is RowStarted ==> starts_row(turn.events));
        }
    }
}

/// After a gate, the user's confirmation leads to the very next step, or, behind the
/// last one, to the end of the row.
pub proof fn law_proceeding_leads_to_next_step(before: EngineView, step: usize)
    requires
        before.wf(),
        before.workflow.steps.len() <= usize::MAX,
        before.phase == (Phase::StepGate { step }),
    ensures
        ({
            let after = before.turn(
                Input::Control(Signal::Received(PlaybackControl::Proceed)),
            ).state;
            &&& after.row == before.row
            &&& step + 1 < before.workflow.steps.len() ==> after.at_step() == Some(
                (step + 1) as usize,
            ) && (after.phase is Subscribing || after.phase is Sleeping || after.phase is Running)
            &&& step + 1 == before.workflow.steps.len() ==> after.phase == Phase::RowDrain
        }),
{
}

/// A step that was skipped, or that needs no confirmation, leads to the very next
/// step: it suppresses nothing but itself.
pub proof fn law_skipping_leads_to_next_step(before: EngineView, step: usize, skipped: bool)
    requires
        before.wf(),
        before.workflow.steps.len() <= usize::MAX,
        before.phase == (Phase::StepDrain { step, skipped }),
        skipped || before.speed != PlaybackSpeed::Step
            || before.workflow.steps[step as int] !is Type,
    ensures
        ({
            let after = before.turn(Input::Control(Signal::Empty)).state;
            &&& after.row == before.row
            &&& step + 1 < before.workflow.steps.len() ==> after.at_step() == Some(
                (step + 1) as usize,
            ) && (after.phase is Subscribing || after.phase is Sleeping || after.phase is Running)
            &&& step + 1 == before.workflow.steps.len() ==> after.phase == Phase::RowDrain
        }),
{
}

/// The state after a number of inputs.
pub open spec fn state_after(start: EngineView, inputs: Seq<Input>) -> EngineView
    decreases inputs.len(),
{
    if inputs.len() == 0 {
        start
    } else {
        state_after(start, inputs.drop_last()).turn(inputs.last()).state
    }
}

/// How many steps were reported to have ended well since a row was last told to
/// start: counted from the inputs and the events alone.
pub open spec fn ended_since_row_start(start: EngineView, inputs: Seq<Input>) -> nat
    decreases inputs.len(),
{
    if inputs.len() == 0 {
        0
    } else {
        let before = state_after(start, inputs.drop_last());
        if starts_row(before.turn(inputs.last()).events) {
            0
        } else {
            ended_since_row_start(start, inputs.drop_last()) + if ends_well(
                before,
                inputs.last(),
            ) {
                1nat
            } else {
                0nat
            }
        }
    }
}

/// Whatever happens during playback, steps are run in order with none left out: the
/// application is only ever asked to run the step behind those that have ended well
/// since the row started, for the row being processed, and a row is completed only
/// when every one of its steps has ended well since it started.
pub proof fn law_rows_play_every_step(start: EngineView, inputs: Seq<Input>, next: Input)
    requires
        start.wf(),
        start.workflow.steps.len() <= usize::MAX,
        start.phase == Phase::Ready,
    ensures
        ({
            let state = state_after(start, inputs);
            let ended = ended_since_row_start(start, inputs);
            &&& state.wf()
            &&& state.workflow == start.workflow
            &&& state.data == start.data
            &&& forall|action: Action| #[trigger]
                state.asks(action) && action is RunStep ==> action->step_index == ended
                    && action->row_index == state.row && ended < start.workflow.steps.len()
                    && state.row < start.data.rows.len()
            &&& forall|i: int|
                0 <= i < state.turn(next).events.len() && (#[trigger] state.turn(next).events[i])
                    is RowCompleted ==> state.turn(next).events[i] == (
                PlaybackEventView::RowCompleted { row_index: state.row }) && ended
                    == start.workflow.steps.len()
        }),
{
    let state = state_after(start, inputs);
    lemma_count_follows(start, inputs);
    assert forall|action: Action| #[trigger] state.asks(action) && action is RunStep implies
        action->step_index == ended_since_row_start(start, inputs) && action->row_index == state.row
        && ended_since_row_start(start, inputs) < start.workflow.steps.len() && state.row
        < start.data.rows.len() by {
        lemma_asked_step(state, action);
    }
    assert forall|i: int|
        0 <= i < state.turn(next).events.len() && (#[trigger] state.turn(next).events[i])
            is RowCompleted implies state.turn(next).events[i] == (
    PlaybackEventView::RowCompleted { row_index: state.row }) && ended_since_row_start(
        start,
        inputs,
    ) == start.workflow.steps.len() by {
        lemma_completed_row(state, next, i);
    }
}

/// The step that is asked to be run is the one behind those that ended well.
proof fn lemma_asked_step(state: EngineView, action: Action)
    requires
        state.wf(),
        state.asks(action),
        action is RunStep,
    ensures
        state.in_row(),
        action->step_index == steps_behind(state),
        steps_behind(state) < state.workflow.steps.len(),
        action->row_index == state.row,
        state.row < state.data.rows.len(),
{
}

/// A row is completed when all its steps are behind.
proof fn lemma_completed_row(state: EngineView, next: Input, i: int)
    requires
        state.wf(),
        state.workflow.steps.len() <= usize::MAX,
        0 <= i < state.turn(next).events.len(),
        state.turn(next).events[i] is RowCompleted,
    ensures
        state.in_row(),
        steps_behind(state) == state.workflow.steps.len(),
        state.turn(next).events[i] == (PlaybackEventView::RowCompleted { row_index: state.row }),
{
}

/// The count of steps that ended well is what the phase shows.
proof fn lemma_count_follows(start: EngineView, inputs: Seq<Input>)
    requires
        start.wf(),
        start.workflow.steps.len() <= usize::MAX,
        start.phase == Phase::Ready,
    ensures
        state_after(start, inputs).wf(),
        state_after(start, inputs).workflow == start.workflow,
        state_after(start, inputs).data == start.data,
        state_after(start, inputs).in_row() ==> ended_since_row_start(start, inputs)
            == steps_behind(state_after(start, inputs)),
    decreases inputs.len(),
{
    if inputs.len() > 0 {
        let before = state_after(start, inputs.drop_last());
        let input = inputs.last();
        let turn = before.turn(input);
        lemma_count_follows(start, inputs.drop_last());
        engine::law_turns_keep_invariant(before, input);
        law_settings_change_by_control(before, input);
        lemma_row_started_told(before, input);
        if starts_row(turn.events) {
            let i = choose|i: int|
                0 <= i < turn.events.len() && (#[trigger] turn.events[i]) is RowStarted;
            law_row_starts_at_its_beginning(before, input, i);
        } else if turn.state.in_row() {
            law_one_step_at_a_time(before, input);
        }
    }
}

// ── Rows ──────────────────────────────────────────────────────────────────────

/// A turn completes the row being processed, skips it, or stays with it. A row is
/// completed only at its end: at Walk speed by the user's confirmation, otherwise
/// when there are no signals left and its closing delay, if any, has passed. A row
/// is skipped only when a step has failed and the user says so.
pub proof fn law_how_rows_end(before: EngineView, input: Input)
    requires
        before.wf(),
        before.workflow.steps.len() <= usize::MAX,
    ensures
        ({
            let after = before.turn(input).state;
            let proceeds = input == Input::Control(
                Signal::Received(PlaybackControl::Proceed),
            );
            let unpaced = input == Input::Control(Signal::Empty) && before.speed
                != PlaybackSpeed::Walk && before.workflow.row_end_delay == 0;
            let completes = before.phase is RowGate && proceeds || before.phase is RowSleep && input
                is Slept || before.phase is RowDrain && unpaced;
            let skips = before.phase is Failed && input == Input::Control(
                Signal::Received(PlaybackControl::ErrorResponse(ErrorAction::SkipRow)),
            );
            &&& after.completed == before.completed + if completes {
                1int
            } else {
                0
            }
            &&& after.skipped == before.skipped + if skips {
                1int
            } else {
                0
            }
            &&& after.row == before.row + if completes || skips {
                1int
            } else {
                0
            }
            &&& after.start_row == before.start_row
            &&& completes ==> before.turn(input).events.len() > 0 && before.turn(input).events[0]
                == (PlaybackEventView::RowCompleted { row_index: before.row })
            &&& forall|i: int|
                0 <= i < before.turn(input).events.len() && (#[trigger] before.turn(
                    input,
                ).events[i]) is RowCompleted ==> completes && i == 0
        }),
{
}

/// A row that is over is followed by the next one, up to the last: then playback is
/// completed, and told to be finished with the counts of what was done.
pub proof fn law_next_row_or_end(before: EngineView, input: Input)
    requires
        before.wf(),
        before.workflow.steps.len() <= usize::MAX,
        before.turn(input).state.row == before.row + 1,
    ensures
        ({
            let turn = before.turn(input);
            if before.row + 1 < before.data.rows.len() {
                &&& turn.state.in_row()
                &&& turn.events.contains(
                    PlaybackEventView::RowStarted { row_index: before.row + 1 },
                )
            } else {
                &&& turn.state.phase == Phase::Completed
                &&& turn.events.last() == (PlaybackEventView::Finished {
                    rows_completed: turn.state.completed,
                    rows_skipped: turn.state.skipped,
                })
            }
        }),
{
    let turn = before.turn(input);
    if before.row + 1 < before.data.rows.len() {
        let told = PlaybackEventView::RowStarted { row_index: before.row + 1 };
        if turn.events[0] == told {
            assert(turn.events.contains(told));
        } else {
            assert(turn.events[1] == told);
            assert(turn.events.contains(told));
        }
    }
}

/// Playback begins with the start row if there is one, and otherwise is over at
/// once; nothing has been done yet.
pub proof fn law_playback_begins(before: EngineView)
    requires
        before.wf(),
        before.workflow.steps.len() <= usize::MAX,
        before.phase == Phase::Ready,
        before.data.column_count >= before.workflow.column_count,
    ensures
        ({
            let turn = before.turn(Input::Start);
            if before.row < before.data.rows.len() {
                &&& turn.state.in_row()
                &&& turn.state.row == before.row
                &&& turn.events[0] == (PlaybackEventView::RowStarted { row_index: before.row })
            } else {
                &&& turn.state.phase == Phase::Completed
                &&& turn.events == seq![
                    PlaybackEventView::Finished {
                        rows_completed: before.completed,
                        rows_skipped: before.skipped,
                    },
                ]
            }
        }),
{
}

/// Retrying runs the same row again from its first step, whichever step failed, and
/// counts nothing; what the failed attempt held is dropped.
pub proof fn law_retry_restarts_row(before: EngineView)
    requires
        before.wf(),
        before.workflow.steps.len() <= usize::MAX,
        before.phase is Failed,
    ensures
        ({
            let turn = before.turn(
                Input::Control(
                    Signal::Received(PlaybackControl::ErrorResponse(ErrorAction::RetryRow)),
                ),
            );
            &&& turn.state.row == before.row
            &&& turn.state.completed == before.completed
            &&& turn.state.skipped == before.skipped
            &&& turn.state.at_step() == Some(0usize)
            &&& turn.state.phase is Subscribing || turn.state.phase is Sleeping || turn.state.phase
                is Running
            &&& !turn.state.subscribed
            &&& turn.state.phase matches Phase::Subscribing { held, .. } ==> !held
            &&& turn.state.phase matches Phase::Sleeping { held, .. } ==> !held
            &&& turn.state.phase matches Phase::Running { subscribed, .. } ==> !subscribed
            &&& turn.events[0] == (PlaybackEventView::RowStarted { row_index: before.row })
        }),
{
}

/// A failed step waits for the user: nothing but an answer to the failure, or the end
/// of all signals, leads out of it.
pub proof fn law_failure_waits_for_answer(before: EngineView, input: Input)
    requires
        before.phase is Failed,
        before.turn(input).state.phase != before.phase,
    ensures
        input == Input::Control(Signal::Closed) || input is Control && input->Control_0 is Received
            && input->Control_0->Received_0 is ErrorResponse,
{
}

/// Playback stops only when the user answers a failure so, or when the control
/// channel closes; and once it has ended, nothing happens any more.
pub proof fn law_how_playback_ends(before: EngineView, input: Input)
    requires
        before.wf(),
        before.workflow.steps.len() <= usize::MAX,
    ensures
        before.turn(input).state.phase is Stopped && before.phase !is Stopped ==> input
            == Input::Control(Signal::Closed) || before.phase is Failed && input == Input::Control(
            Signal::Received(PlaybackControl::ErrorResponse(ErrorAction::Stop)),
        ),
        before.phase is Completed || before.phase is Stopped || before.phase is Rejected
            ==> before.turn(input) == (Turn { state: before, events: seq![] }),
        before.turn(input).state.phase is Rejected && before.phase !is Rejected
            ==> before.data.column_count < before.workflow.column_count && before.phase is Ready,
        before.turn(input).state.phase is Completed && before.phase !is Completed
            ==> before.turn(input).state.row >= before.data.rows.len(),
{
    assert(before.turn(input).events =~= seq![] || before.turn(input).events.len() > 0);
}

// ── Speed ─────────────────────────────────────────────────────────────────────

/// Only the user changes the speed, by selecting one or by pausing, and only the
/// user changes the multiplier. What is played back never changes.
pub proof fn law_settings_change_by_control(before: EngineView, input: Input)
    ensures
        ({
            let after = before.turn(input).state;
            &&& after.workflow == before.workflow
            &&& after.data == before.data
            &&& after.start_row == before.start_row
            &&& after.speed != before.speed ==> input is Control && input->Control_0 is Received
                && (input->Control_0->Received_0 == PlaybackControl::SetSpeed(after.speed)
                || input->Control_0->Received_0 is Pause && after.speed == PlaybackSpeed::Step)
            &&& after.multiplier != before.multiplier ==> input is Control && input->Control_0
                is Received && input->Control_0->Received_0 is SetSpeedMultiplier
        }),
{
}

/// Whether the engine looks for control signals.
pub open spec fn listens(state: EngineView) -> bool {
    state.phase is StepDrain || state.phase is StepGate || state.phase is Failed || state.phase
        is RowDrain || state.phase is RowGate
}

/// A change of speed or multiplier that arrives is taken in and told, and changes
/// nothing else: the engine goes on waiting for what it waited for.
pub proof fn law_changes_are_taken_in(before: EngineView, control: PlaybackControl)
    requires
        listens(before),
        control is SetSpeed || control is Pause || control is SetSpeedMultiplier,
    ensures
        ({
            let turn = before.turn(Input::Control(Signal::Received(control)));
            &&& turn.state.phase == before.phase
            &&& turn.state.row == before.row
            &&& turn.state.completed == before.completed
            &&& turn.state.skipped == before.skipped
            &&& turn.state.subscribed == before.subscribed
            &&& control matches PlaybackControl::SetSpeed(speed) ==> turn.state.speed == speed
                && turn.events == seq![PlaybackEventView::SpeedChanged(speed)]
            &&& control is Pause ==> turn.state.speed == PlaybackSpeed::Step && turn.events
                == seq![PlaybackEventView::SpeedChanged(PlaybackSpeed::Step)]
            &&& control matches PlaybackControl::SetSpeedMultiplier(thousandths) ==> {
                &&& turn.state.speed == before.speed
                &&& 250 <= thousandths <= 4000 ==> turn.state.multiplier == thousandths
                &&& thousandths < 250 ==> turn.state.multiplier == 250
                &&& thousandths > 4000 ==> turn.state.multiplier == 4000
                &&& turn.events == seq![
                    PlaybackEventView::SpeedMultiplierChanged(turn.state.multiplier),
                ]
            }
            &&& control !is SetSpeedMultiplier ==> turn.state.multiplier == before.multiplier
        }),
{
}

/// Signals that mean nothing at the moment are ignored: a confirmation where none is
/// asked for, and an answer where nothing failed.
pub proof fn law_untimely_signals_are_ignored(before: EngineView, control: PlaybackControl)
    requires
        control is Proceed && before.phase !is StepGate && before.phase !is RowGate
            || control is ErrorResponse && before.phase !is Failed,
    ensures
        before.turn(Input::Control(Signal::Received(control))).state == before,
        before.turn(Input::Control(Signal::Received(control))).events.len() == 0,
{
}

/// An input that answers nothing the engine waits for has no effect.
pub proof fn law_unasked_inputs_are_ignored(before: EngineView, input: Input)
    requires
        match input {
            Input::Start => before.phase !is Ready,
            Input::Subscribed => before.phase !is Subscribing,
            Input::Slept => before.phase !is Sleeping && before.phase !is RowSleep,
            Input::StepDone(_) => before.phase !is Running,
            Input::Control(_) => !listens(before),
        },
    ensures
        before.turn(input).state == before,
        before.turn(input).events.len() == 0,
{
}

// ── Confirmation ──────────────────────────────────────────────────────────────

/// Every field that is typed at Step speed is followed by a pause, and every row at
/// Walk speed, and there are no other pauses. A pause is told.
pub proof fn law_pauses(before: EngineView)
    requires
        before.wf(),
        before.phase is StepDrain || before.phase is RowDrain,
    ensures
        ({
            let turn = before.turn(Input::Control(Signal::Empty));
            let due = match before.phase {
                Phase::StepDrain { step, skipped } => !skipped && before.speed
                    == PlaybackSpeed::Step && before.workflow.steps[step as int] is Type,
                _ => before.speed == PlaybackSpeed::Walk,
            };
            &&& due ==> (turn.state.phase is StepGate || turn.state.phase is RowGate)
                && turn.state.at_step() == before.at_step() && turn.events == seq![
                PlaybackEventView::WaitingForConfirmation,
            ]
            &&& !due ==> turn.state.phase !is StepGate && turn.state.phase !is RowGate
                && !turn.events.contains(PlaybackEventView::WaitingForConfirmation)
            &&& due && before.phase is StepDrain ==> turn.state.phase is StepGate
            &&& due && before.phase is RowDrain ==> turn.state.phase is RowGate
        }),
{
}

// ── Waiting ───────────────────────────────────────────────────────────────────

/// The delay recorded before a step is waited for before the step is run, unless it
/// is none or the user confirms the step anyway: a step is run without having been
/// waited for only in these cases, and waited for only outside of them.
pub proof fn law_steps_keep_their_delay(before: EngineView, input: Input)
    requires
        before.wf(),
        before.workflow.steps.len() <= usize::MAX,
    ensures
        ({
            let after = before.turn(input).state;
            &&& after.phase matches Phase::Running { step, .. } ==> before.phase is Running
                || before.phase is Sleeping && before.at_step() == Some(step) && input is Slept
                || before.workflow.step_delays[step as int] == 0 || before.speed
                == PlaybackSpeed::Step && before.workflow.steps[step as int] is Type
            &&& after.phase matches Phase::Sleeping { step, .. } ==> before.phase is Sleeping
                || before.workflow.step_delays[step as int] > 0 && !(before.speed
                == PlaybackSpeed::Step && before.workflow.steps[step as int] is Type)
            &&& before.phase matches Phase::Sleeping { step, .. } ==> (input is Slept
                ==> after.phase is Running && after.at_step() == Some(step)) && after.row
                == before.row
            &&& after.phase is RowSleep && before.phase !is RowSleep
                ==> before.workflow.row_end_delay > 0 && before.speed != PlaybackSpeed::Walk
        }),
{
}

/// A delay is waited for as long as was recorded, at the current speed: to the
/// nearest nanosecond it is the recorded time divided by the multiplier.
pub proof fn law_waits_as_recorded(state: EngineView, action: Action)
    requires
        state.wf(),
        state.asks(action),
        state.phase is Sleeping || state.phase is RowSleep,
    ensures
        action is Sleep,
        ({
            let recorded = match state.phase {
                Phase::Sleeping { step, .. } => state.workflow.step_delays[step as int],
                _ => state.workflow.row_end_delay,
            };
            let waited = action->Sleep_0@;
            &&& waited < time::MAX_DELAY_NANOS ==> -(state.multiplier as int) <= 2 * (waited
                * state.multiplier - recorded * 1000) <= state.multiplier
            &&& waited <= time::MAX_DELAY_NANOS
            &&& waited == time::MAX_DELAY_NANOS ==> 2 * (waited * state.multiplier - recorded
                * 1000) <= state.multiplier
        }),
{
    match state.phase {
        Phase::Sleeping { step, .. } => {
            time::law_scaled_delay(
                state.workflow.step_delays[step as int],
                state.multiplier as nat,
            );
        },
        _ => {
            time::law_scaled_delay(state.workflow.row_end_delay, state.multiplier as nat);
        },
    }
}

/// The application is asked for what the engine waits for: to subscribe in front of a
/// step that is followed by a wait for navigation, to look for signals without
/// waiting between steps and rows, to wait for them at a pause or a failure, and to
/// return, with the counts, when playback is over.
pub proof fn law_what_is_asked(state: EngineView, action: Action)
    requires
        state.wf(),
        state.asks(action),
    ensures
        action is Start <==> state.phase is Ready,
        action is Subscribe <==> state.phase is Subscribing,
        action is Subscribe ==> state.at_step() is Some && state.workflow.steps[state.at_step()->0
            + 1] is WaitForNavigation && action->hold == (state.at_step()->0 > 0
            && state.workflow.steps[state.at_step()->0 as int] is WaitForNavigation),
        action is RunStep <==> state.phase is Running,
        action is RunStep ==> action->row_index == state.row && state.at_step() == Some(
            action->step_index,
        ) && action->use_subscription == (action->step_index > 0
            && state.workflow.steps[action->step_index as int] is WaitForNavigation),
        action is Sleep <==> state.phase is Sleeping || state.phase is RowSleep,
        action is PollControl <==> state.phase is StepDrain || state.phase is RowDrain,
        action is AwaitControl <==> state.phase is StepGate || state.phase is RowGate || state.phase
            is Failed,
        action is Finish <==> state.phase is Completed || state.phase is Stopped || state.phase
            is Rejected,
        action matches Action::Finish(Ok(result)) ==> state.phase is Completed
            && result.rows_completed == state.completed && result.rows_skipped == state.skipped,
        state.phase is Completed ==> action->Finish_0 is Ok,
        state.phase is Stopped ==> action == Action::Finish(Err(PlaybackError::Stopped)),
        state.phase is Rejected ==> action->Finish_0 is Err && action->Finish_0->Err_0 is Other,
{
}

// ── Events ────────────────────────────────────────────────────────────────────

/// The end of a step is told as it was reported: as completed for the step that was
/// run, or as failed with the message of its error; the engine then stays at that
/// step of that row.
pub proof fn law_step_ends_are_told(
    before: EngineView,
    outcome: Result<StepOutcome, PlaybackError>,
    step: usize,
    subscribed: bool,
)
    requires
        before.phase == (Phase::Running { step, subscribed }),
    ensures
        ({
            let turn = before.turn(Input::StepDone(outcome));
            &&& turn.state.row == before.row
            &&& turn.state.at_step() == Some(step)
            &&& turn.state.completed == before.completed
            &&& turn.state.skipped == before.skipped
            &&& turn.state.subscribed == before.subscribed
            &&& outcome is Ok ==> turn.state.phase is StepDrain && turn.state.phase->skipped == (
            outcome == Ok::<StepOutcome, PlaybackError>(StepOutcome::Skipped)) && turn.events
                == seq![
                PlaybackEventView::StepCompleted { row_index: before.row, step_index: step as nat },
            ]
            &&& outcome matches Err(error) ==> turn.state.phase is Failed && turn.events == seq![
                PlaybackEventView::StepFailed {
                    row_index: before.row,
                    step_index: step as nat,
                    error: super::error_text(error),
                },
            ]
        }),
{
}

/// A step is told to start exactly when it is handed over to be run, and what is told
/// of a step is about the row being processed.
pub proof fn law_step_starts_are_told(before: EngineView, input: Input)
    requires
        before.wf(),
        before.workflow.steps.len() <= usize::MAX,
    ensures
        ({
            let turn = before.turn(input);
            &&& turn.state.phase is Running && before.phase !is Running ==> turn.events.len() > 0
                && turn.state.at_step() is Some && turn.events.last() == (
            PlaybackEventView::StepStarted {
                row_index: turn.state.row,
                step_index: turn.state.at_step()->0 as nat,
            })
            &&& forall|i: int|
                0 <= i < turn.events.len() && (#[trigger] turn.events[i]) is StepStarted
                    ==> turn.state.phase is Running && i == turn.events.len() - 1
            &&& forall|i: int|
                0 <= i < turn.events.len() ==> ((#[trigger] turn.events[i]) is StepCompleted
                    <==> i == 0 && ends_well(before, input))
            &&& forall|i: int|
                0 <= i < turn.events.len() ==> ((#[trigger] turn.events[i]) is StepFailed <==> i
                    == 0 && before.phase is Running && input is StepDone && !ends_well(
                    before,
                    input,
                ))
        }),
{
}

/// The end of playback is told exactly when it comes by itself or by the user's word.
pub proof fn law_end_is_told(before: EngineView, input: Input)
    requires
        before.wf(),
        before.workflow.steps.len() <= usize::MAX,
    ensures
        ({
            let turn = before.turn(input);
            let stops = before.phase is Failed && input == Input::Control(
                Signal::Received(PlaybackControl::ErrorResponse(ErrorAction::Stop)),
            );
            let ends = stops || turn.state.phase is Completed && before.phase !is Completed;
            &&& ends ==> turn.events.len() > 0 && turn.events.last() == (
            PlaybackEventView::Finished {
                rows_completed: turn.state.completed,
                rows_skipped: turn.state.skipped,
            })
            &&& stops ==> turn.state.phase is Stopped
            &&& forall|i: int|
                0 <= i < turn.events.len() && (#[trigger] turn.events[i]) is Finished ==> ends && i
                    == turn.events.len() - 1
        }),
{
}

} // verus!
