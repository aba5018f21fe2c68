//! What holds of every playback run.
use vstd::prelude::*;
use crate::data::parse::{DataSetView, Row};
use crate::time;
use crate::time::MAX_DELAY_NANOS;
use crate::training::session::TrainingView;
use crate::workflow::{
    EmptyCellView, NavigationView, PlaybackSpeed, ResolutionView, SelectorView, StepView,
    ValueSourceView, WorkflowView,
};
use super::engine;
use super::engine::{EngineView, Input, Phase, Signal, StepOutcome};
use super::execute;
use super::execute::{BrowserActionView, TypeActionView, CLEAR_JS, CLICK_JS, FOCUS_JS};
use super::resolve;
use super::resolve::Search;
use super::subscriptions::Subscriptions;
use super::{
    ErrorAction, PlaybackControl, PlaybackEventView, MAX_MULTIPLIER, MIN_MULTIPLIER,
};

verus! {

/// Confirmation is asked for only after typing at Step speed, and after a row at
/// Walk speed; Run never pauses.
pub proof fn law_gates(before: EngineView, input: Input)
    requires
        before.wf(),
        before.workflow.steps.len() <= usize::MAX,
    ensures
        before.turn(input).state.phase is StepGate && before.phase !is StepGate ==> {
            &&& before.speed == PlaybackSpeed::Step
            &&& before.phase is StepDrain
            &&& before.workflow.steps[before.phase->StepDrain_step as int] is Type
        },
        before.turn(input).state.phase is RowGate && before.phase !is RowGate ==> before.speed
            == PlaybackSpeed::Walk && before.phase is RowDrain,
{
}

/// At Step speed, playback pauses after each step that types.
pub proof fn law_step_pauses_after_typing(before: EngineView, step: usize)
    requires
        before.phase == (Phase::StepDrain { step, skipped: false }),
        before.speed == PlaybackSpeed::Step,
        before.workflow.steps[step as int] is Type,
    ensures
        before.turn(Input::Control(Signal::Empty)).state.phase == (Phase::StepGate { step }),
        before.turn(Input::Control(Signal::Empty)).events == seq![
            PlaybackEventView::WaitingForConfirmation,
        ],
{
}

/// At Walk speed, playback pauses after each row.
pub proof fn law_walk_pauses_after_row(before: EngineView)
    requires
        before.phase == Phase::RowDrain,
        before.speed == PlaybackSpeed::Walk,
    ensures
        before.turn(Input::Control(Signal::Empty)).state.phase == Phase::RowGate,
        before.turn(Input::Control(Signal::Empty)).events == seq![
            PlaybackEventView::WaitingForConfirmation,
        ],
{
}

/// A gate opens only when the user proceeds; until then only the speed changes.
pub proof fn law_gate_opens_by_proceeding(before: EngineView, control: PlaybackControl)
    requires
        before.phase is StepGate || before.phase is RowGate,
        control != PlaybackControl::Proceed,
    ensures
        before.turn(Input::Control(Signal::Received(control))).state == (EngineView {
            speed: before.turn(Input::Control(Signal::Received(control))).state.speed,
            multiplier: before.turn(Input::Control(Signal::Received(control))).state.multiplier,
            ..before
        }),
{
}

/// Slowing down takes effect between steps: a change to Step speed that arrives
/// while a field is being typed makes playback pause after it.
pub proof fn law_slowing_down_takes_effect(before: EngineView, step: usize)
    requires
        before.phase == (Phase::StepDrain { step, skipped: false }),
        before.workflow.steps[step as int] is Type,
    ensures
        before.turn(
            Input::Control(Signal::Received(PlaybackControl::SetSpeed(PlaybackSpeed::Step))),
        ).state.turn(Input::Control(Signal::Empty)).state.phase == (Phase::StepGate { step }),
        before.turn(Input::Control(Signal::Received(PlaybackControl::Pause))).state.turn(
            Input::Control(Signal::Empty),
        ).state.phase == (Phase::StepGate { step }),
{
}

/// A failed row is skipped, retried or stopped at, as the user says.
///
/// Skipping counts the row and goes on to the next; retrying starts the same row
/// again without counting it; stopping reports what was done so far.
pub proof fn law_failed_row(before: EngineView, action: ErrorAction)
    requires
        before.wf(),
        before.phase is Failed,
    ensures
        ({
            let input = Input::Control(
                Signal::Received(PlaybackControl::ErrorResponse(action)),
            );
            let after = before.turn(input);
            match action {
                ErrorAction::SkipRow => {
                    &&& after.state.row == before.row + 1
                    &&& after.state.skipped == before.skipped + 1
                    &&& after.state.completed == before.completed
                },
                ErrorAction::RetryRow => {
                    &&& after.state.row == before.row
                    &&& after.state.skipped == before.skipped
                    &&& after.state.completed == before.completed
                    &&& after.events[0] == (PlaybackEventView::RowStarted { row_index: before.row })
                },
                ErrorAction::Stop => {
                    &&& after.state.phase == Phase::Stopped
                    &&& after.events == seq![
                        PlaybackEventView::Finished {
                            rows_completed: before.completed,
                            rows_skipped: before.skipped,
                        },
                    ]
                },
            }
        }),
{
}

/// When the control channel closes, an engine that listens to it stops.
pub proof fn law_closed_channel_stops(before: EngineView)
    requires
        before.phase is StepDrain || before.phase is StepGate || before.phase is Failed
            || before.phase is RowDrain || before.phase is RowGate,
    ensures
        before.turn(Input::Control(Signal::Closed)).state.phase == Phase::Stopped,
        before.turn(Input::Control(Signal::Closed)).events.len() == 0,
{
}

/// When playback is completed, every row from the start row on was either
/// completed or skipped.
pub proof fn law_all_rows_accounted_for(state: EngineView)
    requires
        state.wf(),
        state.phase == Phase::Completed,
        state.start_row <= state.data.rows.len(),
    ensures
        state.completed + state.skipped == state.data.rows.len() - state.start_row,
{
}

/// The row that an event is about, if any.
pub open spec fn event_row(event: PlaybackEventView) -> Option<nat> {
    match event {
        PlaybackEventView::RowStarted { row_index } => Some(row_index),
        PlaybackEventView::StepStarted { row_index, .. } => Some(row_index),
        PlaybackEventView::StepCompleted { row_index, .. } => Some(row_index),
        PlaybackEventView::RowCompleted { row_index } => Some(row_index),
        PlaybackEventView::StepFailed { row_index, .. } => Some(row_index),
        _ => None,
    }
}

/// Every event is about a row that the data has.
pub proof fn law_events_are_about_rows(before: EngineView, input: Input, i: int)
    requires
        before.wf(),
        before.workflow.steps.len() <= usize::MAX,
        0 <= i < before.turn(input).events.len(),
    ensures
        event_row(before.turn(input).events[i]) matches Some(row) ==> row < before.data.rows.len(),
{
}

/// The speed multiplier stays between a quarter and four times the normal speed,
/// whatever it is set to.
pub proof fn law_multiplier_in_range(before: EngineView, input: Input)
    requires
        before.wf(),
        before.workflow.steps.len() <= usize::MAX,
    ensures
        MIN_MULTIPLIER <= before.turn(input).state.multiplier <= MAX_MULTIPLIER,
{
    engine::law_turns_keep_invariant(before, input);
}

/// Control signals are taken in between every two steps: a step that ends well,
/// executed or skipped, is followed by looking for signals, and that goes on until
/// there are none.
pub proof fn law_controls_drained_between_steps(before: EngineView, outcome: StepOutcome)
    ensures
        before.phase matches Phase::Running { step, .. } ==> before.turn(
            Input::StepDone(Ok(outcome)),
        ).state == (EngineView {
            phase: Phase::StepDrain { step, skipped: outcome == StepOutcome::Skipped },
            ..before
        }),
        before.phase is StepDrain ==> forall|control: PlaybackControl|
            before.turn(Input::Control(Signal::Received(control))).state.phase == before.phase,
{
}

/// A wait for navigation that is not the first step gets a subscription, also
/// behind another wait; no other step gets one.
pub proof fn law_navigation_is_subscribed(state: EngineView, step: usize, subscribed: bool)
    requires
        state.wf(),
        state.phase == (Phase::Running { step, subscribed }),
    ensures
        subscribed <==> step > 0 && state.workflow.steps[step as int] is WaitForNavigation,
{
}

/// The subscriptions of an application after it has done what the engine asked
/// for and handed in `input`. Here a subscription is the step that it was made in
/// front of.
pub open spec fn kept_subscriptions(
    kept: Subscriptions<usize>,
    before: EngineView,
    input: Input,
) -> Subscriptions<usize> {
    match (before.phase, input) {
        (Phase::Subscribing { step, held }, Input::Subscribed) => kept.with(step, held),
        (Phase::Running { subscribed, .. }, Input::StepDone(_)) => if subscribed {
            kept.without()
        } else {
            kept
        },
        _ => kept,
    }
}

/// The subscription for the step behind `step`, if that one waits, is in place.
pub open spec fn next_in_place(
    kept: Subscriptions<usize>,
    state: EngineView,
    step: usize,
) -> bool {
    state.before_navigation(step) ==> kept.coming == Some(step)
}

/// The subscription for `step`, if it has one, is the first one kept, and the only
/// one unless the step behind it waits too.
pub open spec fn own_in_place(
    kept: Subscriptions<usize>,
    state: EngineView,
    step: usize,
    subscribed: bool,
) -> bool {
    &&& subscribed ==> kept.first() == Some((step - 1) as usize)
    &&& kept.held is Some <==> subscribed && state.before_navigation(step)
}

/// The subscriptions kept are those that the engine counts on.
pub open spec fn subscriptions_match(kept: Subscriptions<usize>, state: EngineView) -> bool {
    match state.phase {
        Phase::Subscribing { step, held } => {
            &&& kept.held is None
            &&& held ==> kept.coming == Some((step - 1) as usize)
        },
        Phase::Sleeping { step, held } => {
            &&& own_in_place(kept, state, step, held)
            &&& next_in_place(kept, state, step)
        },
        Phase::Running { step, subscribed } => {
            &&& own_in_place(kept, state, step, subscribed)
            &&& next_in_place(kept, state, step)
        },
        Phase::StepDrain { step, .. } => kept.held is None && next_in_place(kept, state, step),
        Phase::StepGate { step } => kept.held is None && next_in_place(kept, state, step),
        _ => kept.held is None,
    }
}

/// Every wait for navigation behind another step is run with a subscription that
/// was made before that other step was executed.
///
/// Stated as an invariant: before playback, when none are kept, the subscriptions
/// match what the engine counts on, every turn keeps that, and while it holds a
/// wait is handed the subscription made in front of the preceding step.
pub proof fn law_subscription_predates_trigger(
    kept: Subscriptions<usize>,
    before: EngineView,
    input: Input,
)
    requires
        before.wf(),
        before.workflow.steps.len() <= usize::MAX,
        subscriptions_match(kept, before),
    ensures
        subscriptions_match(kept_subscriptions(kept, before, input), before.turn(input).state),
        before.phase matches Phase::Running { step, subscribed } ==> (subscribed ==> kept.first()
            == Some((step - 1) as usize)),
        before.phase == Phase::Ready ==> subscriptions_match(
            Subscriptions { held: None, coming: None },
            before,
        ),
{
    let after = kept_subscriptions(kept, before, input);
    match before.phase {
        Phase::Ready => lemma_row_matches(kept, before),
        Phase::Subscribing { step, held } => {
            if input is Subscribed {
                lemma_pace_matches(after, EngineView { subscribed: true, ..before }, step, held);
            }
        },
        Phase::StepDrain { step, .. } => lemma_step_matches(kept, before, step as nat + 1),
        Phase::StepGate { step } => lemma_step_matches(kept, before, step as nat + 1),
        Phase::Failed { .. } | Phase::RowDrain | Phase::RowSleep | Phase::RowGate => {
            let row = before.row + 1;
            lemma_row_matches(kept, before);
            lemma_row_matches(kept, EngineView { completed: before.completed + 1, row, ..before });
            lemma_row_matches(kept, EngineView { skipped: before.skipped + 1, row, ..before });
        },
        _ => {},
    }
}

/// Executing a step keeps the match.
proof fn lemma_pace_matches(
    kept: Subscriptions<usize>,
    state: EngineView,
    step: usize,
    held: bool,
)
    requires
        own_in_place(kept, state, step, held),
        next_in_place(kept, state, step),
    ensures
        subscriptions_match(kept, state.pace(step, held).state),
{
    let after = state.pace(step, held).state;
    assert(after.before_navigation(step) == state.before_navigation(step));
}

/// Beginning a step keeps the match.
proof fn lemma_step_matches(kept: Subscriptions<usize>, state: EngineView, step: nat)
    requires
        kept.held is None,
        step <= state.workflow.steps.len() <= usize::MAX,
        step < state.workflow.steps.len() && state.subscribed && state.waiting(step as usize)
            ==> kept.coming == Some((step - 1) as usize),
    ensures
        subscriptions_match(kept, state.begin_step(step).state),
{
    if step < state.workflow.steps.len() && !state.before_navigation(step as usize) {
        let begun = EngineView { subscribed: false, ..state };
        assert(begun.before_navigation(step as usize) == state.before_navigation(step as usize));
        lemma_pace_matches(
            kept,
            begun,
            step as usize,
            state.subscribed && state.waiting(step as usize),
        );
    }
}

/// Beginning a row keeps the match.
proof fn lemma_row_matches(kept: Subscriptions<usize>, state: EngineView)
    requires
        kept.held is None,
        state.workflow.steps.len() <= usize::MAX,
    ensures
        subscriptions_match(kept, state.begin_row().state),
{
    if state.row < state.data.rows.len() {
        lemma_step_matches(kept, EngineView { subscribed: false, ..state }, 0);
    }
}

/// The answer to what the engine waits for when every step succeeds and the user
/// confirms whenever asked.
pub open spec fn smooth(phase: Phase) -> Input {
    match phase {
        Phase::Ready => Input::Start,
        Phase::Subscribing { .. } => Input::Subscribed,
        Phase::Sleeping { .. } | Phase::RowSleep => Input::Slept,
        Phase::Running { .. } => Input::StepDone(Ok(StepOutcome::Executed)),
        Phase::StepGate { .. } | Phase::RowGate => Input::Control(
            Signal::Received(PlaybackControl::Proceed),
        ),
        _ => Input::Control(Signal::Empty),
    }
}

/// The state after up to `n` smooth turns.
pub open spec fn smooth_run(state: EngineView, n: nat) -> EngineView
    decreases n,
{
    if n == 0 || state.phase is Completed {
        state
    } else {
        smooth_run(state.turn(smooth(state.phase)).state, (n - 1) as nat)
    }
}

/// Turns that a row takes at most.
pub open spec fn row_turns(state: EngineView) -> nat {
    6 * state.workflow.steps.len() + 10
}

/// Turns that are left in the current row at most.
pub open spec fn turns_in_row(state: EngineView) -> nat {
    let steps = state.workflow.steps.len();
    match state.phase {
        Phase::Ready => row_turns(state),
        Phase::Subscribing { step, .. } => (6 * (steps - step) + 9) as nat,
        Phase::Sleeping { step, .. } => (6 * (steps - step) + 8) as nat,
        Phase::Running { step, .. } => (6 * (steps - step) + 7) as nat,
        Phase::StepDrain { step, .. } => (6 * (steps - step) + 6) as nat,
        Phase::StepGate { step } => (6 * (steps - step) + 5) as nat,
        Phase::RowDrain => 3,
        Phase::RowSleep | Phase::RowGate => 2,
        _ => 0,
    }
}

/// Turns that are left at most.
pub open spec fn turns_left(state: EngineView) -> nat {
    let rows = if state.row < state.data.rows.len() {
        (state.data.rows.len() - state.row) as nat
    } else {
        0
    };
    rows * row_turns(state) + turns_in_row(state)
}

/// Whether playback is under way and nothing has gone wrong.
pub open spec fn unharmed(state: EngineView) -> bool {
    &&& state.wf()
    &&& state.workflow.steps.len() <= usize::MAX
    &&& state.skipped == 0
    &&& state.phase !is Failed
    &&& state.phase !is Stopped
    &&& state.phase !is Rejected
    &&& state.data.column_count >= state.workflow.column_count
}

/// A smooth turn brings the end nearer.
proof fn lemma_smooth_turn(state: EngineView)
    requires
        unharmed(state),
        state.phase !is Completed,
    ensures
        unharmed(state.turn(smooth(state.phase)).state),
        turns_left(state.turn(smooth(state.phase)).state) < turns_left(state),
        state.turn(smooth(state.phase)).state.data == state.data,
        state.turn(smooth(state.phase)).state.start_row == state.start_row,
{
    let input = smooth(state.phase);
    engine::law_turns_keep_invariant(state, input);
    let after = state.turn(input).state;
    let turns = row_turns(state) as int;
    let rows = state.data.rows.len() - state.row;
    assert(row_turns(after) == row_turns(state));
    if after.row > state.row {
        assert((rows - 1) * turns == rows * turns - turns) by (nonlinear_arith);
        assert(0 <= turns_in_row(after) < turns);
    } else {
        assert(turns_in_row(after) < turns_in_row(state));
    }
}

/// A smooth run reaches the end.
proof fn lemma_smooth_run(state: EngineView, n: nat)
    requires
        unharmed(state),
        turns_left(state) <= n,
    ensures
        smooth_run(state, n).phase == Phase::Completed,
        smooth_run(state, n).wf(),
        smooth_run(state, n).skipped == 0,
        smooth_run(state, n).data == state.data,
        smooth_run(state, n).start_row == state.start_row,
    decreases n,
{
    if state.phase !is Completed {
        lemma_smooth_turn(state);
        lemma_smooth_run(state.turn(smooth(state.phase)).state, (n - 1) as nat);
    }
}

/// Playback gets through: at any speed, when every step succeeds and the user
/// confirms whenever asked, it ends with every row from the start row on
/// completed and none skipped.
pub proof fn law_smooth_run_completes(start: EngineView)
    requires
        start.wf(),
        start.workflow.steps.len() <= usize::MAX,
        start.phase == Phase::Ready,
        start.skipped == 0,
        start.completed == 0,
        start.start_row <= start.data.rows.len(),
        start.data.column_count >= start.workflow.column_count,
    ensures
        exists|n: nat|
            {
                &&& (#[trigger] smooth_run(start, n)).phase == Phase::Completed
                &&& smooth_run(start, n).completed == start.data.rows.len() - start.start_row
                &&& smooth_run(start, n).skipped == 0
            },
{
    lemma_smooth_run(start, turns_left(start));
    law_all_rows_accounted_for(smooth_run(start, turns_left(start)));
}

/// Data with too few columns is never played back.
pub proof fn law_too_few_columns_rejected(start: EngineView)
    requires
        start.phase == Phase::Ready,
        start.data.column_count < start.workflow.column_count,
    ensures
        start.turn(Input::Start).state.phase == Phase::Rejected,
        start.turn(Input::Start).events.len() == 0,
{
}

/// Replay enters the data: a column bound during training is typed, for every row
/// in which it is not empty, as the cell of that row.
pub proof fn law_replay_types_cells(
    session: TrainingView,
    column: int,
    step: usize,
    row: Row,
    rules: Map<usize, EmptyCellView>,
)
    requires
        session.wf(),
        0 <= column < session.bindings.len(),
        session.bindings[column] == Some(step),
        row.len() == session.data.column_count,
        row[column].len() > 0,
    ensures
        session.steps[step as int] is Type,
        execute::plan(session.steps[step as int], row, rules) == Some(
            seq![
                BrowserActionView::Resolve(session.steps[step as int]->Type_selector),
                BrowserActionView::Evaluate(FOCUS_JS@),
                BrowserActionView::Evaluate(CLEAR_JS@),
                BrowserActionView::InsertText(row[column]),
            ],
        ),
{
    assert(session.binding_types(column));
}

/// A step is suppressed only for an empty cell whose rule says to skip it.
pub proof fn law_only_empty_cells_skip(
    source: ValueSourceView,
    row: Row,
    rules: Map<usize, EmptyCellView>,
)
    requires
        execute::type_action(source, row, rules) == TypeActionView::Skip,
    ensures
        source is Column,
        execute::cell(row, source->index).len() == 0,
        rules.contains_key(source->index as usize),
        rules[source->index as usize] == EmptyCellView::Skip,
{
}

/// The strategies of a selector are tried one after another in their order, none
/// is left out, and only an element that is found ends the search.
pub proof fn law_strategies_tried_in_order(selector: SelectorView, tried: nat, found: bool)
    requires
        tried < selector.strategies.len() <= usize::MAX,
    ensures
        match resolve::search_after(selector.strategies.len(), tried, found) {
            Search::Found => found,
            Search::Try(next) => !found && next == tried + 1 && next < selector.strategies.len(),
            Search::Wait => !found && tried + 1 == selector.strategies.len(),
        },
{
}

/// Playback starts at the row it is told to, at the speed it is told to, with nothing
/// counted yet and recorded delays as they are.
pub proof fn law_playback_starts_as_told(
    workflow: WorkflowView,
    data: DataSetView,
    speed: PlaybackSpeed,
    start_row: nat,
)
    ensures
        ({
            let start = EngineView::initial(workflow, data, speed, start_row);
            &&& start.workflow == workflow
            &&& start.data == data
            &&& start.start_row == start_row
            &&& start.row == start_row
            &&& start.speed == speed
            &&& start.completed == 0
            &&& start.skipped == 0
            &&& forall|nanos: nat|
                nanos <= MAX_DELAY_NANOS ==> #[trigger] time::at_speed(
                    nanos,
                    start.multiplier as nat,
                ) == nanos
            &&& start.phase == Phase::Ready
        }),
{
    let start = EngineView::initial(workflow, data, speed, start_row);
    assert forall|nanos: nat| nanos <= MAX_DELAY_NANOS implies #[trigger] time::at_speed(
        nanos,
        start.multiplier as nat,
    ) == nanos by {
        assert((nanos * 1000 + 500) / 1000 == nanos);
    }
}

/// What a step that types enters: a literal as it is, a cell that holds something as
/// it is, and for an empty or missing cell what the rule of its own column says, where
/// the field is cleared if there is none.
pub proof fn law_what_is_typed(
    selector: SelectorView,
    source: ValueSourceView,
    navigation: Option<NavigationView>,
    row: Row,
    rules: Map<usize, EmptyCellView>,
)
    ensures
        ({
            let plan = execute::plan(StepView::Type { selector, source, navigation }, row, rules);
            match source {
                ValueSourceView::Literal { value } => types(plan, selector, value),
                ValueSourceView::Column { index } => {
                    &&& index < row.len() && row[index as int].len() > 0 ==> types(
                        plan,
                        selector,
                        row[index as int],
                    )
                    &&& index >= row.len() || row[index as int].len() == 0 ==> {
                        if !rules.contains_key(index as usize) {
                            types(plan, selector, Seq::empty())
                        } else {
                            match rules[index as usize] {
                                EmptyCellView::Skip => plan is None,
                                EmptyCellView::Clear => types(plan, selector, Seq::empty()),
                                EmptyCellView::Default { value } => types(plan, selector, value),
                            }
                        }
                    }
                },
            }
        }),
{
}

/// A field is found, then focused, then cleared, and then gets a value, once.
pub open spec fn types(
    plan: Option<Seq<BrowserActionView>>,
    selector: SelectorView,
    value: Seq<char>,
) -> bool {
    &&& plan is Some
    &&& plan->0.len() == 4
    &&& plan->0[0] == BrowserActionView::Resolve(selector)
    &&& plan->0[1] == BrowserActionView::Evaluate(FOCUS_JS@)
    &&& plan->0[2] == BrowserActionView::Evaluate(CLEAR_JS@)
    &&& plan->0[3] == BrowserActionView::InsertText(value)
}

/// A step that types depends on nothing in a row but its own cell, and on no rule but
/// its own column's.
pub proof fn law_own_cell_decides(
    step: StepView,
    row: Row,
    other_row: Row,
    rules: Map<usize, EmptyCellView>,
    other_rules: Map<usize, EmptyCellView>,
)
    requires
        step is Type && step->source is Column ==> {
            let index = step->source->index;
            &&& index < row.len()
            &&& index < other_row.len()
            &&& row[index as int] == other_row[index as int]
            &&& rules.contains_key(index as usize) == other_rules.contains_key(index as usize)
            &&& rules[index as usize] == other_rules[index as usize]
        },
    ensures
        execute::plan(step, row, rules) == execute::plan(step, other_row, other_rules),
{
}

/// A click finds its element and then clicks it, and a wait only waits, whatever the
/// row holds; neither is ever skipped.
pub proof fn law_click_and_wait(step: StepView, row: Row, rules: Map<usize, EmptyCellView>)
    ensures
        step is Click ==> execute::plan(step, row, rules) == Some(
            seq![
                BrowserActionView::Resolve(step->Click_selector),
                BrowserActionView::Evaluate(CLICK_JS@),
            ],
        ),
        step is WaitForNavigation ==> execute::plan(step, row, rules) == Some(
            seq![BrowserActionView::AwaitNavigation],
        ),
{
}

/// A lookup looks for what it is given: lookups of one kind for different things, or
/// by text among different tags, are different.
pub proof fn law_lookup_is_specific(
    strategy: ResolutionView,
    wanted: Seq<char>,
    other: Seq<char>,
    tag: Seq<char>,
    other_tag: Seq<char>,
)
    ensures
        wanted != other ==> resolve::lookup_js(strategy, wanted, tag) != resolve::lookup_js(
            strategy,
            other,
            tag,
        ),
        strategy is TextContent && tag != other_tag ==> resolve::lookup_js(strategy, wanted, tag)
            != resolve::lookup_js(strategy, wanted, other_tag),
        strategy !is TextContent ==> resolve::lookup_js(strategy, wanted, tag)
            == resolve::lookup_js(strategy, wanted, other_tag),
{
    match strategy {
        ResolutionView::Id { .. } => {
            lemma_embedded(
                "(function(){var e=document.getElementById("@,
                wanted,
                other,
                ");if(e){window.__roteTarget=e;return true;}return false;})()"@,
            );
        },
        ResolutionView::Css { .. } => {
            lemma_embedded(
                "(function(){var e=document.querySelector("@,
                wanted,
                other,
                ");if(e){window.__roteTarget=e;return true;}return false;})()"@,
            );
        },
        ResolutionView::XPath { .. } => {
            lemma_embedded(
                "(function(){var e=document.evaluate("@,
                wanted,
                other,
                ",document,null,XPathResult.FIRST_ORDERED_NODE_TYPE,null).singleNodeValue;if(e){window.__roteTarget=e;return true;}return false;})()"@,
            );
        },
        ResolutionView::TextContent { .. } => {
            let first = "(function(){var es=document.getElementsByTagName("@;
            let second = ");for(var i=0;i<es.length;i++){if(es[i].textContent.trim()==="@;
            let third = "){window.__roteTarget=es[i];return true;}}return false;})()"@;
            lemma_embedded(first + tag + second, wanted, other, third);
            lemma_embedded(first, tag, other_tag, second + wanted + third);
            assert(first + tag + second + wanted + third =~= first + tag + (second + wanted
                + third));
            assert(first + other_tag + second + wanted + third =~= first + other_tag + (second
                + wanted + third));
        },
    }
}

/// What stands between the same texts can be told from the whole.
proof fn lemma_embedded(before: Seq<char>, one: Seq<char>, other: Seq<char>, behind: Seq<char>)
    ensures
        before + one + behind == before + other + behind ==> one == other,
{
    let a = before + one + behind;
    let b = before + other + behind;
    if a == b {
        assert(a.len() == b.len());
        assert(one.len() == other.len());
        let n = before.len() as int;
        assert(a.subrange(n, n + one.len()) =~= one);
        assert(b.subrange(n, n + one.len()) =~= other);
    }
}

} // verus!
