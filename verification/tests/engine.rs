//! Playback runs.
use std::collections::{BTreeMap, VecDeque};

use rote::data::{from_delimited_str, DataSet, Delimiter};
use rote::playback::engine::{
    needs_row_gate, needs_step_gate, Action, Input, PlaybackEngine, PlaybackResult, Signal,
    StepOutcome,
};
use rote::playback::{
    clamp_multiplier, ErrorAction, PlaybackConfig, PlaybackControl, PlaybackError, PlaybackEvent,
    Subscriptions,
};
use rote::time::Delay;
use rote::workflow::{EmptyCellRule, PlaybackSpeed, Resolution, Selector, Step, ValueSource, Workflow};

// ── Driver ────────────────────────────────────────────────────────────

type Outcome = Result<PlaybackResult, PlaybackError>;

/// Runs an engine the way an application does, with a function in place of the browser.
struct Run<F: FnMut(usize, usize) -> Result<StepOutcome, PlaybackError>> {
    engine: PlaybackEngine,
    execute: F,
    controls: VecDeque<PlaybackControl>,
    closed: bool,
    events: Vec<PlaybackEvent>,
    slept: Vec<Delay>,
    /// Subscriptions made for coming steps: how many steps had been run before.
    kept: Subscriptions<usize>,
    /// For each step that was run, the subscription it was given.
    subscriptions: Vec<Option<usize>>,
}

impl<F: FnMut(usize, usize) -> Result<StepOutcome, PlaybackError>> Run<F> {
    fn new(workflow: Workflow, data: DataSet, speed: PlaybackSpeed, start_row: usize, execute: F) -> Self {
        Run {
            engine: PlaybackEngine::new(workflow, data, speed, start_row),
            execute,
            controls: VecDeque::new(),
            closed: false,
            events: Vec::new(),
            slept: Vec::new(),
            kept: Subscriptions::new(),
            subscriptions: Vec::new(),
        }
    }

    fn send(&mut self, control: PlaybackControl) {
        self.controls.push_back(control);
    }

    fn signal(&mut self) -> Signal {
        match self.controls.pop_front() {
            Some(control) => Signal::Received(control),
            None if self.closed => Signal::Closed,
            None => Signal::Empty,
        }
    }

    /// Goes on until playback is over, or until it waits for a control signal.
    fn go(&mut self) -> Option<Outcome> {
        loop {
            let input = match self.engine.pending() {
                Action::Start => Input::Start,
                Action::Subscribe { hold } => {
                    self.kept.subscribe(self.subscriptions.len(), hold);
                    Input::Subscribed
                }
                Action::Sleep(delay) => {
                    self.slept.push(delay);
                    Input::Slept
                }
                Action::RunStep { row_index, step_index, use_subscription } => {
                    let given = if use_subscription { self.kept.take() } else { None };
                    self.subscriptions.push(given);
                    Input::StepDone((self.execute)(row_index, step_index))
                }
                Action::PollControl => Input::Control(self.signal()),
                Action::AwaitControl => match self.signal() {
                    Signal::Empty => return None,
                    signal => Input::Control(signal),
                },
                Action::Finish(outcome) => return Some(outcome),
            };
            self.events.extend(self.engine.advance(input));
        }
    }

    fn started_rows(&self) -> Vec<usize> {
        self.events
            .iter()
            .filter_map(|e| match e {
                PlaybackEvent::RowStarted { row_index } => Some(*row_index),
                _ => None,
            })
            .collect()
    }

    fn has(&self, event: &PlaybackEvent) -> bool {
        self.events.contains(event)
    }
}

fn ok(_row: usize, _step: usize) -> Result<StepOutcome, PlaybackError> {
    Ok(StepOutcome::Executed)
}

// ── Step constructors ─────────────────────────────────────────────────

fn click_step() -> Step {
    Step::Click {
        selector: Selector {
            strategies: vec![],
            tag: "BUTTON".to_owned(),
        },
        navigation: None,
    }
}

fn type_step() -> Step {
    Step::Type {
        selector: Selector {
            strategies: vec![],
            tag: "INPUT".to_owned(),
        },
        source: ValueSource::Literal {
            value: "x".to_owned(),
        },
        navigation: None,
    }
}

fn wait_for_navigation_step() -> Step {
    Step::WaitForNavigation
}

// ── Gate decisions ────────────────────────────────────────────────────

#[test]
fn step_speed_gates_only_type_steps() {
    assert!(!needs_step_gate(PlaybackSpeed::Step, &click_step()));
    assert!(needs_step_gate(PlaybackSpeed::Step, &type_step()));
    assert!(!needs_step_gate(
        PlaybackSpeed::Step,
        &wait_for_navigation_step()
    ));
}

#[test]
fn walk_and_run_never_gate_steps() {
    for speed in [PlaybackSpeed::Walk, PlaybackSpeed::Run] {
        for step in &[click_step(), type_step(), wait_for_navigation_step()] {
            assert!(!needs_step_gate(speed, step));
        }
    }
}

#[test]
fn only_walk_speed_gates_rows() {
    assert!(needs_row_gate(PlaybackSpeed::Walk));
    assert!(!needs_row_gate(PlaybackSpeed::Step));
    assert!(!needs_row_gate(PlaybackSpeed::Run));
}

// ── Helpers ───────────────────────────────────────────────────────────

fn dataset(rows: &[&str]) -> DataSet {
    let text = format!("col\n{}\n", rows.join("\n"));
    from_delimited_str(&text, Delimiter::Tab, true).expect("test dataset")
}

fn workflow_with_steps(steps: Vec<Step>) -> Workflow {
    let n = steps.len();
    Workflow::new(
        1,
        steps,
        vec![Delay::zero(); n],
        Delay::zero(),
        vec![],
        BTreeMap::new(),
        None,
    )
}

fn empty_workflow() -> Workflow {
    workflow_with_steps(vec![])
}

// ── Row iteration ─────────────────────────────────────────────────────

#[test]
fn empty_workflow_completes_all_rows() {
    let mut run = Run::new(empty_workflow(), dataset(&["Alice", "Bob"]), PlaybackSpeed::Run, 0, ok);
    let result = run.go().unwrap().unwrap();
    assert_eq!(result.rows_completed, 2);
    assert_eq!(result.rows_skipped, 0);
    assert_eq!(
        run.events,
        vec![
            PlaybackEvent::RowStarted { row_index: 0 },
            PlaybackEvent::RowCompleted { row_index: 0 },
            PlaybackEvent::RowStarted { row_index: 1 },
            PlaybackEvent::RowCompleted { row_index: 1 },
            PlaybackEvent::Finished { rows_completed: 2, rows_skipped: 0 },
        ],
    );
}

#[test]
fn row_indices_are_correct() {
    let mut run = Run::new(empty_workflow(), dataset(&["Alice", "Bob"]), PlaybackSpeed::Run, 0, ok);
    run.go().unwrap().unwrap();
    assert_eq!(run.started_rows(), &[0, 1]);
}

#[test]
fn start_row_is_respected() {
    let mut run = Run::new(empty_workflow(), dataset(&["Alice", "Bob"]), PlaybackSpeed::Run, 1, ok);
    let result = run.go().unwrap().unwrap();
    assert_eq!(result.rows_completed, 1);
    assert_eq!(run.started_rows(), &[1]);
}

#[test]
fn starting_behind_the_last_row_does_nothing() {
    let mut run = Run::new(empty_workflow(), dataset(&["Alice"]), PlaybackSpeed::Run, 7, ok);
    let result = run.go().unwrap().unwrap();
    assert_eq!(result, PlaybackResult { rows_completed: 0, rows_skipped: 0 });
    assert_eq!(run.started_rows(), Vec::<usize>::new());
}

#[test]
fn finished_event_carries_counts() {
    let mut run = Run::new(empty_workflow(), dataset(&["Alice", "Bob"]), PlaybackSpeed::Run, 0, ok);
    run.go().unwrap().unwrap();
    assert!(run.has(&PlaybackEvent::Finished { rows_completed: 2, rows_skipped: 0 }));
}

// ── Step events ───────────────────────────────────────────────────────

#[test]
fn steps_emit_started_and_completed() {
    let steps = vec![click_step(), type_step()];
    let mut run = Run::new(workflow_with_steps(steps), dataset(&["x"]), PlaybackSpeed::Run, 0, ok);
    run.go().unwrap().unwrap();
    let step_events: Vec<&str> = run
        .events
        .iter()
        .filter_map(|e| match e {
            PlaybackEvent::StepStarted { .. } => Some("StepStarted"),
            PlaybackEvent::StepCompleted { .. } => Some("StepCompleted"),
            _ => None,
        })
        .collect();
    // Two steps: each should have Started + Completed.
    assert_eq!(
        step_events,
        &[
            "StepStarted",
            "StepCompleted",
            "StepStarted",
            "StepCompleted"
        ]
    );
}

// ── Confirmation gates ────────────────────────────────────────────────

#[test]
fn row_gate_fires_and_blocks() {
    // One row, one step (click), Walk speed: should wait after the row.
    let steps = vec![click_step()];
    let mut run = Run::new(workflow_with_steps(steps), dataset(&["x"]), PlaybackSpeed::Walk, 0, ok);
    assert_eq!(run.go(), None);
    assert!(run.has(&PlaybackEvent::WaitingForConfirmation));
    run.send(PlaybackControl::Proceed);
    assert!(run.go().unwrap().is_ok());
}

#[test]
fn step_speed_gates_after_type_steps() {
    // Click + Type at Step speed: only the Type step gates.
    let steps = vec![click_step(), type_step()];
    let mut run = Run::new(workflow_with_steps(steps), dataset(&["x"]), PlaybackSpeed::Step, 0, ok);
    assert_eq!(run.go(), None);
    // One gate (after the Type step). Click auto-advances.
    run.send(PlaybackControl::Proceed);
    assert!(run.go().unwrap().is_ok());
}

#[test]
fn set_speed_during_gate_is_applied() {
    let mut run = Run::new(empty_workflow(), dataset(&["x"]), PlaybackSpeed::Walk, 0, ok);
    assert_eq!(run.go(), None);
    run.send(PlaybackControl::SetSpeed(PlaybackSpeed::Run));
    run.send(PlaybackControl::Proceed);
    assert!(run.go().unwrap().is_ok());
    assert_eq!(run.engine.speed(), PlaybackSpeed::Run);
    assert!(run.has(&PlaybackEvent::SpeedChanged(PlaybackSpeed::Run)));
}

#[test]
fn error_responses_do_not_open_a_gate() {
    let mut run = Run::new(empty_workflow(), dataset(&["x"]), PlaybackSpeed::Walk, 0, ok);
    assert_eq!(run.go(), None);
    run.send(PlaybackControl::ErrorResponse(ErrorAction::Stop));
    assert_eq!(run.go(), None);
}

#[test]
fn channel_close_stops_engine_at_gate() {
    let mut run = Run::new(empty_workflow(), dataset(&["x"]), PlaybackSpeed::Walk, 0, ok);
    assert_eq!(run.go(), None);
    run.closed = true;
    assert_eq!(run.go(), Some(Err(PlaybackError::Stopped)));
    assert!(!run.events.iter().any(|e| matches!(e, PlaybackEvent::Finished { .. })));
}

// ── Speed changes ─────────────────────────────────────────────────────

#[test]
fn speed_change_at_run_takes_effect_between_steps() {
    let steps = vec![type_step()];
    let mut run = Run::new(
        workflow_with_steps(steps),
        dataset(&["a", "b", "c", "d", "e"]),
        PlaybackSpeed::Run,
        0,
        ok,
    );
    run.send(PlaybackControl::SetSpeed(PlaybackSpeed::Step));
    // Engine should gate after the first Type step (now at Step speed).
    assert_eq!(run.go(), None);
    assert!(
        run.has(&PlaybackEvent::SpeedChanged(PlaybackSpeed::Step)),
        "engine should have applied the speed change",
    );
    assert!(
        run.has(&PlaybackEvent::WaitingForConfirmation),
        "engine should have gated after switching to Step speed",
    );
    assert_eq!(run.started_rows(), &[0]);
    // Proceed through the rows, one signal at a time.
    for _ in 0..4 {
        run.send(PlaybackControl::Proceed);
        assert_eq!(run.go(), None);
    }
    run.send(PlaybackControl::Proceed);
    assert!(run.go().unwrap().is_ok());
}

#[test]
fn pausing_drops_to_step_speed() {
    let steps = vec![type_step()];
    let mut run = Run::new(workflow_with_steps(steps), dataset(&["a"]), PlaybackSpeed::Run, 0, ok);
    run.send(PlaybackControl::Pause);
    assert_eq!(run.go(), None);
    assert_eq!(run.engine.speed(), PlaybackSpeed::Step);
}

// ── Errors ────────────────────────────────────────────────────────────

fn boom(_row: usize, _step: usize) -> Result<StepOutcome, PlaybackError> {
    Err(PlaybackError::Other("boom".to_owned()))
}

#[test]
fn skip_row_advances_and_counts_skipped() {
    let steps = vec![click_step()];
    let mut run =
        Run::new(workflow_with_steps(steps), dataset(&["x", "y"]), PlaybackSpeed::Run, 0, boom);
    assert_eq!(run.go(), None);
    // Both rows fail; skip each.
    run.send(PlaybackControl::ErrorResponse(ErrorAction::SkipRow));
    assert_eq!(run.go(), None);
    run.send(PlaybackControl::ErrorResponse(ErrorAction::SkipRow));
    let result = run.go().unwrap().unwrap();
    assert_eq!(result.rows_completed, 0);
    assert_eq!(result.rows_skipped, 2);
    let failed_count = run
        .events
        .iter()
        .filter(|e| matches!(e, PlaybackEvent::StepFailed { .. }))
        .count();
    assert_eq!(failed_count, 2);
    assert!(run.has(&PlaybackEvent::StepFailed {
        row_index: 1,
        step_index: 0,
        error: "playback error: boom".to_owned(),
    }));
}

#[test]
fn retry_row_re_executes() {
    let mut calls = 0;
    let steps = vec![click_step()];
    let mut run = Run::new(
        workflow_with_steps(steps),
        dataset(&["x"]),
        PlaybackSpeed::Run,
        0,
        |_row, _step| {
            calls += 1;
            if calls == 1 {
                Err(PlaybackError::Other("first attempt".to_owned()))
            } else {
                Ok(StepOutcome::Executed)
            }
        },
    );
    assert_eq!(run.go(), None);
    run.send(PlaybackControl::ErrorResponse(ErrorAction::RetryRow));
    let result = run.go().unwrap().unwrap();
    assert_eq!(result.rows_completed, 1);
    assert_eq!(run.started_rows(), &[0, 0]);
    drop(run);
    // Called twice: once for the original attempt, once for the retry.
    assert_eq!(calls, 2);
}

#[test]
fn stop_action_returns_stopped_error() {
    let steps = vec![click_step()];
    let mut run =
        Run::new(workflow_with_steps(steps), dataset(&["x"]), PlaybackSpeed::Run, 0, boom);
    assert_eq!(run.go(), None);
    run.send(PlaybackControl::ErrorResponse(ErrorAction::Stop));
    assert_eq!(run.go(), Some(Err(PlaybackError::Stopped)));
    assert!(run.has(&PlaybackEvent::Finished { rows_completed: 0, rows_skipped: 0 }));
}

#[test]
fn proceeding_does_not_answer_an_error() {
    let steps = vec![click_step()];
    let mut run =
        Run::new(workflow_with_steps(steps), dataset(&["x"]), PlaybackSpeed::Run, 0, boom);
    assert_eq!(run.go(), None);
    run.send(PlaybackControl::Proceed);
    assert_eq!(run.go(), None);
}

#[test]
fn skipped_steps_do_not_gate() {
    let steps = vec![type_step()];
    let mut run = Run::new(
        workflow_with_steps(steps),
        dataset(&["x"]),
        PlaybackSpeed::Step,
        0,
        |_row, _step| Ok(StepOutcome::Skipped),
    );
    assert!(run.go().unwrap().is_ok());
    assert!(run.has(&PlaybackEvent::StepCompleted { row_index: 0, step_index: 0 }));
}

#[test]
fn signals_are_taken_in_after_skipped_steps() {
    let mut run = Run::new(
        workflow_with_steps(vec![click_step(), type_step()]),
        dataset(&["x"]),
        PlaybackSpeed::Run,
        0,
        |_row, step| Ok(if step == 0 { StepOutcome::Skipped } else { StepOutcome::Executed }),
    );
    run.send(PlaybackControl::SetSpeed(PlaybackSpeed::Step));
    assert_eq!(run.go(), None);
    // The change is taken in before the second step starts.
    let position = |wanted: &PlaybackEvent| run.events.iter().position(|e| e == wanted).unwrap();
    assert!(
        position(&PlaybackEvent::SpeedChanged(PlaybackSpeed::Step))
            < position(&PlaybackEvent::StepStarted { row_index: 0, step_index: 1 }),
    );
}

// ── Speed multiplier ──────────────────────────────────────────────────

#[test]
fn set_speed_multiplier_applied_in_pending_controls() {
    let steps = vec![click_step()];
    let mut run = Run::new(workflow_with_steps(steps), dataset(&["x"]), PlaybackSpeed::Run, 0, ok);
    // Clamp test: eight times should be stored as four times.
    run.send(PlaybackControl::SetSpeedMultiplier(8000));
    run.go().unwrap().unwrap();
    assert!(run.has(&PlaybackEvent::SpeedMultiplierChanged(4000)));
    assert_eq!(run.engine.speed_multiplier(), 4000);
}

#[test]
fn set_speed_multiplier_clamps_below() {
    let steps = vec![click_step()];
    let mut run = Run::new(workflow_with_steps(steps), dataset(&["x"]), PlaybackSpeed::Run, 0, ok);
    run.send(PlaybackControl::SetSpeedMultiplier(100));
    run.go().unwrap().unwrap();
    assert!(run.has(&PlaybackEvent::SpeedMultiplierChanged(250)));
    assert_eq!(run.engine.speed_multiplier(), 250);
}

#[test]
fn multipliers_within_range_are_kept() {
    assert_eq!(clamp_multiplier(250), 250);
    assert_eq!(clamp_multiplier(1333), 1333);
    assert_eq!(clamp_multiplier(4000), 4000);
    assert_eq!(clamp_multiplier(u32::MAX), 4000);
}

#[test]
fn delays_are_slept_before_steps_and_after_rows() {
    let millis = Delay::from_millis;
    let workflow = Workflow::new(
        1,
        vec![click_step(), type_step()],
        vec![Delay::zero(), millis(300)],
        millis(80),
        vec![],
        BTreeMap::new(),
        None,
    );
    let mut run = Run::new(workflow.clone(), dataset(&["x", "y"]), PlaybackSpeed::Run, 0, ok);
    run.send(PlaybackControl::SetSpeedMultiplier(2000));
    run.go().unwrap().unwrap();
    // The multiplier counts from the first step on.
    assert_eq!(run.slept, vec![millis(150), millis(40), millis(150), millis(40)]);
    // A step that the user confirms is not delayed, nor is a row that they confirm.
    let mut run = Run::new(workflow.clone(), dataset(&["x"]), PlaybackSpeed::Step, 0, ok);
    run.send(PlaybackControl::Proceed);
    assert_eq!(run.go(), None);
    assert_eq!(run.slept, vec![]);
    let mut run = Run::new(workflow, dataset(&["x"]), PlaybackSpeed::Walk, 0, ok);
    assert_eq!(run.go(), None);
    assert_eq!(run.slept, vec![millis(300)]);
}

// ── Navigation ────────────────────────────────────────────────────────

#[test]
fn a_navigation_gets_the_subscription_made_before_its_trigger() {
    let steps = vec![type_step(), click_step(), wait_for_navigation_step()];
    let mut run =
        Run::new(workflow_with_steps(steps), dataset(&["x", "y"]), PlaybackSpeed::Run, 0, ok);
    run.go().unwrap().unwrap();
    assert_eq!(run.subscriptions, vec![None, None, Some(1), None, None, Some(4)]);
}

#[test]
fn a_navigation_at_the_start_of_a_row_has_no_subscription() {
    let steps = vec![wait_for_navigation_step(), click_step()];
    let mut run = Run::new(workflow_with_steps(steps), dataset(&["x"]), PlaybackSpeed::Run, 0, ok);
    run.go().unwrap().unwrap();
    assert_eq!(run.subscriptions, vec![None, None]);
}

#[test]
fn waits_in_a_row_each_get_the_subscription_made_before_the_step_in_front() {
    let steps = vec![
        click_step(),
        wait_for_navigation_step(),
        wait_for_navigation_step(),
        wait_for_navigation_step(),
        click_step(),
    ];
    for speed in [PlaybackSpeed::Step, PlaybackSpeed::Run] {
        let mut run = Run::new(workflow_with_steps(steps.clone()), dataset(&["x"]), speed, 0, ok);
        run.go().unwrap().unwrap();
        assert_eq!(run.subscriptions, vec![None, Some(0), Some(1), Some(2), None]);
    }
    // Also when each step has a delay.
    let mut workflow = workflow_with_steps(steps);
    workflow.step_delays = vec![Delay::from_millis(1); 5];
    let mut run = Run::new(workflow, dataset(&["x"]), PlaybackSpeed::Run, 0, ok);
    run.go().unwrap().unwrap();
    assert_eq!(run.slept.len(), 5);
    assert_eq!(run.subscriptions, vec![None, Some(0), Some(1), Some(2), None]);
}

#[test]
fn a_subscription_is_not_used_after_a_retry() {
    let steps = vec![click_step(), wait_for_navigation_step(), wait_for_navigation_step()];
    let mut calls = 0;
    let mut run = Run::new(
        workflow_with_steps(steps),
        dataset(&["x"]),
        PlaybackSpeed::Run,
        0,
        |_row, _step| {
            calls += 1;
            if calls == 2 {
                Err(PlaybackError::NavigationTimeout)
            } else {
                Ok(StepOutcome::Executed)
            }
        },
    );
    assert_eq!(run.go(), None);
    run.send(PlaybackControl::ErrorResponse(ErrorAction::RetryRow));
    run.go().unwrap().unwrap();
    assert_eq!(run.subscriptions, vec![None, Some(0), None, Some(2), Some(3)]);
}

#[test]
fn subscriptions_are_held_or_dropped() {
    let mut kept = Subscriptions::new();
    assert_eq!(kept.take(), None::<char>);
    kept.subscribe('a', false);
    kept.subscribe('b', false);
    assert_eq!(kept.take(), Some('b'));
    kept.subscribe('c', false);
    kept.subscribe('d', true);
    assert_eq!(kept.take(), Some('c'));
    assert_eq!(kept.take(), Some('d'));
    assert_eq!(kept.take(), None);
}

#[test]
fn inputs_that_answer_nothing_are_ignored() {
    let mut engine =
        PlaybackEngine::new(empty_workflow(), dataset(&["x"]), PlaybackSpeed::Run, 0);
    assert_eq!(engine.advance(Input::Slept), vec![]);
    assert_eq!(engine.pending(), Action::Start);
}

// ── Column-count cross-check ──────────────────────────────────────────

#[test]
fn run_with_rejects_insufficient_columns() {
    // Workflow expects 3 columns but data only has 1.
    let workflow = Workflow::new(
        3,
        vec![],
        vec![],
        Delay::zero(),
        vec![None, None, None],
        BTreeMap::new(),
        None,
    );
    let mut run = Run::new(workflow, dataset(&["x", "y"]), PlaybackSpeed::Run, 0, ok);
    let result = run.go().unwrap();
    assert!(matches!(result, Err(PlaybackError::Other(_))));
    assert_eq!(
        result.unwrap_err().message(),
        "playback error: data has 1 column(s) but workflow expects 3",
    );
}

#[test]
fn playback_of_a_recorded_workflow() {
    let mut rules = BTreeMap::new();
    rules.insert(1usize, EmptyCellRule::Skip);
    let workflow = Workflow::new(
        2,
        vec![
            Step::Click {
                selector: Selector {
                    strategies: vec![Resolution::Id {
                        id: "btn".to_owned(),
                    }],
                    tag: "BUTTON".to_owned(),
                },
                navigation: None,
            },
            Step::Type {
                selector: Selector {
                    strategies: vec![],
                    tag: "INPUT".to_owned(),
                },
                source: ValueSource::Column { index: 0 },
                navigation: None,
            },
        ],
        vec![Delay::zero(), Delay::zero()],
        Delay::zero(),
        vec![None, Some(1)],
        rules,
        None,
    );
    assert_eq!(workflow.validate(), Ok(()));
    let ds = from_delimited_str("name\tage\nAlice\t30\nBob\t25\n", Delimiter::Tab, true)
        .expect("test dataset");
    let mut run = Run::new(workflow, ds, PlaybackSpeed::Run, 0, ok);
    let result = run.go().unwrap().unwrap();
    assert_eq!(result.rows_completed, 2);
    assert_eq!(result.rows_skipped, 0);
    assert!(run.has(&PlaybackEvent::Finished { rows_completed: 2, rows_skipped: 0 }));
}

#[test]
fn playback_error_messages() {
    assert_eq!(PlaybackError::NavigationTimeout.message(), "navigation timeout");
    assert_eq!(PlaybackError::Stopped.message(), "playback stopped by user");
    assert_eq!(
        PlaybackError::Cdp(rote::cdp::CdpError::NoTab).message(),
        "CDP error: no page tab found in browser",
    );
}

#[test]
fn default_timeouts() {
    let config = PlaybackConfig::default();
    assert_eq!(config.navigation_timeout_millis, 30_000);
    assert!(config.element_timeout_millis > 0);
}
