//! Training sessions.
use rote::data;
use rote::data::DataSet;
use rote::time::Delay;
use rote::training::{Command, SelectorInfo, TrainingCore, TrainingEvent};
use rote::workflow::{EmptyCellRule, NavKey, PlaybackSpeed, Resolution, Step, ValueSource};

/// A session that keeps its events until they are drained.
struct Session {
    core: TrainingCore,
    events: Vec<TrainingEvent>,
}

impl Session {
    fn new(data: DataSet) -> Self {
        Session { core: TrainingCore::new(data), events: Vec::new() }
    }

    fn process(&mut self, command: Command) {
        self.events.extend(self.core.process(command));
    }

    fn drain(&mut self) -> Vec<TrainingEvent> {
        std::mem::take(&mut self.events)
    }
}

impl std::ops::Deref for Session {
    type Target = TrainingCore;

    fn deref(&self) -> &TrainingCore {
        &self.core
    }
}

/// Create a test data set from TSV text.
fn test_data(tsv: &str) -> DataSet {
    data::from_delimited_str(tsv, data::Delimiter::Tab, true).unwrap()
}

/// Create a `SelectorInfo` with just an id and css.
fn sel(id: &str, css: &str) -> SelectorInfo {
    SelectorInfo {
        id: Some(id.to_owned()),
        css: Some(css.to_owned()),
        xpath: Some(format!("//*[@id=\"{id}\"]")),
        text_content: None,
    }
}

fn has_event<F>(events: &[TrainingEvent], pred: F) -> bool
where
    F: Fn(&TrainingEvent) -> bool,
{
    events.iter().any(pred)
}

// -- Tests --

#[test]
fn click_records_a_step() {
    let ds = test_data("name\tage\nAlice\t30\n");
    let mut core = Session::new(ds);

    core.process(Command::BrowserClick {
        selector_info: sel("submit-btn", "#submit-btn"),
        tag: "BUTTON".to_owned(),
    });

    let events = core.drain();
    assert_eq!(events.len(), 1);
    assert!(matches!(
        &events[0],
        TrainingEvent::StepRecorded {
            index: 0,
            step: Step::Click { .. }
        }
    ));
    assert_eq!(core.steps().len(), 1);
}

#[test]
fn input_binds_a_column() {
    let ds = test_data("name\tage\nAlice\t30\n");
    let mut core = Session::new(ds);

    core.process(Command::BrowserInput {
        selector_info: sel("name-field", "#name-field"),
        tag: "INPUT".to_owned(),
        value: "Alice".to_owned(),
    });

    let events = core.drain();
    assert!(has_event(&events, |e| matches!(
        e,
        TrainingEvent::ColumnBound {
            column: 0,
            step_index: 0
        }
    )));
    assert!(has_event(&events, |e| matches!(
        e,
        TrainingEvent::StepRecorded { index: 0, .. }
    )));

    // Verify the step source is Column.
    match &core.steps()[0] {
        Step::Type { source, .. } => {
            assert_eq!(*source, ValueSource::Column { index: 0 });
        }
        _ => panic!("expected Type step"),
    }
}

#[test]
fn input_with_no_match_is_literal() {
    let ds = test_data("name\tage\nAlice\t30\n");
    let mut core = Session::new(ds);

    core.process(Command::BrowserInput {
        selector_info: sel("other", "#other"),
        tag: "INPUT".to_owned(),
        value: "unmatched-value".to_owned(),
    });

    let events = core.drain();
    assert!(!has_event(&events, |e| matches!(
        e,
        TrainingEvent::ColumnBound { .. }
    )));

    match &core.steps()[0] {
        Step::Type { source, .. } => {
            assert_eq!(
                *source,
                ValueSource::Literal {
                    value: "unmatched-value".to_owned()
                }
            );
        }
        _ => panic!("expected Type step"),
    }
}

#[test]
fn incremental_typing_updates_step() {
    let ds = test_data("name\tage\nAlice\t30\n");
    let mut core = Session::new(ds);

    // Type "Al" — no column match.
    core.process(Command::BrowserInput {
        selector_info: sel("name-field", "#name-field"),
        tag: "INPUT".to_owned(),
        value: "Al".to_owned(),
    });

    let events = core.drain();
    assert!(has_event(&events, |e| matches!(
        e,
        TrainingEvent::StepRecorded { index: 0, .. }
    )));

    // Type "Ali" — still no match, but same element → update.
    core.process(Command::BrowserInput {
        selector_info: sel("name-field", "#name-field"),
        tag: "INPUT".to_owned(),
        value: "Ali".to_owned(),
    });

    let events = core.drain();
    assert!(has_event(&events, |e| matches!(
        e,
        TrainingEvent::StepUpdated { index: 0, .. }
    )));

    // Only one step should exist.
    assert_eq!(core.steps().len(), 1);
}

#[test]
fn incremental_typing_rebinds_column() {
    let ds = test_data("name\tage\nAlice\t30\n");
    let mut core = Session::new(ds);

    // Type "Al" — literal.
    core.process(Command::BrowserInput {
        selector_info: sel("name-field", "#name-field"),
        tag: "INPUT".to_owned(),
        value: "Al".to_owned(),
    });
    let _ = core.drain();

    assert!(core.bound_columns()[0].is_none());

    // Type "Alice" — matches column 0.
    core.process(Command::BrowserInput {
        selector_info: sel("name-field", "#name-field"),
        tag: "INPUT".to_owned(),
        value: "Alice".to_owned(),
    });

    let events = core.drain();
    assert!(has_event(&events, |e| matches!(
        e,
        TrainingEvent::ColumnBound {
            column: 0,
            step_index: 0
        }
    )));

    assert_eq!(core.bound_columns()[0], Some(0));
    assert_eq!(core.steps().len(), 1);

    match &core.steps()[0] {
        Step::Type { source, .. } => {
            assert_eq!(*source, ValueSource::Column { index: 0 });
        }
        _ => panic!("expected Type step"),
    }
}

#[test]
fn row_completion() {
    let ds = test_data("name\tage\nAlice\t30\n");
    let mut core = Session::new(ds);

    // Bind column 0.
    core.process(Command::BrowserInput {
        selector_info: sel("name-field", "#name-field"),
        tag: "INPUT".to_owned(),
        value: "Alice".to_owned(),
    });
    let _ = core.drain();
    assert!(!core.is_row_complete());

    // Bind column 1.
    core.process(Command::BrowserInput {
        selector_info: sel("age-field", "#age-field"),
        tag: "INPUT".to_owned(),
        value: "30".to_owned(),
    });

    let events = core.drain();
    assert!(has_event(&events, |e| matches!(
        e,
        TrainingEvent::RowComplete { row_index: 0 }
    )));
    assert!(core.is_row_complete());
}

#[test]
fn advance_row_increments() {
    let ds = test_data("name\nAlice\nBob\n");
    let mut core = Session::new(ds);

    assert_eq!(core.current_row_index(), 0);
    core.process(Command::AdvanceRow);
    assert_eq!(core.current_row_index(), 1);

    let _ = core.drain();
}

#[test]
fn advance_row_detects_empty_cell() {
    // Row 0: Alice, 30 — Row 1: Bob, (empty)
    let ds = test_data("name\tage\nAlice\t30\nBob\t\n");
    let mut core = Session::new(ds);

    // Bind both columns on row 0.
    core.process(Command::BrowserInput {
        selector_info: sel("name-field", "#name-field"),
        tag: "INPUT".to_owned(),
        value: "Alice".to_owned(),
    });
    core.process(Command::BrowserInput {
        selector_info: sel("age-field", "#age-field"),
        tag: "INPUT".to_owned(),
        value: "30".to_owned(),
    });
    let _ = core.drain();

    // Advance to row 1.
    core.process(Command::AdvanceRow);

    let events = core.drain();
    assert!(has_event(&events, |e| matches!(
        e,
        TrainingEvent::EmptyCellEncountered {
            column: 1,
            row_index: 1
        }
    )));
}

#[test]
fn advance_row_detects_new_field() {
    // Row 0: Alice, (empty) — Row 1: Bob, 25
    // Only bind column 0 on row 0. Column 1 is unbound.
    let ds = test_data("name\tage\nAlice\t\nBob\t25\n");
    let mut core = Session::new(ds);

    // Bind column 0 only.
    core.process(Command::BrowserInput {
        selector_info: sel("name-field", "#name-field"),
        tag: "INPUT".to_owned(),
        value: "Alice".to_owned(),
    });
    let _ = core.drain();

    // Advance to row 1.
    core.process(Command::AdvanceRow);

    let events = core.drain();
    assert!(has_event(&events, |e| matches!(
        e,
        TrainingEvent::NewFieldEncountered { column: 1, .. }
    )));
}

#[test]
fn speed_change() {
    let ds = test_data("name\nAlice\n");
    let mut core = Session::new(ds);

    core.process(Command::SetSpeed(PlaybackSpeed::Run));

    let events = core.drain();
    assert!(has_event(&events, |e| matches!(
        e,
        TrainingEvent::SpeedChanged(PlaybackSpeed::Run)
    )));
    assert_eq!(core.speed(), PlaybackSpeed::Run);
}

#[test]
fn navigation_records_a_step() {
    let ds = test_data("name\nAlice\n");
    let mut core = Session::new(ds);

    core.process(Command::BrowserNavigation {
        url: "https://example.com/form".to_owned(),
    });

    let events = core.drain();
    assert!(has_event(&events, |e| matches!(
        e,
        TrainingEvent::StepRecorded {
            index: 0,
            step: Step::WaitForNavigation
        }
    )));
}

#[test]
fn row_complete_with_empty_cells_not_required() {
    // Row has an empty cell — that column doesn't need binding for completion.
    let ds = test_data("name\tage\nAlice\t\n");
    let mut core = Session::new(ds);

    // Bind only column 0 (column 1 is empty).
    core.process(Command::BrowserInput {
        selector_info: sel("name-field", "#name-field"),
        tag: "INPUT".to_owned(),
        value: "Alice".to_owned(),
    });

    let events = core.drain();
    assert!(has_event(&events, |e| matches!(
        e,
        TrainingEvent::RowComplete { row_index: 0 }
    )));
    assert!(core.is_row_complete());
}

#[test]
fn advance_past_last_row_emits_error() {
    let ds = test_data("name\nAlice\n");
    let mut core = Session::new(ds);

    core.process(Command::AdvanceRow);

    let events = core.drain();
    assert!(has_event(&events, |e| matches!(e, TrainingEvent::Error(_))));
    // Row should not have changed.
    assert_eq!(core.current_row_index(), 0);
}

// -- HandleNewField tests --

#[test]
fn handle_new_field_binds_column_and_updates_source() {
    // Column 1 is unbound; a Type step exists with a literal value.
    let ds = test_data("name\tage\nAlice\t\n");
    let mut core = Session::new(ds);

    // Record a Type step whose value doesn't match any column.
    core.process(Command::BrowserInput {
        selector_info: sel("age-field", "#age-field"),
        tag: "INPUT".to_owned(),
        value: "something-else".to_owned(),
    });
    let _ = core.drain();

    // Issue HandleNewField to bind column 1 to that step.
    core.process(Command::HandleNewField { column: 1 });

    let events = core.drain();
    assert!(
        has_event(&events, |e| matches!(
            e,
            TrainingEvent::ColumnBound {
                column: 1,
                step_index: 0
            }
        )),
        "expected ColumnBound event",
    );

    // The step's source should now be Column { index: 1 }.
    match &core.steps()[0] {
        Step::Type { source, .. } => {
            assert_eq!(*source, ValueSource::Column { index: 1 });
        }
        _ => panic!("expected Type step"),
    }

    // The binding should be recorded.
    assert_eq!(core.bound_columns()[1], Some(0));
}

#[test]
fn handle_new_field_skips_already_bound_steps() {
    // Two Type steps; first is bound to column 0, second is unbound.
    let ds = test_data("first\tsecond\nAlice\t\n");
    let mut core = Session::new(ds);

    // Bind column 0 to step 0.
    core.process(Command::BrowserInput {
        selector_info: sel("first-field", "#first-field"),
        tag: "INPUT".to_owned(),
        value: "Alice".to_owned(),
    });
    // Record a second Type step (not bound).
    core.process(Command::BrowserInput {
        selector_info: sel("second-field", "#second-field"),
        tag: "INPUT".to_owned(),
        value: "unmatched".to_owned(),
    });
    let _ = core.drain();

    assert_eq!(core.bound_columns()[0], Some(0)); // step 0 bound to col 0
    assert_eq!(core.bound_columns()[1], None); // col 1 unbound

    // HandleNewField for column 1 should bind to step 1 (not step 0).
    core.process(Command::HandleNewField { column: 1 });

    let events = core.drain();
    assert!(
        has_event(&events, |e| matches!(
            e,
            TrainingEvent::ColumnBound {
                column: 1,
                step_index: 1
            }
        )),
        "expected binding to step 1, not step 0",
    );
    assert_eq!(core.bound_columns()[1], Some(1));
}

#[test]
fn handle_new_field_out_of_range_emits_error() {
    let ds = test_data("name\nAlice\n");
    let mut core = Session::new(ds);

    // Record a Type step.
    core.process(Command::BrowserInput {
        selector_info: sel("name-field", "#name-field"),
        tag: "INPUT".to_owned(),
        value: "unmatched".to_owned(),
    });
    let _ = core.drain();

    // Column 99 is out of range (only 1 column exists).
    core.process(Command::HandleNewField { column: 99 });

    let events = core.drain();
    assert!(
        has_event(&events, |e| matches!(e, TrainingEvent::Error(_))),
        "expected an Error event",
    );
    // Bindings should be unmodified.
    assert_eq!(core.bound_columns()[0], None);
}

// -- HandleEmptyCell tests --

#[test]
fn handle_empty_cell_stores_rule() {
    let ds = test_data("name\tage\nAlice\t30\n");
    let mut core = Session::new(ds);

    core.process(Command::HandleEmptyCell {
        column: 0,
        rule: EmptyCellRule::Skip,
    });
    core.process(Command::HandleEmptyCell {
        column: 1,
        rule: EmptyCellRule::Default {
            value: "N/A".to_owned(),
        },
    });

    assert_eq!(core.empty_cell_rules().get(&0), Some(&EmptyCellRule::Skip));
    assert_eq!(
        core.empty_cell_rules().get(&1),
        Some(&EmptyCellRule::Default {
            value: "N/A".to_owned()
        }),
    );
}

// -- build_workflow tests --

// -- Column-order training tests --

#[test]
fn column_order_skips_non_next_column_match() {
    // Data: name=Alice, age=30. If user types "30" first,
    // it should NOT bind to column 1 — column 0 is the next unbound.
    let ds = test_data("name\tage\nAlice\t30\n");
    let mut core = Session::new(ds);

    core.process(Command::BrowserInput {
        selector_info: sel("age-field", "#age-field"),
        tag: "INPUT".to_owned(),
        value: "30".to_owned(),
    });

    let events = core.drain();
    // Should NOT emit a ColumnBound event — "30" matches column 1
    // but column 0 is the next unbound column.
    assert!(
        !has_event(&events, |e| matches!(e, TrainingEvent::ColumnBound { .. })),
        "should not bind a non-next column",
    );

    // Step should be a literal.
    match &core.steps()[0] {
        Step::Type { source, .. } => {
            assert_eq!(
                *source,
                ValueSource::Literal {
                    value: "30".to_owned()
                }
            );
        }
        _ => panic!("expected Type step"),
    }
}

#[test]
fn column_order_binds_leftmost_unbound() {
    // Bind column 0 first, then column 1 becomes the next unbound.
    let ds = test_data("name\tage\nAlice\t30\n");
    let mut core = Session::new(ds);

    // Bind column 0.
    core.process(Command::BrowserInput {
        selector_info: sel("name-field", "#name-field"),
        tag: "INPUT".to_owned(),
        value: "Alice".to_owned(),
    });
    let _ = core.drain();
    assert_eq!(core.bound_columns()[0], Some(0));

    // Now "30" should bind to column 1 (the new leftmost unbound).
    core.process(Command::BrowserInput {
        selector_info: sel("age-field", "#age-field"),
        tag: "INPUT".to_owned(),
        value: "30".to_owned(),
    });

    let events = core.drain();
    assert!(has_event(&events, |e| matches!(
        e,
        TrainingEvent::ColumnBound {
            column: 1,
            step_index: 1
        }
    )));
    assert_eq!(core.bound_columns()[1], Some(1));
}

#[test]
fn column_order_nudge_rebinds_after_out_of_order_fill() {
    // User fills age (col 1) first — literal. Then fills name (col 0) — binds.
    // Then nudges age field — now col 1 is leftmost unbound, so it binds.
    let ds = test_data("name\tage\nAlice\t30\n");
    let mut core = Session::new(ds);

    // Type "30" into age field — col 0 is next unbound, no match → literal.
    core.process(Command::BrowserInput {
        selector_info: sel("age-field", "#age-field"),
        tag: "INPUT".to_owned(),
        value: "30".to_owned(),
    });
    let _ = core.drain();
    assert!(core.bound_columns()[1].is_none());

    // Type "Alice" into name field — col 0 is next unbound, matches → binds.
    core.process(Command::BrowserInput {
        selector_info: sel("name-field", "#name-field"),
        tag: "INPUT".to_owned(),
        value: "Alice".to_owned(),
    });
    let _ = core.drain();
    assert_eq!(core.bound_columns()[0], Some(1));

    // Nudge age field (delete and retype) — col 1 is now leftmost unbound.
    core.process(Command::BrowserInput {
        selector_info: sel("age-field", "#age-field"),
        tag: "INPUT".to_owned(),
        value: "30".to_owned(),
    });

    let events = core.drain();
    assert!(
        has_event(&events, |e| matches!(
            e,
            TrainingEvent::ColumnBound {
                column: 1,
                step_index: 0
            }
        )),
        "nudge should bind col 1 to the existing age step",
    );
    assert!(core.is_row_complete());
}

// -- build_workflow tests --

#[test]
fn build_workflow_captures_state() {
    let ds = test_data("name\tage\nAlice\t30\n");
    let mut core = Session::new(ds);

    core.process(Command::BrowserInput {
        selector_info: sel("name-field", "#name-field"),
        tag: "INPUT".to_owned(),
        value: "Alice".to_owned(),
    });
    let _ = core.drain();

    let wf = core.build_workflow(None);
    assert_eq!(wf.column_count, 2);
    assert_eq!(wf.steps.len(), 1);
    assert_eq!(wf.column_bindings[0], Some(0));
    assert_eq!(wf.column_bindings[1], None);
}

// -- Delay capture tests --

#[test]
fn first_step_has_zero_delay() {
    let ds = test_data("name\nAlice\n");
    let mut core = Session::new(ds);

    core.process(Command::BrowserInput {
        selector_info: sel("name-field", "#name-field"),
        tag: "INPUT".to_owned(),
        value: "Alice".to_owned(),
    });
    let _ = core.drain();

    let wf = core.build_workflow(None);
    assert_eq!(wf.steps.len(), 1);
    assert_eq!(wf.step_delays.len(), 1);
    assert_eq!(wf.step_delays[0], Delay::zero());
}

#[test]
fn step_delays_parallel_steps() {
    let ds = test_data("name\tage\nAlice\t30\n");
    let mut core = Session::new(ds);

    core.process(Command::BrowserInput {
        selector_info: sel("name-field", "#name-field"),
        tag: "INPUT".to_owned(),
        value: "Alice".to_owned(),
    });
    core.process(Command::BrowserInput {
        selector_info: sel("age-field", "#age-field"),
        tag: "INPUT".to_owned(),
        value: "30".to_owned(),
    });
    core.process(Command::BrowserClick {
        selector_info: sel("submit-btn", "#submit-btn"),
        tag: "BUTTON".to_owned(),
    });
    let _ = core.drain();

    let wf = core.build_workflow(None);
    assert_eq!(wf.steps.len(), 3);
    assert_eq!(wf.step_delays.len(), 3);
    // First step is always zero.
    assert_eq!(wf.step_delays[0], Delay::zero());
    // Subsequent delays are non-negative (wall-clock elapsed).
    // We can't assert exact values, but they must be >= 0 (always true).
}

#[test]
fn build_workflow_includes_row_end_delay() {
    let ds = test_data("name\nAlice\n");
    let mut core = Session::new(ds);

    core.process(Command::BrowserInput {
        selector_info: sel("name-field", "#name-field"),
        tag: "INPUT".to_owned(),
        value: "Alice".to_owned(),
    });
    let _ = core.drain();

    let wf = core.build_workflow(None);
    // row_end_delay is the time elapsed since the last step was recorded.
    // It should be a non-negative duration (always true).
    let _ = wf.row_end_delay; // type check: Delay
}

#[test]
fn build_workflow_row_end_delay_zero_when_no_steps() {
    let ds = test_data("name\nAlice\n");
    let core = Session::new(ds);

    let wf = core.build_workflow(None);
    assert_eq!(wf.row_end_delay, Delay::zero());
    assert!(wf.step_delays.is_empty());
}

#[test]
fn incremental_typing_updates_delay() {
    let ds = test_data("name\nAlice\n");
    let mut core = Session::new(ds);

    // First keystrokes.
    core.process(Command::BrowserInput {
        selector_info: sel("name-field", "#name-field"),
        tag: "INPUT".to_owned(),
        value: "Al".to_owned(),
    });
    let _ = core.drain();

    // Final value — same element, so step is updated.
    core.process(Command::BrowserInput {
        selector_info: sel("name-field", "#name-field"),
        tag: "INPUT".to_owned(),
        value: "Alice".to_owned(),
    });
    let _ = core.drain();

    let wf = core.build_workflow(None);
    // Only one step: it was updated, not duplicated.
    assert_eq!(wf.steps.len(), 1);
    assert_eq!(wf.step_delays.len(), 1);
}

// -- Navigation capture tests --

#[test]
fn click_then_tabs_then_input_attaches_navigation() {
    // Click sets anchor, tabs accumulate, input on new element gets NavigationPath.
    let ds = test_data("name\nAlice\n");
    let mut core = Session::new(ds);

    core.process(Command::BrowserClick {
        selector_info: sel("submit-btn", "#submit-btn"),
        tag: "BUTTON".to_owned(),
    });
    core.process(Command::BrowserTab { shift: false });
    core.process(Command::BrowserTab { shift: false });
    core.process(Command::BrowserInput {
        selector_info: sel("name-field", "#name-field"),
        tag: "INPUT".to_owned(),
        value: "Alice".to_owned(),
    });
    let _ = core.drain();

    // step 0 = Click(submit-btn), step 1 = Type(name-field)
    assert_eq!(core.steps().len(), 2);
    match &core.steps()[1] {
        Step::Type { navigation, .. } => {
            let nav = navigation.as_ref().expect("expected NavigationPath");
            assert!(nav.anchor.is_some(), "anchor should be submit-btn");
            assert_eq!(nav.keys, vec![NavKey::Tab, NavKey::Tab]);
        }
        _ => panic!("expected Type step"),
    }
}

#[test]
fn tabs_then_input_no_prior_click_has_none_anchor() {
    // Tabs from URL bar (no prior click) → anchor = None.
    let ds = test_data("name\nAlice\n");
    let mut core = Session::new(ds);

    core.process(Command::BrowserTab { shift: false });
    core.process(Command::BrowserInput {
        selector_info: sel("name-field", "#name-field"),
        tag: "INPUT".to_owned(),
        value: "Alice".to_owned(),
    });
    let _ = core.drain();

    assert_eq!(core.steps().len(), 1);
    match &core.steps()[0] {
        Step::Type { navigation, .. } => {
            let nav = navigation.as_ref().expect("expected NavigationPath");
            assert!(nav.anchor.is_none(), "no prior click → anchor = None");
            assert_eq!(nav.keys, vec![NavKey::Tab]);
        }
        _ => panic!("expected Type step"),
    }
}

#[test]
fn direct_click_into_field_then_type_has_no_navigation() {
    // User clicks directly into a field (no tabs) → navigation = None.
    let ds = test_data("name\nAlice\n");
    let mut core = Session::new(ds);

    // Click on the field itself.
    core.process(Command::BrowserClick {
        selector_info: sel("name-field", "#name-field"),
        tag: "INPUT".to_owned(),
    });
    // Input on the same element → replaces Click step (incremental-typing path).
    core.process(Command::BrowserInput {
        selector_info: sel("name-field", "#name-field"),
        tag: "INPUT".to_owned(),
        value: "Alice".to_owned(),
    });
    let _ = core.drain();

    // The Click step is replaced by the Type step (same element).
    assert_eq!(core.steps().len(), 1);
    match &core.steps()[0] {
        Step::Type { navigation, .. } => {
            assert!(navigation.is_none(), "direct click → no navigation");
        }
        _ => panic!("expected Type step"),
    }
}

#[test]
fn incremental_typing_does_not_overwrite_navigation() {
    // Navigation captured on first input must survive subsequent keystrokes.
    let ds = test_data("name\nAlice\n");
    let mut core = Session::new(ds);

    core.process(Command::BrowserTab { shift: false });
    // First keystroke — new step, navigation captured.
    core.process(Command::BrowserInput {
        selector_info: sel("name-field", "#name-field"),
        tag: "INPUT".to_owned(),
        value: "Al".to_owned(),
    });
    let _ = core.drain();

    // Second keystroke on the same element — incremental update.
    core.process(Command::BrowserInput {
        selector_info: sel("name-field", "#name-field"),
        tag: "INPUT".to_owned(),
        value: "Alice".to_owned(),
    });
    let _ = core.drain();

    assert_eq!(core.steps().len(), 1);
    match &core.steps()[0] {
        Step::Type { navigation, .. } => {
            let nav = navigation.as_ref().expect("navigation should be preserved");
            assert!(nav.anchor.is_none());
            assert_eq!(nav.keys, vec![NavKey::Tab]);
        }
        _ => panic!("expected Type step"),
    }
}

#[test]
fn tabs_then_click_attaches_navigation_to_click_step() {
    // User tabs to a button and clicks it → Click step has NavigationPath.
    let ds = test_data("name\nAlice\n");
    let mut core = Session::new(ds);

    core.process(Command::BrowserTab { shift: false });
    core.process(Command::BrowserTab { shift: true });
    core.process(Command::BrowserClick {
        selector_info: sel("submit-btn", "#submit-btn"),
        tag: "BUTTON".to_owned(),
    });
    let _ = core.drain();

    assert_eq!(core.steps().len(), 1);
    match &core.steps()[0] {
        Step::Click { navigation, .. } => {
            let nav = navigation
                .as_ref()
                .expect("expected NavigationPath on Click");
            assert!(nav.anchor.is_none(), "no prior click → anchor = None");
            assert_eq!(nav.keys, vec![NavKey::Tab, NavKey::ShiftTab]);
        }
        _ => panic!("expected Click step"),
    }
}

#[test]
fn tabs_with_no_subsequent_interaction_are_discarded() {
    // User tabs around, then clicks a new element → tabs are consumed by the click.
    // Pending state resets cleanly and subsequent inputs have no stale keys.
    let ds = test_data("name\nAlice\n");
    let mut core = Session::new(ds);

    // Tab around (these tabs end up on the click step, not on a later input).
    core.process(Command::BrowserTab { shift: false });
    core.process(Command::BrowserTab { shift: false });

    // Click — consumes the tabs as its own NavigationPath.
    core.process(Command::BrowserClick {
        selector_info: sel("some-btn", "#some-btn"),
        tag: "BUTTON".to_owned(),
    });

    // No more tabs — direct input into a field.
    core.process(Command::BrowserInput {
        selector_info: sel("name-field", "#name-field"),
        tag: "INPUT".to_owned(),
        value: "Alice".to_owned(),
    });
    let _ = core.drain();

    // step 0 = Click (with the two tabs), step 1 = Type (no navigation).
    assert_eq!(core.steps().len(), 2);
    match &core.steps()[1] {
        Step::Type { navigation, .. } => {
            assert!(
                navigation.is_none(),
                "tabs were consumed by the click; Type step has no navigation"
            );
        }
        _ => panic!("expected Type step"),
    }
}

#[test]
fn tab_then_click_then_type_preserves_navigation_on_same_element() {
    // User tabs to an input field, browser fires click, then user types.
    // The Click step has the navigation. When replaced by Type (same element),
    // the navigation must be preserved.
    let ds = test_data("name\nAlice\n");
    let mut core = Session::new(ds);

    // Tab to the field.
    core.process(Command::BrowserTab { shift: false });
    core.process(Command::BrowserTab { shift: false });

    // Click on the field (browser fires click on focus).
    core.process(Command::BrowserClick {
        selector_info: sel("name-field", "#name-field"),
        tag: "INPUT".to_owned(),
    });

    // Type into the same field — replaces Click with Type.
    core.process(Command::BrowserInput {
        selector_info: sel("name-field", "#name-field"),
        tag: "INPUT".to_owned(),
        value: "Alice".to_owned(),
    });
    let _ = core.drain();

    // Should be one step (Type replaced Click for same element).
    assert_eq!(core.steps().len(), 1);
    match &core.steps()[0] {
        Step::Type { navigation, .. } => {
            let nav = navigation
                .as_ref()
                .expect("navigation from Click should be preserved on Type");
            assert!(nav.anchor.is_none(), "no prior click → anchor = None");
            assert_eq!(nav.keys, vec![NavKey::Tab, NavKey::Tab]);
        }
        _ => panic!("expected Type step"),
    }
}

#[test]
fn multi_field_tab_chain_uses_previous_field_as_anchor() {
    // click → tab → type A → tab → type B
    // Field B's anchor should be field A, not None.
    let ds = test_data("name\tage\nAlice\t30\n");
    let mut core = Session::new(ds);

    // Click a landmark.
    core.process(Command::BrowserClick {
        selector_info: sel("landmark", "#landmark"),
        tag: "BUTTON".to_owned(),
    });

    // Tab to field A, type.
    core.process(Command::BrowserTab { shift: false });
    core.process(Command::BrowserInput {
        selector_info: sel("name-field", "#name-field"),
        tag: "INPUT".to_owned(),
        value: "Alice".to_owned(),
    });

    // Tab to field B, type.
    core.process(Command::BrowserTab { shift: false });
    core.process(Command::BrowserInput {
        selector_info: sel("age-field", "#age-field"),
        tag: "INPUT".to_owned(),
        value: "30".to_owned(),
    });
    let _ = core.drain();

    // step 0 = Click(landmark), step 1 = Type(name), step 2 = Type(age)
    assert_eq!(core.steps().len(), 3);

    // Field A's anchor should be the landmark.
    match &core.steps()[1] {
        Step::Type { navigation, .. } => {
            let nav = navigation.as_ref().expect("field A should have navigation");
            assert!(nav.anchor.is_some(), "anchor should be the landmark");
            assert_eq!(nav.keys, vec![NavKey::Tab]);
        }
        _ => panic!("expected Type step"),
    }

    // Field B's anchor should be field A (name-field), not None.
    match &core.steps()[2] {
        Step::Type { navigation, .. } => {
            let nav = navigation.as_ref().expect("field B should have navigation");
            let anchor = nav.anchor.as_ref().expect("anchor should be field A");
            assert!(
                anchor
                    .strategies
                    .iter()
                    .any(|r| matches!(r, Resolution::Id { id } if id == "name-field")),
                "anchor should reference name-field",
            );
            assert_eq!(nav.keys, vec![NavKey::Tab]);
        }
        _ => panic!("expected Type step"),
    }
}

#[test]
fn incremental_typing_clears_pending_navigation() {
    // Tabs accumulated before re-entering an existing field must not leak
    // into the next new step.
    let ds = test_data("name\tage\nAlice\t30\n");
    let mut core = Session::new(ds);

    // Type in field A (new step).
    core.process(Command::BrowserInput {
        selector_info: sel("name-field", "#name-field"),
        tag: "INPUT".to_owned(),
        value: "Alice".to_owned(),
    });

    // Tab, then re-type into field A (incremental typing — same element).
    core.process(Command::BrowserTab { shift: false });
    core.process(Command::BrowserInput {
        selector_info: sel("name-field", "#name-field"),
        tag: "INPUT".to_owned(),
        value: "Alice!".to_owned(),
    });

    // Now type into field B (new step) — should NOT have the stale tab.
    core.process(Command::BrowserInput {
        selector_info: sel("age-field", "#age-field"),
        tag: "INPUT".to_owned(),
        value: "30".to_owned(),
    });
    let _ = core.drain();

    assert_eq!(core.steps().len(), 2);
    match &core.steps()[1] {
        Step::Type { navigation, .. } => {
            assert!(
                navigation.is_none(),
                "stale tab should not leak to new step",
            );
        }
        _ => panic!("expected Type step"),
    }
}

#[test]
fn page_navigation_clears_pending_state() {
    // Tabs and clicks from the previous page must not survive a navigation.
    let ds = test_data("name\nAlice\n");
    let mut core = Session::new(ds);

    // Click and tab on page 1.
    core.process(Command::BrowserClick {
        selector_info: sel("old-btn", "#old-btn"),
        tag: "BUTTON".to_owned(),
    });
    core.process(Command::BrowserTab { shift: false });

    // Navigate to a new page.
    core.process(Command::BrowserNavigation {
        url: "https://example.com/page2".to_owned(),
    });

    // Tab and type on the new page.
    core.process(Command::BrowserTab { shift: false });
    core.process(Command::BrowserInput {
        selector_info: sel("new-field", "#new-field"),
        tag: "INPUT".to_owned(),
        value: "Alice".to_owned(),
    });
    let _ = core.drain();

    // Find the Type step (after Click and WaitForNavigation steps).
    let type_step = core
        .steps()
        .iter()
        .find(|s| matches!(s, Step::Type { .. }))
        .expect("should have a Type step");

    match type_step {
        Step::Type { navigation, .. } => {
            let nav = navigation.as_ref().expect("should have navigation");
            // Anchor should be None (old-btn was on a different page and
            // was cleared by navigation). Only the post-navigation tab counts.
            assert!(nav.anchor.is_none(), "old page anchor should be cleared");
            assert_eq!(nav.keys, vec![NavKey::Tab]);
        }
        _ => unreachable!(),
    }
}

#[test]
fn navigation_step_captures_delay() {
    let ds = test_data("name\nAlice\n");
    let mut core = Session::new(ds);

    core.process(Command::BrowserNavigation {
        url: "https://example.com/page".to_owned(),
    });
    let _ = core.drain();

    let wf = core.build_workflow(None);
    assert_eq!(wf.steps.len(), 1);
    assert_eq!(wf.step_delays.len(), 1);
    // First step is always zero.
    assert_eq!(wf.step_delays[0], Delay::zero());
}

// -- Exact times --

fn input(id: &str, value: &str) -> Command {
    Command::BrowserInput {
        selector_info: sel(id, &format!("#{id}")),
        tag: "INPUT".to_owned(),
        value: value.to_owned(),
    }
}

#[test]
fn delays_are_the_gaps_between_steps() {
    let mut core = TrainingCore::new(test_data("name\tage\nAlice\t30\n"));
    let at = Delay::from_millis;
    core.process_at(input("name", "Alice"), at(1000), at(1000));
    core.process_at(input("age", "3"), at(1500), at(1500));
    // Going on typing measures from the last keystroke.
    core.process_at(input("age", "30"), at(1700), at(1750));
    let wf = core.build_workflow(None);
    assert_eq!(wf.step_delays, vec![at(0), at(200)]);
    assert_eq!(wf.row_end_delay, at(50));
}

#[test]
fn typing_again_into_the_first_field_keeps_its_zero_delay() {
    let mut core = TrainingCore::new(test_data("name\nAlice\n"));
    let at = Delay::from_millis;
    core.process_at(input("name", "Al"), at(100), at(100));
    core.process_at(input("name", "Alice"), at(900), at(900));
    assert_eq!(core.build_workflow(None).step_delays, vec![at(0)]);
}

#[test]
fn a_clock_that_goes_back_gives_no_delay() {
    let mut core = TrainingCore::new(test_data("name\nAlice\n"));
    let at = Delay::from_millis;
    core.process_at(input("name", "x"), at(500), at(500));
    core.process_at(input("other", "y"), at(400), at(400));
    assert_eq!(core.build_workflow(None).step_delays, vec![at(0), at(0)]);
}

#[test]
fn tab_keys_are_limited() {
    let mut core = Session::new(test_data("name\nAlice\n"));
    for _ in 0..100 {
        core.process(Command::BrowserTab { shift: false });
    }
    core.process(input("name", "Alice"));
    match &core.steps()[0] {
        Step::Type { navigation, .. } => {
            assert_eq!(navigation.as_ref().unwrap().keys.len(), 64);
        }
        _ => panic!("expected Type step"),
    }
}

#[test]
fn a_demonstrated_row_makes_a_valid_workflow() {
    let mut core = Session::new(test_data("a\tb\tc\n1\t2\t3\n4\t5\t6\n"));
    for (id, value) in [("fa", "1"), ("fb", "2"), ("fc", "3")] {
        core.process(input(id, value));
    }
    assert!(core.is_row_complete());
    assert_eq!(core.bound_columns(), &[Some(0), Some(1), Some(2)]);
    assert!(core.build_workflow(None).validate().is_ok());
}

#[test]
fn new_field_error_names_the_column() {
    let mut core = Session::new(test_data("name\nAlice\n"));
    core.process(Command::HandleNewField { column: 99 });
    match &core.drain()[0] {
        TrainingEvent::Error(why) => {
            assert_eq!(why, "column index 99 out of range (have 1)");
        }
        _ => panic!("expected an error"),
    }
}

#[test]
fn assigning_a_column_rebinds_only_that_column() {
    let mut core = Session::new(test_data("a\tb\nx\ty\n"));
    core.process(input("fa", "x"));
    core.process(input("fb", "unrelated"));
    core.process(Command::HandleNewField { column: 0 });
    assert_eq!(core.bound_columns(), &[Some(1), None]);
}

#[test]
fn advancing_reports_the_new_row() {
    let mut core = Session::new(test_data("name\nAlice\nBob\n"));
    core.process(Command::AdvanceRow);
    let events = core.drain();
    assert!(matches!(events[0], TrainingEvent::RowAdvanced { row_index: 1 }));
    assert_eq!(core.current_row_data().unwrap(), &["Bob"]);
}

#[test]
fn selectors_keep_only_what_is_there() {
    let info = SelectorInfo {
        id: Some(String::new()),
        css: Some("#a".to_owned()),
        xpath: None,
        text_content: Some("Go".to_owned()),
    };
    let selector = info.into_selector("A".to_owned());
    assert_eq!(
        selector.strategies,
        vec![
            Resolution::Css { selector: "#a".to_owned() },
            Resolution::TextContent { text: "Go".to_owned() },
        ],
    );
    assert_eq!(selector.tag, "A");
}

#[test]
fn same_element_is_symmetric_and_ignores_text() {
    let a = SelectorInfo {
        id: None,
        css: Some("#a".to_owned()),
        xpath: Some("//a".to_owned()),
        text_content: Some("Go".to_owned()),
    };
    let b = SelectorInfo { css: Some("#b".to_owned()), ..a.clone() };
    let c = SelectorInfo {
        id: None,
        css: None,
        xpath: None,
        text_content: Some("Go".to_owned()),
    };
    assert!(a.same_element(&b) && b.same_element(&a));
    assert!(!a.same_element(&c) && !c.same_element(&a));
}
