//! What the screens show, and what keys do on them.
use std::collections::BTreeMap;

use rote::cli::{is_csv, Args, DataChoice};
use rote::data::{from_delimited_str, DataSet, Delimiter};
use rote::playback::{ErrorAction, PlaybackControl, PlaybackEvent};
use rote::time::Delay;
use rote::training::{Command, SelectorInfo, TrainingCore, TrainingEvent};
use rote::tui::connect::{self, ConnectAction};
use rote::tui::data::{self, LoopOutcome, Screen};
use rote::tui::playback::{self, PlaybackOutcome, ScreenState};
use rote::tui::table::{CellState, RowState, TableState};
use rote::tui::training::{self, TerminalAction, TrainingScreen};
use rote::tui::{Color, KeyCode, KeyPress, Span};
use rote::workflow::{PlaybackSpeed, Resolution, Selector, Step, ValueSource, Workflow};

fn key(c: char) -> KeyPress {
    KeyPress { code: KeyCode::Char(c), ctrl: false }
}

const ENTER: KeyPress = KeyPress { code: KeyCode::Enter, ctrl: false };
const CTRL_C: KeyPress = KeyPress { code: KeyCode::Char('c'), ctrl: true };

fn load(text: &str, has_headers: bool) -> DataSet {
    from_delimited_str(text, Delimiter::Tab, has_headers).unwrap()
}

fn text_of(line: &[Span]) -> String {
    line.iter().map(|span| span.text.as_str()).collect()
}

// ── Connect screen ────────────────────────────────────────────────────────

#[test]
fn connecting() {
    let mut state = connect::State::Launching;
    assert_eq!(connect::handle_event(ENTER, &mut state), ConnectAction::Stay);
    assert_eq!(connect::handle_event(key('q'), &mut state), ConnectAction::Quit);
    assert_eq!(connect::handle_event(CTRL_C, &mut state), ConnectAction::Quit);
    assert_eq!(connect::handle_event(key('c'), &mut state), ConnectAction::Stay);
    state = connect::launched(Ok(()));
    assert_eq!(connect::handle_event(key('r'), &mut state), ConnectAction::Stay);
    assert_eq!(connect::handle_event(ENTER, &mut state), ConnectAction::Continue);
    assert_eq!(state, connect::State::Launching);
}

#[test]
fn connecting_again_after_a_failure() {
    for retry in [ENTER, key('r')] {
        let mut state = connect::launched(Err("no browser".to_owned()));
        let lines = connect::lines(&state);
        assert_eq!(lines.len(), 4);
        assert_eq!(lines[2], vec![Span { text: "no browser".to_owned(), color: Color::Red }]);
        assert_eq!(text_of(&lines[3]), "[Enter] Retry   [q] Quit");
        assert_eq!(connect::handle_event(retry, &mut state), ConnectAction::Relaunch);
        assert_eq!(state, connect::State::Launching);
    }
}

#[test]
fn connect_hints() {
    assert_eq!(text_of(&connect::lines(&connect::State::Launching)[3]), "[q] Quit");
    assert_eq!(
        text_of(&connect::lines(&connect::State::Ready)[3]),
        "[Enter] Start recording   [q] Quit",
    );
}

// ── Preview screen ────────────────────────────────────────────────────────

#[test]
fn choosing_headers() {
    let mut screen = Screen::WaitingForHeaderChoice;
    assert_eq!(data::handle_event(ENTER, &mut screen), None);
    assert_eq!(data::handle_event(key('h'), &mut screen), None);
    assert_eq!(screen, Screen::ShowingDataSummary { with_headers: true });
    let outcome = data::handle_event(ENTER, &mut screen).unwrap();
    assert_eq!(outcome, LoopOutcome::Continue { with_headers: true });
    let ds = data::configured(load("a\tb\n1\t2\n", false), outcome).unwrap();
    assert_eq!(ds.headers().unwrap(), &["a", "b"]);
}

#[test]
fn choosing_data() {
    let mut screen = Screen::WaitingForHeaderChoice;
    data::handle_event(key('d'), &mut screen);
    let outcome = data::handle_event(ENTER, &mut screen).unwrap();
    let ds = data::configured(load("a\tb\n1\t2\n", false), outcome).unwrap();
    assert!(ds.headers().is_none());
    assert_eq!(ds.row_count(), 2);
    assert_eq!(data::handle_event(key('q'), &mut screen), Some(LoopOutcome::Quit));
    assert!(data::configured(ds, LoopOutcome::Quit).is_none());
}

#[test]
fn preview_texts() {
    let ds = load("a\tb\n1\t2\n3\t4\n", false);
    let asking = Screen::WaitingForHeaderChoice;
    let headed = Screen::ShowingDataSummary { with_headers: true };
    let plain = Screen::ShowingDataSummary { with_headers: false };
    assert_eq!(data::table_title(&ds, asking), " Data Preview ");
    assert_eq!(data::table_title(&ds, headed), " Data Preview — 2 rows × 2 columns ");
    assert_eq!(data::table_title(&ds, plain), " Data Preview — 3 rows × 2 columns ");
    let lines = data::prompt_lines(&ds, asking);
    assert_eq!(text_of(&lines[0]), "Is row 1 headers or data?");
    assert_eq!(text_of(&lines[1]), "[h] Headers   [d] Data   [q] Quit");
    assert_eq!(text_of(&data::prompt_lines(&ds, headed)[0]), "Headers: a, b");
    assert_eq!(text_of(&data::prompt_lines(&ds, plain)[0]), "All rows are data, no headers.");
    assert_eq!(data::build_header_row(&ds, headed), (vec!["a".to_owned(), "b".to_owned()], 1));
    assert_eq!(
        data::build_header_row(&ds, plain),
        (vec!["Column 1".to_owned(), "Column 2".to_owned()], 0),
    );
}

#[test]
fn preview_rows_are_numbered_and_limited() {
    let text: String = (0..30).map(|i| format!("v{i}\n")).collect();
    let ds = load(&text, false);
    let rows = data::build_data_rows(&ds, Screen::WaitingForHeaderChoice, 0);
    assert_eq!(rows.len(), 20);
    assert!(rows[0].highlighted && !rows[1].highlighted);
    assert_eq!(rows[19].number, "20");
    assert_eq!(rows[19].cells, vec!["v19"]);
    let rows = data::build_data_rows(&ds, Screen::ShowingDataSummary { with_headers: true }, 1);
    assert_eq!(rows[0].number, "1");
    assert_eq!(rows[0].cells, vec!["v1"]);
    assert!(!rows[0].highlighted);
}

#[test]
fn rows_behind_the_preview_may_hold_anything() {
    let long = "\u{e9}".repeat(16);
    let text: String = (0..25).map(|i| if i < 21 { "v\n".to_owned() } else { format!("{long}\n") }).collect();
    let ds = load(&text, false);
    assert_eq!(data::build_data_rows(&ds, Screen::WaitingForHeaderChoice, 0).len(), 20);
    // A header row is not shown among the data rows.
    let ds = load(&format!("{long}\nv\n"), false);
    let headed = Screen::ShowingDataSummary { with_headers: true };
    assert_eq!(data::build_data_rows(&ds, headed, 1)[0].cells, vec!["v"]);
}

#[test]
fn preview_widths_and_truncation() {
    let long = "x".repeat(31);
    let ds = load(&format!("a\t{long}\n"), false);
    assert_eq!(data::compute_col_widths(&ds), vec![8, 30]);
    assert_eq!(data::truncate(&long), format!("{}…", "x".repeat(29)));
    assert_eq!(data::truncate(&"x".repeat(30)), "x".repeat(30));
}

// ── Playback screen ───────────────────────────────────────────────────────

fn press(state: &mut ScreenState, c: char) -> (bool, Vec<PlaybackControl>) {
    playback::handle_key_event(key(c), state)
}

#[test]
fn speed_keys() {
    let mut state = ScreenState::new(5, 1, PlaybackSpeed::Step);
    assert_eq!(state.status, "Playing 4 rows...");
    for (c, speed) in
        [('3', PlaybackSpeed::Run), ('2', PlaybackSpeed::Walk), ('1', PlaybackSpeed::Step)]
    {
        assert_eq!(press(&mut state, c), (false, vec![PlaybackControl::SetSpeed(speed)]));
        assert_eq!(state.speed, speed);
    }
    assert_eq!(press(&mut state, '4'), (false, vec![]));
}

#[test]
fn choosing_a_faster_speed_passes_a_gate() {
    let mut state = ScreenState::new(5, 1, PlaybackSpeed::Step);
    state.waiting_for_confirmation = true;
    assert_eq!(
        press(&mut state, '1'),
        (false, vec![PlaybackControl::SetSpeed(PlaybackSpeed::Step)]),
    );
    assert!(state.waiting_for_confirmation);
    assert_eq!(
        press(&mut state, '2'),
        (
            false,
            vec![PlaybackControl::SetSpeed(PlaybackSpeed::Walk), PlaybackControl::Proceed],
        ),
    );
    assert!(!state.waiting_for_confirmation);
}

#[test]
fn enter_passes_a_gate() {
    let mut state = ScreenState::new(5, 1, PlaybackSpeed::Step);
    assert_eq!(playback::handle_key_event(ENTER, &mut state), (false, vec![]));
    state.waiting_for_confirmation = true;
    assert_eq!(
        playback::handle_key_event(ENTER, &mut state),
        (false, vec![PlaybackControl::Proceed]),
    );
    assert!(!state.waiting_for_confirmation);
}

#[test]
fn space_pauses_and_resumes() {
    let mut state = ScreenState::new(5, 1, PlaybackSpeed::Run);
    assert_eq!(press(&mut state, ' '), (false, vec![PlaybackControl::Pause]));
    assert_eq!(state.speed, PlaybackSpeed::Step);
    state.waiting_for_confirmation = true;
    assert_eq!(
        press(&mut state, ' '),
        (
            false,
            vec![PlaybackControl::SetSpeed(PlaybackSpeed::Step), PlaybackControl::Proceed],
        ),
    );
    assert!(!state.waiting_for_confirmation);
}

#[test]
fn multiplier_keys_stay_in_range() {
    let mut state = ScreenState::new(5, 1, PlaybackSpeed::Run);
    assert_eq!(press(&mut state, '+'), (false, vec![PlaybackControl::SetSpeedMultiplier(1250)]));
    for _ in 0..30 {
        press(&mut state, '+');
    }
    assert_eq!(state.speed_multiplier, 4000);
    for _ in 0..30 {
        press(&mut state, '-');
    }
    assert_eq!(state.speed_multiplier, 250);
    assert_eq!(press(&mut state, '-'), (false, vec![PlaybackControl::SetSpeedMultiplier(250)]));
}

#[test]
fn error_keys() {
    let failing = || {
        let mut state = ScreenState::new(5, 1, PlaybackSpeed::Run);
        state.error_prompt = Some("boom".to_owned());
        state
    };
    let answer = |action| vec![PlaybackControl::ErrorResponse(action)];
    let mut state = failing();
    assert_eq!(press(&mut state, '3'), (false, vec![]));
    assert_eq!(press(&mut state, 's'), (false, answer(ErrorAction::SkipRow)));
    assert_eq!(state.error_prompt, None);
    let mut state = failing();
    assert_eq!(press(&mut state, 'r'), (false, answer(ErrorAction::RetryRow)));
    let mut state = failing();
    assert_eq!(press(&mut state, 'q'), (true, answer(ErrorAction::Stop)));
    assert_eq!(playback::outcome(&state), PlaybackOutcome::Error("boom".to_owned()));
}

#[test]
fn leaving_playback() {
    let stop = vec![PlaybackControl::ErrorResponse(ErrorAction::Stop)];
    let mut state = ScreenState::new(5, 1, PlaybackSpeed::Run);
    assert_eq!(press(&mut state, 'q'), (true, stop.clone()));
    assert_eq!(playback::handle_key_event(CTRL_C, &mut state), (true, stop));
    state.finished = true;
    assert_eq!(playback::handle_key_event(CTRL_C, &mut state), (true, vec![]));
    assert_eq!(press(&mut state, 's'), (false, vec![]));
    assert_eq!(press(&mut state, 'q'), (true, vec![]));
    assert_eq!(
        playback::outcome(&state),
        PlaybackOutcome::Done { rows_completed: 0, rows_skipped: 0 },
    );
}

#[test]
fn playback_events_update_the_screen() {
    let ds = load("a\tb\n1\t2\n3\t4\n", true);
    let mut table = playback::initial_table(&ds, 1);
    assert_eq!(table.row_state(0), RowState::Done);
    assert_eq!(table.cell_state(0, 1), CellState::Done);
    assert_eq!(table.row_state(1), RowState::Upcoming);
    assert_eq!(table.cell_state(1, 0), CellState::Pending);
    let mut state = ScreenState::new(2, 1, PlaybackSpeed::Step);
    let columns = [None, Some(1)];
    let mut tell = |event, state: &mut ScreenState, table: &mut TableState| {
        playback::handle_playback_event(event, state, table, &columns);
    };
    tell(PlaybackEvent::RowStarted { row_index: 1 }, &mut state, &mut table);
    assert_eq!(state.status, "Playing row 2 of 2...");
    assert_eq!(table.row_state(1), RowState::InProgress);
    tell(PlaybackEvent::StepStarted { row_index: 1, step_index: 0 }, &mut state, &mut table);
    tell(PlaybackEvent::StepCompleted { row_index: 1, step_index: 0 }, &mut state, &mut table);
    tell(PlaybackEvent::StepCompleted { row_index: 1, step_index: 1 }, &mut state, &mut table);
    tell(PlaybackEvent::StepCompleted { row_index: 1, step_index: 9 }, &mut state, &mut table);
    assert_eq!(table.cell_state(1, 0), CellState::Pending);
    assert_eq!(table.cell_state(1, 1), CellState::Done);
    tell(PlaybackEvent::WaitingForConfirmation, &mut state, &mut table);
    assert_eq!(state.status, "Field complete. [Enter] next field.");
    assert!(state.waiting_for_confirmation);
    tell(PlaybackEvent::SpeedChanged(PlaybackSpeed::Walk), &mut state, &mut table);
    tell(PlaybackEvent::SpeedMultiplierChanged(2000), &mut state, &mut table);
    assert_eq!((state.speed, state.speed_multiplier), (PlaybackSpeed::Walk, 2000));
    let error = "no element".to_owned();
    tell(PlaybackEvent::StepFailed { row_index: 1, step_index: 0, error }, &mut state, &mut table);
    assert_eq!(state.status, "Row 2, step 1: no element");
    assert_eq!(state.error_prompt.as_deref(), Some("no element"));
    tell(PlaybackEvent::RowCompleted { row_index: 1 }, &mut state, &mut table);
    assert_eq!(table.row_state(1), RowState::Done);
    assert!(!state.waiting_for_confirmation);
    tell(PlaybackEvent::Finished { rows_completed: 1, rows_skipped: 0 }, &mut state, &mut table);
    assert_eq!(state.status, "Done! 1 rows completed, 0 skipped. Press [q] to quit.");
    assert!(state.finished);
}

#[test]
fn an_engine_that_is_gone_ends_the_screen() {
    let mut state = ScreenState::new(2, 1, PlaybackSpeed::Step);
    state.rows_completed = 3;
    playback::handle_engine_gone(&mut state);
    assert_eq!(state.status, "Stopped. 3 completed, 0 skipped. Press [q] to quit.");
    assert!(state.finished);
}

#[test]
fn playback_status_lines() {
    let mut state = ScreenState::new(9, 1, PlaybackSpeed::Walk);
    let lines = playback::status_lines(&state);
    assert_eq!(text_of(&lines[0]), "Playback — Row 2 of 9   Speed: Walk");
    assert_eq!(text_of(&lines[1]), "Playing 8 rows...");
    assert_eq!(text_of(&lines[2]), "[Space] Pause   [1-3] Speed   [q] Stop");
    state.speed = PlaybackSpeed::Step;
    assert_eq!(
        text_of(&playback::hint_spans(&state)),
        "[Space] Resume   [1-3] Speed   [q] Stop",
    );
    state.waiting_for_confirmation = true;
    assert_eq!(
        text_of(&playback::hint_spans(&state)),
        "[Enter] Proceed   [Space] Resume   [1-3] Speed   [q] Stop",
    );
    state.speed = PlaybackSpeed::Walk;
    assert_eq!(
        text_of(&playback::hint_spans(&state)),
        "[Enter] Proceed   [1-3] Speed   [q] Stop",
    );
    state.error_prompt = Some("boom".to_owned());
    assert_eq!(
        text_of(&playback::hint_spans(&state)),
        "[s] Skip row   [r] Retry row   [q] Stop",
    );
    state.finished = true;
    let hints = playback::hint_spans(&state);
    assert_eq!(text_of(&hints), "[q] Quit");
    assert_eq!(hints[0].color, Color::Red);
}

#[test]
fn steps_are_mapped_back_to_columns() {
    let workflow = Workflow::new(
        3,
        vec![Step::WaitForNavigation, Step::WaitForNavigation, Step::WaitForNavigation],
        vec![Delay::zero(); 3],
        Delay::zero(),
        vec![Some(2), None, Some(0)],
        BTreeMap::new(),
        None,
    );
    assert_eq!(playback::step_to_column(&workflow), vec![Some(2), None, Some(0)]);
}

// ── Training screen ───────────────────────────────────────────────────────

fn typed(id: &str, value: &str) -> Command {
    Command::BrowserInput {
        selector_info: SelectorInfo {
            id: Some(id.to_owned()),
            css: None,
            xpath: None,
            text_content: None,
        },
        tag: "INPUT".to_owned(),
        value: value.to_owned(),
    }
}

#[test]
fn a_training_row_needs_a_value_in_every_column() {
    let ds = load("name\tage\tcity\nAlice\t\t\n", true);
    assert_eq!(
        training::validate_training_row(&ds, 0),
        Err("Training row has empty cells in: age, city. Every column must have a value in the training row."
            .to_owned()),
    );
    assert_eq!(
        training::validate_training_row(&ds, 1),
        Err("training row is out of range".to_owned()),
    );
    assert!(TrainingScreen::new(&ds, true).is_err());
    assert_eq!(training::validate_training_row(&load("a\nx\n", true), 0), Ok(()));
}

#[test]
fn training_a_row() {
    let ds = load("name\tage\nAlice\t30\nBob\t25\n", true);
    let mut core = TrainingCore::new(ds.clone());
    let mut screen = TrainingScreen::new(&ds, false).unwrap();
    assert_eq!(screen.last_status, "Navigate to your form and press Enter to start recording.");
    assert_eq!(screen.table.row_state(0), RowState::InProgress);
    let lines = training::status_lines(&screen, &core, &ds);
    assert_eq!(text_of(&lines[0]), "Training — Row 1 of 2   Waiting to start");
    assert_eq!(text_of(&lines[2]), "[q] Quit   [Enter] Start recording");
    assert_eq!(
        screen.handle_terminal_event(ENTER, &core, &ds),
        TerminalAction::StartRecording,
    );
    assert_eq!(screen.last_status, "Teaching row 1 of 2. Fill the form in the browser.");
    assert_eq!(screen.handle_terminal_event(ENTER, &core, &ds), TerminalAction::Continue);
    let mut process = |command, core: &mut TrainingCore, screen: &mut TrainingScreen| {
        for event in core.process(command) {
            screen.handle_training_event(event, &ds, core.current_row_index());
        }
    };
    process(typed("n", "Alice"), &mut core, &mut screen);
    assert_eq!(screen.table.cell_state(0, 0), CellState::Done);
    assert_eq!(screen.last_status, "Step 1 recorded: Type column 1 into INPUT (#n)");
    let lines = training::status_lines(&screen, &core, &ds);
    assert_eq!(text_of(&lines[0]), "Training — Row 1 of 2   Mapped 1/2 columns");
    assert_eq!(text_of(&lines[2]), "[q] Quit   [Enter] (map all fields first)");
    process(typed("a", "30"), &mut core, &mut screen);
    assert!(screen.capturing_transition);
    assert_eq!(
        screen.last_status,
        "All fields mapped. Submit the form and navigate back, then press Enter.",
    );
    process(Command::BrowserNavigation { url: "u".to_owned() }, &mut core, &mut screen);
    assert_eq!(screen.last_status, "Captured end-of-row step 3: Wait for navigation");
    let lines = training::status_lines(&screen, &core, &ds);
    assert_eq!(
        text_of(&lines[0]),
        "Training — Row 1 of 2   Mapped 2/2 columns — recording end-of-row actions",
    );
    assert_eq!(text_of(&lines[2]), "[q] Quit   [Enter] Form is ready — start playback");
    assert_eq!(screen.handle_terminal_event(ENTER, &core, &ds), TerminalAction::Done);
    assert_eq!(screen.table.row_state(0), RowState::Done);
    assert_eq!(screen.handle_terminal_event(key('q'), &core, &ds), TerminalAction::Quit);
}

#[test]
fn training_events_in_words() {
    let ds = load("name\tage\nAlice\t30\nBob\t25\n", true);
    let mut screen = TrainingScreen::new(&ds, true).unwrap();
    assert_eq!(screen.last_status, "Teaching row 1 of 2. Fill the form in the browser.");
    screen.handle_training_event(TrainingEvent::ColumnBound { column: 1, step_index: 4 }, &ds, 0);
    assert_eq!(screen.last_status, "Mapped age to step 5.");
    screen.handle_training_event(TrainingEvent::RowAdvanced { row_index: 1 }, &ds, 1);
    assert_eq!(screen.table.row_state(0), RowState::Done);
    assert_eq!(screen.table.row_state(1), RowState::InProgress);
    let empty = TrainingEvent::EmptyCellEncountered { column: 0, row_index: 1 };
    screen.handle_training_event(empty, &ds, 1);
    assert_eq!(screen.last_status, "Row 2 has an empty value for bound column name.");
    for (value, shown) in [("x", "x"), ("", "<empty>")] {
        let field = TrainingEvent::NewFieldEncountered { column: 5, value: value.to_owned() };
        screen.handle_training_event(field, &ds, 1);
        assert_eq!(
            screen.last_status,
            format!("Row 2 includes an unbound value for Column 6: {shown}"),
        );
    }
    screen.handle_training_event(TrainingEvent::Error("odd".to_owned()), &ds, 1);
    assert_eq!(screen.last_status, "odd");
    screen.handle_lagged(7);
    assert_eq!(
        screen.last_status,
        "Browser events lagged; skipped 7 events. Continue teaching this row.",
    );
    screen.handle_closed();
    assert_eq!(screen.last_status, "Browser connection closed.");
}

#[test]
fn steps_in_words() {
    let selector = |strategies| Selector { strategies, tag: "A".to_owned() };
    let click = |strategies| Step::Click { selector: selector(strategies), navigation: None };
    assert_eq!(training::step_summary(&click(vec![])), "Click A (A)");
    assert_eq!(
        training::step_summary(&click(vec![Resolution::TextContent { text: "Go".to_owned() }])),
        "Click A (text \"Go\")",
    );
    assert_eq!(
        training::step_summary(&click(vec![Resolution::XPath { path: "//a".to_owned() }])),
        "Click A (//a)",
    );
    let literal = Step::Type {
        selector: selector(vec![Resolution::Css { selector: ".x".to_owned() }]),
        source: ValueSource::Literal { value: "v".to_owned() },
        navigation: None,
    };
    assert_eq!(training::step_summary(&literal), "Type literal \"v\" into A (.x)");
}

// ── Command line ──────────────────────────────────────────────────────────

#[test]
fn data_sources() {
    let args = |clipboard, data: Option<&str>| Args {
        clipboard,
        data: data.map(str::to_owned),
        workflow: None,
        url: None,
    };
    assert_eq!(args(false, None).source(), DataChoice::Missing);
    assert_eq!(args(true, Some("a.tsv")).source(), DataChoice::Clipboard);
    assert_eq!(args(false, Some("a.tsv")).source(), DataChoice::File(Delimiter::Tab));
    assert_eq!(args(false, Some("a.CSV")).source(), DataChoice::File(Delimiter::Comma));
    assert!(!is_csv("csv") && !is_csv("a.csv.txt") && is_csv(".csv"));
}
