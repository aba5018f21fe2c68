//! Step execution.
use std::collections::BTreeMap;

use rote::cdp::protocol::Event;
use rote::json::{parse_json, Json};
use rote::playback::execute::{
    arrival_outcome, navigation_outcome, resolve_type_value, step_plan, BrowserAction, Heard,
    TypeAction,
};
use rote::playback::PlaybackError;
use rote::workflow::{EmptyCellRule, Selector, Step, ValueSource};

fn make_rules(pairs: &[(usize, EmptyCellRule)]) -> BTreeMap<usize, EmptyCellRule> {
    pairs.iter().cloned().collect()
}

#[test]
fn literal_value_always_types() {
    let source = ValueSource::Literal {
        value: "hello".to_owned(),
    };
    let row: Vec<String> = vec![];
    let rules = make_rules(&[]);
    assert_eq!(
        resolve_type_value(&source, &row, &rules),
        TypeAction::Type("hello".to_owned()),
    );
}

#[test]
fn column_with_value_types_it() {
    let source = ValueSource::Column { index: 0 };
    let row = vec!["Alice".to_owned(), "30".to_owned()];
    let rules = make_rules(&[]);
    assert_eq!(
        resolve_type_value(&source, &row, &rules),
        TypeAction::Type("Alice".to_owned()),
    );
}

#[test]
fn empty_column_no_rule_clears() {
    let source = ValueSource::Column { index: 1 };
    let row = vec!["Alice".to_owned(), String::new()];
    let rules = make_rules(&[]);
    assert_eq!(
        resolve_type_value(&source, &row, &rules),
        TypeAction::Type(String::new()),
    );
}

#[test]
fn empty_column_skip_rule_skips() {
    let source = ValueSource::Column { index: 1 };
    let row = vec!["Alice".to_owned(), String::new()];
    let rules = make_rules(&[(1, EmptyCellRule::Skip)]);
    assert_eq!(resolve_type_value(&source, &row, &rules), TypeAction::Skip,);
}

#[test]
fn empty_column_clear_rule_clears() {
    let source = ValueSource::Column { index: 0 };
    let row = vec![String::new()];
    let rules = make_rules(&[(0, EmptyCellRule::Clear)]);
    assert_eq!(
        resolve_type_value(&source, &row, &rules),
        TypeAction::Type(String::new()),
    );
}

#[test]
fn empty_column_default_rule_uses_default() {
    let source = ValueSource::Column { index: 2 };
    let row = vec!["a".to_owned(), "b".to_owned(), String::new()];
    let rules = make_rules(&[(2, EmptyCellRule::Default { value: "N/A".to_owned() })]);
    assert_eq!(
        resolve_type_value(&source, &row, &rules),
        TypeAction::Type("N/A".to_owned()),
    );
}

#[test]
fn out_of_bounds_column_treats_as_empty() {
    let source = ValueSource::Column { index: 99 };
    let row = vec!["x".to_owned()];
    let rules = make_rules(&[(99, EmptyCellRule::Default { value: "X".to_owned() })]);
    assert_eq!(
        resolve_type_value(&source, &row, &rules),
        TypeAction::Type("X".to_owned()),
    );
}

#[test]
fn non_empty_column_ignores_rule() {
    let source = ValueSource::Column { index: 0 };
    let row = vec!["Bob".to_owned()];
    // Even with a Skip rule, a non-empty cell should type normally.
    let rules = make_rules(&[(0, EmptyCellRule::Skip)]);
    assert_eq!(
        resolve_type_value(&source, &row, &rules),
        TypeAction::Type("Bob".to_owned()),
    );
}

fn field() -> Selector {
    Selector { strategies: vec![], tag: "INPUT".to_owned() }
}

#[test]
fn a_click_resolves_and_clicks() {
    let step = Step::Click { selector: field(), navigation: None };
    assert_eq!(
        step_plan(&step, &[], &make_rules(&[])),
        Some(vec![
            BrowserAction::Resolve(field()),
            BrowserAction::Evaluate("window.__roteTarget.click()".to_owned()),
        ]),
    );
}

#[test]
fn typing_focuses_clears_and_inserts() {
    let step = Step::Type {
        selector: field(),
        source: ValueSource::Column { index: 0 },
        navigation: None,
    };
    let row = vec!["Alice".to_owned()];
    assert_eq!(
        step_plan(&step, &row, &make_rules(&[])),
        Some(vec![
            BrowserAction::Resolve(field()),
            BrowserAction::Evaluate("window.__roteTarget.focus()".to_owned()),
            BrowserAction::Evaluate(
                "window.__roteTarget.value='';\
                 window.__roteTarget.dispatchEvent(\
                   new Event('input',{bubbles:true}))"
                    .to_owned(),
            ),
            BrowserAction::InsertText("Alice".to_owned()),
        ]),
    );
}

#[test]
fn a_suppressed_step_does_nothing() {
    let step = Step::Type {
        selector: field(),
        source: ValueSource::Column { index: 0 },
        navigation: None,
    };
    assert_eq!(step_plan(&step, &[String::new()], &make_rules(&[(0, EmptyCellRule::Skip)])), None);
}

#[test]
fn a_navigation_is_awaited() {
    assert_eq!(
        step_plan(&Step::WaitForNavigation, &[], &make_rules(&[])),
        Some(vec![BrowserAction::AwaitNavigation]),
    );
}

fn navigated(params: &str) -> Heard {
    Heard::Event(Event {
        method: "Page.frameNavigated".to_owned(),
        params: parse_json(params).unwrap(),
    })
}

#[test]
fn waiting_for_a_navigation() {
    assert_eq!(navigation_outcome(&navigated(r#"{"frame":{}}"#)), Some(Ok(())));
    assert_eq!(navigation_outcome(&navigated(r#"{"frame":{"parentId":"F"}}"#)), None);
    let other = Heard::Event(Event { method: "Page.x".to_owned(), params: Json::Null });
    assert_eq!(navigation_outcome(&other), None);
    assert_eq!(navigation_outcome(&Heard::Lagged), None);
    assert_eq!(
        navigation_outcome(&Heard::Closed),
        Some(Err(PlaybackError::Other(
            "CDP event channel closed during navigation wait".to_owned()
        ))),
    );
    assert_eq!(
        navigation_outcome(&Heard::TimedOut),
        Some(Err(PlaybackError::NavigationTimeout)),
    );
}

#[test]
fn waiting_for_the_first_page() {
    assert_eq!(arrival_outcome(&navigated(r#"{"frame":{"parentId":null}}"#)), Some(Ok(())));
    assert_eq!(arrival_outcome(&navigated(r#"{"frame":{"parentId":"F"}}"#)), None);
    assert_eq!(arrival_outcome(&Heard::Lagged), None);
    assert_eq!(
        arrival_outcome(&Heard::Closed),
        Some(Err("browser connection closed during navigation".to_owned())),
    );
    assert_eq!(arrival_outcome(&Heard::TimedOut), Some(Err("navigation timeout".to_owned())));
}
