//! Step execution: what a workflow step does in the browser.
use std::collections::BTreeMap;
use vstd::prelude::*;
use crate::cdp::protocol::Event;
use crate::cdp::protocol;
use crate::data::parse::Row;
use crate::json::JsonView;
use crate::workflow;
use crate::workflow::{
    EmptyCellRule, EmptyCellView, Selector, SelectorView, Step, StepView, ValueSource,
    ValueSourceView,
};
use super::PlaybackError;

verus! {

/// The action to take for a [`Step::Type`] step.
#[derive(Debug, PartialEq, Eq)]
pub enum TypeAction {
    /// Skip this step (the cell was empty and the rule says to skip).
    Skip,
    /// Type the given value (may be an empty string for a Clear action).
    Type(String),
}

/// The contents of a [`TypeAction`].
#[verifier::ext_equal]
pub enum TypeActionView {
    Skip,
    Type(Seq<char>),
}

impl View for TypeAction {
    type V = TypeActionView;

    open spec fn view(&self) -> TypeActionView {
        match *self {
            TypeAction::Skip => TypeActionView::Skip,
            TypeAction::Type(value) => TypeActionView::Type(value@),
        }
    }
}

/// The cell of a column, empty where the row has none.
pub open spec fn cell(row: Row, column: nat) -> Seq<char> {
    if column < row.len() {
        row[column as int]
    } else {
        seq![]
    }
}

/// What to type for a value source in a row.
///
/// A literal is typed as it is, and so is a cell that is not empty. For an empty
/// cell the column's rule decides; without one the field is cleared.
pub open spec fn type_action(
    source: ValueSourceView,
    row: Row,
    rules: Map<usize, EmptyCellView>,
) -> TypeActionView {
    match source {
        ValueSourceView::Literal { value } => TypeActionView::Type(value),
        ValueSourceView::Column { index } => if cell(row, index).len() > 0 {
            TypeActionView::Type(cell(row, index))
        } else if rules.contains_key(index as usize) {
            match rules[index as usize] {
                EmptyCellView::Skip => TypeActionView::Skip,
                EmptyCellView::Clear => TypeActionView::Type(seq![]),
                EmptyCellView::Default { value } => TypeActionView::Type(value),
            }
        } else {
            TypeActionView::Type(seq![])
        },
    }
}

/// Determine the effective value to type (or skip) for a [`Step::Type`].
///
/// Returns [`TypeAction::Skip`] when the cell is empty and the rule says so.
/// Returns [`TypeAction::Type`] with the effective value otherwise.
pub fn resolve_type_value(
    source: &ValueSource,
    row: &[String],
    rules: &BTreeMap<usize, EmptyCellRule>,
) -> (action: TypeAction)
    ensures
        action@ == type_action(source@, row.deep_view(), workflow::rules_view(rules@)),
{
    broadcast use vstd::std_specs::btree::group_btree_axioms;

    match source {
        ValueSource::Literal { value } => TypeAction::Type(value.clone()),
        ValueSource::Column { index } => {
            if *index < row.len() {
                assert(row.deep_view()[*index as int] == row@[*index as int]@);
                if !row[*index].as_str().is_empty() {
                    return TypeAction::Type(row[*index].clone());
                }
            }
            match rules.get(index) {
                Some(EmptyCellRule::Skip) => TypeAction::Skip,
                Some(EmptyCellRule::Default { value }) => TypeAction::Type(value.clone()),
                // No rule or Clear: type an empty string (clears the field).
                Some(EmptyCellRule::Clear) => {
                    let cleared = TypeAction::Type(String::new());
                    assert(cleared@->Type_0 =~= seq![]);
                    cleared
                },
                None => {
                    let cleared = TypeAction::Type(String::new());
                    assert(cleared@->Type_0 =~= seq![]);
                    cleared
                },
            }
        },
    }
}

/// One thing to do in the browser.
#[derive(Debug, PartialEq)]
pub enum BrowserAction {
    /// Find an element and remember it as the target.
    Resolve(Selector),
    /// Evaluate an expression in the page.
    Evaluate(String),
    /// Insert text as if it were typed.
    InsertText(String),
    /// Wait until the main frame has navigated.
    AwaitNavigation,
}

/// The contents of a [`BrowserAction`].
#[verifier::ext_equal]
pub enum BrowserActionView {
    Resolve(SelectorView),
    Evaluate(Seq<char>),
    InsertText(Seq<char>),
    AwaitNavigation,
}

impl View for BrowserAction {
    type V = BrowserActionView;

    open spec fn view(&self) -> BrowserActionView {
        match *self {
            BrowserAction::Resolve(selector) => BrowserActionView::Resolve(selector@),
            BrowserAction::Evaluate(expression) => BrowserActionView::Evaluate(expression@),
            BrowserAction::InsertText(text) => BrowserActionView::InsertText(text@),
            BrowserAction::AwaitNavigation => BrowserActionView::AwaitNavigation,
        }
    }
}

impl DeepView for BrowserAction {
    type V = BrowserActionView;

    open spec fn deep_view(&self) -> BrowserActionView {
        self@
    }
}

/// Clicks the target element.
pub const CLICK_JS: &'static str = "window.__roteTarget.click()";

/// Moves the focus to the target element.
pub const FOCUS_JS: &'static str = "window.__roteTarget.focus()";

/// Clears the target element and dispatches an `input` event.
pub const CLEAR_JS: &'static str =
    "window.__roteTarget.value='';window.__roteTarget.dispatchEvent(new Event('input',{bubbles:true}))";

/// What a step does in the browser for a row, in order, or `None` where an
/// empty-cell rule suppresses it.
pub open spec fn plan(
    step: StepView,
    row: Row,
    rules: Map<usize, EmptyCellView>,
) -> Option<Seq<BrowserActionView>> {
    match step {
        StepView::Click { selector, .. } => Some(
            seq![BrowserActionView::Resolve(selector), BrowserActionView::Evaluate(CLICK_JS@)],
        ),
        StepView::Type { selector, source, .. } => match type_action(source, row, rules) {
            TypeActionView::Skip => None,
            TypeActionView::Type(value) => Some(
                seq![
                    BrowserActionView::Resolve(selector),
                    BrowserActionView::Evaluate(FOCUS_JS@),
                    BrowserActionView::Evaluate(CLEAR_JS@),
                    BrowserActionView::InsertText(value),
                ],
            ),
        },
        StepView::WaitForNavigation => Some(seq![BrowserActionView::AwaitNavigation]),
    }
}

/// What a single workflow step does in the browser, in order.
///
/// Returns `None` when an empty-cell rule suppresses the step.
pub fn step_plan(step: &Step, row: &[String], rules: &BTreeMap<usize, EmptyCellRule>) -> (actions:
    Option<Vec<BrowserAction>>)
    ensures
        actions.deep_view() == plan(step@, row.deep_view(), workflow::rules_view(rules@)),
{
    let mut actions: Vec<BrowserAction> = Vec::new();
    match step {
        Step::Click { selector, .. } => {
            actions.push(BrowserAction::Resolve(selector.clone()));
            actions.push(BrowserAction::Evaluate(CLICK_JS.to_owned()));
        },
        Step::Type { selector, source, .. } => {
            match resolve_type_value(source, row, rules) {
                TypeAction::Skip => return None,
                TypeAction::Type(value) => {
                    actions.push(BrowserAction::Resolve(selector.clone()));
                    // Focus the element.
                    actions.push(BrowserAction::Evaluate(FOCUS_JS.to_owned()));
                    // Clear any existing value and dispatch an `input` event.
                    actions.push(BrowserAction::Evaluate(CLEAR_JS.to_owned()));
                    // Insert text: this triggers real keyboard-like events.
                    actions.push(BrowserAction::InsertText(value));
                },
            }
        },
        Step::WaitForNavigation => {
            actions.push(BrowserAction::AwaitNavigation);
        },
    }
    assert(actions.deep_view() =~= plan(
        step@,
        row.deep_view(),
        workflow::rules_view(rules@),
    )->0);
    Some(actions)
}

/// What came of waiting for a browser event.
#[derive(Debug, PartialEq)]
pub enum Heard {
    /// An event.
    Event(Event),
    /// Some events were missed.
    Lagged,
    /// No event will ever come again.
    Closed,
    /// The time is up.
    TimedOut,
}

/// Whether waiting for a navigation is over: `None` to keep listening.
pub fn navigation_outcome(heard: &Heard) -> (outcome: Option<Result<(), PlaybackError>>)
    ensures
        match *heard {
            Heard::Event(event) => outcome == if event.method@ == "Page.frameNavigated"@
                && protocol::frame_parent(event.params@) is None {
                Some(Ok::<(), PlaybackError>(()))
            } else {
                None
            },
            Heard::Lagged => outcome is None,
            Heard::Closed => {
                &&& outcome is Some
                &&& outcome->0 is Err
                &&& outcome->0->Err_0 is Other
                &&& outcome->0->Err_0->Other_0@
                    == "CDP event channel closed during navigation wait"@
            },
            Heard::TimedOut => outcome == Some(
                Err::<(), PlaybackError>(PlaybackError::NavigationTimeout),
            ),
        },
{
    match heard {
        Heard::Event(event) => {
            // A main frame navigation has no `parentId` on the frame.
            if protocol::is_top_navigation(event) {
                Some(Ok(()))
            } else {
                None
            }
        },
        // We fell behind; keep listening: we may still catch it.
        Heard::Lagged => None,
        Heard::Closed => Some(
            Err(PlaybackError::Other("CDP event channel closed during navigation wait".to_owned())),
        ),
        Heard::TimedOut => Some(Err(PlaybackError::NavigationTimeout)),
    }
}

/// Whether waiting for the first page is over: `None` to keep listening.
///
/// Sub-frame navigations are ignored.
pub fn arrival_outcome(heard: &Heard) -> (outcome: Option<Result<(), String>>)
    ensures
        match *heard {
            Heard::Event(event) => outcome == if event.method@ == "Page.frameNavigated"@
                && protocol::main_frame(event.params@) {
                Some(Ok::<(), String>(()))
            } else {
                None
            },
            Heard::Lagged => outcome is None,
            Heard::Closed => {
                &&& outcome is Some
                &&& outcome->0 is Err
                &&& outcome->0->Err_0@ == "browser connection closed during navigation"@
            },
            Heard::TimedOut => {
                &&& outcome is Some
                &&& outcome->0 is Err
                &&& outcome->0->Err_0@ == "navigation timeout"@
            },
        },
{
    match heard {
        Heard::Event(event) => {
            if protocol::is_main_frame_navigation(event) {
                Some(Ok(()))
            } else {
                None
            }
        },
        Heard::Lagged => None,
        Heard::Closed => Some(Err("browser connection closed during navigation".to_owned())),
        Heard::TimedOut => Some(Err("navigation timeout".to_owned())),
    }
}

/// Waiting for a navigation ends well exactly when the main frame has navigated; it ends
/// badly when the time is up or no event can come any more, and goes on otherwise.
pub proof fn law_when_waiting_ends(
    heard: Heard,
    outcome: Option<Result<(), PlaybackError>>,
    frame: JsonView,
)
    requires
        call_ensures(navigation_outcome, (&heard,), outcome),
    ensures
        heard is TimedOut || heard is Closed <==> outcome is Some && outcome->0 is Err,
        heard is TimedOut <==> outcome == Some(
            Err::<(), PlaybackError>(PlaybackError::NavigationTimeout),
        ),
        heard is Lagged ==> outcome is None,
        heard matches Heard::Event(event) ==> {
            &&& event.method@ == "Page.frameNavigated"@ && event.params@.field("frame"@) == Some(
                frame,
            ) ==> (outcome is Some <==> frame.field("parentId"@) is None)
            &&& event.method@ != "Page.frameNavigated"@ ==> outcome is None
        },
{
}

/// What ends the wait of a step also ends the wait for the first page.
pub proof fn law_navigation_is_arrival(
    heard: Heard,
    outcome: Option<Result<(), PlaybackError>>,
    arrival: Option<Result<(), String>>,
)
    requires
        call_ensures(navigation_outcome, (&heard,), outcome),
        call_ensures(arrival_outcome, (&heard,), arrival),
    ensures
        outcome is Some ==> arrival is Some && arrival->0 is Ok == outcome->0 is Ok,
{
}

} // verus!
