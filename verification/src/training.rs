//! Training: watching one row being entered, and recording it as a workflow.
use vstd::prelude::*;
use crate::workflow::{
    EmptyCellRule, EmptyCellView, PlaybackSpeed, Resolution, ResolutionView, Selector,
    SelectorView, Step, StepView,
};

pub mod laws;
pub mod recorder;
pub mod recording;
pub mod session;

pub use session::TrainingCore;

verus! {

/// Raw selector data from the recorder JS.
///
/// Contains all available identification strategies for a DOM element.
#[derive(Debug, PartialEq)]
pub struct SelectorInfo {
    pub id: Option<String>,
    pub css: Option<String>,
    pub xpath: Option<String>,
    pub text_content: Option<String>,
}

/// The contents of a [`SelectorInfo`].
#[verifier::ext_equal]
pub struct SelectorInfoView {
    pub id: Option<Seq<char>>,
    pub css: Option<Seq<char>>,
    pub xpath: Option<Seq<char>>,
    pub text_content: Option<Seq<char>>,
}

impl View for SelectorInfo {
    type V = SelectorInfoView;

    open spec fn view(&self) -> SelectorInfoView {
        SelectorInfoView {
            id: self.id.deep_view(),
            css: self.css.deep_view(),
            xpath: self.xpath.deep_view(),
            text_content: self.text_content.deep_view(),
        }
    }
}

impl DeepView for SelectorInfo {
    type V = SelectorInfoView;

    open spec fn deep_view(&self) -> SelectorInfoView {
        self@
    }
}

/// Copies an optional piece of text.
fn copied_text(text: &Option<String>) -> (copy: Option<String>)
    ensures
        copy == *text,
{
    match text {
        Some(text) => Some(text.clone()),
        None => None,
    }
}

impl Clone for SelectorInfo {
    fn clone(&self) -> (copy: Self)
        ensures
            copy == *self,
    {
        SelectorInfo {
            id: copied_text(&self.id),
            css: copied_text(&self.css),
            xpath: copied_text(&self.xpath),
            text_content: copied_text(&self.text_content),
        }
    }
}

/// Text that is there and not empty.
pub open spec fn present(text: Option<Seq<char>>) -> bool {
    text is Some && text->0.len() > 0
}

/// Text that is there on both sides, not empty, and the same.
pub open spec fn shared(one: Option<Seq<char>>, other: Option<Seq<char>>) -> bool {
    present(one) && one == other
}

/// A list of one strategy, or of none.
pub open spec fn optional(there: bool, strategy: ResolutionView) -> Seq<ResolutionView> {
    if there {
        seq![strategy]
    } else {
        seq![]
    }
}

impl SelectorInfoView {
    /// The strategies that can be tried, most specific first: id, CSS selector,
    /// `XPath`, visible text.
    pub open spec fn strategies(self) -> Seq<ResolutionView> {
        optional(present(self.id), ResolutionView::Id { id: self.id->0 }) + optional(
            present(self.css),
            ResolutionView::Css { selector: self.css->0 },
        ) + optional(present(self.xpath), ResolutionView::XPath { path: self.xpath->0 }) + optional(
            present(self.text_content),
            ResolutionView::TextContent { text: self.text_content->0 },
        )
    }

    /// Whether both are about the same DOM element: they share an id, a CSS
    /// selector or an `XPath` expression.
    pub open spec fn matches_element(self, other: SelectorInfoView) -> bool {
        shared(self.id, other.id) || shared(self.css, other.css) || shared(self.xpath, other.xpath)
    }
}

/// Whether two optional texts are both there, not empty, and the same.
fn is_shared(one: &Option<String>, other: &Option<String>) -> (same: bool)
    ensures
        same == shared(one.deep_view(), other.deep_view()),
{
    match (one, other) {
        (Some(a), Some(b)) => !a.as_str().is_empty() && *a == *b,
        _ => false,
    }
}

impl SelectorInfo {
    /// Build a multi-strategy [`Selector`] from the raw info.
    pub fn into_selector(self, tag: String) -> (selector: Selector)
        ensures
            selector@ == (SelectorView { strategies: self@.strategies(), tag: tag@ }),
    {
        let ghost info = self@;
        let mut strategies: Vec<Resolution> = Vec::new();
        let ghost after_id = optional(present(info.id), ResolutionView::Id { id: info.id->0 });
        if let Some(id) = self.id {
            if !id.as_str().is_empty() {
                strategies.push(Resolution::Id { id });
            }
        }
        assert(strategies.deep_view() =~= after_id);
        let ghost after_css = after_id + optional(
            present(info.css),
            ResolutionView::Css { selector: info.css->0 },
        );
        if let Some(selector) = self.css {
            if !selector.as_str().is_empty() {
                strategies.push(Resolution::Css { selector });
            }
        }
        assert(strategies.deep_view() =~= after_css);
        let ghost after_xpath = after_css + optional(
            present(info.xpath),
            ResolutionView::XPath { path: info.xpath->0 },
        );
        if let Some(path) = self.xpath {
            if !path.as_str().is_empty() {
                strategies.push(Resolution::XPath { path });
            }
        }
        assert(strategies.deep_view() =~= after_xpath);
        if let Some(text) = self.text_content {
            if !text.as_str().is_empty() {
                strategies.push(Resolution::TextContent { text });
            }
        }
        assert(strategies.deep_view() =~= info.strategies());
        Selector { strategies, tag }
    }

    /// Check if two `SelectorInfo`s refer to the same DOM element.
    ///
    /// Matches if they share a non-empty id, CSS selector, or `XPath` expression.
    pub fn same_element(&self, other: &Self) -> (same: bool)
        ensures
            same == self@.matches_element(other@),
    {
        is_shared(&self.id, &other.id) || is_shared(&self.css, &other.css) || is_shared(
            &self.xpath,
            &other.xpath,
        )
    }
}

/// Whether two selectors are about the same element does not depend on which
/// of them is asked.
pub proof fn law_same_element_symmetric(one: SelectorInfoView, other: SelectorInfoView)
    ensures
        one.matches_element(other) == other.matches_element(one),
{
}

/// Strategies come in the order id, CSS selector, `XPath`, visible text, each at
/// most once, and none of them is empty.
pub proof fn law_strategies_ordered(info: SelectorInfoView)
    ensures
        forall|i: int|
            0 <= i < info.strategies().len() ==> strategy_text(
                #[trigger] info.strategies()[i],
            ).len() > 0,
        forall|i: int, j: int|
            0 <= i < j < info.strategies().len() ==> rank(#[trigger] info.strategies()[i]) < rank(
                #[trigger] info.strategies()[j],
            ),
{
}

/// Every way that is known of an element becomes a strategy, and there are no others:
/// each strategy looks for what was given under its own kind.
pub proof fn law_strategies_complete(info: SelectorInfoView)
    ensures
        info.id is Some && info.id->0.len() > 0 ==> info.strategies().contains(
            ResolutionView::Id { id: info.id->0 },
        ),
        info.css is Some && info.css->0.len() > 0 ==> info.strategies().contains(
            ResolutionView::Css { selector: info.css->0 },
        ),
        info.xpath is Some && info.xpath->0.len() > 0 ==> info.strategies().contains(
            ResolutionView::XPath { path: info.xpath->0 },
        ),
        info.text_content is Some && info.text_content->0.len() > 0 ==> info.strategies().contains(
            ResolutionView::TextContent { text: info.text_content->0 },
        ),
        forall|i: int|
            0 <= i < info.strategies().len() ==> match #[trigger] info.strategies()[i] {
                ResolutionView::Id { id } => info.id == Some(id),
                ResolutionView::Css { selector } => info.css == Some(selector),
                ResolutionView::XPath { path } => info.xpath == Some(path),
                ResolutionView::TextContent { text } => info.text_content == Some(text),
            },
{
    let all = info.strategies();
    let ids: int = if present(info.id) { 1 } else { 0 };
    let css: int = if present(info.css) { 1 } else { 0 };
    let paths: int = if present(info.xpath) { 1 } else { 0 };
    assert(present(info.id) ==> all[0] == ResolutionView::Id { id: info.id->0 });
    assert(present(info.css) ==> all[ids] == ResolutionView::Css { selector: info.css->0 });
    assert(present(info.xpath) ==> all[ids + css] == ResolutionView::XPath { path: info.xpath->0 });
    assert(present(info.text_content) ==> all[ids + css + paths] == ResolutionView::TextContent {
        text: info.text_content->0,
    });
}

/// Two descriptions are of the same element exactly when they give the same id, the
/// same CSS selector or the same `XPath`, not empty. Visible text alone does not make
/// two elements the same.
pub proof fn law_same_element_by_identity(one: SelectorInfoView, other: SelectorInfoView)
    ensures
        one.matches_element(other) <==> {
            ||| one.id is Some && one.id->0.len() > 0 && other.id == one.id
            ||| one.css is Some && one.css->0.len() > 0 && other.css == one.css
            ||| one.xpath is Some && one.xpath->0.len() > 0 && other.xpath == one.xpath
        },
{
}

/// The place of a kind of strategy in the order in which they are tried.
pub open spec fn rank(strategy: ResolutionView) -> nat {
    match strategy {
        ResolutionView::Id { .. } => 0,
        ResolutionView::Css { .. } => 1,
        ResolutionView::XPath { .. } => 2,
        ResolutionView::TextContent { .. } => 3,
    }
}

/// What a strategy looks for.
pub open spec fn strategy_text(strategy: ResolutionView) -> Seq<char> {
    match strategy {
        ResolutionView::Id { id } => id,
        ResolutionView::Css { selector } => selector,
        ResolutionView::XPath { path } => path,
        ResolutionView::TextContent { text } => text,
    }
}

/// Commands processed by the training state machine.
#[derive(Debug)]
pub enum Command {
    // Browser events from the recorder JS.
    /// User clicked an element.
    BrowserClick { selector_info: SelectorInfo, tag: String },
    /// User typed into an element.
    BrowserInput { selector_info: SelectorInfo, tag: String, value: String },
    /// Browser navigated to a new URL.
    BrowserNavigation { url: String },
    /// User pressed the tab key to move between elements.
    BrowserTab { shift: bool },
    // User commands from the TUI.
    /// Advance to the next data row.
    AdvanceRow,
    /// Change the playback speed.
    SetSpeed(PlaybackSpeed),
    /// Set the rule for handling empty cells in a column.
    HandleEmptyCell { column: usize, rule: EmptyCellRule },
    /// Assign an unbound column to the most recent input step.
    HandleNewField { column: usize },
}

/// The contents of a [`Command`].
#[verifier::ext_equal]
pub enum CommandView {
    BrowserClick { selector_info: SelectorInfoView, tag: Seq<char> },
    BrowserInput { selector_info: SelectorInfoView, tag: Seq<char>, value: Seq<char> },
    BrowserNavigation { url: Seq<char> },
    BrowserTab { shift: bool },
    AdvanceRow,
    SetSpeed(PlaybackSpeed),
    HandleEmptyCell { column: usize, rule: EmptyCellView },
    HandleNewField { column: usize },
}

impl View for Command {
    type V = CommandView;

    open spec fn view(&self) -> CommandView {
        match *self {
            Command::BrowserClick { selector_info, tag } => CommandView::BrowserClick {
                selector_info: selector_info@,
                tag: tag@,
            },
            Command::BrowserInput { selector_info, tag, value } => CommandView::BrowserInput {
                selector_info: selector_info@,
                tag: tag@,
                value: value@,
            },
            Command::BrowserNavigation { url } => CommandView::BrowserNavigation { url: url@ },
            Command::BrowserTab { shift } => CommandView::BrowserTab { shift },
            Command::AdvanceRow => CommandView::AdvanceRow,
            Command::SetSpeed(speed) => CommandView::SetSpeed(speed),
            Command::HandleEmptyCell { column, rule } => CommandView::HandleEmptyCell {
                column,
                rule: rule@,
            },
            Command::HandleNewField { column } => CommandView::HandleNewField { column },
        }
    }
}

impl DeepView for Command {
    type V = CommandView;

    open spec fn deep_view(&self) -> CommandView {
        self@
    }
}

/// Events emitted by the training core for the TUI to render.
#[derive(Debug)]
pub enum TrainingEvent {
    /// A new step was recorded.
    StepRecorded { index: usize, step: Step },
    /// An existing step was updated (e.g. from incremental typing).
    StepUpdated { index: usize, step: Step },
    /// A data column was bound to a step.
    ColumnBound { column: usize, step_index: usize },
    /// All required columns in the current row are bound.
    RowComplete { row_index: usize },
    /// Training moved on to another data row.
    RowAdvanced { row_index: usize },
    /// Playback speed was changed.
    SpeedChanged(PlaybackSpeed),
    /// A bound column has an empty cell in the current row.
    EmptyCellEncountered { column: usize, row_index: usize },
    /// An unbound column has a non-empty value in the current row.
    NewFieldEncountered { column: usize, value: String },
    /// An error occurred.
    Error(String),
}

/// The contents of a [`TrainingEvent`].
#[verifier::ext_equal]
pub enum TrainingEventView {
    StepRecorded { index: nat, step: StepView },
    StepUpdated { index: nat, step: StepView },
    ColumnBound { column: nat, step_index: nat },
    RowComplete { row_index: nat },
    RowAdvanced { row_index: nat },
    SpeedChanged(PlaybackSpeed),
    EmptyCellEncountered { column: nat, row_index: nat },
    NewFieldEncountered { column: nat, value: Seq<char> },
    Error(Seq<char>),
}

impl View for TrainingEvent {
    type V = TrainingEventView;

    open spec fn view(&self) -> TrainingEventView {
        match *self {
            TrainingEvent::StepRecorded { index, step } => TrainingEventView::StepRecorded {
                index: index as nat,
                step: step@,
            },
            TrainingEvent::StepUpdated { index, step } => TrainingEventView::StepUpdated {
                index: index as nat,
                step: step@,
            },
            TrainingEvent::ColumnBound { column, step_index } => TrainingEventView::ColumnBound {
                column: column as nat,
                step_index: step_index as nat,
            },
            TrainingEvent::RowComplete { row_index } => TrainingEventView::RowComplete {
                row_index: row_index as nat,
            },
            TrainingEvent::RowAdvanced { row_index } => TrainingEventView::RowAdvanced {
                row_index: row_index as nat,
            },
            TrainingEvent::SpeedChanged(speed) => TrainingEventView::SpeedChanged(speed),
            TrainingEvent::EmptyCellEncountered { column, row_index } =>
                TrainingEventView::EmptyCellEncountered {
                column: column as nat,
                row_index: row_index as nat,
            },
            TrainingEvent::NewFieldEncountered { column, value } =>
                TrainingEventView::NewFieldEncountered { column: column as nat, value: value@ },
            TrainingEvent::Error(why) => TrainingEventView::Error(why@),
        }
    }
}

impl DeepView for TrainingEvent {
    type V = TrainingEventView;

    open spec fn deep_view(&self) -> TrainingEventView {
        self@
    }
}

} // verus!
