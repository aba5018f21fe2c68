//! Workflows: what a training session records and playback replays.
use std::collections::BTreeMap;
use vstd::prelude::*;
use crate::data::DataSourceConfig;
use crate::data::source::DataSourceView;
use crate::text;
use crate::time::Delay;

verus! {

/// How an element is found in the DOM.
#[derive(Debug, PartialEq)]
pub enum Resolution {
    /// Match by HTML `id` attribute.
    Id { id: String },
    /// Match by CSS selector.
    Css { selector: String },
    /// Match by `XPath` expression.
    XPath { path: String },
    /// Match by visible text content.
    TextContent { text: String },
}

/// The contents of a [`Resolution`].
#[verifier::ext_equal]
pub enum ResolutionView {
    Id { id: Seq<char> },
    Css { selector: Seq<char> },
    XPath { path: Seq<char> },
    TextContent { text: Seq<char> },
}

impl View for Resolution {
    type V = ResolutionView;

    open spec fn view(&self) -> ResolutionView {
        match *self {
            Resolution::Id { id } => ResolutionView::Id { id: id@ },
            Resolution::Css { selector } => ResolutionView::Css { selector: selector@ },
            Resolution::XPath { path } => ResolutionView::XPath { path: path@ },
            Resolution::TextContent { text } => ResolutionView::TextContent { text: text@ },
        }
    }
}

impl DeepView for Resolution {
    type V = ResolutionView;

    open spec fn deep_view(&self) -> ResolutionView {
        self@
    }
}

impl Clone for Resolution {
    fn clone(&self) -> (copy: Self)
        ensures
            copy@ == self@,
    {
        match self {
            Resolution::Id { id } => Resolution::Id { id: id.clone() },
            Resolution::Css { selector } => Resolution::Css { selector: selector.clone() },
            Resolution::XPath { path } => Resolution::XPath { path: path.clone() },
            Resolution::TextContent { text } => Resolution::TextContent { text: text.clone() },
        }
    }
}

/// Multi-strategy selector for a DOM element.
///
/// Contains one or more resolution strategies. During playback, strategies
/// are tried in order until one succeeds.
#[derive(Debug, PartialEq)]
pub struct Selector {
    /// Resolution strategies, tried in order.
    pub strategies: Vec<Resolution>,
    /// The HTML tag name of the target element (e.g. "INPUT", "BUTTON").
    pub tag: String,
}

/// The contents of a [`Selector`].
#[verifier::ext_equal]
pub struct SelectorView {
    pub strategies: Seq<ResolutionView>,
    pub tag: Seq<char>,
}

impl View for Selector {
    type V = SelectorView;

    open spec fn view(&self) -> SelectorView {
        SelectorView { strategies: self.strategies.deep_view(), tag: self.tag@ }
    }
}

impl DeepView for Selector {
    type V = SelectorView;

    open spec fn deep_view(&self) -> SelectorView {
        self@
    }
}

impl Clone for Selector {
    fn clone(&self) -> (copy: Self)
        ensures
            copy@ == self@,
    {
        let strategies = self.strategies.clone();
        assert(strategies.deep_view() =~= self.strategies.deep_view());
        Selector { strategies, tag: self.tag.clone() }
    }
}

/// Where a type step gets its value.
#[derive(Debug, PartialEq)]
pub enum ValueSource {
    /// Value comes from a data column.
    Column { index: usize },
    /// Static literal value, same for every row.
    Literal { value: String },
}

/// The contents of a [`ValueSource`].
#[verifier::ext_equal]
pub enum ValueSourceView {
    Column { index: nat },
    Literal { value: Seq<char> },
}

impl View for ValueSource {
    type V = ValueSourceView;

    open spec fn view(&self) -> ValueSourceView {
        match *self {
            ValueSource::Column { index } => ValueSourceView::Column { index: index as nat },
            ValueSource::Literal { value } => ValueSourceView::Literal { value: value@ },
        }
    }
}

impl Clone for ValueSource {
    fn clone(&self) -> (copy: Self)
        ensures
            copy@ == self@,
    {
        match self {
            ValueSource::Column { index } => ValueSource::Column { index: *index },
            ValueSource::Literal { value } => ValueSource::Literal { value: value.clone() },
        }
    }
}

/// A key that moves the focus while navigating a form.
#[derive(Debug, Clone, Copy, PartialEq, Eq, Structural)]
pub enum NavKey {
    Tab,
    ShiftTab,
}

impl DeepView for NavKey {
    type V = NavKey;

    open spec fn deep_view(&self) -> NavKey {
        *self
    }
}

/// How the user reached an element with the keyboard.
#[derive(Debug, PartialEq)]
pub struct NavigationPath {
    /// Where the keys start from; `None` when they start from the document.
    pub anchor: Option<Selector>,
    /// The keys pressed, in order.
    pub keys: Vec<NavKey>,
}

/// The contents of a [`NavigationPath`].
#[verifier::ext_equal]
pub struct NavigationView {
    pub anchor: Option<SelectorView>,
    pub keys: Seq<NavKey>,
}

impl View for NavigationPath {
    type V = NavigationView;

    open spec fn view(&self) -> NavigationView {
        NavigationView { anchor: self.anchor.deep_view(), keys: self.keys@ }
    }
}

impl DeepView for NavigationPath {
    type V = NavigationView;

    open spec fn deep_view(&self) -> NavigationView {
        self@
    }
}

impl Clone for NavigationPath {
    fn clone(&self) -> (copy: Self)
        ensures
            copy@ == self@,
    {
        let anchor = match &self.anchor {
            Some(anchor) => Some(anchor.clone()),
            None => None,
        };
        let keys = self.keys.clone();
        assert(keys@ =~= self.keys@);
        NavigationPath { anchor, keys }
    }
}

/// Copies an optional navigation path.
pub fn copied_navigation(navigation: &Option<NavigationPath>) -> (copy: Option<NavigationPath>)
    ensures
        copy.deep_view() == navigation.deep_view(),
{
    match navigation {
        Some(path) => Some(path.clone()),
        None => None,
    }
}

/// A single recorded action in the workflow.
#[derive(Debug, PartialEq)]
pub enum Step {
    /// Click on an element.
    Click { selector: Selector, navigation: Option<NavigationPath> },
    /// Type a value into an element.
    Type { selector: Selector, source: ValueSource, navigation: Option<NavigationPath> },
    /// Wait for a browser navigation to complete.
    ///
    /// This step does not trigger navigation itself; it waits for a navigation
    /// that was triggered by the previous step (typically a form submit or
    /// click). The engine subscribes to browser events before executing the
    /// previous step to avoid a race condition.
    WaitForNavigation,
}

/// The contents of a [`Step`].
#[verifier::ext_equal]
pub enum StepView {
    Click { selector: SelectorView, navigation: Option<NavigationView> },
    Type { selector: SelectorView, source: ValueSourceView, navigation: Option<NavigationView> },
    WaitForNavigation,
}

impl StepView {
    /// The navigation path that was recorded with a step.
    pub open spec fn navigation(self) -> Option<NavigationView> {
        match self {
            StepView::Click { navigation, .. } => navigation,
            StepView::Type { navigation, .. } => navigation,
            StepView::WaitForNavigation => None,
        }
    }

    /// The element that a step acts on.
    pub open spec fn selector(self) -> Option<SelectorView> {
        match self {
            StepView::Click { selector, .. } => Some(selector),
            StepView::Type { selector, .. } => Some(selector),
            StepView::WaitForNavigation => None,
        }
    }

    /// Whether the step types the cell of a column.
    pub open spec fn types_column(self, column: nat) -> bool {
        self is Type && self->source == (ValueSourceView::Column { index: column })
    }
}

impl View for Step {
    type V = StepView;

    open spec fn view(&self) -> StepView {
        match *self {
            Step::Click { selector, navigation } => StepView::Click {
                selector: selector@,
                navigation: navigation.deep_view(),
            },
            Step::Type { selector, source, navigation } => StepView::Type {
                selector: selector@,
                source: source@,
                navigation: navigation.deep_view(),
            },
            Step::WaitForNavigation => StepView::WaitForNavigation,
        }
    }
}

impl DeepView for Step {
    type V = StepView;

    open spec fn deep_view(&self) -> StepView {
        self@
    }
}

impl Clone for Step {
    fn clone(&self) -> (copy: Self)
        ensures
            copy@ == self@,
    {
        match self {
            Step::Click { selector, navigation } => Step::Click {
                selector: selector.clone(),
                navigation: copied_navigation(navigation),
            },
            Step::Type { selector, source, navigation } => Step::Type {
                selector: selector.clone(),
                source: source.clone(),
                navigation: copied_navigation(navigation),
            },
            Step::WaitForNavigation => Step::WaitForNavigation,
        }
    }
}

/// What to do when a cell is blank for a bound column.
#[derive(Debug, PartialEq)]
pub enum EmptyCellRule {
    /// Skip the step entirely.
    Skip,
    /// Clear the field.
    Clear,
    /// Use a default value.
    Default { value: String },
}

/// The contents of an [`EmptyCellRule`].
#[verifier::ext_equal]
pub enum EmptyCellView {
    Skip,
    Clear,
    Default { value: Seq<char> },
}

impl View for EmptyCellRule {
    type V = EmptyCellView;

    open spec fn view(&self) -> EmptyCellView {
        match *self {
            EmptyCellRule::Skip => EmptyCellView::Skip,
            EmptyCellRule::Clear => EmptyCellView::Clear,
            EmptyCellRule::Default { value } => EmptyCellView::Default { value: value@ },
        }
    }
}

impl DeepView for EmptyCellRule {
    type V = EmptyCellView;

    open spec fn deep_view(&self) -> EmptyCellView {
        self@
    }
}

impl Clone for EmptyCellRule {
    fn clone(&self) -> (copy: Self)
        ensures
            copy == *self,
    {
        match self {
            EmptyCellRule::Skip => EmptyCellRule::Skip,
            EmptyCellRule::Clear => EmptyCellRule::Clear,
            EmptyCellRule::Default { value } => EmptyCellRule::Default { value: value.clone() },
        }
    }
}

/// The rules for empty cells, by column.
pub open spec fn rules_view(rules: Map<usize, EmptyCellRule>) -> Map<usize, EmptyCellView> {
    rules.map_values(|rule: EmptyCellRule| rule@)
}

/// Playback speed levels.
///
/// Controls the pacing granularity during playback. Step is the most granular
/// (pause after each field), Walk pauses between rows, Run goes continuously.
/// Pause (Space) can halt at any speed: there is no separate "manual" level.
#[derive(Debug, Clone, Copy, PartialEq, Eq, Structural)]
pub enum PlaybackSpeed {
    /// Pause after each field fill (Type step). Clicks and navigations auto-advance.
    Step,
    /// Pause at end of each row. Steps within a row auto-advance with delay.
    Walk,
    /// Fully automatic. No gates.
    Run,
}

impl Default for PlaybackSpeed {
    fn default() -> (speed: Self)
        ensures
            speed == PlaybackSpeed::Step,
    {
        PlaybackSpeed::Step
    }
}

/// Current workflow format version.
pub const FORMAT_VERSION: u32 = 2;

/// The format version that had no delays; its files are no longer supported.
pub const OUTDATED_VERSION: u32 = 1;

/// Whether a format version is one that can be played back: neither the outdated
/// one nor one that is newer than the current one.
pub open spec fn supported(version: nat) -> bool {
    version != OUTDATED_VERSION && version <= FORMAT_VERSION
}

/// The longest delay a workflow may hold, in milliseconds.
pub const MAX_DELAY_MILLIS: u64 = 30_000;

/// A complete workflow: the artifact that bridges sessions.
///
/// Contains everything needed to replay a recorded data entry sequence.
#[derive(Debug, PartialEq)]
pub struct Workflow {
    /// Format version for forward compatibility.
    pub version: u32,
    /// Number of data columns this workflow expects.
    pub column_count: usize,
    /// The recorded sequence of actions.
    pub steps: Vec<Step>,
    /// Per-step delay captured during training.
    ///
    /// `step_delays[i]` is the elapsed time before step `i` was recorded
    /// (relative to the previous step, or zero for the first step).
    /// Always has exactly `steps.len()` entries in a valid workflow.
    pub step_delays: Vec<Delay>,
    /// Delay from the last step to when the row was finalized during training.
    ///
    /// Used during playback to pace the transition between rows.
    pub row_end_delay: Delay,
    /// Per-column binding: `column_bindings[col]` is `Some(step_index)` when
    /// that column is bound to a [`Step::Type`] step. Always has exactly
    /// `column_count` entries in a valid workflow; `None` means the column is
    /// not yet bound.
    pub column_bindings: Vec<Option<usize>>,
    /// Per-column rules for handling empty cells.
    pub empty_cell_rules: BTreeMap<usize, EmptyCellRule>,
    /// How the data was originally loaded (so playback can reload it).
    pub data_source: Option<DataSourceConfig>,
}

/// The contents of a [`Workflow`], with delays in nanoseconds.
#[verifier::ext_equal]
pub struct WorkflowView {
    pub version: nat,
    pub column_count: nat,
    pub steps: Seq<StepView>,
    pub step_delays: Seq<nat>,
    pub row_end_delay: nat,
    pub column_bindings: Seq<Option<usize>>,
    pub empty_cell_rules: Map<usize, EmptyCellView>,
    pub data_source: Option<DataSourceView>,
}

impl View for Workflow {
    type V = WorkflowView;

    open spec fn view(&self) -> WorkflowView {
        WorkflowView {
            version: self.version as nat,
            column_count: self.column_count as nat,
            steps: self.steps.deep_view(),
            step_delays: self.step_delays.deep_view(),
            row_end_delay: self.row_end_delay@,
            column_bindings: self.column_bindings@,
            empty_cell_rules: rules_view(self.empty_cell_rules@),
            data_source: self.data_source.deep_view(),
        }
    }
}

/// Errors from workflow serialization and validation.
#[allow(inconsistent_fields)]
#[derive(Debug, PartialEq)]
pub enum WorkflowError {
    /// The file could not be read or written.
    Io(String),
    /// The text is not a workflow in JSON.
    Json(String),
    UnsupportedVersion { found: u32, max: u32 },
    InvalidBinding { step_index: usize, step_count: usize },
    InvalidEmptyCellRule { column: usize, column_count: usize },
    ColumnBindingLengthMismatch { expected: usize, found: usize },
    StepDelayLengthMismatch { expected: usize, found: usize },
    DelayTooLarge { millis: u64, max: u64 },
    BindingNotTypeStep { column: usize, step_index: usize },
}

/// The message of a workflow error.
pub open spec fn error_text(error: WorkflowError) -> Seq<char> {
    match error {
        WorkflowError::Io(why) => "I/O error: "@ + why@,
        WorkflowError::Json(why) => "JSON error: "@ + why@,
        WorkflowError::UnsupportedVersion { found, max } => "unsupported workflow version: "@
            + text::decimal(found as nat) + " (max supported: "@ + text::decimal(max as nat)
            + ")"@,
        WorkflowError::InvalidBinding { step_index, step_count } =>
            "column binding references step "@ + text::decimal(step_index as nat) + ", but only "@
            + text::decimal(step_count as nat) + " steps exist"@,
        WorkflowError::InvalidEmptyCellRule { column, column_count } =>
            "empty cell rule references column "@ + text::decimal(column as nat) + ", but only "@
            + text::decimal(column_count as nat) + " columns exist"@,
        WorkflowError::ColumnBindingLengthMismatch { expected, found } => "column_bindings has "@
            + text::decimal(found as nat) + " entries but column_count is "@ + text::decimal(
            expected as nat,
        ),
        WorkflowError::StepDelayLengthMismatch { expected, found } => "step_delays has "@
            + text::decimal(found as nat) + " entries but steps has "@ + text::decimal(
            expected as nat,
        ),
        WorkflowError::DelayTooLarge { millis, max } => "delay value "@ + text::decimal(
            millis as nat,
        ) + "ms exceeds maximum ("@ + text::decimal(max as nat) + "ms)"@,
        WorkflowError::BindingNotTypeStep { column, step_index } => "column "@ + text::decimal(
            column as nat,
        ) + " is bound to step "@ + text::decimal(step_index as nat)
            + ", which is not a Type step"@,
    }
}

impl WorkflowError {
    /// The message shown to the user.
    pub fn message(&self) -> (message: String)
        ensures
            message@ == error_text(*self),
    {
        match self {
            WorkflowError::Io(why) => text::joined("I/O error: ", why),
            WorkflowError::Json(why) => text::joined("JSON error: ", why),
            WorkflowError::UnsupportedVersion { found, max } => {
                let mut message = numbered(
                    "unsupported workflow version: ",
                    *found as u128,
                    " (max supported: ",
                    *max as u128,
                );
                message.append(")");
                message
            },
            WorkflowError::InvalidBinding { step_index, step_count } => {
                let mut message = numbered(
                    "column binding references step ",
                    *step_index as u128,
                    ", but only ",
                    *step_count as u128,
                );
                message.append(" steps exist");
                message
            },
            WorkflowError::InvalidEmptyCellRule { column, column_count } => {
                let mut message = numbered(
                    "empty cell rule references column ",
                    *column as u128,
                    ", but only ",
                    *column_count as u128,
                );
                message.append(" columns exist");
                message
            },
            WorkflowError::ColumnBindingLengthMismatch { expected, found } => numbered(
                "column_bindings has ",
                *found as u128,
                " entries but column_count is ",
                *expected as u128,
            ),
            WorkflowError::StepDelayLengthMismatch { expected, found } => numbered(
                "step_delays has ",
                *found as u128,
                " entries but steps has ",
                *expected as u128,
            ),
            WorkflowError::DelayTooLarge { millis, max } => {
                let mut message = numbered(
                    "delay value ",
                    *millis as u128,
                    "ms exceeds maximum (",
                    *max as u128,
                );
                message.append("ms)");
                message
            },
            WorkflowError::BindingNotTypeStep { column, step_index } => {
                let mut message = numbered(
                    "column ",
                    *column as u128,
                    " is bound to step ",
                    *step_index as u128,
                );
                message.append(", which is not a Type step");
                message
            },
        }
    }
}

/// Two pieces of text, each with a number behind it.
fn numbered(before: &str, first: u128, between: &str, second: u128) -> (message: String)
    ensures
        message@ == before@ + text::decimal(first as nat) + between@ + text::decimal(second as nat),
{
    let mut message = before.to_owned();
    message.append(&text::decimal_text(first));
    message.append(between);
    message.append(&text::decimal_text(second));
    message
}

/// Whether a delay, in nanoseconds, is longer than a workflow may hold.
pub open spec fn too_long(delay: nat) -> bool {
    delay > MAX_DELAY_MILLIS * crate::time::NANOS_PER_MILLI
}

/// The whole milliseconds of a delay, cut off at what 64 bits hold.
pub open spec fn reported_millis(delay: nat) -> nat {
    let millis = delay / (crate::time::NANOS_PER_MILLI as nat);
    if millis > u64::MAX {
        u64::MAX as nat
    } else {
        millis
    }
}

impl WorkflowView {
    /// The format is supported, and the bindings and delays are as many as the
    /// columns and steps.
    pub open spec fn sized(self) -> bool {
        &&& supported(self.version)
        &&& self.column_bindings.len() == self.column_count
        &&& self.step_delays.len() == self.steps.len()
    }

    /// The first `n` step delays are not too long.
    pub open spec fn delays_fit(self, n: int) -> bool {
        forall|i: int| 0 <= i < n ==> !too_long(#[trigger] self.step_delays[i])
    }

    /// The binding of a column, if any, is to a [`Step::Type`] step.
    pub open spec fn binding_fits(self, column: int) -> bool {
        self.column_bindings[column] matches Some(step) ==> step < self.steps.len()
            && self.steps[step as int] is Type
    }

    /// The bindings of the first `n` columns are to [`Step::Type`] steps.
    pub open spec fn bindings_fit(self, n: int) -> bool {
        forall|column: int| 0 <= column < n ==> #[trigger] self.binding_fits(column)
    }

    /// Every empty-cell rule is for a column that exists.
    pub open spec fn rules_fit(self) -> bool {
        forall|column: usize| #[trigger]
            self.empty_cell_rules.contains_key(column) ==> column < self.column_count
    }

    /// The format is supported, lengths agree, delays are bounded, and
    /// bindings and rules refer to what exists.
    pub open spec fn valid(self) -> bool {
        &&& self.sized()
        &&& self.delays_fit(self.steps.len() as int)
        &&& !too_long(self.row_end_delay)
        &&& self.bindings_fit(self.column_count as int)
        &&& self.rules_fit()
    }

    /// The first fault of a workflow, in the order in which they are looked for:
    /// version, lengths, delays, bindings, rules.
    pub open spec fn fault(self, error: WorkflowError) -> bool {
        match error {
            WorkflowError::UnsupportedVersion { found, max } => {
                &&& !supported(self.version)
                &&& found == self.version
                &&& max == FORMAT_VERSION
            },
            WorkflowError::ColumnBindingLengthMismatch { expected, found } => {
                &&& supported(self.version)
                &&& expected == self.column_count
                &&& found == self.column_bindings.len()
                &&& expected != found
            },
            WorkflowError::StepDelayLengthMismatch { expected, found } => {
                &&& supported(self.version)
                &&& self.column_bindings.len() == self.column_count
                &&& expected == self.steps.len()
                &&& found == self.step_delays.len()
                &&& expected != found
            },
            WorkflowError::DelayTooLarge { millis, max } => {
                &&& self.sized()
                &&& max == MAX_DELAY_MILLIS
                &&& {
                    ||| exists|i: int|
                        {
                            &&& 0 <= i < self.steps.len()
                            &&& self.delays_fit(i)
                            &&& too_long(#[trigger] self.step_delays[i])
                            &&& millis == reported_millis(self.step_delays[i])
                        }
                    ||| {
                        &&& self.delays_fit(self.steps.len() as int)
                        &&& too_long(self.row_end_delay)
                        &&& millis == reported_millis(self.row_end_delay)
                    }
                }
            },
            WorkflowError::InvalidBinding { step_index, step_count } => {
                &&& self.sized()
                &&& self.delays_fit(self.steps.len() as int)
                &&& !too_long(self.row_end_delay)
                &&& step_count == self.steps.len()
                &&& step_index >= step_count
                &&& exists|column: int|
                    {
                        &&& 0 <= column < self.column_count
                        &&& self.bindings_fit(column)
                        &&& #[trigger] self.column_bindings[column] == Some(step_index)
                    }
            },
            WorkflowError::BindingNotTypeStep { column, step_index } => {
                &&& self.sized()
                &&& self.delays_fit(self.steps.len() as int)
                &&& !too_long(self.row_end_delay)
                &&& column < self.column_count
                &&& self.bindings_fit(column as int)
                &&& self.column_bindings[column as int] == Some(step_index)
                &&& step_index < self.steps.len()
                &&& self.steps[step_index as int] !is Type
            },
            WorkflowError::InvalidEmptyCellRule { column, column_count } => {
                &&& self.sized()
                &&& self.delays_fit(self.steps.len() as int)
                &&& !too_long(self.row_end_delay)
                &&& self.bindings_fit(self.column_count as int)
                &&& column_count == self.column_count
                &&& column >= column_count
                &&& self.empty_cell_rules.contains_key(column)
                &&& forall|other: usize| #[trigger]
                    self.empty_cell_rules.contains_key(other) && other >= column_count ==> column
                        <= other
            },
            WorkflowError::Io(_) => false,
            WorkflowError::Json(_) => false,
        }
    }
}

impl Clone for Workflow {
    fn clone(&self) -> (copy: Self)
        ensures
            copy@ == self@,
    {
        let steps = self.steps.clone();
        let step_delays = self.step_delays.clone();
        let column_bindings = self.column_bindings.clone();
        let empty_cell_rules = self.empty_cell_rules.clone();
        let data_source = match &self.data_source {
            Some(source) => Some(source.clone()),
            None => None,
        };
        assert(steps.deep_view() =~= self.steps.deep_view());
        assert(step_delays.deep_view() =~= self.step_delays.deep_view());
        assert(column_bindings@ =~= self.column_bindings@);
        Workflow {
            version: self.version,
            column_count: self.column_count,
            steps,
            step_delays,
            row_end_delay: self.row_end_delay,
            column_bindings,
            empty_cell_rules,
            data_source,
        }
    }
}

/// The delay error for a delay that is too long.
fn delay_error(delay: &Delay) -> (error: WorkflowError)
    ensures
        error == (WorkflowError::DelayTooLarge {
            millis: reported_millis(delay@) as u64,
            max: MAX_DELAY_MILLIS,
        }),
{
    let millis: u128 = delay.as_millis();
    let shown: u64 = if millis > u64::MAX as u128 {
        u64::MAX
    } else {
        millis as u64
    };
    WorkflowError::DelayTooLarge { millis: shown, max: MAX_DELAY_MILLIS }
}

impl Workflow {
    /// Create a new workflow with the current format version.
    pub fn new(
        column_count: usize,
        steps: Vec<Step>,
        step_delays: Vec<Delay>,
        row_end_delay: Delay,
        column_bindings: Vec<Option<usize>>,
        empty_cell_rules: BTreeMap<usize, EmptyCellRule>,
        data_source: Option<DataSourceConfig>,
    ) -> (workflow: Self)
        ensures
            workflow@ == (WorkflowView {
                version: FORMAT_VERSION as nat,
                column_count: column_count as nat,
                steps: steps.deep_view(),
                step_delays: step_delays.deep_view(),
                row_end_delay: row_end_delay@,
                column_bindings: column_bindings@,
                empty_cell_rules: rules_view(empty_cell_rules@),
                data_source: data_source.deep_view(),
            }),
    {
        Workflow {
            version: FORMAT_VERSION,
            column_count,
            steps,
            step_delays,
            row_end_delay,
            column_bindings,
            empty_cell_rules,
            data_source,
        }
    }

    /// Validate internal consistency.
    ///
    /// # Errors
    ///
    /// Returns an error if the version is unsupported or references are invalid.
    pub fn validate(&self) -> (outcome: Result<(), WorkflowError>)
        ensures
            match outcome {
                Ok(_) => self@.valid(),
                Err(error) => self@.fault(error),
            },
    {
        if self.version == OUTDATED_VERSION || self.version > FORMAT_VERSION {
            return Err(
                WorkflowError::UnsupportedVersion { found: self.version, max: FORMAT_VERSION },
            );
        }
        if self.column_bindings.len() != self.column_count {
            return Err(
                WorkflowError::ColumnBindingLengthMismatch {
                    expected: self.column_count,
                    found: self.column_bindings.len(),
                },
            );
        }
        if self.step_delays.len() != self.steps.len() {
            return Err(
                WorkflowError::StepDelayLengthMismatch {
                    expected: self.steps.len(),
                    found: self.step_delays.len(),
                },
            );
        }
        self.validate_delays()?;
        self.validate_bindings()?;
        self.validate_rules()
    }

    /// Rejects absurdly large delays; real training delays are sub-second.
    fn validate_delays(&self) -> (outcome: Result<(), WorkflowError>)
        requires
            self@.sized(),
        ensures
            match outcome {
                Ok(_) => self@.delays_fit(self@.steps.len() as int) && !too_long(
                    self@.row_end_delay,
                ),
                Err(error) => self@.fault(error),
            },
    {
        let longest: u128 = MAX_DELAY_MILLIS as u128 * crate::time::NANOS_PER_MILLI;
        let mut i: usize = 0;
        while i < self.step_delays.len()
            invariant
                i <= self.step_delays.len(),
                self@.sized(),
                self@.delays_fit(i as int),
                longest == MAX_DELAY_MILLIS * crate::time::NANOS_PER_MILLI,
            decreases self.step_delays.len() - i,
        {
            assert(self@.step_delays[i as int] == self.step_delays@[i as int]@);
            if self.step_delays[i].as_nanos() > longest {
                return Err(delay_error(&self.step_delays[i]));
            }
            i = i + 1;
        }
        if self.row_end_delay.as_nanos() > longest {
            return Err(delay_error(&self.row_end_delay));
        }
        Ok(())
    }

    /// Rejects bindings to what is not a [`Step::Type`] step.
    fn validate_bindings(&self) -> (outcome: Result<(), WorkflowError>)
        requires
            self@.sized(),
            self@.delays_fit(self@.steps.len() as int),
            !too_long(self@.row_end_delay),
        ensures
            match outcome {
                Ok(_) => self@.bindings_fit(self@.column_count as int),
                Err(error) => self@.fault(error),
            },
    {
        let mut column: usize = 0;
        while column < self.column_bindings.len()
            invariant
                column <= self.column_bindings.len(),
                self@.sized(),
                self@.delays_fit(self@.steps.len() as int),
                !too_long(self@.row_end_delay),
                self@.bindings_fit(column as int),
            decreases self.column_bindings.len() - column,
        {
            if let Some(step_index) = self.column_bindings[column] {
                assert(self@.column_bindings[column as int] == Some(step_index));
                if step_index >= self.steps.len() {
                    return Err(
                        WorkflowError::InvalidBinding { step_index, step_count: self.steps.len() },
                    );
                }
                assert(self@.steps[step_index as int] == self.steps@[step_index as int]@);
                if !matches!(self.steps[step_index], Step::Type { .. }) {
                    return Err(WorkflowError::BindingNotTypeStep { column, step_index });
                }
            }
            assert(self@.binding_fits(column as int));
            column = column + 1;
        }
        Ok(())
    }

    /// Rejects empty-cell rules for columns that do not exist.
    fn validate_rules(&self) -> (outcome: Result<(), WorkflowError>)
        requires
            self@.sized(),
            self@.delays_fit(self@.steps.len() as int),
            !too_long(self@.row_end_delay),
            self@.bindings_fit(self@.column_count as int),
        ensures
            match outcome {
                Ok(_) => self@.rules_fit(),
                Err(error) => self@.fault(error),
            },
    {
        broadcast use vstd::std_specs::btree::group_btree_axioms;

        let mut lowest: Option<usize> = None;
        for key in it: self.empty_cell_rules.keys()
            invariant
                it.seq().unref().to_set() == self.empty_cell_rules@.dom(),
                lowest matches Some(column) ==> {
                    &&& column >= self.column_count
                    &&& self.empty_cell_rules@.contains_key(column)
                },
                forall|k: int|
                    0 <= k < it.index() && *(#[trigger] it.seq()[k]) >= self.column_count
                        ==> lowest is Some && lowest->0 <= *it.seq()[k],
        {
            let ghost i = it.index();
            proof {
                assert(it.seq().unref()[i] == *key);
                assert(it.seq().unref().to_set().contains(*key));
            }
            if *key >= self.column_count {
                match lowest {
                    Some(column) => {
                        if *key < column {
                            lowest = Some(*key);
                        }
                    },
                    None => {
                        lowest = Some(*key);
                    },
                }
            }
        }
        proof {
            let keys = vstd::std_specs::iter::IteratorSpec::remaining(
                &vstd::std_specs::btree::spec_keys_iter(&self.empty_cell_rules),
            );
            assert forall|other: usize| #[trigger]
                self@.empty_cell_rules.contains_key(other) && other
                    >= self.column_count implies lowest is Some && lowest->0 <= other by {
                assert(keys.unref().to_set().contains(other));
                let k = choose|k: int|
                    0 <= k < keys.unref().len() && #[trigger] keys.unref()[k] == other;
                assert(*keys[k] == other);
            }
        }
        match lowest {
            Some(column) => Err(
                WorkflowError::InvalidEmptyCellRule { column, column_count: self.column_count },
            ),
            None => Ok(()),
        }
    }
}

/// A workflow that is found at fault is not valid.
pub proof fn law_fault_excludes_valid(workflow: WorkflowView, error: WorkflowError)
    requires
        workflow.fault(error),
    ensures
        !workflow.valid(),
{
    match error {
        WorkflowError::InvalidBinding { step_index, step_count } => {
            let column = choose|column: int|
                {
                    &&& 0 <= column < workflow.column_count
                    &&& workflow.bindings_fit(column)
                    &&& #[trigger] workflow.column_bindings[column] == Some(step_index)
                };
            assert(!workflow.binding_fits(column));
        },
        WorkflowError::BindingNotTypeStep { column, .. } => {
            assert(!workflow.binding_fits(column as int));
        },
        _ => {},
    }
}

/// No workflow has two different first faults.
pub proof fn law_fault_unique(workflow: WorkflowView, one: WorkflowError, other: WorkflowError)
    requires
        workflow.fault(one),
        workflow.fault(other),
    ensures
        one == other,
{
    law_fault_excludes_valid(workflow, one);
    let a = first_misfit(workflow, one);
    let b = first_misfit(workflow, other);
}

/// The column whose binding a binding error is about.
proof fn first_misfit(workflow: WorkflowView, error: WorkflowError) -> (column: int)
    requires
        workflow.fault(error),
    ensures
        error is InvalidBinding || error is BindingNotTypeStep ==> {
            &&& 0 <= column < workflow.column_count
            &&& workflow.bindings_fit(column)
            &&& !workflow.binding_fits(column)
            &&& error is InvalidBinding ==> workflow.column_bindings[column] == Some(
                error->InvalidBinding_step_index,
            )
            &&& error is BindingNotTypeStep ==> column == error->BindingNotTypeStep_column
        },
{
    match error {
        WorkflowError::InvalidBinding { step_index, .. } => choose|column: int|
            {
                &&& 0 <= column < workflow.column_count
                &&& workflow.bindings_fit(column)
                &&& #[trigger] workflow.column_bindings[column] == Some(step_index)
            },
        WorkflowError::BindingNotTypeStep { column, .. } => column as int,
        _ => 0,
    }
}

/// A workflow is valid exactly when its format is the current one or older than the
/// outdated one, there is a binding for each column and a delay for each step, no delay
/// is over half a minute, every bound column is bound to a recorded step that types,
/// and every rule is for a column.
pub proof fn law_what_is_valid(workflow: WorkflowView)
    ensures
        workflow.valid() <==> {
            &&& workflow.version == 0 || workflow.version == 2
            &&& workflow.column_bindings.len() == workflow.column_count
            &&& workflow.step_delays.len() == workflow.steps.len()
            &&& forall|i: int|
                0 <= i < workflow.steps.len() ==> #[trigger] workflow.step_delays[i]
                    <= 30_000_000_000
            &&& workflow.row_end_delay <= 30_000_000_000
            &&& forall|column: int|
                0 <= column < workflow.column_count && (
                #[trigger] workflow.column_bindings[column]) is Some
                    ==> workflow.column_bindings[column]->0 < workflow.steps.len()
                    && workflow.steps[workflow.column_bindings[column]->0 as int] is Type
            &&& forall|column: usize|
                column >= workflow.column_count
                    ==> !#[trigger] workflow.empty_cell_rules.contains_key(column)
        },
{
    let bound = forall|column: int|
        0 <= column < workflow.column_count && (#[trigger] workflow.column_bindings[column]) is Some
            ==> workflow.column_bindings[column]->0 < workflow.steps.len()
            && workflow.steps[workflow.column_bindings[column]->0 as int] is Type;
    if workflow.bindings_fit(workflow.column_count as int) {
        assert forall|column: int|
            0 <= column < workflow.column_count && (
            #[trigger] workflow.column_bindings[column]) is Some implies
            workflow.column_bindings[column]->0 < workflow.steps.len()
            && workflow.steps[workflow.column_bindings[column]->0 as int] is Type by {
            assert(workflow.binding_fits(column));
        }
    }
    assert(bound ==> workflow.bindings_fit(workflow.column_count as int));
}

/// What an error names is what is wrong with the workflow: the version it has, the
/// lengths that differ, a delay over half a minute in whole milliseconds, a binding to
/// a step that is missing or does not type, or a rule for a missing column.
pub proof fn law_fault_is_there(workflow: WorkflowView, error: WorkflowError)
    requires
        workflow.fault(error),
    ensures
        match error {
            WorkflowError::UnsupportedVersion { found, max } => {
                &&& found == workflow.version
                &&& found == 1 || found > 2
                &&& max == 2
            },
            WorkflowError::ColumnBindingLengthMismatch { expected, found } => {
                &&& expected == workflow.column_count
                &&& found == workflow.column_bindings.len()
                &&& expected != found
            },
            WorkflowError::StepDelayLengthMismatch { expected, found } => {
                &&& expected == workflow.steps.len()
                &&& found == workflow.step_delays.len()
                &&& expected != found
            },
            WorkflowError::DelayTooLarge { millis, max } => {
                &&& max == 30_000
                &&& {
                    ||| is_reported(workflow.row_end_delay, millis)
                    ||| exists|i: int|
                        0 <= i < workflow.steps.len() && #[trigger] is_reported(
                            workflow.step_delays[i],
                            millis,
                        )
                }
            },
            WorkflowError::InvalidBinding { step_index, step_count } => {
                &&& step_count == workflow.steps.len()
                &&& step_index >= step_count
                &&& workflow.column_bindings.contains(Some(step_index))
            },
            WorkflowError::BindingNotTypeStep { column, step_index } => {
                &&& column < workflow.column_bindings.len()
                &&& workflow.column_bindings[column as int] == Some(step_index)
                &&& step_index < workflow.steps.len()
                &&& workflow.steps[step_index as int] !is Type
            },
            WorkflowError::InvalidEmptyCellRule { column, column_count } => {
                &&& column_count == workflow.column_count
                &&& column >= column_count
                &&& workflow.empty_cell_rules.contains_key(column)
            },
            _ => false,
        },
{
    match error {
        WorkflowError::DelayTooLarge { millis, .. } => {
            if !too_long(workflow.row_end_delay) || millis != reported_millis(
                workflow.row_end_delay,
            ) || !workflow.delays_fit(workflow.steps.len() as int) {
                let i = choose|i: int|
                    {
                        &&& 0 <= i < workflow.steps.len()
                        &&& workflow.delays_fit(i)
                        &&& too_long(#[trigger] workflow.step_delays[i])
                        &&& millis == reported_millis(workflow.step_delays[i])
                    };
                assert(is_reported(workflow.step_delays[i], millis));
            }
        },
        WorkflowError::InvalidBinding { step_index, .. } => {
            let column = first_misfit(workflow, error);
            assert(workflow.column_bindings[column] == Some(step_index));
        },
        _ => {},
    }
}

/// A delay over half a minute is reported in whole milliseconds, or as the largest
/// number there is where that is too small.
pub open spec fn is_reported(delay: nat, millis: u64) -> bool {
    &&& delay > 30_000_000_000
    &&& millis * 1_000_000 <= delay
    &&& delay < (millis + 1) * 1_000_000 || millis == u64::MAX
}

/// Faults are looked for in an order, and of several faults of a kind the first is
/// reported: an error about a delay means that versions and lengths are right, one
/// about a binding that delays are right too, and one about a rule that all else is.
pub proof fn law_first_fault_is_reported(workflow: WorkflowView, error: WorkflowError, i: int)
    requires
        workflow.fault(error),
    ensures
        workflow.version == 1 || workflow.version > 2 ==> error is UnsupportedVersion,
        error is UnsupportedVersion || workflow.column_bindings.len() == workflow.column_count
            || error is ColumnBindingLengthMismatch,
        error is DelayTooLarge || error is InvalidBinding || error is BindingNotTypeStep
            || error is InvalidEmptyCellRule ==> workflow.column_bindings.len()
            == workflow.column_count && workflow.step_delays.len() == workflow.steps.len(),
        error is InvalidBinding || error is BindingNotTypeStep || error is InvalidEmptyCellRule
            ==> workflow.row_end_delay <= 30_000_000_000 && (0 <= i < workflow.steps.len()
            ==> workflow.step_delays[i] <= 30_000_000_000),
        // The first delay that is too long is the one that is reported.
        error is DelayTooLarge && 0 <= i < workflow.steps.len() && workflow.step_delays[i]
            > 30_000_000_000 && (forall|j: int|
            0 <= j < i ==> #[trigger] workflow.step_delays[j] <= 30_000_000_000) ==> is_reported(
            workflow.step_delays[i],
            error->DelayTooLarge_millis,
        ),
        // The first column that is wrongly bound is the one that is reported.
        error is BindingNotTypeStep && 0 <= i < error->BindingNotTypeStep_column
            && workflow.column_bindings[i] is Some ==> workflow.column_bindings[i]->0
            < workflow.steps.len() && workflow.steps[workflow.column_bindings[i]->0 as int] is Type,
        error is InvalidEmptyCellRule && 0 <= i < workflow.column_count
            && workflow.column_bindings[i] is Some ==> workflow.column_bindings[i]->0
            < workflow.steps.len() && workflow.steps[workflow.column_bindings[i]->0 as int] is Type,
        // The lowest column that has a rule and does not exist is the one that is reported.
        error is InvalidEmptyCellRule && workflow.column_count <= i
            < error->InvalidEmptyCellRule_column ==> !workflow.empty_cell_rules.contains_key(
            i as usize,
        ),
{
    assert(workflow.binding_fits(i) ==> (workflow.column_bindings[i] is Some
        ==> workflow.column_bindings[i]->0 < workflow.steps.len()
        && workflow.steps[workflow.column_bindings[i]->0 as int] is Type));
    if error is DelayTooLarge && 0 <= i < workflow.steps.len() && workflow.step_delays[i]
        > 30_000_000_000 && (forall|j: int|
        0 <= j < i ==> #[trigger] workflow.step_delays[j] <= 30_000_000_000) {
        let millis = error->DelayTooLarge_millis;
        assert(too_long(workflow.step_delays[i]));
        let k = choose|k: int|
            {
                &&& 0 <= k < workflow.steps.len()
                &&& workflow.delays_fit(k)
                &&& too_long(#[trigger] workflow.step_delays[k])
                &&& millis == reported_millis(workflow.step_delays[k])
            };
        assert(!too_long(workflow.step_delays[i]) || i >= k);
        assert(k == i);
    }
}

} // verus!
