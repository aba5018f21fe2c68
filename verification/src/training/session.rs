//! Training core state machine.
use std::collections::BTreeMap;
use std::time::Instant;
use vstd::prelude::*;
use crate::data::parse::DataSetView;
use crate::data::source::DataSourceView;
use crate::data::{DataSet, DataSourceConfig};
use crate::text;
use crate::time::Delay;
use crate::workflow;
use crate::workflow::{
    EmptyCellRule, EmptyCellView, NavKey, NavigationPath, NavigationView, PlaybackSpeed, Selector,
    SelectorView, Step, StepView, ValueSource, ValueSourceView, Workflow, WorkflowView,
};
use super::{
    Command, CommandView, SelectorInfo, SelectorInfoView, TrainingEvent, TrainingEventView,
};

verus! {

/// Maximum number of tab keys that can accumulate before being attached to a step.
///
/// A real user won't tab more than ~20 times to reach a field. A higher limit
/// guards against synthetic events without being restrictive.
pub const MAX_PENDING_KEYS: usize = 64;

/// The state of a training session.
#[verifier::ext_equal]
pub struct TrainingView {
    /// The data being entered.
    pub data: DataSetView,
    /// The row being demonstrated.
    pub current_row: nat,
    /// The recorded steps.
    pub steps: Seq<StepView>,
    /// The element each step was recorded on.
    pub selectors: Seq<Option<SelectorInfoView>>,
    /// The time before each step, in nanoseconds.
    pub delays: Seq<nat>,
    /// When the most recent step was recorded, counted from the session's start.
    pub last_step: Option<nat>,
    /// The time from the last step until the row was complete.
    pub row_end_delay: nat,
    /// The step each column is bound to.
    pub bindings: Seq<Option<usize>>,
    /// The rules for empty cells.
    pub rules: Map<usize, EmptyCellView>,
    /// The playback speed.
    pub speed: PlaybackSpeed,
    /// Where tab navigation starts from.
    pub anchor: Option<SelectorView>,
    /// The tab keys pressed since.
    pub keys: Seq<NavKey>,
}

/// A step or column index, if any.
pub open spec fn as_index(index: Option<usize>) -> Option<nat> {
    match index {
        Some(index) => Some(index as nat),
        None => None,
    }
}

/// The last step that was recorded on the same element.
pub open spec fn last_on_element(
    selectors: Seq<Option<SelectorInfoView>>,
    info: SelectorInfoView,
) -> Option<nat>
    decreases selectors.len(),
{
    if selectors.len() == 0 {
        None
    } else if selectors.last() is Some && selectors.last()->0.matches_element(info) {
        Some((selectors.len() - 1) as nat)
    } else {
        last_on_element(selectors.drop_last(), info)
    }
}

/// The leftmost column, from `from` on, that is not bound or is bound to the
/// step being updated.
pub open spec fn next_unbound(
    bindings: Seq<Option<usize>>,
    updating: Option<nat>,
    from: nat,
) -> Option<nat>
    decreases bindings.len() - from,
{
    if from >= bindings.len() {
        None
    } else if bindings[from as int] is None || (updating is Some && bindings[from as int]->0
        == updating->0) {
        Some(from)
    } else {
        next_unbound(bindings, updating, from + 1)
    }
}

/// Whether some column is bound to a step.
pub open spec fn is_bound(bindings: Seq<Option<usize>>, step: nat) -> bool {
    exists|column: int|
        0 <= column < bindings.len() && (#[trigger] bindings[column]) is Some
            && bindings[column]->0 == step
}

/// The last of the first `n` steps that types into a field and that no column
/// is bound to.
pub open spec fn last_free_type(
    steps: Seq<StepView>,
    bindings: Seq<Option<usize>>,
    n: nat,
) -> Option<nat>
    decreases n,
{
    if n == 0 {
        None
    } else if steps[n - 1] is Type && !is_bound(bindings, (n - 1) as nat) {
        Some((n - 1) as nat)
    } else {
        last_free_type(steps, bindings, (n - 1) as nat)
    }
}

/// The bindings without those to a step.
pub open spec fn unbound(bindings: Seq<Option<usize>>, step: nat) -> Seq<Option<usize>> {
    Seq::new(
        bindings.len(),
        |column: int|
            if bindings[column] is Some && bindings[column]->0 == step {
                None
            } else {
                bindings[column]
            },
    )
}

impl TrainingView {
    /// The state at the start of a session.
    pub open spec fn start(data: DataSetView) -> Self {
        TrainingView {
            data,
            current_row: 0,
            steps: seq![],
            selectors: seq![],
            delays: seq![],
            last_step: None,
            row_end_delay: 0,
            bindings: Seq::new(data.column_count, |column: int| None),
            rules: Map::empty(),
            speed: PlaybackSpeed::Step,
            anchor: None,
            keys: seq![],
        }
    }

    /// Whether there is a current row.
    pub open spec fn has_row(self) -> bool {
        self.current_row < self.data.rows.len()
    }

    /// The cells of the current row.
    pub open spec fn row(self) -> Seq<Seq<char>> {
        self.data.rows[self.current_row as int]
    }

    /// Whether every column with something in the current row is bound to a step.
    pub open spec fn complete(self) -> bool {
        &&& self.has_row()
        &&& forall|column: int|
            0 <= column < self.row().len() && (#[trigger] self.row()[column]).len() > 0
                ==> self.bindings[column] is Some
    }

    /// The invariant of a session.
    ///
    /// Steps, elements and delays go in parallel; the first step has no delay;
    /// each column has a place for a binding, and a bound column is bound to a
    /// step that types that very column; only a wait for navigation has no
    /// element, and every other step looks for the element it was recorded on in
    /// every way that is known of it; pending keys are limited.
    pub open spec fn wf(self) -> bool {
        &&& self.data.rectangular()
        &&& self.current_row == 0 || self.has_row()
        &&& self.selectors.len() == self.steps.len()
        &&& self.delays.len() == self.steps.len()
        &&& self.last_step is None <==> self.steps.len() == 0
        &&& self.steps.len() > 0 ==> self.delays[0] == 0
        &&& self.bindings.len() == self.data.column_count
        &&& forall|column: int|
            0 <= column < self.bindings.len() ==> #[trigger] self.binding_types(column)
        &&& forall|i: int|
            0 <= i < self.steps.len() ==> ((#[trigger] self.steps[i]) is WaitForNavigation
                <==> self.selectors[i] is None)
        &&& forall|i: int| 0 <= i < self.steps.len() ==> #[trigger] self.finds_element(i)
        &&& self.keys.len() <= MAX_PENDING_KEYS
    }

    /// The binding of a column, if any, is to a step that types that column.
    pub open spec fn binding_types(self, column: int) -> bool {
        self.bindings[column] matches Some(step) ==> step < self.steps.len()
            && self.steps[step as int].types_column(column as nat)
    }

    /// A step that was recorded on an element looks for it in every way that is
    /// known of it.
    pub open spec fn finds_element(self, i: int) -> bool {
        self.selectors[i] matches Some(info) ==> self.steps[i].selector() is Some
            && self.steps[i].selector()->0.strategies == info.strategies()
    }

    /// The time since the last step.
    pub open spec fn delay_at(self, at: nat) -> nat {
        match self.last_step {
            Some(then_) => if at >= then_ {
                (at - then_) as nat
            } else {
                0
            },
            None => 0,
        }
    }

    /// The navigation path to attach to the next step.
    pub open spec fn pending(self) -> Option<NavigationView> {
        if self.keys.len() == 0 {
            None
        } else {
            Some(NavigationView { anchor: self.anchor, keys: self.keys })
        }
    }

    /// A step is added at the end.
    pub open spec fn recorded(
        self,
        step: StepView,
        info: Option<SelectorInfoView>,
        anchor: Option<SelectorView>,
        at: nat,
    ) -> Self {
        TrainingView {
            steps: self.steps.push(step),
            selectors: self.selectors.push(info),
            delays: self.delays.push(self.delay_at(at)),
            last_step: Some(at),
            anchor,
            keys: seq![],
            ..self
        }
    }

    /// The step that a click records.
    pub open spec fn click_step(self, info: SelectorInfoView, tag: Seq<char>) -> StepView {
        StepView::Click {
            selector: SelectorView { strategies: info.strategies(), tag },
            navigation: self.pending(),
        }
    }

    /// The user clicked an element.
    pub open spec fn clicked(self, info: SelectorInfoView, tag: Seq<char>, at: nat) -> Self {
        self.recorded(
            self.click_step(info, tag),
            Some(info),
            Some(SelectorView { strategies: info.strategies(), tag }),
            at,
        )
    }

    /// The column a value is matched to: the next unbound one, if its cell in the
    /// current row is that value.
    pub open spec fn matched(self, value: Seq<char>, updating: Option<nat>) -> Option<nat> {
        let next = next_unbound(self.bindings, updating, 0);
        if self.has_row() && next is Some && self.row()[next->0 as int] == value {
            next
        } else {
            None
        }
    }

    /// Where a typed value comes from.
    pub open spec fn source(self, value: Seq<char>, updating: Option<nat>) -> ValueSourceView {
        match self.matched(value, updating) {
            Some(column) => ValueSourceView::Column { index: column },
            None => ValueSourceView::Literal { value },
        }
    }

    /// A matched column is bound to a step.
    pub open spec fn bound(self, column: Option<nat>, step: nat) -> Self {
        TrainingView {
            bindings: match column {
                Some(column) => self.bindings.update(column as int, Some(step as usize)),
                None => self.bindings,
            },
            ..self
        }
    }

    /// The user went on typing into an element that has a step: the step is
    /// replaced, keeps its navigation path, and is bound anew.
    pub open spec fn retyped(
        self,
        step: nat,
        info: SelectorInfoView,
        tag: Seq<char>,
        value: Seq<char>,
        at: nat,
    ) -> Self {
        TrainingView {
            steps: self.steps.update(
                step as int,
                StepView::Type {
                    selector: SelectorView { strategies: info.strategies(), tag },
                    source: self.source(value, Some(step)),
                    navigation: self.steps[step as int].navigation(),
                },
            ),
            selectors: self.selectors.update(step as int, Some(info)),
            delays: if step > 0 {
                self.delays.update(step as int, self.delay_at(at))
            } else {
                self.delays
            },
            last_step: Some(at),
            bindings: unbound(self.bindings, step),
            anchor: None,
            keys: seq![],
            ..self
        }.bound(self.matched(value, Some(step)), step)
    }

    /// The user typed into an element that has no step yet.
    pub open spec fn newly_typed(
        self,
        info: SelectorInfoView,
        tag: Seq<char>,
        value: Seq<char>,
        at: nat,
    ) -> Self {
        let selector = SelectorView { strategies: info.strategies(), tag };
        self.recorded(
            StepView::Type {
                selector,
                source: self.source(value, None),
                navigation: self.pending(),
            },
            Some(info),
            Some(selector),
            at,
        ).bound(self.matched(value, None), self.steps.len())
    }

    /// The user typed into an element.
    pub open spec fn typed(
        self,
        info: SelectorInfoView,
        tag: Seq<char>,
        value: Seq<char>,
        at: nat,
    ) -> Self {
        match last_on_element(self.selectors, info) {
            Some(step) => self.retyped(step, info, tag, value, at),
            None => self.newly_typed(info, tag, value, at),
        }
    }

    /// The time from the last step to the moment the row was found complete.
    pub open spec fn finished_row(self, done: nat) -> Self {
        TrainingView {
            row_end_delay: if self.complete() {
                self.delay_at(done)
            } else {
                self.row_end_delay
            },
            ..self
        }
    }

    /// The events of typing, given the state before it.
    pub open spec fn typing_events(
        self,
        info: SelectorInfoView,
        tag: Seq<char>,
        value: Seq<char>,
        at: nat,
    ) -> Seq<TrainingEventView> {
        let existing = last_on_element(self.selectors, info);
        let after = self.typed(info, tag, value, at);
        let index = match existing {
            Some(step) => step,
            None => self.steps.len(),
        };
        let binding = match self.matched(value, existing) {
            Some(column) => seq![TrainingEventView::ColumnBound { column, step_index: index }],
            None => seq![],
        };
        let step = after.steps[index as int];
        let change = if existing is Some {
            TrainingEventView::StepUpdated { index, step }
        } else {
            TrainingEventView::StepRecorded { index, step }
        };
        let end = if after.complete() {
            seq![TrainingEventView::RowComplete { row_index: self.current_row }]
        } else {
            seq![]
        };
        binding + seq![change] + end
    }

    /// The browser went to another page: what was pending there is stale.
    pub open spec fn navigated(self, at: nat) -> Self {
        self.recorded(StepView::WaitForNavigation, None, None, at)
    }

    /// The user pressed the tab key.
    pub open spec fn tabbed(self, shift: bool) -> Self {
        TrainingView {
            keys: if self.keys.len() >= MAX_PENDING_KEYS {
                self.keys
            } else {
                self.keys.push(
                    if shift {
                        NavKey::ShiftTab
                    } else {
                        NavKey::Tab
                    },
                )
            },
            ..self
        }
    }

    /// Whether there is a row behind the current one.
    pub open spec fn can_advance(self) -> bool {
        self.current_row + 1 < self.data.rows.len()
    }

    /// The next row becomes the current one, unless there is none.
    pub open spec fn advanced(self) -> Self {
        TrainingView {
            current_row: if self.can_advance() {
                self.current_row + 1
            } else {
                self.current_row
            },
            ..self
        }
    }

    /// What the first `n` columns of the current row ask of the user: a rule for
    /// an empty cell of a bound column, a field for a cell of an unbound one.
    pub open spec fn notices(self, n: nat) -> Seq<TrainingEventView>
        decreases n,
    {
        if n == 0 {
            seq![]
        } else {
            let column = (n - 1) as nat;
            let cell = self.row()[column as int];
            let before = self.notices(column);
            if self.bindings[column as int] is Some {
                if cell.len() == 0 && !self.rules.contains_key(column as usize) {
                    before.push(
                        TrainingEventView::EmptyCellEncountered {
                            column,
                            row_index: self.current_row,
                        },
                    )
                } else {
                    before
                }
            } else if cell.len() > 0 {
                before.push(TrainingEventView::NewFieldEncountered { column, value: cell })
            } else {
                before
            }
        }
    }

    /// The events of advancing, given the state before it.
    pub open spec fn advance_events(self) -> Seq<TrainingEventView> {
        if self.can_advance() {
            seq![TrainingEventView::RowAdvanced { row_index: self.current_row + 1 }]
                + self.advanced().notices(self.data.column_count)
        } else {
            seq![TrainingEventView::Error("Already on the last row"@)]
        }
    }

    /// The step that a new field is assigned to.
    pub open spec fn field_step(self) -> Option<nat> {
        last_free_type(self.steps, self.bindings, self.steps.len())
    }

    /// A step as it is when it types a column.
    pub open spec fn retargeted(self, step: nat, column: usize) -> StepView {
        StepView::Type {
            selector: self.steps[step as int]->Type_selector,
            source: ValueSourceView::Column { index: column as nat },
            navigation: self.steps[step as int]->Type_navigation,
        }
    }

    /// A column is assigned to the most recent free input step.
    pub open spec fn assigned(self, column: usize) -> Self {
        match self.field_step() {
            Some(step) if column < self.bindings.len() => TrainingView {
                steps: self.steps.update(step as int, self.retargeted(step, column)),
                bindings: self.bindings.update(column as int, Some(step as usize)),
                ..self
            },
            _ => self,
        }
    }

    /// The events of assigning a column, given the state before it.
    pub open spec fn assign_events(self, column: usize) -> Seq<TrainingEventView> {
        if column >= self.bindings.len() {
            seq![
                TrainingEventView::Error(
                    "column index "@ + text::decimal(column as nat) + " out of range (have "@
                        + text::decimal(self.bindings.len()) + ")"@,
                ),
            ]
        } else {
            match self.field_step() {
                Some(step) => seq![
                    TrainingEventView::ColumnBound { column: column as nat, step_index: step },
                    TrainingEventView::StepUpdated {
                        index: step,
                        step: self.retargeted(step, column),
                    },
                ],
                None => seq![],
            }
        }
    }

    /// The state after a command that is handled at time `at`, and, where it
    /// completes a row, is found to do so at time `done`.
    pub open spec fn after(self, command: CommandView, at: nat, done: nat) -> Self {
        match command {
            CommandView::BrowserClick { selector_info, tag } => self.clicked(
                selector_info,
                tag,
                at,
            ),
            CommandView::BrowserInput { selector_info, tag, value } => self.typed(
                selector_info,
                tag,
                value,
                at,
            ).finished_row(done),
            CommandView::BrowserNavigation { .. } => self.navigated(at),
            CommandView::BrowserTab { shift } => self.tabbed(shift),
            CommandView::AdvanceRow => self.advanced(),
            CommandView::SetSpeed(speed) => TrainingView { speed, ..self },
            CommandView::HandleEmptyCell { column, rule } => TrainingView {
                rules: self.rules.insert(column, rule),
                ..self
            },
            CommandView::HandleNewField { column } => self.assigned(column),
        }
    }

    /// The events that a command gives rise to, given the state before it.
    pub open spec fn events(self, command: CommandView, at: nat) -> Seq<TrainingEventView> {
        match command {
            CommandView::BrowserClick { selector_info, tag } => seq![
                TrainingEventView::StepRecorded {
                    index: self.steps.len(),
                    step: self.click_step(selector_info, tag),
                },
            ],
            CommandView::BrowserInput { selector_info, tag, value } => self.typing_events(
                selector_info,
                tag,
                value,
                at,
            ),
            CommandView::BrowserNavigation { .. } => seq![
                TrainingEventView::StepRecorded {
                    index: self.steps.len(),
                    step: StepView::WaitForNavigation,
                },
            ],
            CommandView::BrowserTab { .. } => seq![],
            CommandView::AdvanceRow => self.advance_events(),
            CommandView::SetSpeed(speed) => seq![TrainingEventView::SpeedChanged(speed)],
            CommandView::HandleEmptyCell { .. } => seq![],
            CommandView::HandleNewField { column } => self.assign_events(column),
        }
    }
}

impl TrainingView {
    /// A step added at the end keeps the invariant.
    proof fn lemma_recorded_wf(
        self,
        step: StepView,
        info: Option<SelectorInfoView>,
        anchor: Option<SelectorView>,
        at: nat,
    )
        requires
            self.wf(),
            step is WaitForNavigation <==> info is None,
            info matches Some(element) ==> step.selector() is Some
                && step.selector()->0.strategies == element.strategies(),
        ensures
            self.recorded(step, info, anchor, at).wf(),
    {
        let after = self.recorded(step, info, anchor, at);
        assert forall|i: int| 0 <= i < after.steps.len() implies #[trigger] after.finds_element(
            i,
        ) by {
            assert(i < self.steps.len() ==> self.finds_element(i));
        }
        assert forall|column: int| 0 <= column < after.bindings.len() implies #[trigger]
        after.binding_types(column) by {
            assert(self.binding_types(column));
        }
    }

    /// The next unbound column is a column, and is free for the step.
    pub proof fn lemma_next_unbound(bindings: Seq<Option<usize>>, updating: Option<nat>, from: nat)
        ensures
            next_unbound(bindings, updating, from) matches Some(column) ==> from <= column
                < bindings.len() && (bindings[column as int] is None || updating is Some
                && bindings[column as int]->0 == updating->0),
        decreases bindings.len() - from,
    {
        if from < bindings.len() {
            Self::lemma_next_unbound(bindings, updating, from + 1);
        }
    }

    /// The last step on an element is a step.
    pub proof fn lemma_last_on_element(
        selectors: Seq<Option<SelectorInfoView>>,
        info: SelectorInfoView,
    )
        ensures
            last_on_element(selectors, info) matches Some(step) ==> step < selectors.len()
                && selectors[step as int] is Some && selectors[step as int]->0.matches_element(
                info,
            ),
        decreases selectors.len(),
    {
        if selectors.len() > 0 {
            Self::lemma_last_on_element(selectors.drop_last(), info);
        }
    }

    /// Typing keeps the invariant.
    proof fn lemma_typed_wf(
        self,
        info: SelectorInfoView,
        tag: Seq<char>,
        value: Seq<char>,
        at: nat,
    )
        requires
            self.wf(),
            self.steps.len() <= usize::MAX,
        ensures
            self.typed(info, tag, value, at).wf(),
    {
        let existing = last_on_element(self.selectors, info);
        let after = self.typed(info, tag, value, at);
        Self::lemma_last_on_element(self.selectors, info);
        Self::lemma_next_unbound(self.bindings, existing, 0);
        assert forall|i: int| 0 <= i < after.steps.len() implies #[trigger] after.finds_element(
            i,
        ) by {
            assert(i < self.steps.len() ==> self.finds_element(i));
        }
        assert forall|column: int| 0 <= column < after.bindings.len() implies #[trigger]
        after.binding_types(column) by {
            assert(self.binding_types(column));
        }
    }
}

impl TrainingView {
    /// The workflow that a session has recorded.
    pub open spec fn workflow(self, data_source: Option<DataSourceView>) -> WorkflowView {
        WorkflowView {
            version: workflow::FORMAT_VERSION as nat,
            column_count: self.data.column_count,
            steps: self.steps,
            step_delays: self.delays,
            row_end_delay: self.row_end_delay,
            column_bindings: self.bindings,
            empty_cell_rules: self.rules,
            data_source,
        }
    }

    /// A step found for a new field is one that types and is not bound.
    pub proof fn lemma_last_free_type(steps: Seq<StepView>, bindings: Seq<Option<usize>>, n: nat)
        ensures
            last_free_type(steps, bindings, n) matches Some(step) ==> step < n
                && steps[step as int] is Type && !is_bound(bindings, step),
        decreases n,
    {
        if n > 0 {
            Self::lemma_last_free_type(steps, bindings, (n - 1) as nat);
        }
    }
}

/// Every command keeps the invariant of a session.
pub proof fn law_commands_keep_invariant(
    before: TrainingView,
    command: CommandView,
    at: nat,
    done: nat,
)
    requires
        before.wf(),
        before.steps.len() <= usize::MAX,
    ensures
        before.after(command, at, done).wf(),
{
    let after = before.after(command, at, done);
    match command {
        CommandView::BrowserClick { selector_info, tag } => {
            before.lemma_recorded_wf(
                before.click_step(selector_info, tag),
                Some(selector_info),
                Some(SelectorView { strategies: selector_info.strategies(), tag }),
                at,
            );
        },
        CommandView::BrowserInput { selector_info, tag, value } => {
            before.lemma_typed_wf(selector_info, tag, value, at);
            let typed = before.typed(selector_info, tag, value, at);
            assert forall|i: int| 0 <= i < after.steps.len() implies #[trigger] after.finds_element(
                i,
            ) by {
                assert(typed.finds_element(i));
            }
            assert forall|column: int| 0 <= column < after.bindings.len() implies #[trigger]
            after.binding_types(column) by {
                assert(typed.binding_types(column));
            }
        },
        CommandView::BrowserNavigation { .. } => {
            before.lemma_recorded_wf(StepView::WaitForNavigation, None, None, at);
        },
        _ => {
            TrainingView::lemma_last_free_type(before.steps, before.bindings, before.steps.len());
            assert forall|i: int| 0 <= i < after.steps.len() implies #[trigger] after.finds_element(
                i,
            ) by {
                assert(before.finds_element(i));
            }
            assert forall|column: int| 0 <= column < after.bindings.len() implies #[trigger]
            after.binding_types(column) by {
                assert(before.binding_types(column));
                assert(before.bindings[column] is Some ==> is_bound(
                    before.bindings,
                    before.bindings[column]->0 as nat,
                ));
            }
        },
    }
}

/// The training session state machine.
///
/// Processes browser events and user commands to build a workflow template.
/// Returns `TrainingEvent`s for the TUI layer to render.
pub struct TrainingCore {
    data: DataSet,
    current_row: usize,
    steps: Vec<Step>,
    /// Tracks the `SelectorInfo` that produced each step, for same-element matching.
    step_selectors: Vec<Option<SelectorInfo>>,
    /// Inter-step delays captured during training, parallel to `steps`.
    step_delays: Vec<Delay>,
    /// When the most recent step was recorded, counted from `started`.
    last_step_time: Option<Delay>,
    /// Captured when all fields are mapped (`RowComplete`).
    ///
    /// Measures the gap from the last recorded step to the moment training
    /// considers the row done, before the user reviews the TUI or presses
    /// Enter.
    row_end_delay: Delay,
    /// `column_bindings[col]` = the step index that column is bound to.
    column_bindings: Vec<Option<usize>>,
    empty_cell_rules: BTreeMap<usize, EmptyCellRule>,
    speed: PlaybackSpeed,
    /// Selector of the last clicked element: starting point for tab navigation.
    ///
    /// `None` when no click has been recorded yet (tabs navigate from the document).
    pending_anchor: Option<Selector>,
    /// Tab key presses accumulated since the last click (or session start).
    ///
    /// Non-empty when the user has tabbed to reach the current element.
    /// Consumed (attached to the next step and cleared) when an input or click is recorded.
    pending_keys: Vec<NavKey>,
    /// When the session began.
    started: Instant,
}

impl View for TrainingCore {
    type V = TrainingView;

    closed spec fn view(&self) -> TrainingView {
        TrainingView {
            data: self.data@,
            current_row: self.current_row as nat,
            steps: self.steps.deep_view(),
            selectors: self.step_selectors.deep_view(),
            delays: self.step_delays.deep_view(),
            last_step: self.last_step_time.deep_view(),
            row_end_delay: self.row_end_delay@,
            bindings: self.column_bindings@,
            rules: workflow::rules_view(self.empty_cell_rules@),
            speed: self.speed,
            anchor: self.pending_anchor.deep_view(),
            keys: self.pending_keys@,
        }
    }
}

/// The clock of the standard library, carried through unchanged.
#[verifier::external_type_specification]
#[verifier::external_body]
pub struct ExInstant(Instant);

/// `Instant::now` reads the clock; nothing is claimed of what it shows.
pub assume_specification[ Instant::now ]() -> (now: Instant)
;

/// `Instant::elapsed` gives the time since an earlier reading of the clock, here
/// in nanoseconds; nothing is claimed of how much that is.
#[verifier::external_body]
fn nanos_since(start: &Instant) -> (nanos: u128) {
    start.elapsed().as_nanos()
}

/// Takes the pending navigation path, if tab keys are pending.
fn taken_navigation(anchor: &mut Option<Selector>, keys: &mut Vec<NavKey>) -> (navigation: Option<
    NavigationPath,
>)
    ensures
        navigation.deep_view() == if old(keys)@.len() == 0 {
            None
        } else {
            Some(NavigationView { anchor: old(anchor).deep_view(), keys: old(keys)@ })
        },
        final(keys)@ == Seq::<NavKey>::empty(),
{
    if keys.is_empty() {
        assert(keys@ =~= Seq::empty());
        None
    } else {
        let mut taken: Vec<NavKey> = Vec::new();
        std::mem::swap(&mut taken, keys);
        Some(NavigationPath { anchor: anchor.take(), keys: taken })
    }
}

impl TrainingCore {
    /// Create a new training session with the given data set.
    pub fn new(data: DataSet) -> (session: Self)
        ensures
            session@ == TrainingView::start(data@),
            session@.wf(),
    {
        let column_count = data.column_count();
        let column_bindings: Vec<Option<usize>> = vec![None; column_count];
        let session = TrainingCore {
            data,
            current_row: 0,
            steps: Vec::new(),
            step_selectors: Vec::new(),
            step_delays: Vec::new(),
            last_step_time: None,
            row_end_delay: Delay::zero(),
            column_bindings,
            empty_cell_rules: BTreeMap::new(),
            speed: PlaybackSpeed::default(),
            pending_anchor: None,
            pending_keys: Vec::new(),
            started: Instant::now(),
        };
        assert(session@ =~= TrainingView::start(data@));
        session
    }

    // -- Handlers --

    /// Compute the delay since the last recorded step and update `last_step_time`.
    ///
    /// Returns no delay for the first step (no previous reference point).
    fn record_step_time(&mut self, at: Delay) -> (delay: Delay)
        ensures
            delay@ == old(self)@.delay_at(at@),
            final(self)@ == (TrainingView { last_step: Some(at@), ..old(self)@ }),
    {
        let delay = match &self.last_step_time {
            Some(last) => at.since(last),
            None => Delay::zero(),
        };
        self.last_step_time = Some(at);
        delay
    }

    /// Adds a step, taking its delay from the clock.
    fn record_step(&mut self, step: Step, info: Option<SelectorInfo>, at: Delay)
        ensures
            final(self)@ == (TrainingView {
                steps: old(self)@.steps.push(step@),
                selectors: old(self)@.selectors.push(info.deep_view()),
                delays: old(self)@.delays.push(old(self)@.delay_at(at@)),
                last_step: Some(at@),
                ..old(self)@
            }),
    {
        let ghost before = self@;
        let delay = self.record_step_time(at);
        self.steps.push(step);
        self.step_selectors.push(info);
        self.step_delays.push(delay);
        assert(self@.steps =~= before.steps.push(step@));
        assert(self@.selectors =~= before.selectors.push(info.deep_view()));
        assert(self@.delays =~= before.delays.push(delay@));
    }

    fn handle_click(&mut self, selector_info: SelectorInfo, tag: String, at: Delay) -> (events: Vec<
        TrainingEvent,
    >)
        ensures
            final(self)@ == old(self)@.clicked(selector_info@, tag@, at@),
            events.deep_view() == seq![
                TrainingEventView::StepRecorded {
                    index: old(self)@.steps.len(),
                    step: old(self)@.click_step(selector_info@, tag@),
                },
            ],
    {
        // If the user tabbed to this element, attach the navigation path.
        let navigation = taken_navigation(&mut self.pending_anchor, &mut self.pending_keys);
        let selector = selector_info.clone().into_selector(tag);
        // This click becomes the new navigation anchor.
        self.pending_anchor = Some(selector.clone());
        let step = Step::Click { selector, navigation };
        let index = self.steps.len();
        self.record_step(step.clone(), Some(selector_info), at);
        let mut events: Vec<TrainingEvent> = Vec::new();
        events.push(TrainingEvent::StepRecorded { index, step });
        assert(events.deep_view() =~= seq![events@[0]@]);
        events
    }

    fn handle_navigation(&mut self, at: Delay) -> (events: Vec<TrainingEvent>)
        ensures
            final(self)@ == old(self)@.navigated(at@),
            events.deep_view() == seq![
                TrainingEventView::StepRecorded {
                    index: old(self)@.steps.len(),
                    step: StepView::WaitForNavigation,
                },
            ],
    {
        // The previous page's elements no longer exist: any pending anchor
        // or tab keys from that page are stale and must be discarded.
        self.pending_anchor = None;
        self.pending_keys.clear();
        let index = self.steps.len();
        self.record_step(Step::WaitForNavigation, None, at);
        let mut events: Vec<TrainingEvent> = Vec::new();
        events.push(TrainingEvent::StepRecorded { index, step: Step::WaitForNavigation });
        assert(events.deep_view() =~= seq![events@[0]@]);
        events
    }

    fn handle_tab(&mut self, shift: bool)
        ensures
            final(self)@ == old(self)@.tabbed(shift),
    {
        if self.pending_keys.len() >= MAX_PENDING_KEYS {
            return;
        }
        let key = if shift {
            NavKey::ShiftTab
        } else {
            NavKey::Tab
        };
        self.pending_keys.push(key);
    }

    /// Find the index of an existing step that targets the same DOM element.
    fn find_step_for_element(&self, info: &SelectorInfo) -> (found: Option<usize>)
        ensures
            as_index(found) == last_on_element(self@.selectors, info@),
            found is Some ==> found->0 < self@.selectors.len(),
    {
        let ghost selectors = self@.selectors;
        let mut i: usize = self.step_selectors.len();
        assert(selectors.take(i as int) =~= selectors);
        while i > 0
            invariant
                i <= self.step_selectors.len(),
                selectors == self@.selectors,
                last_on_element(selectors, info@) == last_on_element(
                    selectors.take(i as int),
                    info@,
                ),
            decreases i,
        {
            i = i - 1;
            assert(selectors.take(i + 1).drop_last() =~= selectors.take(i as int));
            assert(selectors.take(i + 1).last() == self.step_selectors@[i as int].deep_view());
            if let Some(stored) = &self.step_selectors[i] {
                if stored.same_element(info) {
                    return Some(i);
                }
            }
        }
        None
    }

    /// Try to match a value to the next unbound column in the current row.
    ///
    /// Column-order training: only the leftmost unbound column is considered.
    /// If the value matches that column's cell, it becomes a column binding.
    /// Otherwise the value is treated as a literal.
    ///
    /// If `updating_step` is `Some`, columns currently bound to that step are
    /// considered "available" (since we're about to replace the step).
    fn match_column(&self, value: &String, updating_step: Option<usize>) -> (found: (
        ValueSource,
        Option<usize>,
    ))
        requires
            self@.wf(),
        ensures
            found.0@ == self@.source(value@, as_index(updating_step)),
            as_index(found.1) == self@.matched(value@, as_index(updating_step)),
            found.1 is Some ==> found.1->0 < self@.bindings.len(),
    {
        let ghost updating = as_index(updating_step);
        if let Some(row) = self.data.row(self.current_row) {
            let mut column: usize = 0;
            while column < row.len()
                invariant
                    column <= row.len(),
                    row@.len() == self.column_bindings@.len(),
                    self@.has_row(),
                    row.deep_view() == self@.row(),
                    updating == as_index(updating_step),
                    next_unbound(self@.bindings, updating, 0) == next_unbound(
                        self@.bindings,
                        updating,
                        column as nat,
                    ),
                decreases row.len() - column,
            {
                let available = match (self.column_bindings[column], updating_step) {
                    (Some(bound), Some(step)) => bound == step,
                    (Some(_), None) => false,
                    (None, _) => true,
                };
                if available {
                    assert(self@.row()[column as int] == row@[column as int]@);
                    if row[column] == *value {
                        return (ValueSource::Column { index: column }, Some(column));
                    } else {
                        return (ValueSource::Literal { value: value.clone() }, None);
                    }
                }
                column = column + 1;
            }
        }
        (ValueSource::Literal { value: value.clone() }, None)
    }

    /// Whether every non-empty column in the current row is bound to a step.
    pub fn is_row_complete(&self) -> (complete: bool)
        requires
            self@.wf(),
        ensures
            complete == self@.complete(),
    {
        match self.data.row(self.current_row) {
            None => false,
            Some(row) => {
                let mut column: usize = 0;
                while column < row.len()
                    invariant
                        column <= row.len(),
                        row@.len() == self.column_bindings@.len(),
                        row.deep_view() == self@.row(),
                        forall|k: int|
                            0 <= k < column && (#[trigger] self@.row()[k]).len() > 0
                                ==> self@.bindings[k] is Some,
                    decreases row.len() - column,
                {
                    assert(self@.row()[column as int] == row@[column as int]@);
                    if !row[column].as_str().is_empty() && self.column_bindings[column].is_none() {
                        return false;
                    }
                    column = column + 1;
                }
                true
            },
        }
    }

    /// Remove any column binding that points to the given step index.
    fn unbind_step(&mut self, step_index: usize)
        ensures
            final(self)@ == (TrainingView {
                bindings: unbound(old(self)@.bindings, step_index as nat),
                ..old(self)@
            }),
    {
        let ghost before = self@;
        let mut column: usize = 0;
        while column < self.column_bindings.len()
            invariant
                column <= self.column_bindings.len(),
                self@ == (TrainingView { bindings: self@.bindings, ..before }),
                self@.bindings.len() == before.bindings.len(),
                forall|k: int|
                    0 <= k < self@.bindings.len() ==> #[trigger] self@.bindings[k] == if k < column {
                        unbound(before.bindings, step_index as nat)[k]
                    } else {
                        before.bindings[k]
                    },
            decreases self.column_bindings.len() - column,
        {
            if let Some(bound) = self.column_bindings[column] {
                if bound == step_index {
                    self.column_bindings[column] = None;
                }
            }
            column = column + 1;
        }
        assert(self@.bindings =~= unbound(before.bindings, step_index as nat));
    }

    /// Typing went on in an element that has a step.
    fn update_step(
        &mut self,
        index: usize,
        selector_info: SelectorInfo,
        tag: String,
        value: &String,
        at: Delay,
    ) -> (events: Vec<TrainingEvent>)
        requires
            old(self)@.wf(),
            index < old(self)@.steps.len(),
        ensures
            final(self)@ == old(self)@.retyped(index as nat, selector_info@, tag@, value@, at@),
            events.deep_view() == (match old(self)@.matched(value@, Some(index as nat)) {
                Some(column) => seq![
                    TrainingEventView::ColumnBound { column, step_index: index as nat },
                ],
                None => seq![],
            }).push(
                TrainingEventView::StepUpdated {
                    index: index as nat,
                    step: final(self)@.steps[index as int],
                },
            ),
    {
        let ghost before = self@;
        let mut events: Vec<TrainingEvent> = Vec::new();
        // Try to match value to an unbound column.
        let (source, matched_column) = self.match_column(value, Some(index));
        let selector = selector_info.clone().into_selector(tag);
        // Discard any pending navigation state so it doesn't leak into the
        // next step. The user is still in the same field, not navigating.
        self.pending_anchor = None;
        self.pending_keys.clear();
        // Update the timestamp so the *next* step's delay is measured from
        // the latest keystroke, but preserve step_delays[0] = zero (the
        // first step has no predecessor to measure from).
        let delay = self.record_step_time(at);
        assert(before.steps[index as int] == self.steps@[index as int]@);
        // Preserve the navigation path that was captured when the step was first created.
        let navigation = match &self.steps[index] {
            Step::Type { navigation, .. } => workflow::copied_navigation(navigation),
            Step::Click { navigation, .. } => workflow::copied_navigation(navigation),
            Step::WaitForNavigation => None,
        };
        // If the old step was column-bound, unbind it first.
        self.unbind_step(index);
        let step = Step::Type { selector, source, navigation };
        let ghost recorded = step@;
        self.steps[index] = step.clone();
        self.step_selectors[index] = Some(selector_info);
        if index > 0 {
            self.step_delays[index] = delay;
        }
        if let Some(column) = matched_column {
            self.column_bindings[column] = Some(index);
            events.push(TrainingEvent::ColumnBound { column, step_index: index });
        }
        events.push(TrainingEvent::StepUpdated { index, step });
        proof {
            let after = before.retyped(index as nat, selector_info@, tag@, value@, at@);
            assert(self@.steps =~= before.steps.update(index as int, recorded));
            assert(self@.selectors =~= after.selectors);
            assert(self@.delays =~= after.delays);
            assert(self@.bindings =~= after.bindings);
            assert(self@ =~= after);
        }
        events
    }

    /// Typing began in an element that has no step yet.
    fn add_type_step(
        &mut self,
        selector_info: SelectorInfo,
        tag: String,
        value: &String,
        at: Delay,
    ) -> (events: Vec<TrainingEvent>)
        requires
            old(self)@.wf(),
        ensures
            final(self)@ == old(self)@.newly_typed(selector_info@, tag@, value@, at@),
            events.deep_view() == (match old(self)@.matched(value@, None) {
                Some(column) => seq![
                    TrainingEventView::ColumnBound { column, step_index: old(self)@.steps.len() },
                ],
                None => seq![],
            }).push(
                TrainingEventView::StepRecorded {
                    index: old(self)@.steps.len(),
                    step: final(self)@.steps[old(self)@.steps.len() as int],
                },
            ),
    {
        let ghost before = self@;
        let mut events: Vec<TrainingEvent> = Vec::new();
        let (source, matched_column) = self.match_column(value, None);
        let selector = selector_info.clone().into_selector(tag);
        // Attach pending navigation if the user tabbed here.
        let navigation = taken_navigation(&mut self.pending_anchor, &mut self.pending_keys);
        // This element becomes the anchor for subsequent tab navigation,
        // whether or not we consumed pending keys. If the user tabs from
        // this field to the next, this element is the right starting point.
        self.pending_anchor = Some(selector.clone());
        let step = Step::Type { selector, source, navigation };
        let index = self.steps.len();
        self.record_step(step.clone(), Some(selector_info), at);
        if let Some(column) = matched_column {
            self.column_bindings[column] = Some(index);
            events.push(TrainingEvent::ColumnBound { column, step_index: index });
        }
        events.push(TrainingEvent::StepRecorded { index, step });
        proof {
            let after = before.newly_typed(selector_info@, tag@, value@, at@);
            assert(self@.bindings =~= after.bindings);
            assert(self@ =~= after);
        }
        events
    }

    fn handle_input(
        &mut self,
        selector_info: SelectorInfo,
        tag: String,
        value: String,
        at: Delay,
        done: Delay,
    ) -> (events: Vec<TrainingEvent>)
        requires
            old(self)@.wf(),
        ensures
            final(self)@ == old(self)@.typed(selector_info@, tag@, value@, at@).finished_row(done@),
            events.deep_view() == old(self)@.typing_events(selector_info@, tag@, value@, at@),
    {
        let ghost before = self@;
        let ghost (info, tag_text) = (selector_info@, tag@);
        let ghost after = before.typed(info, tag_text, value@, at@);
        assert(before.steps.len() == self.steps.len());
        // Check if this element already has a step (incremental typing).
        let mut events = match self.find_step_for_element(&selector_info) {
            Some(index) => self.update_step(index, selector_info, tag, &value, at),
            None => self.add_type_step(selector_info, tag, &value, at),
        };
        proof {
            before.lemma_typed_wf(info, tag_text, value@, at@);
        }
        let ghost so_far = events.deep_view();
        assert(after.finished_row(done@).complete() == after.complete());
        // Check if row is now complete.
        if self.is_row_complete() {
            // Snapshot row-end delay now: the gap from the last step to
            // when all fields were mapped. This avoids capturing the time
            // the user spends reviewing the TUI before pressing Enter.
            self.row_end_delay = match &self.last_step_time {
                Some(last) => done.since(last),
                None => Delay::zero(),
            };
            events.push(TrainingEvent::RowComplete { row_index: self.current_row });
        }
        assert(events.deep_view() =~= so_far + if after.complete() {
            seq![TrainingEventView::RowComplete { row_index: before.current_row }]
        } else {
            seq![]
        });
        assert(so_far + if after.complete() {
            seq![TrainingEventView::RowComplete { row_index: before.current_row }]
        } else {
            seq![]
        } =~= before.typing_events(info, tag_text, value@, at@));
        events
    }

    fn handle_advance_row(&mut self) -> (events: Vec<TrainingEvent>)
        requires
            old(self)@.wf(),
        ensures
            final(self)@ == old(self)@.advanced(),
            events.deep_view() == old(self)@.advance_events(),
    {
        let mut events: Vec<TrainingEvent> = Vec::new();
        let row_count = self.data.row_count();
        if row_count == 0 || self.current_row >= row_count - 1 {
            events.push(TrainingEvent::Error("Already on the last row".to_owned()));
            assert(events.deep_view() =~= self@.advance_events());
            return events;
        }
        let ghost before = self@;
        self.current_row = self.current_row + 1;
        events.push(TrainingEvent::RowAdvanced { row_index: self.current_row });
        assert(events.deep_view() =~= seq![
            TrainingEventView::RowAdvanced { row_index: before.current_row + 1 },
        ] + self@.notices(0));
        // Check for empty cells and new fields in the new row.
        if let Some(row) = self.data.row(self.current_row) {
            let mut column: usize = 0;
            while column < row.len()
                invariant
                    column <= row.len(),
                    row@.len() == self.column_bindings@.len(),
                    row.deep_view() == self@.row(),
                    self@ == before.advanced(),
                    self@.current_row == before.current_row + 1,
                    events.deep_view() == seq![
                        TrainingEventView::RowAdvanced { row_index: before.current_row + 1 },
                    ] + self@.notices(column as nat),
                decreases row.len() - column,
            {
                let ghost so_far = events.deep_view();
                assert(self@.row()[column as int] == row@[column as int]@);
                let empty = row[column].as_str().is_empty();
                if self.column_bindings[column].is_some() {
                    // Column is bound: check if the new cell is empty.
                    if empty && !self.empty_cell_rules.contains_key(&column) {
                        events.push(
                            TrainingEvent::EmptyCellEncountered {
                                column,
                                row_index: self.current_row,
                            },
                        );
                        assert(events.deep_view() =~= so_far.push(
                            TrainingEventView::EmptyCellEncountered {
                                column: column as nat,
                                row_index: self@.current_row,
                            },
                        ));
                    }
                } else if !empty {
                    // Column is unbound but has a value: new field encountered.
                    events.push(
                        TrainingEvent::NewFieldEncountered { column, value: row[column].clone() },
                    );
                    assert(events.deep_view() =~= so_far.push(
                        TrainingEventView::NewFieldEncountered {
                            column: column as nat,
                            value: row@[column as int]@,
                        },
                    ));
                }
                column = column + 1;
            }
        }
        events
    }

    /// Whether some column is bound to a step.
    fn is_step_bound(&self, step_index: usize) -> (bound: bool)
        ensures
            bound == is_bound(self@.bindings, step_index as nat),
    {
        let mut column: usize = 0;
        while column < self.column_bindings.len()
            invariant
                column <= self.column_bindings.len(),
                forall|k: int|
                    0 <= k < column && (#[trigger] self@.bindings[k]) is Some
                        ==> self@.bindings[k]->0 != step_index,
            decreases self.column_bindings.len() - column,
        {
            if let Some(bound) = self.column_bindings[column] {
                if bound == step_index {
                    assert(self@.bindings[column as int] is Some);
                    return true;
                }
            }
            column = column + 1;
        }
        false
    }

    fn handle_new_field(&mut self, column: usize) -> (events: Vec<TrainingEvent>)
        requires
            old(self)@.wf(),
        ensures
            final(self)@ == old(self)@.assigned(column),
            events.deep_view() == old(self)@.assign_events(column),
    {
        let ghost before = self@;
        let mut events: Vec<TrainingEvent> = Vec::new();
        // Bounds-check first; panic would be wrong for user-driven input.
        if column >= self.column_bindings.len() {
            let mut why = "column index ".to_owned();
            why.append(&text::decimal_text(column as u128));
            why.append(" out of range (have ");
            why.append(&text::decimal_text(self.column_bindings.len() as u128));
            why.append(")");
            events.push(TrainingEvent::Error(why));
            assert(events.deep_view() =~= seq![TrainingEventView::Error(why@)]);
            assert(before.assigned(column) == before);
            return events;
        }
        // Find the most recent Type step that is not already bound to a column.
        let mut i: usize = self.steps.len();
        while i > 0
            invariant
                i <= self.steps.len(),
                self@ == before,
                before == old(self)@,
                column < before.bindings.len(),
                events@.len() == 0,
                before.field_step() == last_free_type(before.steps, before.bindings, i as nat),
            ensures
                i == 0,
            decreases i,
        {
            i = i - 1;
            assert(before.steps[i as int] == self.steps@[i as int]@);
            if !self.is_step_bound(i) {
                let updated = match &self.steps[i] {
                    // Update the step's source to the new column, preserving its
                    // navigation path.
                    Step::Type { selector, navigation, .. } => Some(
                        Step::Type {
                            selector: selector.clone(),
                            source: ValueSource::Column { index: column },
                            navigation: workflow::copied_navigation(navigation),
                        },
                    ),
                    _ => None,
                };
                if let Some(step) = updated {
                    let ghost retargeted = step@;
                    assert(retargeted == before.retargeted(i as nat, column));
                    self.steps[i] = step.clone();
                    self.column_bindings[column] = Some(i);
                    events.push(TrainingEvent::ColumnBound { column, step_index: i });
                    events.push(TrainingEvent::StepUpdated { index: i, step });
                    assert(self@.steps =~= before.steps.update(i as int, retargeted));
                    assert(events.deep_view() =~= before.assign_events(column));
                    return events;
                }
            }
        }
        assert(events.deep_view() =~= before.assign_events(column));
        events
    }

    /// Process a command that arrived at time `at`, counted from the session's
    /// start. Where it completes a row, the row is taken to be done at `done`.
    pub fn process_at(&mut self, command: Command, at: Delay, done: Delay) -> (events: Vec<
        TrainingEvent,
    >)
        requires
            old(self)@.wf(),
        ensures
            final(self)@ == old(self)@.after(command@, at@, done@),
            final(self)@.wf(),
            events.deep_view() == old(self)@.events(command@, at@),
    {
        let ghost before = self@;
        let ghost given = command@;
        assert(before.steps.len() == self.steps.len());
        let events = match command {
            Command::BrowserClick { selector_info, tag } => self.handle_click(
                selector_info,
                tag,
                at,
            ),
            Command::BrowserInput { selector_info, tag, value } => self.handle_input(
                selector_info,
                tag,
                value,
                at,
                done,
            ),
            Command::BrowserNavigation { .. } => self.handle_navigation(at),
            Command::BrowserTab { shift } => {
                self.handle_tab(shift);
                Vec::new()
            },
            Command::AdvanceRow => self.handle_advance_row(),
            Command::SetSpeed(speed) => {
                self.speed = speed;
                let mut events: Vec<TrainingEvent> = Vec::new();
                events.push(TrainingEvent::SpeedChanged(speed));
                assert(events.deep_view() =~= seq![TrainingEventView::SpeedChanged(speed)]);
                events
            },
            Command::HandleEmptyCell { column, rule } => {
                self.empty_cell_rules.insert(column, rule);
                assert(self@.rules =~= before.rules.insert(column, rule@));
                Vec::new()
            },
            Command::HandleNewField { column } => self.handle_new_field(column),
        };
        proof {
            law_commands_keep_invariant(before, given, at@, done@);
            assert(events@.len() == 0 ==> events.deep_view() =~= Seq::empty());
        }
        events
    }

    /// Process a command and return the resulting events.
    ///
    /// All browser events and user commands are serialised through this entry
    /// point, so there is no risk of concurrent mutation. The command is handled
    /// at whatever time the clock shows.
    pub fn process(&mut self, command: Command) -> (events: Vec<TrainingEvent>)
        requires
            old(self)@.wf(),
        ensures
            final(self)@.wf(),
            exists|at: nat, done: nat| #[trigger]
                old(self)@.after(command@, at, done) == final(self)@ && events.deep_view() == old(
                    self,
                )@.events(command@, at),
    {
        let at = Delay::from_nanos(nanos_since(&self.started));
        let done = Delay::from_nanos(nanos_since(&self.started));
        self.process_at(command, at, done)
    }

    // -- Accessors --

    /// Index of the current data row.
    pub fn current_row_index(&self) -> (row: usize)
        ensures
            row == self@.current_row,
    {
        self.current_row
    }

    /// Data values for the current row.
    pub fn current_row_data(&self) -> (row: Option<&[String]>)
        ensures
            row is Some <==> self@.has_row(),
            row is Some ==> row->0.deep_view() == self@.row(),
    {
        self.data.row(self.current_row)
    }

    /// The recorded steps so far.
    pub fn steps(&self) -> (steps: &[Step])
        ensures
            steps.deep_view() == self@.steps,
    {
        self.steps.as_slice()
    }

    /// Current playback speed.
    pub fn speed(&self) -> (speed: PlaybackSpeed)
        ensures
            speed == self@.speed,
    {
        self.speed
    }

    /// Column binding state: `bound_columns()[col]` is `Some(step_index)` if bound.
    pub fn bound_columns(&self) -> (bindings: &[Option<usize>])
        ensures
            bindings@ == self@.bindings,
    {
        self.column_bindings.as_slice()
    }

    /// The current per-column empty-cell rules.
    pub fn empty_cell_rules(&self) -> (rules: &BTreeMap<usize, EmptyCellRule>)
        ensures
            workflow::rules_view(rules@) == self@.rules,
    {
        &self.empty_cell_rules
    }

    /// Build a [`Workflow`] from the current training state.
    ///
    /// The optional `data_source` is embedded in the workflow so that playback
    /// can reload the data automatically.
    pub fn build_workflow(&self, data_source: Option<DataSourceConfig>) -> (built: Workflow)
        ensures
            built@ == self@.workflow(data_source.deep_view()),
    {
        let steps = self.steps.clone();
        let step_delays = self.step_delays.clone();
        let column_bindings = self.column_bindings.clone();
        assert(steps.deep_view() =~= self.steps.deep_view());
        assert(step_delays.deep_view() =~= self.step_delays.deep_view());
        assert(column_bindings@ =~= self.column_bindings@);
        Workflow::new(
            self.data.column_count(),
            steps,
            step_delays,
            self.row_end_delay,
            column_bindings,
            self.empty_cell_rules.clone(),
            data_source,
        )
    }
}

} // verus!
