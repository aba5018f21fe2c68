//! What each command leaves in a session, in terms of what the user did.
use vstd::prelude::*;
use crate::data::parse::DataSetView;
use crate::data::source::DataSourceView;
use crate::workflow;
use crate::workflow::{EmptyCellView, NavKey, PlaybackSpeed, StepView, ValueSourceView};
use super::session;
use super::session::TrainingView;
use super::{CommandView, SelectorInfoView, TrainingEventView};

verus! {

// ── Elements ──────────────────────────────────────────────────────────────────

/// No step was recorded on an element.
pub open spec fn is_new(session: TrainingView, info: SelectorInfoView) -> bool {
    forall|i: int|
        0 <= i < session.selectors.len() && (#[trigger] session.selectors[i]) is Some
            ==> !session.selectors[i]->0.matches_element(info)
}

/// A step is the latest one that was recorded on an element.
pub open spec fn is_latest(session: TrainingView, info: SelectorInfoView, step: nat) -> bool {
    &&& step < session.selectors.len()
    &&& session.selectors[step as int] is Some
    &&& session.selectors[step as int]->0.matches_element(info)
    &&& forall|i: int|
        step < i < session.selectors.len() && (#[trigger] session.selectors[i]) is Some
            ==> !session.selectors[i]->0.matches_element(info)
}

/// The search for the latest step on an element finds it, if there is one.
proof fn lemma_latest(selectors: Seq<Option<SelectorInfoView>>, info: SelectorInfoView)
    ensures
        match session::last_on_element(selectors, info) {
            Some(step) => {
                &&& step < selectors.len()
                &&& selectors[step as int] is Some
                &&& selectors[step as int]->0.matches_element(info)
                &&& forall|i: int|
                    step < i < selectors.len() && (#[trigger] selectors[i]) is Some
                        ==> !selectors[i]->0.matches_element(info)
            },
            None => forall|i: int|
                0 <= i < selectors.len() && (#[trigger] selectors[i]) is Some
                    ==> !selectors[i]->0.matches_element(info),
        },
    decreases selectors.len(),
{
    if selectors.len() > 0 {
        let rest = selectors.drop_last();
        lemma_latest(rest, info);
        assert forall|i: int| 0 <= i < rest.len() implies rest[i] == #[trigger] selectors[i] by {}
    }
}

/// Whether a column may be bound to a step: it is not bound, or bound to that step.
pub open spec fn is_free(
    bindings: Seq<Option<usize>>,
    updating: Option<nat>,
    column: int,
) -> bool {
    bindings[column] is None || updating is Some && bindings[column]->0 == updating->0
}

/// A column is the leftmost one that may be bound.
pub open spec fn is_leftmost(
    bindings: Seq<Option<usize>>,
    updating: Option<nat>,
    column: nat,
) -> bool {
    &&& column < bindings.len()
    &&& is_free(bindings, updating, column as int)
    &&& forall|c: int| 0 <= c < column ==> !#[trigger] is_free(bindings, updating, c)
}

/// The search for a column to bind finds the leftmost one, if there is one.
proof fn lemma_leftmost(bindings: Seq<Option<usize>>, updating: Option<nat>, from: nat)
    requires
        from <= bindings.len(),
    ensures
        match session::next_unbound(bindings, updating, from) {
            Some(column) => {
                &&& from <= column < bindings.len()
                &&& is_free(bindings, updating, column as int)
                &&& forall|c: int| from <= c < column ==> !#[trigger] is_free(bindings, updating, c)
            },
            None => forall|c: int|
                from <= c < bindings.len() ==> !#[trigger] is_free(bindings, updating, c),
        },
    decreases bindings.len() - from,
{
    if from < bindings.len() {
        lemma_leftmost(bindings, updating, from + 1);
        assert(is_free(bindings, updating, from as int) == (session::next_unbound(
            bindings,
            updating,
            from,
        ) == Some(from)));
    }
}

// ── Recorded steps ────────────────────────────────────────────────────────────

/// Exactly one step is added, at the end, `at` being the time it was recorded: its
/// delay is the time since the step before it, and none for the first step.
pub open spec fn adds_step(before: TrainingView, after: TrainingView, at: nat) -> bool {
    &&& after.steps.len() == before.steps.len() + 1
    &&& after.selectors.len() == before.selectors.len() + 1
    &&& after.delays.len() == before.delays.len() + 1
    &&& forall|i: int| 0 <= i < before.steps.len() ==> #[trigger] after.steps[i] == before.steps[i]
    &&& forall|i: int|
        0 <= i < before.selectors.len() ==> #[trigger] after.selectors[i] == before.selectors[i]
    &&& forall|i: int|
        0 <= i < before.delays.len() ==> #[trigger] after.delays[i] == before.delays[i]
    &&& after.last_step == Some(at)
    &&& before.last_step is None ==> after.delays.last() == 0
    &&& before.last_step matches Some(earlier) ==> {
        &&& at >= earlier ==> earlier + after.delays.last() == at
        &&& at < earlier ==> after.delays.last() == 0
    }
}

/// The tab keys pressed so far go with the added step, from where they were pressed
/// on, and none are left for the next.
pub open spec fn takes_keys(before: TrainingView, after: TrainingView) -> bool {
    let navigation = after.steps.last().navigation();
    &&& after.keys.len() == 0
    &&& before.keys.len() == 0 ==> navigation is None
    &&& before.keys.len() > 0 ==> navigation is Some && navigation->0.keys == before.keys
        && navigation->0.anchor == before.anchor
}

/// The step acts on the element, looked for in every way that is known of it.
pub open spec fn acts_on(step: StepView, info: SelectorInfoView, tag: Seq<char>) -> bool {
    &&& step.selector() is Some
    &&& step.selector()->0.strategies == info.strategies()
    &&& step.selector()->0.tag == tag
}

/// Nothing but what was recorded, the anchor and the keys has changed.
pub open spec fn only_records(before: TrainingView, after: TrainingView) -> bool {
    &&& after.data == before.data
    &&& after.current_row == before.current_row
    &&& after.rules == before.rules
    &&& after.speed == before.speed
}

/// A click records a click on the very element, and nothing else. The element is
/// where tab keys are counted from next.
pub proof fn law_click_is_recorded(
    before: TrainingView,
    info: SelectorInfoView,
    tag: Seq<char>,
    at: nat,
    done: nat,
)
    requires
        before.wf(),
    ensures
        ({
            let after = before.after(
                CommandView::BrowserClick { selector_info: info, tag },
                at,
                done,
            );
            &&& adds_step(before, after, at)
            &&& after.steps.last() is Click
            &&& acts_on(after.steps.last(), info, tag)
            &&& after.selectors.last() == Some(info)
            &&& takes_keys(before, after)
            &&& after.anchor == after.steps.last().selector()
            &&& only_records(before, after)
            &&& after.bindings == before.bindings
            &&& after.row_end_delay == before.row_end_delay
        }),
{
}

/// A navigation records a wait for it, and drops what was pending on the page that is
/// gone.
pub proof fn law_navigation_is_recorded(
    before: TrainingView,
    url: Seq<char>,
    at: nat,
    done: nat,
)
    requires
        before.wf(),
    ensures
        ({
            let after = before.after(CommandView::BrowserNavigation { url }, at, done);
            &&& adds_step(before, after, at)
            &&& after.steps.last() is WaitForNavigation
            &&& after.selectors.last() is None
            &&& after.keys.len() == 0
            &&& after.anchor is None
            &&& only_records(before, after)
            &&& after.bindings == before.bindings
            &&& after.row_end_delay == before.row_end_delay
        }),
{
}

/// Typing into a new element records typing into the very element. The element is
/// where tab keys are counted from next.
pub proof fn law_typing_is_recorded(
    before: TrainingView,
    info: SelectorInfoView,
    tag: Seq<char>,
    value: Seq<char>,
    at: nat,
    done: nat,
)
    requires
        before.wf(),
        is_new(before, info),
    ensures
        ({
            let after = before.after(
                CommandView::BrowserInput { selector_info: info, tag, value },
                at,
                done,
            );
            &&& adds_step(before, after, at)
            &&& after.steps.last() is Type
            &&& acts_on(after.steps.last(), info, tag)
            &&& after.selectors.last() == Some(info)
            &&& takes_keys(before, after)
            &&& after.anchor == after.steps.last().selector()
            &&& only_records(before, after)
        }),
{
    lemma_latest(before.selectors, info);
}

/// Typing into an element that has a step replaces that step in place: it types into
/// the very element, keeps how the element was reached, and its delay ends with the
/// latest keystroke unless it is the first step; no other step changes, and pending
/// tab keys are dropped.
pub proof fn law_retyping_replaces_step(
    before: TrainingView,
    info: SelectorInfoView,
    tag: Seq<char>,
    value: Seq<char>,
    at: nat,
    done: nat,
    step: nat,
)
    requires
        before.wf(),
        is_latest(before, info, step),
    ensures
        ({
            let after = before.after(
                CommandView::BrowserInput { selector_info: info, tag, value },
                at,
                done,
            );
            &&& after.steps.len() == before.steps.len()
            &&& after.selectors.len() == before.selectors.len()
            &&& after.delays.len() == before.delays.len()
            &&& after.steps[step as int] is Type
            &&& acts_on(after.steps[step as int], info, tag)
            &&& after.steps[step as int].navigation() == before.steps[step as int].navigation()
            &&& after.selectors[step as int] == Some(info)
            &&& forall|i: int|
                0 <= i < before.steps.len() && i != step ==> #[trigger] after.steps[i]
                    == before.steps[i]
            &&& forall|i: int|
                0 <= i < before.steps.len() && i != step ==> #[trigger] after.selectors[i]
                    == before.selectors[i]
            &&& forall|i: int|
                0 <= i < before.steps.len() && (i != step || i == 0) ==> #[trigger] after.delays[i]
                    == before.delays[i]
            &&& step > 0 && before.last_step is Some && at >= before.last_step->0
                ==> before.last_step->0 + after.delays[step as int] == at
            &&& step > 0 && before.last_step is Some && at < before.last_step->0
                ==> after.delays[step as int] == 0
            &&& after.last_step == Some(at)
            &&& after.keys.len() == 0
            &&& after.anchor is None
            &&& only_records(before, after)
        }),
{
    lemma_latest(before.selectors, info);
}

/// Whether a value is the cell, in the current row, of the leftmost column that may be
/// bound.
pub open spec fn is_next_cell(
    session: TrainingView,
    updating: Option<nat>,
    value: Seq<char>,
    column: nat,
) -> bool {
    &&& session.has_row()
    &&& is_leftmost(session.bindings, updating, column)
    &&& session.row()[column as int] == value
}

/// A typed value that is the cell of the leftmost free column binds that column: the
/// step types the column, the column is bound to the step, and nothing else is bound
/// or freed but what was bound to the step before.
pub proof fn law_typed_cell_binds(
    before: TrainingView,
    info: SelectorInfoView,
    tag: Seq<char>,
    value: Seq<char>,
    at: nat,
    done: nat,
    updating: Option<nat>,
    column: nat,
)
    requires
        before.wf(),
        before.steps.len() <= usize::MAX,
        match updating {
            Some(step) => is_latest(before, info, step),
            None => is_new(before, info),
        },
        is_next_cell(before, updating, value, column),
    ensures
        ({
            let after = before.after(
                CommandView::BrowserInput { selector_info: info, tag, value },
                at,
                done,
            );
            let step = match updating {
                Some(step) => step,
                None => before.steps.len(),
            };
            &&& after.bindings.len() == before.bindings.len()
            &&& after.bindings[column as int] == Some(step as usize)
            &&& after.steps[step as int] is Type
            &&& after.steps[step as int]->source == (ValueSourceView::Column { index: column })
            &&& forall|c: int|
                0 <= c < before.bindings.len() && c != column ==> #[trigger] after.bindings[c]
                    == if before.bindings[c] == Some(step as usize) {
                    None
                } else {
                    before.bindings[c]
                }
        }),
{
    lemma_latest(before.selectors, info);
    lemma_found(before, info, updating);
    lemma_leftmost_unique(before.bindings, updating, column);
    lemma_bound_below(before);
}

/// There is one leftmost free column at most.
proof fn lemma_leftmost_unique(
    bindings: Seq<Option<usize>>,
    updating: Option<nat>,
    column: nat,
)
    requires
        is_leftmost(bindings, updating, column),
    ensures
        session::next_unbound(bindings, updating, 0) == Some(column),
{
    lemma_leftmost(bindings, updating, 0);
    let found = session::next_unbound(bindings, updating, 0);
    assert(is_free(bindings, updating, column as int));
    if found is Some {
        assert(is_free(bindings, updating, found->0 as int));
    }
}

/// Any other value is recorded as it was typed and binds nothing: also one that is the
/// cell of a column further to the right.
pub proof fn law_typed_text_is_literal(
    before: TrainingView,
    info: SelectorInfoView,
    tag: Seq<char>,
    value: Seq<char>,
    at: nat,
    done: nat,
    updating: Option<nat>,
)
    requires
        before.wf(),
        before.steps.len() <= usize::MAX,
        match updating {
            Some(step) => is_latest(before, info, step),
            None => is_new(before, info),
        },
        forall|column: nat| !#[trigger] is_next_cell(before, updating, value, column),
    ensures
        ({
            let after = before.after(
                CommandView::BrowserInput { selector_info: info, tag, value },
                at,
                done,
            );
            let step = match updating {
                Some(step) => step,
                None => before.steps.len(),
            };
            &&& after.steps[step as int] is Type
            &&& after.steps[step as int]->source == (ValueSourceView::Literal { value })
            &&& after.bindings.len() == before.bindings.len()
            &&& forall|c: int|
                0 <= c < before.bindings.len() ==> #[trigger] after.bindings[c]
                    == if before.bindings[c] == Some(step as usize) {
                    None
                } else {
                    before.bindings[c]
                }
        }),
{
    lemma_latest(before.selectors, info);
    lemma_leftmost(before.bindings, updating, 0);
    let found = session::next_unbound(before.bindings, updating, 0);
    if found is Some {
        assert(is_leftmost(before.bindings, updating, found->0));
        assert(!is_next_cell(before, updating, value, found->0));
    }
    lemma_found(before, info, updating);
    lemma_bound_below(before);
}

/// The search for the latest step on an element gives that step.
proof fn lemma_found(session: TrainingView, info: SelectorInfoView, updating: Option<nat>)
    requires
        match updating {
            Some(step) => is_latest(session, info, step),
            None => is_new(session, info),
        },
    ensures
        session::last_on_element(session.selectors, info) == updating,
{
    lemma_latest(session.selectors, info);
    let found = session::last_on_element(session.selectors, info);
    if found is Some {
        assert(session.selectors[found->0 as int] is Some);
    }
}

/// Columns are bound to recorded steps only.
proof fn lemma_bound_below(session: TrainingView)
    requires
        session.wf(),
    ensures
        forall|c: int|
            0 <= c < session.bindings.len() && (#[trigger] session.bindings[c]) is Some
                ==> session.bindings[c]->0 < session.steps.len(),
{
    assert forall|c: int|
        0 <= c < session.bindings.len() && (#[trigger] session.bindings[c]) is Some implies
        session.bindings[c]->0 < session.steps.len() by {
        assert(session.binding_types(c));
    }
}

/// Only what was typed last into an element counts: going on typing gives the same
/// steps and bindings as typing the final value at once.
pub proof fn law_last_value_counts(
    before: TrainingView,
    info: SelectorInfoView,
    tag: Seq<char>,
    first: Seq<char>,
    second: Seq<char>,
    at: nat,
    later: nat,
)
    requires
        before.wf(),
        before.steps.len() < usize::MAX,
        is_new(before, info),
        info.matches_element(info),
    ensures
        before.typed(info, tag, first, at).typed(info, tag, second, later).steps =~= before.typed(
            info,
            tag,
            second,
            at,
        ).steps,
        before.typed(info, tag, first, at).typed(info, tag, second, later).bindings
            =~= before.typed(info, tag, second, at).bindings,
        before.typed(info, tag, first, at).typed(info, tag, second, later).selectors
            =~= before.typed(info, tag, second, at).selectors,
{
    let step = before.steps.len();
    let once = before.typed(info, tag, first, at);
    lemma_latest(before.selectors, info);
    lemma_latest(once.selectors, info);
    assert(once.selectors[step as int] == Some(info));
    lemma_leftmost(before.bindings, None, 0);
    lemma_leftmost(once.bindings, Some(step), 0);
    assert forall|c: int| 0 <= c < before.bindings.len() implies #[trigger] is_free(
        once.bindings,
        Some(step),
        c,
    ) == is_free(before.bindings, None, c) by {
        assert(before.binding_types(c));
    }
    let one = session::next_unbound(before.bindings, None, 0);
    let other = session::next_unbound(once.bindings, Some(step), 0);
    if one is Some {
        assert(is_free(once.bindings, Some(step), one->0 as int));
    }
    if other is Some {
        assert(is_free(before.bindings, None, other->0 as int));
    }
    assert(one == other);
    lemma_bound_below(before);
    lemma_found(once, info, Some(step));
    let twice = once.typed(info, tag, second, later);
    let direct = before.typed(info, tag, second, at);
    assert forall|c: int| 0 <= c < before.bindings.len() implies twice.bindings[c]
        == direct.bindings[c] by {}
}

/// A tab key is kept for the next step, up to a limit, and changes nothing else.
pub proof fn law_tab_is_kept(before: TrainingView, shift: bool, at: nat, done: nat)
    requires
        before.keys.len() < 64,
    ensures
        ({
            let after = before.after(CommandView::BrowserTab { shift }, at, done);
            &&& after.keys.len() == before.keys.len() + 1
            &&& before.keys.is_prefix_of(after.keys)
            &&& after.keys.last() == if shift {
                NavKey::ShiftTab
            } else {
                NavKey::Tab
            }
            &&& after == (TrainingView { keys: after.keys, ..before })
            &&& before.events(CommandView::BrowserTab { shift }, at).len() == 0
        }),
{
}

/// Tab keys beyond what a user would press are not kept.
pub proof fn law_tabs_beyond_limit_are_dropped(
    before: TrainingView,
    shift: bool,
    at: nat,
    done: nat,
)
    requires
        before.keys.len() >= 64,
    ensures
        before.after(CommandView::BrowserTab { shift }, at, done) == before,
{
}

// ── Rows ──────────────────────────────────────────────────────────────────────

/// Advancing goes to the next row, if there is one, and changes nothing else.
pub proof fn law_advancing_goes_to_next_row(before: TrainingView, at: nat, done: nat)
    ensures
        ({
            let after = before.after(CommandView::AdvanceRow, at, done);
            &&& after == (TrainingView { current_row: after.current_row, ..before })
            &&& before.current_row + 1 < before.data.rows.len() ==> {
                &&& after.current_row == before.current_row + 1
                &&& before.events(CommandView::AdvanceRow, at).len() > 0
                &&& before.events(CommandView::AdvanceRow, at)[0] == (
                TrainingEventView::RowAdvanced { row_index: before.current_row + 1 })
            }
            &&& before.current_row + 1 >= before.data.rows.len() ==> {
                &&& after.current_row == before.current_row
                &&& before.events(CommandView::AdvanceRow, at).len() == 1
                &&& before.events(CommandView::AdvanceRow, at)[0] is Error
            }
        }),
{
}

/// The column that a notice about a row is for.
pub open spec fn notice_column(event: TrainingEventView) -> nat {
    match event {
        TrainingEventView::EmptyCellEncountered { column, .. } => column,
        TrainingEventView::NewFieldEncountered { column, .. } => column,
        _ => 0,
    }
}

/// Whether an event is a notice that a column of a row calls for: the cell of a bound
/// column is empty and there is no rule for that, or the cell of a column that is not
/// bound holds something.
pub open spec fn is_due(session: TrainingView, row: nat, event: TrainingEventView) -> bool {
    match event {
        TrainingEventView::EmptyCellEncountered { column, row_index } => {
            &&& row_index == row
            &&& column < session.data.column_count
            &&& session.bindings[column as int] is Some
            &&& session.data.rows[row as int][column as int].len() == 0
            &&& !session.rules.contains_key(column as usize)
        },
        TrainingEventView::NewFieldEncountered { column, value } => {
            &&& column < session.data.column_count
            &&& session.bindings[column as int] is None
            &&& session.data.rows[row as int][column as int] == value
            &&& value.len() > 0
        },
        _ => false,
    }
}

/// Advancing to a row notices every empty cell without a rule and every new field,
/// each once and in column order, and nothing else.
pub proof fn law_advancing_notices_all(before: TrainingView, at: nat)
    requires
        before.wf(),
        before.current_row + 1 < before.data.rows.len(),
    ensures
        ({
            let events = before.events(CommandView::AdvanceRow, at);
            &&& forall|i: int|
                1 <= i < events.len() ==> is_due(
                    before,
                    before.current_row + 1,
                    #[trigger] events[i],
                )
            &&& forall|event: TrainingEventView|
                is_due(before, before.current_row + 1, event) ==> #[trigger] events.contains(event)
            &&& forall|i: int, j: int|
                1 <= i < j < events.len() ==> notice_column(#[trigger] events[i]) < notice_column(
                    #[trigger] events[j],
                )
        }),
{
    let advanced = before.advanced();
    let row = before.current_row + 1;
    let n = before.data.column_count;
    let events = before.events(CommandView::AdvanceRow, at);
    let notices = advanced.notices(n);
    assert(advanced.row() == before.data.rows[row as int]);
    lemma_notices_due(advanced, n);
    assert(events =~= seq![TrainingEventView::RowAdvanced { row_index: row }] + notices);
    assert forall|i: int| 1 <= i < events.len() implies is_due(
        before,
        row,
        #[trigger] events[i],
    ) by {
        assert(events[i] == notices[i - 1]);
        assert(is_due(advanced, row, notices[i - 1]));
    }
    assert forall|event: TrainingEventView| is_due(before, row, event) implies
        #[trigger] events.contains(event) by {
        assert(is_due(advanced, row, event) && notice_column(event) < n);
        assert(notices.contains(event));
        let k = choose|k: int| 0 <= k < notices.len() && notices[k] == event;
        assert(events[k + 1] == event);
    }
    assert forall|i: int, j: int| 1 <= i < j < events.len() implies notice_column(
        #[trigger] events[i],
    ) < notice_column(#[trigger] events[j]) by {
        assert(events[i] == notices[i - 1] && events[j] == notices[j - 1]);
    }
}

/// What is noticed about the first `n` columns is what they call for, in order.
proof fn lemma_notices_due(session: TrainingView, n: nat)
    requires
        n <= session.data.column_count,
        session.row().len() == session.data.column_count,
    ensures
        forall|i: int|
            0 <= i < session.notices(n).len() ==> is_due(
                session,
                session.current_row,
                #[trigger] session.notices(n)[i],
            ) && notice_column(session.notices(n)[i]) < n,
        forall|event: TrainingEventView|
            is_due(session, session.current_row, event) && notice_column(event) < n
                ==> #[trigger] session.notices(n).contains(event),
        forall|i: int, j: int|
            0 <= i < j < session.notices(n).len() ==> notice_column(
                #[trigger] session.notices(n)[i],
            ) < notice_column(#[trigger] session.notices(n)[j]),
    decreases n,
{
    if n > 0 {
        let rest = session.notices((n - 1) as nat);
        let all = session.notices(n);
        lemma_notices_due(session, (n - 1) as nat);
        assert forall|i: int| 0 <= i < all.len() implies is_due(
            session,
            session.current_row,
            #[trigger] all[i],
        ) && notice_column(all[i]) < n by {
            if i < rest.len() {
                assert(all[i] == rest[i]);
            }
        }
        assert forall|event: TrainingEventView|
            is_due(session, session.current_row, event) && notice_column(event) < n implies
            #[trigger] all.contains(event) by {
            if notice_column(event) < n - 1 {
                assert(rest.contains(event));
                let k = choose|k: int| 0 <= k < rest.len() && rest[k] == event;
                assert(all[k] == event);
            } else {
                assert(all.last() == event);
                assert(all[all.len() - 1] == event);
            }
        }
        assert forall|i: int, j: int| 0 <= i < j < all.len() implies notice_column(
            #[trigger] all[i],
        ) < notice_column(#[trigger] all[j]) by {
            assert(all[i] == rest[i]);
            if j < rest.len() {
                assert(all[j] == rest[j]);
            }
        }
    }
}

/// A row is complete exactly when there is one and each of its cells that holds
/// something is typed by a step that its column is bound to.
pub proof fn law_complete_row(session: TrainingView)
    requires
        session.wf(),
    ensures
        session.complete() <==> session.current_row < session.data.rows.len() && forall|column: int|
            0 <= column < session.data.column_count
                && session.data.rows[session.current_row as int][column].len() > 0 ==> (
            #[trigger] session.bindings[column]) is Some,
        session.complete() ==> forall|column: int|
            0 <= column < session.data.column_count && (
            #[trigger] session.data.rows[session.current_row as int][column]).len() > 0
                ==> session.bindings[column] is Some && {
                let step = session.steps[session.bindings[column]->0 as int];
                step is Type && step->source == (ValueSourceView::Column { index: column as nat })
            },
{
    if session.current_row < session.data.rows.len() {
        assert(session.row() == session.data.rows[session.current_row as int]);
        assert forall|column: int| 0 <= column < session.bindings.len() implies
            session.binding_types(column) by {}
        if session.complete() {
            assert forall|column: int|
                0 <= column < session.data.column_count
                    && session.data.rows[session.current_row as int][column].len() > 0 implies (
            #[trigger] session.bindings[column]) is Some by {
                assert(session.row()[column].len() > 0);
            }
            assert forall|column: int|
                0 <= column < session.data.column_count && (
                #[trigger] session.data.rows[session.current_row as int][column]).len()
                    > 0 implies session.bindings[column] is Some
                && session.steps[session.bindings[column]->0 as int].types_column(
                column as nat,
            ) by {
                assert(session.row()[column].len() > 0);
                assert(session.binding_types(column));
            }
        }
    }
}

/// The delay at the end of a row is the time from the last keystroke to when the row
/// was found complete; typing that completes nothing leaves it alone.
pub proof fn law_row_end_delay(
    before: TrainingView,
    info: SelectorInfoView,
    tag: Seq<char>,
    value: Seq<char>,
    at: nat,
    done: nat,
)
    ensures
        ({
            let after = before.after(
                CommandView::BrowserInput { selector_info: info, tag, value },
                at,
                done,
            );
            &&& after.complete() && done >= at ==> at + after.row_end_delay == done
            &&& after.complete() && done < at ==> after.row_end_delay == 0
            &&& !after.complete() ==> after.row_end_delay == before.row_end_delay
        }),
{
    let typed = before.typed(info, tag, value, at);
    let after = before.after(
        CommandView::BrowserInput { selector_info: info, tag, value },
        at,
        done,
    );
    assert(after.row() == typed.row());
    assert(after.complete() == typed.complete());
}

// ── User's choices ────────────────────────────────────────────────────────────

/// A rule given for a column is kept for that column, and nothing else changes.
pub proof fn law_rule_is_kept(
    before: TrainingView,
    column: usize,
    rule: EmptyCellView,
    at: nat,
    done: nat,
)
    ensures
        ({
            let after = before.after(CommandView::HandleEmptyCell { column, rule }, at, done);
            &&& after.rules.contains_key(column)
            &&& after.rules[column] == rule
            &&& forall|other: usize|
                other != column ==> (#[trigger] after.rules.contains_key(other)
                    == before.rules.contains_key(other)) && (before.rules.contains_key(other)
                    ==> after.rules[other] == before.rules[other])
            &&& after == (TrainingView { rules: after.rules, ..before })
            &&& before.events(CommandView::HandleEmptyCell { column, rule }, at).len() == 0
        }),
{
}

/// A speed that is selected is kept and told, and nothing else changes.
pub proof fn law_speed_is_kept(before: TrainingView, speed: PlaybackSpeed, at: nat, done: nat)
    ensures
        before.after(CommandView::SetSpeed(speed), at, done).speed == speed,
        before.after(CommandView::SetSpeed(speed), at, done) == (TrainingView {
            speed: before.after(CommandView::SetSpeed(speed), at, done).speed,
            ..before
        }),
        before.events(CommandView::SetSpeed(speed), at) == seq![
            TrainingEventView::SpeedChanged(speed),
        ],
{
}

/// Whether a step types and no column is bound to it.
pub open spec fn is_free_input(session: TrainingView, step: int) -> bool {
    &&& session.steps[step] is Type
    &&& forall|column: int|
        0 <= column < session.bindings.len() ==> #[trigger] session.bindings[column] != Some(
            step as usize,
        )
}

/// Assigning a column gives it the latest input step that no column is bound to: that
/// step then types the column and keeps its element and how it was reached; all other
/// steps and bindings stay.
pub proof fn law_new_field_gets_latest_input(
    before: TrainingView,
    column: usize,
    step: nat,
    at: nat,
    done: nat,
)
    requires
        before.wf(),
        before.steps.len() <= usize::MAX,
        column < before.bindings.len(),
        step < before.steps.len(),
        is_free_input(before, step as int),
        forall|later: int|
            step < later < before.steps.len() ==> !#[trigger] is_free_input(before, later),
    ensures
        ({
            let after = before.after(CommandView::HandleNewField { column }, at, done);
            &&& after.steps.len() == before.steps.len()
            &&& after.steps[step as int] is Type
            &&& after.steps[step as int]->source == (ValueSourceView::Column {
                index: column as nat,
            })
            &&& after.steps[step as int].selector() == before.steps[step as int].selector()
            &&& after.steps[step as int].navigation() == before.steps[step as int].navigation()
            &&& forall|i: int|
                0 <= i < before.steps.len() && i != step ==> #[trigger] after.steps[i]
                    == before.steps[i]
            &&& after.bindings.len() == before.bindings.len()
            &&& after.bindings[column as int] == Some(step as usize)
            &&& forall|c: int|
                0 <= c < before.bindings.len() && c != column ==> #[trigger] after.bindings[c]
                    == before.bindings[c]
            &&& after == (TrainingView { steps: after.steps, bindings: after.bindings, ..before })
        }),
{
    lemma_latest_input(before, before.steps.len(), step);
}

/// The search for a free input step finds the latest one.
proof fn lemma_latest_input(session: TrainingView, n: nat, step: nat)
    requires
        step < n <= session.steps.len() <= usize::MAX,
        is_free_input(session, step as int),
        forall|later: int| step < later < n ==> !#[trigger] is_free_input(session, later),
    ensures
        session::last_free_type(session.steps, session.bindings, n) == Some(step),
    decreases n,
{
    let last = n - 1;
    lemma_free_input(session, last);
    if last > step {
        assert(!is_free_input(session, last));
        lemma_latest_input(session, last as nat, step);
    }
}

/// A free input step is one that types and that is not bound.
proof fn lemma_free_input(session: TrainingView, step: int)
    requires
        0 <= step < session.steps.len() <= usize::MAX,
    ensures
        is_free_input(session, step) == (session.steps[step] is Type && !session::is_bound(
            session.bindings,
            step as nat,
        )),
{
    if session::is_bound(session.bindings, step as nat) {
        let column = choose|column: int|
            0 <= column < session.bindings.len() && (#[trigger] session.bindings[column]) is Some
                && session.bindings[column]->0 == step;
        assert(session.bindings[column] == Some(step as usize));
    } else if !is_free_input(session, step) && session.steps[step] is Type {
        let column = choose|column: int|
            0 <= column < session.bindings.len() && #[trigger] session.bindings[column] == Some(
                step as usize,
            );
        assert(session.bindings[column] is Some);
    }
}

/// Assigning a column that does not exist is refused, and without a free input step
/// nothing happens.
pub proof fn law_new_field_refused(before: TrainingView, column: usize, at: nat, done: nat)
    requires
        before.wf(),
        before.steps.len() <= usize::MAX,
        column >= before.bindings.len() || forall|step: int|
            0 <= step < before.steps.len() ==> !#[trigger] is_free_input(before, step),
    ensures
        before.after(CommandView::HandleNewField { column }, at, done) == before,
        column >= before.bindings.len() ==> before.events(
            CommandView::HandleNewField { column },
            at,
        ).len() == 1 && before.events(CommandView::HandleNewField { column }, at)[0] is Error,
        column < before.bindings.len() ==> before.events(
            CommandView::HandleNewField { column },
            at,
        ).len() == 0,
{
    if column < before.bindings.len() {
        TrainingView::lemma_last_free_type(before.steps, before.bindings, before.steps.len());
        let found = before.field_step();
        if found is Some {
            lemma_free_input(before, found->0 as int);
            assert(is_free_input(before, found->0 as int));
        }
    }
}

// ── Events ────────────────────────────────────────────────────────────────────

/// What is told of a command is what it did: an added step is told with its index, a
/// replaced one with its own, a binding as it now is, a complete row as complete, the
/// row and the speed as they now are; an error means that nothing was done.
pub proof fn law_events_are_true(
    before: TrainingView,
    command: CommandView,
    at: nat,
    done: nat,
    i: int,
)
    requires
        before.wf(),
        before.steps.len() <= usize::MAX,
        0 <= i < before.events(command, at).len(),
    ensures
        ({
            let after = before.after(command, at, done);
            match before.events(command, at)[i] {
                TrainingEventView::StepRecorded { index, step } => {
                    &&& index == before.steps.len()
                    &&& after.steps.len() == index + 1
                    &&& after.steps[index as int] == step
                },
                TrainingEventView::StepUpdated { index, step } => {
                    &&& index < before.steps.len()
                    &&& after.steps.len() == before.steps.len()
                    &&& after.steps[index as int] == step
                },
                TrainingEventView::ColumnBound { column, step_index } => {
                    &&& column < after.bindings.len()
                    &&& after.bindings[column as int] == Some(step_index as usize)
                },
                TrainingEventView::RowComplete { row_index } => {
                    &&& row_index == before.current_row
                    &&& after.complete()
                    &&& command is BrowserInput
                },
                TrainingEventView::RowAdvanced { row_index } => {
                    &&& row_index == before.current_row + 1
                    &&& after.current_row == row_index
                },
                TrainingEventView::SpeedChanged(speed) => {
                    &&& after.speed == speed
                    &&& command == CommandView::SetSpeed(speed)
                },
                TrainingEventView::Error(_) => after == before && before.events(
                    command,
                    at,
                ).len() == 1,
                _ => is_due(before, before.current_row + 1, before.events(command, at)[i])
                    && command is AdvanceRow,
            }
        }),
{
    match command {
        CommandView::BrowserInput { selector_info, .. } => {
            let existing = session::last_on_element(before.selectors, selector_info);
            lemma_latest(before.selectors, selector_info);
            TrainingView::lemma_next_unbound(before.bindings, existing, 0);
        },
        CommandView::HandleNewField { .. } => {
            TrainingView::lemma_last_free_type(before.steps, before.bindings, before.steps.len());
        },
        CommandView::AdvanceRow => {
            if before.can_advance() && i > 0 {
                law_advancing_notices_all(before, at);
            }
        },
        _ => {},
    }
}

/// Nothing is done in silence: every added or replaced step is told, every new
/// binding is, and so is that typing has made a row complete.
pub proof fn law_changes_are_told(
    before: TrainingView,
    command: CommandView,
    at: nat,
    done: nat,
)
    requires
        before.wf(),
        before.steps.len() <= usize::MAX,
    ensures
        ({
            let after = before.after(command, at, done);
            let events = before.events(command, at);
            &&& after.steps.len() > before.steps.len() ==> events.contains(
                TrainingEventView::StepRecorded {
                    index: before.steps.len(),
                    step: after.steps.last(),
                },
            )
            &&& forall|i: int|
                0 <= i < before.steps.len() && after.steps[i] != before.steps[i]
                    ==> #[trigger] events.contains(
                    TrainingEventView::StepUpdated { index: i as nat, step: after.steps[i] },
                )
            &&& forall|column: int|
                0 <= column < before.bindings.len() && after.bindings[column] is Some
                    && after.bindings[column] != before.bindings[column]
                    ==> #[trigger] events.contains(
                    TrainingEventView::ColumnBound {
                        column: column as nat,
                        step_index: after.bindings[column]->0 as nat,
                    },
                )
            &&& command is BrowserInput && after.complete() ==> events.len() > 0 && events.last()
                == (TrainingEventView::RowComplete { row_index: before.current_row })
        }),
{
    let events = before.events(command, at);
    let after = before.after(command, at, done);
    if events.len() > 0 {
        assert(events.contains(events[0]));
    }
    if events.len() > 1 {
        assert(events.contains(events[1]));
    }
    match command {
        CommandView::BrowserInput { selector_info, tag, value } => {
            let existing = session::last_on_element(before.selectors, selector_info);
            lemma_latest(before.selectors, selector_info);
            TrainingView::lemma_next_unbound(before.bindings, existing, 0);
            assert(after.complete() == before.typed(selector_info, tag, value, at).complete());
        },
        CommandView::HandleNewField { .. } => {
            TrainingView::lemma_last_free_type(before.steps, before.bindings, before.steps.len());
        },
        _ => {},
    }
}

// ── The recording as a whole ──────────────────────────────────────────────────

/// A session starts at the first row with nothing recorded and no column bound.
pub proof fn law_session_starts_empty(data: DataSetView)
    ensures
        ({
            let session = TrainingView::start(data);
            &&& session.data == data
            &&& session.current_row == 0
            &&& session.steps.len() == 0
            &&& session.selectors.len() == 0
            &&& session.delays.len() == 0
            &&& session.last_step is None
            &&& session.row_end_delay == 0
            &&& session.bindings.len() == data.column_count
            &&& forall|column: int|
                0 <= column < data.column_count ==> (#[trigger] session.bindings[column]) is None
            &&& forall|column: usize| !#[trigger] session.rules.contains_key(column)
            &&& session.speed == PlaybackSpeed::Step
            &&& session.anchor is None
            &&& session.keys.len() == 0
        }),
{
}

/// The workflow of a session is what was recorded: all of its steps and delays in
/// their order, its bindings and its rules, in the current format.
pub proof fn law_workflow_is_the_recording(
    session: TrainingView,
    data_source: Option<DataSourceView>,
)
    ensures
        ({
            let built = session.workflow(data_source);
            &&& built.version == workflow::FORMAT_VERSION
            &&& built.column_count == session.data.column_count
            &&& built.steps == session.steps
            &&& built.step_delays == session.delays
            &&& built.row_end_delay == session.row_end_delay
            &&& built.column_bindings == session.bindings
            &&& built.empty_cell_rules == session.rules
            &&& built.data_source == data_source
        }),
{
}

/// Every recorded click and input looks for the element the user acted on, in every
/// way that was known of it; so it can be found again whenever any was.
pub proof fn law_recorded_steps_find_their_element(session: TrainingView, i: int)
    requires
        session.wf(),
        0 <= i < session.steps.len(),
    ensures
        session.steps[i] is WaitForNavigation <==> session.selectors[i] is None,
        session.selectors[i] matches Some(info) ==> session.steps[i].selector() is Some
            && session.steps[i].selector()->0.strategies == info.strategies(),
        session.selectors[i] matches Some(info) ==> (info.id is Some && info.id->0.len() > 0
            || info.css is Some && info.css->0.len() > 0 || info.xpath is Some
            && info.xpath->0.len() > 0 || info.text_content is Some && info.text_content->0.len()
            > 0) ==> session.steps[i].selector()->0.strategies.len() > 0,
{
    assert(session.finds_element(i));
}

/// The order in which a command's changes are told: bindings, then steps, then the row.
pub open spec fn told_rank(event: TrainingEventView) -> nat {
    match event {
        TrainingEventView::ColumnBound { .. } => 0,
        TrainingEventView::StepRecorded { .. } => 1,
        TrainingEventView::StepUpdated { .. } => 1,
        TrainingEventView::RowComplete { .. } => 2,
        _ => 3,
    }
}

/// Every change is told once, and in order: a new binding before the step it is to, and
/// that the row is complete last.
pub proof fn law_changes_are_told_once(
    before: TrainingView,
    command: CommandView,
    at: nat,
    i: int,
    j: int,
)
    requires
        before.wf(),
        command !is AdvanceRow,
        0 <= i < j < before.events(command, at).len(),
    ensures
        told_rank(before.events(command, at)[i]) < told_rank(before.events(command, at)[j]),
{
}

} // verus!
