//! What holds of every training session.
use vstd::prelude::*;
use crate::data::parse::DataSetView;
use crate::data::source::DataSourceView;
use crate::workflow;
use crate::workflow::ValueSourceView;
use super::session;
use super::session::{TrainingView, MAX_PENDING_KEYS};
use super::{CommandView, SelectorInfoView, TrainingEventView};

verus! {

/// The workflow of a session is valid, as long as no delay is too long and the
/// empty-cell rules given to the session are for columns that exist.
pub proof fn law_recorded_workflow_valid(
    session: TrainingView,
    data_source: Option<DataSourceView>,
)
    requires
        session.wf(),
        forall|i: int|
            0 <= i < session.delays.len() ==> !workflow::too_long(#[trigger] session.delays[i]),
        !workflow::too_long(session.row_end_delay),
        forall|column: usize| #[trigger]
            session.rules.contains_key(column) ==> column < session.data.column_count,
    ensures
        session.workflow(data_source).valid(),
{
    let built = session.workflow(data_source);
    assert forall|column: int| 0 <= column < built.column_count implies #[trigger]
    built.binding_fits(column) by {
        assert(session.binding_types(column));
    }
}

/// Two columns are never bound to the same step.
pub proof fn law_bindings_distinct(session: TrainingView, one: int, other: int)
    requires
        session.wf(),
        0 <= one < other < session.bindings.len(),
        session.bindings[one] is Some,
    ensures
        session.bindings[one] != session.bindings[other],
{
    assert(session.binding_types(one));
    assert(session.binding_types(other));
}

/// A command never loses a recorded step and adds at most one, and only typing
/// and assigning a column change one.
pub proof fn law_steps_are_kept(before: TrainingView, command: CommandView, at: nat, done: nat)
    requires
        before.wf(),
    ensures
        before.steps.len() <= before.after(command, at, done).steps.len() <= before.steps.len() + 1,
        command !is BrowserInput && command !is HandleNewField ==> before.steps.is_prefix_of(
            before.after(command, at, done).steps,
        ),
{
    match command {
        CommandView::BrowserInput { selector_info, .. } => {
            TrainingView::lemma_last_on_element(before.selectors, selector_info);
        },
        CommandView::HandleNewField { .. } => {
            TrainingView::lemma_last_free_type(before.steps, before.bindings, before.steps.len());
        },
        _ => {},
    }
}

/// Only typing and assigning a column change bindings.
pub proof fn law_bindings_change_by_typing(
    before: TrainingView,
    command: CommandView,
    at: nat,
    done: nat,
)
    requires
        command !is BrowserInput,
        command !is HandleNewField,
    ensures
        before.after(command, at, done).bindings == before.bindings,
{
}

/// Going on typing in an element updates its step in place: the number of steps,
/// the navigation path of that step and all other steps stay as they are.
pub proof fn law_incremental_typing(
    before: TrainingView,
    info: SelectorInfoView,
    tag: Seq<char>,
    value: Seq<char>,
    at: nat,
    step: nat,
)
    requires
        before.wf(),
        session::last_on_element(before.selectors, info) == Some(step),
    ensures
        before.typed(info, tag, value, at).steps.len() == before.steps.len(),
        step < before.steps.len(),
        before.typed(info, tag, value, at).steps[step as int].navigation()
            == before.steps[step as int].navigation(),
        forall|i: int|
            0 <= i < before.steps.len() && i != step ==> #[trigger] before.typed(
                info,
                tag,
                value,
                at,
            ).steps[i] == before.steps[i],
{
    TrainingView::lemma_last_on_element(before.selectors, info);
}

/// Typing the cell of the next unbound column into a new element binds that
/// column to the new step, and leaves all other bindings alone.
pub proof fn law_next_cell_binds(
    before: TrainingView,
    info: SelectorInfoView,
    tag: Seq<char>,
    at: nat,
    column: nat,
)
    requires
        before.wf(),
        before.has_row(),
        before.steps.len() <= usize::MAX,
        session::last_on_element(before.selectors, info) is None,
        session::next_unbound(before.bindings, None, 0) == Some(column),
    ensures
        before.typed(info, tag, before.row()[column as int], at).bindings
            == before.bindings.update(column as int, Some(before.steps.len() as usize)),
        before.typed(info, tag, before.row()[column as int], at).steps.len() == before.steps.len()
            + 1,
        before.typed(info, tag, before.row()[column as int], at).steps.last().types_column(column),
        before.typing_events(info, tag, before.row()[column as int], at)[0] == (
        TrainingEventView::ColumnBound { column, step_index: before.steps.len() }),
{
    let after = before.typed(info, tag, before.row()[column as int], at);
    assert(after.steps.last() == after.steps[before.steps.len() as int]);
}

/// A value that is not the cell of the next unbound column is recorded as a
/// literal and binds nothing.
pub proof fn law_other_value_is_literal(
    before: TrainingView,
    info: SelectorInfoView,
    tag: Seq<char>,
    value: Seq<char>,
    at: nat,
)
    requires
        before.wf(),
        session::last_on_element(before.selectors, info) is None,
        before.matched(value, None) is None,
    ensures
        before.typed(info, tag, value, at).bindings == before.bindings,
        before.typed(info, tag, value, at).steps.last() is Type,
        before.typed(info, tag, value, at).steps.last()->source == (ValueSourceView::Literal {
            value,
        }),
{
    let after = before.typed(info, tag, value, at);
    assert(after.steps.last() == after.steps[before.steps.len() as int]);
}

/// The first row typed in column order, each cell into an element of its own.
pub open spec fn demonstrated(
    data: DataSetView,
    infos: Seq<SelectorInfoView>,
    tags: Seq<Seq<char>>,
    times: Seq<nat>,
    n: nat,
) -> TrainingView
    decreases n,
{
    if n == 0 {
        TrainingView::start(data)
    } else {
        let before = demonstrated(data, infos, tags, times, (n - 1) as nat);
        before.after(
            CommandView::BrowserInput {
                selector_info: infos[n - 1],
                tag: tags[n - 1],
                value: data.rows[0][n - 1],
            },
            times[n - 1],
            times[n - 1],
        )
    }
}

/// Showing a row once is enough: after each cell of the first row has been typed
/// into an element of its own, in column order, every column is bound to the step
/// that types it, and the row is complete.
pub proof fn law_demonstration_binds_all(
    data: DataSetView,
    infos: Seq<SelectorInfoView>,
    tags: Seq<Seq<char>>,
    times: Seq<nat>,
)
    requires
        data.rectangular(),
        data.rows.len() > 0,
        data.column_count <= usize::MAX,
        infos.len() == data.column_count,
        forall|i: int, j: int|
            0 <= i < j < infos.len() ==> !(#[trigger] infos[i]).matches_element(#[trigger] infos[j]),
    ensures
        ({
            let session = demonstrated(data, infos, tags, times, data.column_count);
            &&& session.complete()
            &&& session.steps.len() == data.column_count
            &&& forall|column: int|
                0 <= column < data.column_count ==> #[trigger] session.bindings[column] == Some(
                    column as usize,
                )
            &&& forall|column: int|
                0 <= column < data.column_count ==> (
                #[trigger] session.steps[column]).types_column(column as nat)
        }),
{
    lemma_demonstrated(data, infos, tags, times, data.column_count);
}

/// After `n` cells the first `n` columns are bound, each to its own step.
proof fn lemma_demonstrated(
    data: DataSetView,
    infos: Seq<SelectorInfoView>,
    tags: Seq<Seq<char>>,
    times: Seq<nat>,
    n: nat,
)
    requires
        data.rectangular(),
        data.rows.len() > 0,
        data.column_count <= usize::MAX,
        infos.len() == data.column_count,
        n <= data.column_count,
        forall|i: int, j: int|
            0 <= i < j < infos.len() ==> !(#[trigger] infos[i]).matches_element(#[trigger] infos[j]),
    ensures
        ({
            let session = demonstrated(data, infos, tags, times, n);
            &&& session.wf()
            &&& session.data == data
            &&& session.current_row == 0
            &&& session.steps.len() == n
            &&& session.selectors =~= Seq::new(n, |i: int| Some(infos[i]))
            &&& forall|column: int|
                0 <= column < data.column_count ==> #[trigger] session.bindings[column]
                    == if column < n {
                    Some(column as usize)
                } else {
                    None
                }
            &&& forall|column: int|
                0 <= column < n ==> (#[trigger] session.steps[column]).types_column(column as nat)
        }),
    decreases n,
{
    if n > 0 {
        let column = (n - 1) as nat;
        let before = demonstrated(data, infos, tags, times, column);
        lemma_demonstrated(data, infos, tags, times, column);
        lemma_unseen(infos, column, column);
        lemma_bound_below(before.bindings, column, 0);
        law_next_cell_binds(before, infos[column as int], tags[column as int], times[column as int], column);
        let command = CommandView::BrowserInput {
            selector_info: infos[column as int],
            tag: tags[column as int],
            value: data.rows[0][column as int],
        };
        super::session::law_commands_keep_invariant(
            before,
            command,
            times[column as int],
            times[column as int],
        );
        let after = demonstrated(data, infos, tags, times, n);
        assert(after.selectors =~= before.selectors.push(Some(infos[column as int])));
        assert forall|c: int| 0 <= c < n implies (#[trigger] after.steps[c]).types_column(
            c as nat,
        ) by {
            if c < column {
                assert(after.steps[c] == before.steps[c]);
            }
        }
    }
}

/// An element is not among the first `n`, if it matches none of them.
proof fn lemma_unseen(infos: Seq<SelectorInfoView>, n: nat, element: nat)
    requires
        n <= element < infos.len(),
        forall|i: int, j: int|
            0 <= i < j < infos.len() ==> !(#[trigger] infos[i]).matches_element(#[trigger] infos[j]),
    ensures
        session::last_on_element(Seq::new(n, |i: int| Some(infos[i])), infos[element as int]) is None,
    decreases n,
{
    if n > 0 {
        lemma_unseen(infos, (n - 1) as nat, element);
        assert(Seq::new(n, |i: int| Some(infos[i])).drop_last() =~= Seq::new(
            (n - 1) as nat,
            |i: int| Some(infos[i]),
        ));
    }
}

/// Where exactly the columns below `n` are bound, `n` is the next unbound one.
proof fn lemma_bound_below(bindings: Seq<Option<usize>>, n: nat, from: nat)
    requires
        from <= n < bindings.len(),
        forall|column: int| 0 <= column < n ==> (#[trigger] bindings[column]) is Some,
        bindings[n as int] is None,
    ensures
        session::next_unbound(bindings, None, from) == Some(n),
    decreases n - from,
{
    if from < n {
        lemma_bound_below(bindings, n, from + 1);
    }
}

/// Tab keys beyond the limit are ignored.
pub proof fn law_tab_keys_limited(before: TrainingView, shift: bool)
    requires
        before.wf(),
        before.keys.len() == MAX_PENDING_KEYS,
    ensures
        before.tabbed(shift) == before,
{
}

/// The first recorded step never has a delay, whatever the clock shows.
pub proof fn law_first_delay_zero(
    before: TrainingView,
    command: CommandView,
    at: nat,
    done: nat,
)
    requires
        before.wf(),
        before.steps.len() <= usize::MAX,
        before.after(command, at, done).steps.len() > 0,
    ensures
        before.after(command, at, done).delays[0] == 0,
{
    super::session::law_commands_keep_invariant(before, command, at, done);
}

} // verus!
