//! What holds of every table that is made of records.
use vstd::prelude::*;
use crate::text;
use super::parse;
use super::parse::{DataSetView, Row};
use super::DataErrorView;

verus! {

/// Whether a record holds something: a character that is not white space.
pub open spec fn holds_something(record: Row) -> bool {
    exists|i: int, j: int|
        0 <= i < record.len() && 0 <= j < record[i].len() && !text::white_space(
            #[trigger] record[i][j],
        )
}

/// Whether every record holds something.
pub open spec fn all_hold_something(records: Seq<Row>) -> bool {
    forall|k: int| 0 <= k < records.len() ==> holds_something(#[trigger] records[k])
}

/// A record that holds nothing makes no difference, wherever it stands.
pub proof fn law_blank_records_are_dropped(
    before: Seq<Row>,
    record: Row,
    behind: Seq<Row>,
    has_headers: bool,
    outcome: Result<DataSetView, DataErrorView>,
)
    requires
        !holds_something(record),
    ensures
        parse::tabulated(before + seq![record] + behind, has_headers, outcome)
            == parse::tabulated(before + behind, has_headers, outcome),
{
    lemma_blank(record);
    let pred = |record: Row| !parse::blank_record(record);
    Seq::filter_distributes_over_add(before + seq![record], behind, pred);
    Seq::filter_distributes_over_add(before, seq![record], pred);
    Seq::filter_distributes_over_add(before, behind, pred);
    assert(seq![record].filter(pred) =~= seq![]) by {
        reveal(Seq::filter);
        reveal_with_fuel(Seq::filter, 2);
        assert(seq![record].drop_last() =~= seq![]);
    }
    assert(parse::kept(before + seq![record] + behind) =~= parse::kept(before + behind));
}

/// Records that all hold something become rows as they are and in their order. With
/// headers the first is the header row and all others are rows; without, all are rows.
/// The table is as wide as its first record.
pub proof fn law_records_become_rows(
    records: Seq<Row>,
    has_headers: bool,
    data: DataSetView,
)
    requires
        all_hold_something(records),
        parse::tabulated(records, has_headers, Ok(data)),
    ensures
        records.len() > 0,
        data.column_count == records[0].len(),
        forall|k: int|
            0 <= k < records.len() ==> (#[trigger] records[k]).len() == data.column_count,
        has_headers ==> {
            &&& data.headers == Some(records[0])
            &&& data.rows.len() == records.len() - 1
            &&& data.rows.len() > 0
            &&& forall|k: int|
                0 <= k < data.rows.len() ==> #[trigger] data.rows[k] == records[k + 1]
        },
        !has_headers ==> {
            &&& data.headers is None
            &&& data.rows.len() == records.len()
            &&& forall|k: int| 0 <= k < data.rows.len() ==> #[trigger] data.rows[k] == records[k]
        },
{
    lemma_all_kept(records);
    assert forall|k: int| 0 <= k < records.len() implies (#[trigger] records[k]).len()
        == data.column_count by {
        if has_headers {
            if k > 0 {
                assert(data.rows[k - 1] == records[k]);
            }
        } else {
            assert(data.rows[k] == records[k]);
        }
    }
}

/// A table is refused exactly when there is no row in it or a row is of another width
/// than the first record; then the first such row is named, counted from one without
/// the header row.
pub proof fn law_refused_tables(records: Seq<Row>, has_headers: bool, error: DataErrorView)
    requires
        all_hold_something(records),
        parse::tabulated(records, has_headers, Err(error)),
    ensures
        error is Empty <==> records.len() == 0 || has_headers && records.len() == 1,
        error !is Empty ==> error is InconsistentColumns,
        error matches DataErrorView::InconsistentColumns { row, expected, found } ==> {
            let first: int = if has_headers {
                1
            } else {
                0
            };
            let k = first + row - 1;
            &&& first <= k < records.len()
            &&& expected == records[0].len()
            &&& found == records[k].len()
            &&& found != expected
            &&& forall|j: int| 0 <= j < k ==> (#[trigger] records[j]).len() == expected
        },
{
    lemma_all_kept(records);
    let rows = parse::data_rows(records, has_headers);
    if error is InconsistentColumns {
        let row = error->InconsistentColumns_row;
        let expected = error->InconsistentColumns_expected;
        let first: int = if has_headers {
            1
        } else {
            0
        };
        let k = first + row - 1;
        assert forall|j: int| 0 <= j < k implies (#[trigger] records[j]).len() == expected by {
            if j >= first {
                assert(rows[j - first] == records[j]);
            }
        }
    }
}

/// A table whose records are all as wide as the first is never refused for its width.
pub proof fn law_even_tables_are_accepted(
    records: Seq<Row>,
    has_headers: bool,
    outcome: Result<DataSetView, DataErrorView>,
)
    requires
        all_hold_something(records),
        records.len() > if has_headers { 1nat } else { 0 },
        forall|k: int|
            0 <= k < records.len() ==> (#[trigger] records[k]).len() == records[0].len(),
        parse::tabulated(records, has_headers, outcome),
    ensures
        outcome is Ok,
{
    if outcome is Err {
        law_refused_tables(records, has_headers, outcome->Err_0);
    }
}

/// Taking the first row as headers moves that row and leaves all else as it is; a
/// table that has headers, or no row, is left alone.
pub proof fn law_first_row_becomes_headers(data: DataSetView)
    ensures
        data.headed().column_count == data.column_count,
        data.headers is None && data.rows.len() > 0 ==> {
            &&& data.headed().headers == Some(data.rows[0])
            &&& data.headed().rows.len() == data.rows.len() - 1
            &&& forall|k: int|
                1 <= k < data.rows.len() ==> data.headed().rows[k - 1] == #[trigger] data.rows[k]
        },
        data.headers is Some || data.rows.len() == 0 ==> data.headed() == data,
{
}

/// Reading with headers is reading without them and then taking the first row as
/// headers, where there is a row left.
pub proof fn law_headers_are_first_row(
    records: Seq<Row>,
    with: DataSetView,
    without: DataSetView,
)
    requires
        parse::tabulated(records, true, Ok(with)),
        parse::tabulated(records, false, Ok(without)),
    ensures
        with == without.headed(),
{
    assert(with.rows =~= without.headed().rows);
}

/// A record is blank exactly when it holds nothing.
proof fn lemma_blank(record: Row)
    ensures
        parse::blank_record(record) == !holds_something(record),
{
    if !parse::blank_record(record) {
        let i = choose|i: int| 0 <= i < record.len() && !text::blank(#[trigger] record[i]);
        let j = choose|j: int|
            0 <= j < record[i].len() && !text::white_space(#[trigger] record[i][j]);
        assert(!text::white_space(record[i][j]));
    } else if holds_something(record) {
        let (i, j) = choose|i: int, j: int|
            0 <= i < record.len() && 0 <= j < record[i].len() && !text::white_space(
                #[trigger] record[i][j],
            );
        assert(text::blank(record[i]));
    }
}

/// Of records that all hold something, all are kept.
proof fn lemma_all_kept(records: Seq<Row>)
    requires
        all_hold_something(records),
    ensures
        parse::kept(records) == records,
    decreases records.len(),
{
    reveal(Seq::filter);
    if records.len() > 0 {
        let rest = records.drop_last();
        assert forall|k: int| 0 <= k < rest.len() implies holds_something(#[trigger] rest[k]) by {
            assert(rest[k] == records[k]);
        }
        lemma_all_kept(rest);
        lemma_blank(records.last());
        assert(holds_something(records[records.len() - 1]));
        assert(parse::kept(records) =~= records);
    } else {
        assert(parse::kept(records) =~= records);
    }
}

} // verus!
