//! Tables of text cells, and how delimited text becomes one.
use vstd::prelude::*;
use crate::text;
use super::{DataError, DataErrorView};

verus! {

/// A row of cells.
pub type Row = Seq<Seq<char>>;

/// A rectangular table of string values with an optional header row.
#[derive(Debug)]
pub struct DataSet {
    headers: Option<Vec<String>>,
    rows: Vec<Vec<String>>,
    column_count: usize,
}

/// The contents of a [`DataSet`].
#[verifier::ext_equal]
pub struct DataSetView {
    pub headers: Option<Row>,
    pub rows: Seq<Row>,
    pub column_count: nat,
}

impl DataSetView {
    /// Every row, and the header row if there is one, has one cell per column.
    pub open spec fn rectangular(self) -> bool {
        &&& self.headers is Some ==> self.headers->0.len() == self.column_count
        &&& forall|i: int|
            0 <= i < self.rows.len() ==> (#[trigger] self.rows[i]).len() == self.column_count
    }
}

impl View for DataSet {
    type V = DataSetView;

    closed spec fn view(&self) -> DataSetView {
        DataSetView {
            headers: self.headers.deep_view(),
            rows: self.rows.deep_view(),
            column_count: self.column_count as nat,
        }
    }
}

impl DataSet {
    #[verifier::type_invariant]
    spec fn inv(self) -> bool {
        self@.rectangular()
    }

    /// Number of data rows (excludes headers).
    pub fn row_count(&self) -> (count: usize)
        ensures
            count == self@.rows.len(),
    {
        self.rows.len()
    }

    /// Number of columns.
    pub fn column_count(&self) -> (count: usize)
        ensures
            count == self@.column_count,
            self@.rectangular(),
    {
        proof {
            use_type_invariant(self);
        }
        self.column_count
    }

    /// Column headers, if present.
    pub fn headers(&self) -> (headers: Option<&[String]>)
        ensures
            headers.deep_view() == self@.headers,
            headers is Some ==> headers->0@.len() == self@.column_count,
    {
        proof {
            use_type_invariant(self);
        }
        match &self.headers {
            Some(headers) => Some(headers.as_slice()),
            None => None,
        }
    }

    /// Get a data row by index.
    pub fn row(&self, index: usize) -> (row: Option<&[String]>)
        ensures
            row is Some <==> index < self@.rows.len(),
            row is Some ==> row->0.deep_view() == self@.rows[index as int] && row->0@.len()
                == self@.column_count,
    {
        proof {
            use_type_invariant(self);
        }
        if index < self.rows.len() {
            assert(self@.rows[index as int].len() == self@.column_count);
            Some(self.rows[index].as_slice())
        } else {
            None
        }
    }

    /// All data rows.
    pub fn rows(&self) -> (rows: &[Vec<String>])
        ensures
            rows.deep_view() == self@.rows,
    {
        self.rows.as_slice()
    }
}

impl DataSetView {
    /// The table with its first row as headers, unless it has headers already or
    /// no row.
    pub open spec fn headed(self) -> Self {
        if self.headers is None && self.rows.len() > 0 {
            DataSetView { headers: Some(self.rows[0]), rows: self.rows.skip(1), ..self }
        } else {
            self
        }
    }
}

impl DataSet {
    /// Turns the first row into headers, unless there are headers already.
    pub fn with_first_row_as_headers(self) -> (headed: DataSet)
        ensures
            headed@ == self@.headed(),
    {
        proof {
            use_type_invariant(&self);
        }
        let ghost before = self@;
        if self.headers.is_some() || self.rows.len() == 0 {
            return self;
        }
        let column_count = self.column_count;
        let mut rows = self.rows;
        let first = rows.remove(0);
        assert(first.deep_view() == before.rows[0]);
        assert(rows.deep_view() =~= before.rows.skip(1));
        DataSet { headers: Some(first), rows, column_count }
    }
}

impl Clone for DataSet {
    fn clone(&self) -> (copy: Self)
        ensures
            copy@ == self@,
    {
        proof {
            use_type_invariant(self);
        }
        let headers = match &self.headers {
            Some(headers) => Some(copied_row(headers)),
            None => None,
        };
        let mut rows: Vec<Vec<String>> = Vec::new();
        let mut i: usize = 0;
        while i < self.rows.len()
            invariant
                i <= self.rows.len(),
                rows.deep_view() == self.rows.deep_view().take(i as int),
            decreases self.rows.len() - i,
        {
            let ghost before = rows.deep_view();
            let row = copied_row(&self.rows[i]);
            rows.push(row);
            assert(rows.deep_view() =~= before.push(self.rows.deep_view()[i as int]));
            i = i + 1;
        }
        assert(rows.deep_view() =~= self.rows.deep_view());
        DataSet { headers, rows, column_count: self.column_count }
    }
}

/// Copies a row of cells.
pub fn copied_row(row: &Vec<String>) -> (copy: Vec<String>)
    ensures
        copy.deep_view() == row.deep_view(),
        copy@.len() == row@.len(),
{
    let copy = row.clone();
    assert(copy.deep_view() =~= row.deep_view());
    copy
}

/// The records that the `csv` crate reads from a text, each a sequence of
/// fields, or `None` where it reports an error.
pub uninterp spec fn csv_records(text: Seq<char>, delimiter: u8) -> Option<Seq<Seq<Seq<char>>>>;

/// Reads all records with `csv::Reader::records`.
///
/// The reader takes `delimiter` between fields, treats no record as a header and
/// accepts records of different lengths. Its result depends on the text and the
/// delimiter alone; nothing is claimed here of which records a text holds.
#[verifier::external_body]
fn read_records(text: &str, delimiter: u8) -> (records: Result<Vec<Vec<String>>, csv::Error>)
    ensures
        match records {
            Ok(read) => csv_records(text@, delimiter) == Some(read.deep_view()),
            Err(_) => csv_records(text@, delimiter) is None,
        },
{
    csv::ReaderBuilder::new()
        .delimiter(delimiter)
        .has_headers(false)
        .flexible(true)
        .from_reader(text.as_bytes())
        .records()
        .map(|result| result.map(|record| record.iter().map(String::from).collect()))
        .collect()
}

/// A record with nothing but white space in it.
pub open spec fn blank_record(record: Row) -> bool {
    forall|i: int| 0 <= i < record.len() ==> text::blank(#[trigger] record[i])
}

/// The records that hold something, in order.
pub open spec fn kept(records: Seq<Row>) -> Seq<Row> {
    records.filter(|record: Row| !blank_record(record))
}

/// The data rows among the records that hold something.
pub open spec fn data_rows(records: Seq<Row>, has_headers: bool) -> Seq<Row> {
    if has_headers && kept(records).len() > 0 {
        kept(records).skip(1)
    } else {
        kept(records)
    }
}

/// What a list of records comes to as a table.
///
/// Blank records are dropped and the first of the rest gives the number of
/// columns. It is the header row where there is one, and then it is no data row.
/// Without data rows the table is empty; otherwise the first data row with
/// another number of cells, counted from one, is the error.
pub open spec fn tabulated(
    records: Seq<Row>,
    has_headers: bool,
    outcome: Result<DataSetView, DataErrorView>,
) -> bool {
    let rows = data_rows(records, has_headers);
    let width = kept(records)[0].len();
    match outcome {
        Ok(data) => {
            &&& rows.len() > 0
            &&& data.rows == rows
            &&& data.headers == if has_headers {
                Some(kept(records)[0])
            } else {
                None
            }
            &&& data.column_count == width
            &&& data.rectangular()
        },
        Err(DataErrorView::Empty) => rows.len() == 0,
        Err(DataErrorView::InconsistentColumns { row, expected, found }) => {
            &&& 1 <= row <= rows.len()
            &&& expected == width
            &&& found == rows[row - 1].len()
            &&& found != width
            &&& forall|i: int| 0 <= i < row - 1 ==> (#[trigger] rows[i]).len() == width
        },
        Err(_) => false,
    }
}

/// What a delimited text comes to as a table.
pub open spec fn read_as(
    text: Seq<char>,
    delimiter: u8,
    has_headers: bool,
    outcome: Result<DataSetView, DataErrorView>,
) -> bool {
    match csv_records(text, delimiter) {
        Some(records) => tabulated(records, has_headers, outcome),
        None => outcome is Err && outcome->Err_0 is Csv,
    }
}

/// Whether a record holds nothing but white space.
fn is_blank_record(record: &Vec<String>) -> (b: bool)
    ensures
        b == blank_record(record.deep_view()),
{
    let mut i: usize = 0;
    while i < record.len()
        invariant
            i <= record.len(),
            forall|k: int| 0 <= k < i ==> text::blank(#[trigger] record.deep_view()[k]),
        decreases record.len() - i,
    {
        assert(record.deep_view()[i as int] == record@[i as int]@);
        if !text::is_blank(&record[i]) {
            return false;
        }
        i = i + 1;
    }
    true
}

/// Drops the blank records.
fn kept_records(records: Vec<Vec<String>>) -> (rows: Vec<Vec<String>>)
    ensures
        rows.deep_view() == kept(records.deep_view()),
{
    let mut rows: Vec<Vec<String>> = Vec::new();
    let ghost all = records.deep_view();
    proof {
        reveal(Seq::filter);
        assert(all.take(0) =~= Seq::empty());
    }
    assert(rows.deep_view() =~= kept(all.take(0)));
    for record in it: records
        invariant
            all == records.deep_view(),
            it.seq() == records@,
            rows.deep_view() == kept(all.take(it.index())),
    {
        let ghost before = rows.deep_view();
        let ghost i = it.index();
        proof {
            reveal(Seq::filter);
            assert(all.take(i + 1).drop_last() =~= all.take(i));
            assert(all[i] == record.deep_view());
        }
        if !is_blank_record(&record) {
            rows.push(record);
            assert(rows.deep_view() =~= before.push(all[i]));
        }
    }
    assert(all.take(all.len() as int) =~= all);
    rows
}

/// Builds a table from the records of a delimited text.
pub fn table_from_records(records: Vec<Vec<String>>, has_headers: bool) -> (outcome: Result<
    DataSet,
    DataError,
>)
    ensures
        tabulated(records.deep_view(), has_headers, super::loaded(outcome)),
{
    let mut rows = kept_records(records);
    let ghost all = rows.deep_view();
    if rows.len() == 0 {
        return Err(DataError::Empty);
    }
    let column_count = rows[0].len();
    let headers = if has_headers {
        let first = rows.remove(0);
        if rows.len() == 0 {
            return Err(DataError::Empty);
        }
        assert(rows.deep_view() =~= all.skip(1));
        Some(first)
    } else {
        None
    };
    assert(rows.deep_view() == data_rows(records.deep_view(), has_headers));
    let mut i: usize = 0;
    while i < rows.len()
        invariant
            i <= rows.len(),
            rows.deep_view() == data_rows(records.deep_view(), has_headers),
            column_count == kept(records.deep_view())[0].len(),
            forall|k: int| 0 <= k < i ==> (#[trigger] rows.deep_view()[k]).len() == column_count,
        decreases rows.len() - i,
    {
        assert(rows.deep_view()[i as int].len() == rows@[i as int].len());
        if rows[i].len() != column_count {
            return Err(
                DataError::InconsistentColumns {
                    row: i + 1,
                    expected: column_count,
                    found: rows[i].len(),
                },
            );
        }
        i = i + 1;
    }
    let data = DataSet { headers, rows, column_count };
    Ok(data)
}

/// Parse delimited text into a [`DataSet`].
///
/// The `delimiter` byte controls splitting (e.g. tab for TSV, comma for CSV).
/// When `has_headers` is true, the first row becomes column headers
/// and is excluded from the data rows.
pub fn parse(text: &str, delimiter: u8, has_headers: bool) -> (outcome: Result<DataSet, DataError>)
    ensures
        read_as(text@, delimiter, has_headers, super::loaded(outcome)),
{
    match read_records(text, delimiter) {
        Ok(records) => table_from_records(records, has_headers),
        Err(error) => Err(DataError::Csv(error)),
    }
}

} // verus!
