//! Tabular data loading and parsing.
use vstd::prelude::*;
use crate::text;

pub mod laws;
pub mod parse;
pub mod source;

pub use parse::DataSet;
pub use source::{DataSourceConfig, Delimiter};

use parse::DataSetView;

verus! {

/// The error type of the `csv` crate, carried through unchanged.
#[verifier::external_type_specification]
#[verifier::external_body]
pub struct ExCsvError(csv::Error);

/// Errors that can occur when loading or parsing tabular data.
#[derive(Debug)]
pub enum DataError {
    /// The clipboard could not be read.
    Clipboard(String),
    /// The file could not be read.
    Io(String),
    /// The text is not valid delimited data.
    Csv(csv::Error),
    /// No data rows.
    Empty,
    /// A data row has another number of cells than the table has columns.
    InconsistentColumns { row: usize, expected: usize, found: usize },
}

/// What a [`DataError`] says.
#[verifier::ext_equal]
pub enum DataErrorView {
    Clipboard(Seq<char>),
    Io(Seq<char>),
    Csv(csv::Error),
    Empty,
    InconsistentColumns { row: nat, expected: nat, found: nat },
}

impl View for DataError {
    type V = DataErrorView;

    open spec fn view(&self) -> DataErrorView {
        match *self {
            DataError::Clipboard(why) => DataErrorView::Clipboard(why@),
            DataError::Io(why) => DataErrorView::Io(why@),
            DataError::Csv(error) => DataErrorView::Csv(error),
            DataError::Empty => DataErrorView::Empty,
            DataError::InconsistentColumns { row, expected, found } =>
                DataErrorView::InconsistentColumns {
                row: row as nat,
                expected: expected as nat,
                found: found as nat,
            },
        }
    }
}

/// What loading data came to.
pub open spec fn loaded(outcome: Result<DataSet, DataError>) -> Result<DataSetView, DataErrorView> {
    match outcome {
        Ok(data) => Ok(data@),
        Err(error) => Err(error@),
    }
}

/// The message for an error, where `csv_text` is the `csv` crate's own message.
pub open spec fn error_text(error: DataErrorView, csv_text: Seq<char>) -> Seq<char> {
    match error {
        DataErrorView::Clipboard(why) => "clipboard error: "@ + why,
        DataErrorView::Io(why) => "I/O error: "@ + why,
        DataErrorView::Csv(_) => "CSV parse error: "@ + csv_text,
        DataErrorView::Empty => "data is empty"@,
        DataErrorView::InconsistentColumns { row, expected, found } =>
            "inconsistent column count: row "@ + text::decimal(row) + " has "@ + text::decimal(
            found,
        ) + " columns, expected "@ + text::decimal(expected),
    }
}

impl DataError {
    /// The message shown to the user.
    pub fn message(&self) -> (message: String)
        ensures
            self@ is Csv ==> exists|why: String|
                #![trigger vstd::string::to_string_from_display_ensures(&self@->Csv_0, why)]
                vstd::string::to_string_from_display_ensures(&self@->Csv_0, why) && message@
                    == error_text(self@, why@),
            self@ !is Csv ==> message@ == error_text(self@, Seq::empty()),
    {
        match self {
            DataError::Clipboard(why) => text::joined("clipboard error: ", why),
            DataError::Io(why) => text::joined("I/O error: ", why),
            DataError::Csv(error) => {
                let why = error.to_string();
                let message = text::joined("CSV parse error: ", &why);
                assert(vstd::string::to_string_from_display_ensures(&self@->Csv_0, why));
                assert(message@ == error_text(self@, why@));
                message
            },
            DataError::Empty => "data is empty".to_owned(),
            DataError::InconsistentColumns { row, expected, found } => {
                let mut message = "inconsistent column count: row ".to_owned();
                message.append(&text::decimal_text(*row as u128));
                message.append(" has ");
                message.append(&text::decimal_text(*found as u128));
                message.append(" columns, expected ");
                message.append(&text::decimal_text(*expected as u128));
                message
            },
        }
    }
}

/// Builds a data set from what the system clipboard gave.
///
/// Spreadsheet applications put tab-separated text on the clipboard when a
/// selection is copied. `clipboard` is that text, or why it could not be read.
pub fn from_clipboard(clipboard: Result<String, String>, has_headers: bool) -> (outcome: Result<
    DataSet,
    DataError,
>)
    ensures
        match clipboard {
            Ok(text) => parse::read_as(text@, 9, has_headers, loaded(outcome)),
            Err(why) => loaded(outcome) == Err::<DataSetView, _>(DataErrorView::Clipboard(why@)),
        },
{
    match clipboard {
        Ok(text) => from_delimited_str(&text, Delimiter::Tab, has_headers),
        Err(why) => Err(DataError::Clipboard(why)),
    }
}

/// Builds a data set from what a delimited file held.
///
/// `contents` is the text of the file, or why it could not be read.
pub fn from_file(
    contents: Result<String, String>,
    delimiter: Delimiter,
    has_headers: bool,
) -> (outcome: Result<DataSet, DataError>)
    ensures
        match contents {
            Ok(text) => parse::read_as(text@, delimiter.byte(), has_headers, loaded(outcome)),
            Err(why) => loaded(outcome) == Err::<DataSetView, _>(DataErrorView::Io(why@)),
        },
{
    match contents {
        Ok(text) => from_delimited_str(&text, delimiter, has_headers),
        Err(why) => Err(DataError::Io(why)),
    }
}

/// Parses delimited text into a [`DataSet`].
pub fn from_delimited_str(text: &str, delimiter: Delimiter, has_headers: bool) -> (outcome: Result<
    DataSet,
    DataError,
>)
    ensures
        parse::read_as(text@, delimiter.byte(), has_headers, loaded(outcome)),
{
    parse::parse(text, delimiter.as_byte(), has_headers)
}

} // verus!
