//! Loading and parsing tabular data.
use rote::data::parse::{parse, table_from_records};
use rote::data::{from_clipboard, from_delimited_str, from_file, DataError, DataSourceConfig, Delimiter};
use rote::text;

#[test]
fn tsv_round_trip() {
    let tsv = "name\tage\tcity\nAlice\t30\tPortland\nBob\t25\tSeattle\n";
    let ds = from_delimited_str(tsv, Delimiter::Tab, true).unwrap();
    assert_eq!(ds.headers().unwrap(), &["name", "age", "city"]);
    assert_eq!(ds.row_count(), 2);
    assert_eq!(ds.column_count(), 3);
    let expected: &[&str] = &["Alice", "30", "Portland"];
    assert_eq!(ds.row(0).unwrap(), expected);
}

#[test]
fn csv_round_trip() {
    let csv_text = "a,b,c\n1,2,3\n4,5,6\n";
    let ds = from_delimited_str(csv_text, Delimiter::Comma, true).unwrap();
    assert_eq!(ds.headers().unwrap(), &["a", "b", "c"]);
    assert_eq!(ds.row_count(), 2);
}

#[test]
fn no_headers() {
    let tsv = "Alice\t30\nBob\t25\n";
    let ds = from_delimited_str(tsv, Delimiter::Tab, false).unwrap();
    assert!(ds.headers().is_none());
    assert_eq!(ds.row_count(), 2);
    assert_eq!(ds.column_count(), 2);
}

#[test]
fn empty_data_is_error() {
    let result = from_delimited_str("", Delimiter::Tab, false);
    assert!(matches!(result, Err(DataError::Empty)));
}

#[test]
fn headers_only_is_error() {
    let result = from_delimited_str("a\tb\tc\n", Delimiter::Tab, true);
    assert!(matches!(result, Err(DataError::Empty)));
}

#[test]
fn inconsistent_columns_is_error() {
    let tsv = "a\tb\tc\n1\t2\n";
    let result = from_delimited_str(tsv, Delimiter::Tab, true);
    assert!(matches!(
        result,
        Err(DataError::InconsistentColumns {
            row: 1,
            expected: 3,
            found: 2
        })
    ));
}

#[test]
fn empty_cells_preserved() {
    let tsv = "a\t\tc\n\tb\t\n";
    let ds = from_delimited_str(tsv, Delimiter::Tab, false).unwrap();
    assert_eq!(ds.row(0).unwrap(), &["a", "", "c"]);
    assert_eq!(ds.row(1).unwrap(), &["", "b", ""]);
}

#[test]
fn single_column() {
    let tsv = "header\nval1\nval2\n";
    let ds = from_delimited_str(tsv, Delimiter::Tab, true).unwrap();
    assert_eq!(ds.column_count(), 1);
    assert_eq!(ds.row_count(), 2);
    assert_eq!(ds.headers().unwrap(), &["header"]);
}

#[test]
fn single_row_no_headers() {
    let tsv = "a\tb\tc\n";
    let ds = from_delimited_str(tsv, Delimiter::Tab, false).unwrap();
    assert_eq!(ds.row_count(), 1);
    assert_eq!(ds.column_count(), 3);
}

#[test]
fn single_row_with_headers() {
    let tsv = "h1\th2\nval1\tval2\n";
    let ds = from_delimited_str(tsv, Delimiter::Tab, true).unwrap();
    assert_eq!(ds.row_count(), 1);
    assert_eq!(ds.headers().unwrap(), &["h1", "h2"]);
}

#[test]
fn csv_with_quoting() {
    let text = "name,note\n\"Smith, John\",\"said \"\"hello\"\"\"\n";
    let ds = from_delimited_str(text, Delimiter::Comma, true).unwrap();
    assert_eq!(ds.row(0).unwrap(), &["Smith, John", "said \"hello\""]);
}

#[test]
fn trailing_newlines_ignored() {
    let tsv = "a\tb\n1\t2\n\n\n";
    let ds = from_delimited_str(tsv, Delimiter::Tab, true).unwrap();
    assert_eq!(ds.row_count(), 1);
}

#[test]
fn whitespace_only_is_empty() {
    let result = from_delimited_str("  \n\t\n", Delimiter::Tab, false);
    assert!(matches!(result, Err(DataError::Empty)));
}

#[test]
fn source_configs_hold_what_they_are_given() {
    assert_eq!(DataSourceConfig::clipboard(true), DataSourceConfig::Clipboard { has_headers: true });
    let config = DataSourceConfig::file("data.csv", Delimiter::Comma, false);
    assert_eq!(
        config,
        DataSourceConfig::File {
            path: "data.csv".to_owned(),
            delimiter: Delimiter::Comma,
            has_headers: false,
        },
    );
    assert_eq!(config.clone(), config);
}

#[test]
fn clipboard_text_is_tab_separated() {
    let ds = from_clipboard(Ok("a\tb\n1,5\t2\n".to_owned()), true).unwrap();
    assert_eq!(ds.row(0).unwrap(), &["1,5", "2"]);
    assert!(ds.row(1).is_none());
}

#[test]
fn clipboard_failure_is_reported() {
    let error = from_clipboard(Err("no display".to_owned()), true).unwrap_err();
    assert!(matches!(&error, DataError::Clipboard(why) if why == "no display"));
    assert_eq!(error.message(), "clipboard error: no display");
}

#[test]
fn file_failure_is_reported() {
    let error = from_file(Err("not found".to_owned()), Delimiter::Tab, true).unwrap_err();
    assert_eq!(error.message(), "I/O error: not found");
}

#[test]
fn file_contents_are_parsed() {
    let ds = from_file(Ok("a,b\n1,2\n".to_owned()), Delimiter::Comma, true).unwrap();
    assert_eq!(ds.headers().unwrap(), &["a", "b"]);
}

#[test]
fn error_messages() {
    let empty = from_delimited_str("", Delimiter::Tab, false).unwrap_err();
    assert_eq!(empty.message(), "data is empty");
    let uneven = from_delimited_str("a\tb\n1\t2\n3\n", Delimiter::Tab, true).unwrap_err();
    assert_eq!(
        uneven.message(),
        "inconsistent column count: row 2 has 1 columns, expected 2",
    );
}

#[test]
fn a_delimiter_inside_a_character_is_a_csv_error() {
    // 0xC3 is the first byte of a two-byte character.
    let error = parse("caf\u{e9}\n", 0xc3, false).unwrap_err();
    assert!(matches!(error, DataError::Csv(_)));
    assert!(error.message().starts_with("CSV parse error: "));
}

#[test]
fn records_are_tabulated() {
    let row = |cells: &[&str]| cells.iter().map(|c| (*c).to_owned()).collect::<Vec<String>>();
    let records = vec![row(&["", " "]), row(&["h", "i"]), row(&["\u{3000}"]), row(&["1", ""])];
    let ds = table_from_records(records, true).unwrap();
    assert_eq!(ds.headers().unwrap(), &["h", "i"]);
    assert_eq!(ds.row_count(), 1);
    assert_eq!(ds.rows(), &[row(&["1", ""])]);
}

#[test]
fn the_first_row_can_become_the_headers() {
    let ds = from_delimited_str("a\tb\n1\t2\n", Delimiter::Tab, false).unwrap();
    let headed = ds.clone().with_first_row_as_headers();
    assert_eq!(headed.headers().unwrap(), &["a", "b"]);
    assert_eq!(headed.row_count(), 1);
    // There is nothing left to do the second time.
    let again = headed.with_first_row_as_headers();
    assert_eq!(again.row(0).unwrap(), &["1", "2"]);
    assert_eq!(ds.row_count(), 2);
}

#[test]
fn white_space_agrees_with_the_standard_library() {
    for code in 0..=0x10ffffu32 {
        if let Some(c) = char::from_u32(code) {
            assert_eq!(text::is_white_space(c), c.is_whitespace(), "{code:#x}");
        }
    }
}

#[test]
fn blank_text_is_what_trims_to_nothing() {
    for s in ["", " ", "\t\u{a0}\u{2003}", " x ", "\u{200b}"] {
        assert_eq!(text::is_blank(s), s.trim().is_empty(), "{s:?}");
    }
}

#[test]
fn numbers_in_decimal() {
    for n in [0u128, 9, 10, 4096, u128::MAX] {
        assert_eq!(text::decimal_text(n), n.to_string());
    }
    for n in [0i64, -1, 42, i64::MIN, i64::MAX] {
        assert_eq!(text::signed_text(n), n.to_string());
    }
}

#[test]
fn delimiter_bytes() {
    assert_eq!(Delimiter::Tab.as_byte(), b'\t');
    assert_eq!(Delimiter::Comma.as_byte(), b',');
}
