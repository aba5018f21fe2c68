//! Where data came from, as recorded in workflow files.
use vstd::prelude::*;

verus! {

/// How fields are delimited in the data source.
#[derive(Debug, Clone, Copy, PartialEq, Eq, Structural)]
pub enum Delimiter {
    Tab,
    Comma,
}

impl Delimiter {
    /// The byte that separates two fields.
    pub open spec fn byte(self) -> u8 {
        match self {
            Delimiter::Tab => 9,
            Delimiter::Comma => 44,
        }
    }

    /// The byte that separates two fields.
    pub fn as_byte(self) -> (byte: u8)
        ensures
            byte == self.byte(),
    {
        match self {
            Delimiter::Tab => 9,
            Delimiter::Comma => 44,
        }
    }
}

/// Describes where data came from, stored in workflow files
/// so playback knows how to load data.
#[derive(Debug, PartialEq, Eq)]
pub enum DataSourceConfig {
    Clipboard { has_headers: bool },
    File { path: String, delimiter: Delimiter, has_headers: bool },
}

/// The contents of a [`DataSourceConfig`].
#[verifier::ext_equal]
pub enum DataSourceView {
    Clipboard { has_headers: bool },
    File { path: Seq<char>, delimiter: Delimiter, has_headers: bool },
}

impl View for DataSourceConfig {
    type V = DataSourceView;

    open spec fn view(&self) -> DataSourceView {
        match *self {
            DataSourceConfig::Clipboard { has_headers } => DataSourceView::Clipboard { has_headers },
            DataSourceConfig::File { path, delimiter, has_headers } => DataSourceView::File {
                path: path@,
                delimiter,
                has_headers,
            },
        }
    }
}

impl DeepView for DataSourceConfig {
    type V = DataSourceView;

    open spec fn deep_view(&self) -> DataSourceView {
        self@
    }
}

impl Clone for DataSourceConfig {
    fn clone(&self) -> (copy: Self)
        ensures
            copy@ == self@,
    {
        match self {
            DataSourceConfig::Clipboard { has_headers } => DataSourceConfig::Clipboard {
                has_headers: *has_headers,
            },
            DataSourceConfig::File { path, delimiter, has_headers } => DataSourceConfig::File {
                path: path.clone(),
                delimiter: *delimiter,
                has_headers: *has_headers,
            },
        }
    }
}

impl DataSourceConfig {
    /// Config for clipboard-sourced data.
    pub fn clipboard(has_headers: bool) -> (config: Self)
        ensures
            config@ == (DataSourceView::Clipboard { has_headers }),
    {
        DataSourceConfig::Clipboard { has_headers }
    }

    /// Config for file-sourced data.
    pub fn file(path: &str, delimiter: Delimiter, has_headers: bool) -> (config: Self)
        ensures
            config@ == (DataSourceView::File { path: path@, delimiter, has_headers }),
    {
        DataSourceConfig::File { path: path.to_owned(), delimiter, has_headers }
    }
}

} // verus!
