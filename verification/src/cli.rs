//! What the command line asks for.
use vstd::prelude::*;
use crate::data::Delimiter;

verus! {

/// The command line arguments.
#[derive(Debug)]
pub struct Args {
    /// Read data from the system clipboard.
    pub clipboard: bool,
    /// Read data from a file (TSV or CSV).
    pub data: Option<String>,
    /// Load a saved workflow file.
    pub workflow: Option<String>,
    /// Navigate the browser to this URL and start training immediately.
    pub url: Option<String>,
}

/// Where the data is to be read from.
#[derive(Debug, Clone, Copy, PartialEq, Eq, Structural)]
pub enum DataChoice {
    /// The system clipboard.
    Clipboard,
    /// A file with the given delimiter.
    File(Delimiter),
    /// Nowhere: no source was named.
    Missing,
}

/// An ASCII letter in lower case; other characters as they are.
pub open spec fn lower(c: char) -> char {
    if 'A' <= c <= 'Z' {
        (c as u32 + 32) as char
    } else {
        c
    }
}

/// Whether a file name ends in `.csv`, in upper or lower case.
pub open spec fn names_csv(path: Seq<char>) -> bool {
    path.len() >= 4 && path[path.len() - 4] == '.' && lower(path[path.len() - 3]) == 'c' && lower(
        path[path.len() - 2],
    ) == 's' && lower(path[path.len() - 1]) == 'v'
}

/// Where the data is to be read from: the clipboard before a file.
pub open spec fn choice(args: Args) -> DataChoice {
    if args.clipboard {
        DataChoice::Clipboard
    } else {
        match args.data {
            Some(path) => DataChoice::File(
                if names_csv(path@) {
                    Delimiter::Comma
                } else {
                    Delimiter::Tab
                },
            ),
            None => DataChoice::Missing,
        }
    }
}

/// Whether a character is a letter, in upper or lower case.
fn is_letter(c: char, lower_case: char, upper_case: char) -> (b: bool)
    requires
        'a' <= lower_case <= 'z',
        upper_case as u32 + 32 == lower_case as u32,
    ensures
        b == (lower(c) == lower_case),
{
    c == lower_case || c == upper_case
}

/// Whether a file name ends in `.csv`, in upper or lower case.
pub fn is_csv(path: &str) -> (b: bool)
    ensures
        b == names_csv(path@),
{
    let len = path.unicode_len();
    if len < 4 {
        return false;
    }
    path.get_char(len - 4) == '.' && is_letter(path.get_char(len - 3), 'c', 'C') && is_letter(
        path.get_char(len - 2),
        's',
        'S',
    ) && is_letter(path.get_char(len - 1), 'v', 'V')
}

impl Args {
    /// Where the data is to be read from.
    pub fn source(&self) -> (source: DataChoice)
        ensures
            source == choice(*self),
    {
        if self.clipboard {
            return DataChoice::Clipboard;
        }
        match &self.data {
            Some(path) => {
                if is_csv(path) {
                    DataChoice::File(Delimiter::Comma)
                } else {
                    DataChoice::File(Delimiter::Tab)
                }
            },
            None => DataChoice::Missing,
        }
    }
}

/// The clipboard is read whenever it is asked for; a named file is read only
/// otherwise, and nothing is read where neither is.
pub proof fn law_source_as_asked(args: Args)
    ensures
        choice(args) == DataChoice::Clipboard <==> args.clipboard,
        choice(args) == DataChoice::Missing <==> !args.clipboard && args.data is None,
        choice(args) is File <==> !args.clipboard && args.data is Some,
{
}

/// A file is comma-separated exactly when its name ends in a dot and these three
/// letters, each in upper or lower case; any other is tab-separated.
pub proof fn law_comma_for_csv(args: Args, path: String, stem: Seq<char>, c: char, s: char, v: char)
    requires
        !args.clipboard,
        args.data == Some(path),
    ensures
        path@ == stem + seq!['.', c, s, v] && (c == 'c' || c == 'C') && (s == 's' || s == 'S') && (v
            == 'v' || v == 'V') ==> choice(args) == DataChoice::File(Delimiter::Comma),
        path@ == stem + seq!['.', c, s, v] && (c != 'c' && c != 'C' || s != 's' && s != 'S' || v
            != 'v' && v != 'V') ==> choice(args) == DataChoice::File(Delimiter::Tab),
        path@.len() < 4 || path@[path@.len() - 4] != '.' ==> choice(args) == DataChoice::File(
            Delimiter::Tab,
        ),
{
    if path@ == stem + seq!['.', c, s, v] {
        let n = path@.len();
        assert(path@[n - 4] == '.');
        assert(path@[n - 3] == c);
        assert(path@[n - 2] == s);
        assert(path@[n - 1] == v);
    }
}

} // verus!
