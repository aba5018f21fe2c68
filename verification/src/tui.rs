//! Terminal screens: what they show, and what keys do on them.
//!
//! Drawing and reading keys is up to the application. It hands in key presses and
//! shows the text that comes back.
use vstd::prelude::*;

pub mod connect;
pub mod data;
pub mod playback;
pub mod table;
pub mod training;

verus! {

/// A key, as far as the screens tell keys apart.
#[derive(Debug, Clone, Copy, PartialEq, Eq, Structural)]
pub enum KeyCode {
    /// A character.
    Char(char),
    /// The Enter key.
    Enter,
    /// Any other key.
    Other,
}

/// A key press.
#[derive(Debug, Clone, Copy, PartialEq, Eq, Structural)]
pub struct KeyPress {
    pub code: KeyCode,
    /// Whether the control key was held.
    pub ctrl: bool,
}

impl KeyPress {
    /// Ctrl-C.
    pub open spec fn interrupts(self) -> bool {
        self.code == KeyCode::Char('c') && self.ctrl
    }

    /// `q` or Ctrl-C.
    pub open spec fn quits(self) -> bool {
        self.code == KeyCode::Char('q') || self.interrupts()
    }

    /// Whether this is Ctrl-C.
    pub fn is_interrupt(&self) -> (b: bool)
        ensures
            b == self.interrupts(),
    {
        self.code == KeyCode::Char('c') && self.ctrl
    }

    /// Whether this is `q` or Ctrl-C.
    pub fn is_quit(&self) -> (b: bool)
        ensures
            b == self.quits(),
    {
        self.code == KeyCode::Char('q') || self.is_interrupt()
    }
}

/// A foreground color.
#[derive(Debug, Clone, Copy, PartialEq, Eq, Structural)]
pub enum Color {
    /// The terminal's own.
    Plain,
    Red,
    Green,
    Yellow,
    Cyan,
    DarkGray,
}

/// How a piece of text is shown.
#[derive(Debug, Clone, Copy, PartialEq, Eq, Structural)]
pub struct TextStyle {
    pub color: Color,
    pub bold: bool,
}

/// A piece of text in one color.
#[derive(Debug, PartialEq)]
pub struct Span {
    pub text: String,
    pub color: Color,
}

/// The contents of a [`Span`].
#[verifier::ext_equal]
pub struct SpanView {
    pub text: Seq<char>,
    pub color: Color,
}

impl View for Span {
    type V = SpanView;

    open spec fn view(&self) -> SpanView {
        SpanView { text: self.text@, color: self.color }
    }
}

impl DeepView for Span {
    type V = SpanView;

    open spec fn deep_view(&self) -> SpanView {
        self@
    }
}

/// Text in the terminal's own color.
pub open spec fn plain_span(text: Seq<char>) -> SpanView {
    SpanView { text, color: Color::Plain }
}

/// Text in a color.
pub open spec fn colored_span(text: Seq<char>, color: Color) -> SpanView {
    SpanView { text, color }
}

/// Text in the terminal's own color.
pub fn plain(text: &str) -> (span: Span)
    ensures
        span@ == plain_span(text@),
{
    Span { text: text.to_owned(), color: Color::Plain }
}

/// Text in a color.
pub fn colored(text: &str, color: Color) -> (span: Span)
    ensures
        span@ == colored_span(text@, color),
{
    Span { text: text.to_owned(), color }
}

/// A line of one piece of text.
pub fn line(span: Span) -> (line: Vec<Span>)
    ensures
        line.deep_view() == seq![span@],
{
    let mut line: Vec<Span> = Vec::new();
    line.push(span);
    assert(line.deep_view() =~= seq![span@]);
    line
}

} // verus!
