//! The verified core of `rote`: record one row of web data entry, replay the rest.
//!
//! Every public function states what it returns over mathematical models of the
//! data (`Seq`, `Map`, `nat` and the `*View` types). Terminal, browser, clipboard
//! and file access live in the application around this library, which hands in
//! plain values and acts on the plain values it gets back.
pub mod text;
pub mod time;
pub mod data;
pub mod workflow;
pub mod training;
pub mod json;
pub mod cdp;
pub mod playback;
pub mod tui;
pub mod cli;
