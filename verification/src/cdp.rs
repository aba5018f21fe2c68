//! Chrome DevTools Protocol: finding a browser, and the messages exchanged with it.
use vstd::prelude::*;
use crate::text;

pub mod discover;
pub mod launch;
pub mod protocol;

verus! {

/// Errors from the CDP layer.
#[derive(Debug, PartialEq)]
pub enum CdpError {
    /// Browser binary not found on the system.
    NoBrowser,
    /// Failed to launch the browser process.
    BrowserLaunch(String),
    /// No page tab available to connect to.
    NoTab,
    /// WebSocket or HTTP connection failure.
    Connection(String),
    /// CDP protocol-level error (malformed response, unexpected format).
    Protocol(String),
    /// A CDP command returned an error.
    CommandFailed { code: i64, message: String },
}

/// The message of a CDP error.
pub open spec fn error_text(error: CdpError) -> Seq<char> {
    match error {
        CdpError::NoBrowser => "no supported browser found (Chrome or Edge)"@,
        CdpError::BrowserLaunch(why) => "browser launch failed: "@ + why@,
        CdpError::NoTab => "no page tab found in browser"@,
        CdpError::Connection(why) => "connection error: "@ + why@,
        CdpError::Protocol(why) => "protocol error: "@ + why@,
        CdpError::CommandFailed { code, message } => "CDP command failed ("@
            + text::signed_decimal(code as int) + "): "@ + message@,
    }
}

impl CdpError {
    /// The message shown to the user.
    pub fn message(&self) -> (message: String)
        ensures
            message@ == error_text(*self),
    {
        match self {
            CdpError::NoBrowser => "no supported browser found (Chrome or Edge)".to_owned(),
            CdpError::BrowserLaunch(why) => text::joined("browser launch failed: ", why),
            CdpError::NoTab => "no page tab found in browser".to_owned(),
            CdpError::Connection(why) => text::joined("connection error: ", why),
            CdpError::Protocol(why) => text::joined("protocol error: ", why),
            CdpError::CommandFailed { code, message } => {
                let mut shown = "CDP command failed (".to_owned();
                shown.append(&text::signed_text(*code));
                shown.append("): ");
                shown.append(message);
                shown
            },
        }
    }
}

} // verus!
