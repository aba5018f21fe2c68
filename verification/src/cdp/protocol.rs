//! CDP message types.
use vstd::prelude::*;
use crate::json::{Json, JsonView};
use crate::text;

verus! {

/// An outgoing CDP command.
#[derive(Debug, PartialEq)]
pub struct Command {
    pub id: u64,
    pub method: String,
    pub params: Option<Json>,
}

/// A raw incoming CDP message, before we know if it's a response or event.
#[derive(Debug, PartialEq)]
pub struct RawMessage {
    /// Present on command responses.
    pub id: Option<u64>,
    /// Present on events.
    pub method: Option<String>,
    /// Present on successful responses.
    pub result: Option<Json>,
    /// Present on error responses.
    pub error: Option<WireError>,
    /// Present on events.
    pub params: Option<Json>,
}

/// A CDP error object from a failed command (wire-level).
#[derive(Debug, PartialEq)]
pub struct WireError {
    pub code: i64,
    pub message: String,
    pub data: Option<String>,
}

/// A parsed incoming message: either a response to a command or an event.
#[derive(Debug, PartialEq)]
pub enum Message {
    Response(Response),
    Event(Event),
}

/// Response to a command we sent.
#[derive(Debug, PartialEq)]
pub struct Response {
    pub id: u64,
    pub result: Result<Json, WireError>,
}

/// A CDP event pushed by the browser.
#[derive(Debug, PartialEq)]
pub struct Event {
    pub method: String,
    pub params: Json,
}

impl Clone for Event {
    fn clone(&self) -> (copy: Self)
        ensures
            copy.method@ == self.method@,
            copy.params@ == self.params@,
    {
        Event { method: self.method.clone(), params: self.params.clone() }
    }
}

impl Clone for WireError {
    fn clone(&self) -> (copy: Self)
        ensures
            copy == *self,
    {
        let data = match &self.data {
            Some(data) => Some(data.clone()),
            None => None,
        };
        WireError { code: self.code, message: self.message.clone(), data }
    }
}

/// A value that is `null` where none was sent.
pub open spec fn or_null(value: Option<Json>) -> Json {
    match value {
        Some(value) => value,
        None => Json::Null,
    }
}

/// What a raw message is: with an id a response, whose error counts before its
/// result; otherwise with a method an event; otherwise nothing.
pub open spec fn classified(raw: RawMessage) -> Option<Message> {
    if raw.id is Some {
        Some(
            Message::Response(
                Response {
                    id: raw.id->0,
                    result: match raw.error {
                        Some(error) => Err(error),
                        None => Ok(or_null(raw.result)),
                    },
                },
            ),
        )
    } else {
        match raw.method {
            Some(method) => Some(Message::Event(Event { method, params: or_null(raw.params) })),
            None => None,
        }
    }
}

impl RawMessage {
    /// Classify this raw message as either a response or an event.
    pub fn classify(self) -> (message: Option<Message>)
        ensures
            message == classified(self),
    {
        if let Some(id) = self.id {
            // It's a response.
            let result = match self.error {
                Some(error) => Err(error),
                None => Ok(
                    match self.result {
                        Some(result) => result,
                        None => Json::Null,
                    },
                ),
            };
            Some(Message::Response(Response { id, result }))
        } else if let Some(method) = self.method {
            let params = match self.params {
                Some(params) => params,
                None => Json::Null,
            };
            Some(Message::Event(Event { method, params }))
        } else {
            None
        }
    }
}

/// Response from `http://host:port/json/version`.
#[derive(Debug, PartialEq)]
pub struct BrowserVersion {
    pub browser: String,
    pub protocol_version: String,
    pub ws_debugger_url: Option<String>,
}

impl BrowserVersion {
    /// Get the WebSocket debugger URL.
    pub fn debugger_url(&self) -> (url: Option<&str>)
        ensures
            url.deep_view() == self.ws_debugger_url.deep_view(),
    {
        match &self.ws_debugger_url {
            Some(url) => Some(url.as_str()),
            None => None,
        }
    }
}

/// Response entry from `http://host:port/json/list` (tab list).
#[derive(Debug, PartialEq)]
pub struct TabInfo {
    pub id: String,
    pub target_type: String,
    pub title: String,
    pub url: String,
    pub web_socket_debugger_url: Option<String>,
}

/// The CDP domains we enable on connection.
pub const ENABLED_DOMAINS: [&'static str; 3] = ["Runtime", "Page", "DOM"];

/// The command that enables a domain.
pub fn enable_command(id: u64, domain: &str) -> (command: Command)
    ensures
        command.id == id,
        command.method@ == domain@ + ".enable"@,
        command.params is None,
{
    Command { id, method: text::joined(domain, ".enable"), params: None }
}

/// The parameters with which an expression is evaluated in the page.
pub fn evaluate_params(expression: &str) -> (params: Json)
    ensures
        params@ == JsonView::Object(
            seq![
                ("expression"@, JsonView::Text(expression@)),
                ("returnByValue"@, JsonView::Bool(true)),
            ],
        ),
{
    let mut entries: Vec<(String, Json)> = Vec::new();
    entries.push(("expression".to_owned(), Json::from_text(expression)));
    entries.push(("returnByValue".to_owned(), Json::Bool(true)));
    assert(entries.deep_view() =~= seq![
        ("expression"@, JsonView::Text(expression@)),
        ("returnByValue"@, JsonView::Bool(true)),
    ]);
    Json::from_entries(entries)
}

/// The parameters of a command with one text parameter.
pub fn text_params(name: &str, value: &str) -> (params: Json)
    ensures
        params@ == JsonView::Object(seq![(name@, JsonView::Text(value@))]),
{
    let mut entries: Vec<(String, Json)> = Vec::new();
    entries.push((name.to_owned(), Json::from_text(value)));
    assert(entries.deep_view() =~= seq![(name@, JsonView::Text(value@))]);
    Json::from_entries(entries)
}

/// The command that evaluates an expression in the page.
pub fn runtime_evaluate(id: u64, expression: &str) -> (command: Command)
    ensures
        command.id == id,
        command.method@ == "Runtime.evaluate"@,
        command.params is Some,
        command.params->0@ == JsonView::Object(
            seq![
                ("expression"@, JsonView::Text(expression@)),
                ("returnByValue"@, JsonView::Bool(true)),
            ],
        ),
{
    Command {
        id,
        method: "Runtime.evaluate".to_owned(),
        params: Some(evaluate_params(expression)),
    }
}

/// The domain of a method: what stands before the first dot, or all of it.
pub fn domain_for_method(method: &str) -> (domain: Option<&str>)
    ensures
        domain is Some,
        domain->0@ == method@.take(domain->0@.len() as int),
        !domain->0@.contains('.'),
        domain->0@.len() <= method@.len(),
        domain->0@.len() < method@.len() ==> method@[domain->0@.len() as int] == '.',
{
    let len = method.unicode_len();
    let mut i: usize = 0;
    while i < len
        invariant
            i <= len,
            len == method@.len(),
            forall|k: int| 0 <= k < i ==> method@[k] != '.',
        ensures
            i <= len,
            len == method@.len(),
            forall|k: int| 0 <= k < i ==> method@[k] != '.',
            i < len ==> method@[i as int] == '.',
        decreases len - i,
    {
        if method.get_char(i) == '.' {
            break;
        }
        i = i + 1;
    }
    let domain = method.substring_char(0, i);
    assert(domain@ =~= method@.take(i as int));
    Some(domain)
}

/// Whether an evaluation in the page gave the value `true`.
///
/// The reply has the form `{"result": {"type": ..., "value": ...}}`.
pub open spec fn evaluated_true(reply: JsonView) -> bool {
    reply.field("result"@) is Some && reply.field("result"@)->0.field("value"@) == Some(
        JsonView::Bool(true),
    )
}

/// Whether an evaluation in the page gave the value `true`.
pub fn is_evaluated_true(reply: &Json) -> (found: bool)
    ensures
        found == evaluated_true(reply@),
{
    match reply.get("result") {
        Some(result) => match result.get("value") {
            Some(value) => value.is_true(),
            None => false,
        },
        None => false,
    }
}

/// The parent of the frame that a navigation event is about.
pub open spec fn frame_parent(params: JsonView) -> Option<JsonView> {
    match params.field("frame"@) {
        Some(frame) => frame.field("parentId"@),
        None => None,
    }
}

/// Whether a navigation event is about the main frame: its frame has no parent,
/// or `null` as its parent.
pub open spec fn main_frame(params: JsonView) -> bool {
    frame_parent(params) is None || frame_parent(params)->0 == JsonView::Null
}

/// Whether a navigation event is about the main frame.
pub fn is_main_frame(params: &Json) -> (main: bool)
    ensures
        main == main_frame(params@),
{
    match params.get("frame") {
        Some(frame) => match frame.get("parentId") {
            Some(parent) => parent.is_null(),
            None => true,
        },
        None => true,
    }
}

/// Whether an event says that the main frame has navigated.
pub fn is_main_frame_navigation(event: &Event) -> (main: bool)
    ensures
        main == (event.method@ == "Page.frameNavigated"@ && main_frame(event.params@)),
{
    text::same_text(&event.method, "Page.frameNavigated") && is_main_frame(&event.params)
}

/// Whether an event says that a frame without a parent has navigated.
pub fn is_top_navigation(event: &Event) -> (top: bool)
    ensures
        top == (event.method@ == "Page.frameNavigated"@ && frame_parent(event.params@) is None),
{
    if !text::same_text(&event.method, "Page.frameNavigated") {
        return false;
    }
    match event.params.get("frame") {
        Some(frame) => frame.get("parentId").is_none(),
        None => true,
    }
}

/// A message with an id answers the command with that id, and fails exactly when it
/// carries an error; a message without an id that names a method is an event of that
/// method; any other is nothing.
pub proof fn law_messages_keep_their_sense(raw: RawMessage)
    ensures
        raw.id is Some ==> {
            &&& classified(raw) matches Some(Message::Response(response)) && response.id
                == raw.id->0 && (response.result is Err <==> raw.error is Some) && (
            raw.error is Some ==> response.result->Err_0 == raw.error->0) && (raw.error is None
                && raw.result is Some ==> response.result->Ok_0 == raw.result->0) && (
            raw.error is None && raw.result is None ==> response.result->Ok_0 == Json::Null)
        },
        raw.id is None && raw.method is Some ==> {
            &&& classified(raw) matches Some(Message::Event(event)) && event.method
                == raw.method->0 && (raw.params is Some ==> event.params == raw.params->0) && (
            raw.params is None ==> event.params == Json::Null)
        },
        raw.id is None && raw.method is None ==> classified(raw) is None,
{
}

/// A frame with a parent is never the main frame, unless `null` stands for the parent.
pub proof fn law_main_frame_has_no_parent(params: JsonView, frame: JsonView)
    requires
        params.field("frame"@) == Some(frame),
    ensures
        main_frame(params) <==> frame.field("parentId"@) is None || frame.field("parentId"@)
            == Some(JsonView::Null),
        frame_parent(params) is None <==> frame.field("parentId"@) is None,
{
}

/// An element counts as found only where the page answered `true`.
pub proof fn law_only_true_is_true(reply: JsonView, value: JsonView)
    ensures
        evaluated_true(reply) ==> reply.field("result"@) is Some,
        reply.field("result"@) matches Some(result) ==> (result.field("value"@) == Some(value)
            ==> (evaluated_true(reply) <==> value == JsonView::Bool(true))),
{
}

} // verus!
