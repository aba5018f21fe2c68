//! Recorder JS bridge: connects browser console messages to the training core.
//!
//! Holds the recorder JS that gets injected into browser pages and the parser
//! for the messages it sends.
use vstd::prelude::*;
use crate::json;
use crate::json::{Json, JsonView};
use crate::text;
use super::{Command, CommandView, SelectorInfo, SelectorInfoView};

verus! {

/// The recorder JS source code, injected into browser pages to capture
/// user interactions and emit structured JSON via `console.log`.
pub const RECORDER_SCRIPT: &'static str = r##"
(function() {
  if (window.__roteRecorder) return;
  window.__roteRecorder = true;

  function getCssPath(el) {
    if (el.id) return "#" + CSS.escape(el.id);

    const parts = [];
    let current = el;

    while (current && current.nodeType === Node.ELEMENT_NODE) {
      let selector = current.tagName.toLowerCase();

      if (current.id) {
        selector = "#" + CSS.escape(current.id);
        parts.unshift(selector);
        break;
      }

      if (current.className && typeof current.className === "string") {
        const classes = current.className.trim().split(/\s+/).filter(c => c);
        if (classes.length > 0) {
          selector += "." + classes.map(c => CSS.escape(c)).join(".");
        }
      }

      const parent = current.parentElement;
      if (parent) {
        const siblings = Array.from(parent.children).filter(
          c => c.tagName === current.tagName
        );
        if (siblings.length > 1) {
          const index = siblings.indexOf(current) + 1;
          selector += ":nth-of-type(" + index + ")";
        }
      }

      parts.unshift(selector);
      current = current.parentElement;
    }

    return parts.join(" > ");
  }

  function getXPath(el) {
    if (el.id) return '//*[@id="' + el.id + '"]';

    const parts = [];
    let current = el;

    while (current && current.nodeType === Node.ELEMENT_NODE) {
      let tag = current.tagName.toLowerCase();

      if (current.id) {
        parts.unshift('//*[@id="' + current.id + '"]');
        break;
      }

      const parent = current.parentElement;
      if (parent) {
        const siblings = Array.from(parent.children).filter(
          c => c.tagName === current.tagName
        );
        if (siblings.length > 1) {
          const index = siblings.indexOf(current) + 1;
          tag += "[" + index + "]";
        }
      }

      parts.unshift(tag);
      current = current.parentElement;
    }

    return "//" + parts.join("/");
  }

  function getSelectors(el) {
    return {
      id: el.id || null,
      css: getCssPath(el),
      xpath: getXPath(el),
      textContent: (el.textContent || "").trim().slice(0, 50) || null
    };
  }

  document.addEventListener("click", (e) => {
    const el = e.target;
    console.log(JSON.stringify({
      __rote: true,
      type: "click",
      tagName: el.tagName,
      selector: getSelectors(el)
    }));
  }, true);

  document.addEventListener("input", (e) => {
    const el = e.target;
    console.log(JSON.stringify({
      __rote: true,
      type: "input",
      tagName: el.tagName,
      value: el.value,
      selector: getSelectors(el)
    }));
  }, true);
})();
"##;

/// Parameters for `Page.addScriptToEvaluateOnNewDocument`.
///
/// When sent to the browser, this auto-injects the recorder on every new document.
pub fn auto_inject_params() -> (params: Json)
    ensures
        params@ == JsonView::Object(seq![("source"@, JsonView::Text(RECORDER_SCRIPT@))]),
{
    let mut entries: Vec<(String, Json)> = Vec::new();
    entries.push(("source".to_owned(), Json::from_text(RECORDER_SCRIPT)));
    assert(entries.deep_view() =~= seq![("source"@, JsonView::Text(RECORDER_SCRIPT@))]);
    Json::from_entries(entries)
}

/// A text under a key that is not empty.
pub open spec fn filled_field(json: JsonView, key: Seq<char>) -> Option<Seq<char>> {
    let text = json.text_field(key);
    if text is Some && text->0.len() > 0 {
        text
    } else {
        None
    }
}

/// The text that a console message of type `log` has as its first argument.
pub open spec fn console_text(params: JsonView) -> Option<Seq<char>> {
    if params.text_field("type"@) == Some("log"@) {
        match params.field("args"@) {
            Some(JsonView::Array(args)) if args.len() > 0 => args[0].text_field("value"@),
            _ => None,
        }
    } else {
        None
    }
}

/// The command that a message of the recorder stands for.
///
/// A message is marked with `__rote`, names its type and the element's tag, and
/// describes the element; an `input` message also holds the typed value.
pub open spec fn message_command(message: JsonView) -> Option<CommandView> {
    let kind = message.text_field("type"@);
    let tag = message.text_field("tagName"@);
    let element = message.field("selector"@);
    let value = message.text_field("value"@);
    if message.field("__rote"@) == Some(JsonView::Bool(true)) && tag is Some && element is Some {
        let selector_info = SelectorInfoView {
            id: filled_field(element->0, "id"@),
            css: filled_field(element->0, "css"@),
            xpath: filled_field(element->0, "xpath"@),
            text_content: filled_field(element->0, "textContent"@),
        };
        if kind == Some("click"@) {
            Some(CommandView::BrowserClick { selector_info, tag: tag->0 })
        } else if kind == Some("input"@) && value is Some {
            Some(CommandView::BrowserInput { selector_info, tag: tag->0, value: value->0 })
        } else {
            None
        }
    } else {
        None
    }
}

/// The command that a console message stands for, if it is from our recorder.
pub open spec fn console_command(params: JsonView) -> Option<CommandView> {
    match console_text(params) {
        Some(text) => match json::document(text, json::MAX_DEPTH as nat) {
            Some(message) => message_command(message),
            None => None,
        },
        None => None,
    }
}

/// A copy of the text under a key, if it is not empty.
fn filled_text(json: &Json, key: &str) -> (text: Option<String>)
    ensures
        text.deep_view() == filled_field(json@, key@),
{
    match json.text_at(key) {
        Some(text) => {
            if text.as_str().is_empty() {
                None
            } else {
                Some(text.clone())
            }
        },
        None => None,
    }
}

/// The command that a message of the recorder stands for.
pub fn command_from_message(message: &Json) -> (command: Option<Command>)
    ensures
        command.deep_view() == message_command(message@),
{
    // Check for the rote marker.
    if !message.get("__rote")?.is_true() {
        return None;
    }
    let kind = message.text_at("type")?;
    let tag = message.text_at("tagName")?.clone();
    let element = message.get("selector")?;
    let selector_info = SelectorInfo {
        id: filled_text(element, "id"),
        css: filled_text(element, "css"),
        xpath: filled_text(element, "xpath"),
        text_content: filled_text(element, "textContent"),
    };
    if text::same_text(kind, "click") {
        Some(Command::BrowserClick { selector_info, tag })
    } else if text::same_text(kind, "input") {
        let value = message.text_at("value")?.clone();
        Some(Command::BrowserInput { selector_info, tag, value })
    } else {
        None
    }
}

/// Parse a `Runtime.consoleAPICalled` event into a `Command`, if it's from our recorder.
///
/// Returns `None` for non-recorder console messages.
pub fn parse_recorder_event(params: &Json) -> (command: Option<Command>)
    ensures
        command.deep_view() == console_command(params@),
{
    // Only process "log" type console calls.
    if !text::same_text(params.text_at("type")?, "log") {
        return None;
    }
    // Extract the first argument's value.
    let first = match params.get("args")? {
        Json::Array(args) => {
            if args.len() == 0 {
                return None;
            }
            &args[0]
        },
        _ => return None,
    };
    let value = first.text_at("value")?;
    // Try to parse as JSON.
    let message = json::parse_json(value)?;
    command_from_message(&message)
}

/// What a message says of an element under a key: the text, where there is one that is
/// not empty.
pub open spec fn says(element: JsonView, key: Seq<char>, part: Option<Seq<char>>) -> bool {
    match part {
        Some(text) => text.len() > 0 && element.field(key) == Some(JsonView::Text(text)),
        None => !(element.field(key) is Some && element.field(key)->0 is Text && element.field(
            key,
        )->0->Text_0.len() > 0),
    }
}

/// A command comes only of a marked message, and says what the message says: the kind
/// of the event, the tag, everything that is known of the element under its own name,
/// and the value that was typed, empty or not.
pub proof fn law_commands_say_what_messages_say(message: JsonView)
    ensures
        message_command(message) matches Some(command) ==> {
            &&& message.field("__rote"@) == Some(JsonView::Bool(true))
            &&& message.field("selector"@) is Some
            &&& match command {
                CommandView::BrowserClick { selector_info, tag } => {
                    &&& message.field("type"@) == Some(JsonView::Text("click"@))
                    &&& message.field("tagName"@) == Some(JsonView::Text(tag))
                    &&& describes(message.field("selector"@)->0, selector_info)
                },
                CommandView::BrowserInput { selector_info, tag, value } => {
                    &&& message.field("type"@) == Some(JsonView::Text("input"@))
                    &&& message.field("tagName"@) == Some(JsonView::Text(tag))
                    &&& message.field("value"@) == Some(JsonView::Text(value))
                    &&& describes(message.field("selector"@)->0, selector_info)
                },
                _ => false,
            }
        },
{
}

/// An element is described by what a message says of it.
pub open spec fn describes(element: JsonView, info: SelectorInfoView) -> bool {
    &&& says(element, "id"@, info.id)
    &&& says(element, "css"@, info.css)
    &&& says(element, "xpath"@, info.xpath)
    &&& says(element, "textContent"@, info.text_content)
}

/// Every marked click with a tag and an element is a command, and so is every marked
/// input that also has a value.
pub proof fn law_marked_messages_are_commands(message: JsonView, tag: Seq<char>)
    requires
        message.field("__rote"@) == Some(JsonView::Bool(true)),
        message.field("tagName"@) == Some(JsonView::Text(tag)),
        message.field("selector"@) is Some,
    ensures
        message.field("type"@) == Some(JsonView::Text("click"@)) ==> message_command(
            message,
        ) is Some,
        message.field("type"@) == Some(JsonView::Text("input"@)) && message.field("value"@) is Some
            && message.field("value"@)->0 is Text ==> message_command(message) is Some,
{
    reveal_strlit("click");
    reveal_strlit("input");
}

/// Of a `log` message the first argument counts, and what message stands in it; the
/// others make no difference. Console messages of other types are nothing.
pub proof fn law_first_log_argument_counts(
    params: JsonView,
    args: Seq<JsonView>,
    text: Seq<char>,
    message: JsonView,
)
    requires
        params.field("args"@) == Some(JsonView::Array(args)),
        args.len() > 0,
        args[0].field("value"@) == Some(JsonView::Text(text)),
        json::document(text, json::MAX_DEPTH as nat) == Some(message),
    ensures
        params.field("type"@) == Some(JsonView::Text("log"@)) ==> console_command(params)
            == message_command(message),
        params.field("type"@) != Some(JsonView::Text("log"@)) ==> console_command(params) is None,
{
}

} // verus!
