//! Messages of the recorder.
use rote::cdp::protocol::Event;
use rote::json::{parse_json, quoted, Json};
use rote::training::recorder::{
    auto_inject_params, command_from_message, parse_recorder_event, RECORDER_SCRIPT,
};
use rote::training::Command;
use rote::tui::training::training_command_from_cdp_event;

fn console_call(kind: &str, value: &str) -> Json {
    let text = format!(
        r#"{{"type":{},"args":[{{"type":"string","value":{}}}],"executionContextId":1,"timestamp":1234.0}}"#,
        quoted(kind),
        quoted(value),
    );
    parse_json(&text).unwrap()
}

fn console_event(json_str: &str) -> Json {
    console_call("log", json_str)
}

#[test]
fn parse_click_event() {
    let json = r##"{"__rote":true,"type":"click","tagName":"BUTTON","selector":{"id":"submit-btn","css":"#submit-btn","xpath":"//*[@id=\"submit-btn\"]","textContent":"Submit"}}"##;
    let params = console_event(json);
    let cmd = parse_recorder_event(&params).unwrap();

    match cmd {
        Command::BrowserClick { selector_info, tag } => {
            assert_eq!(tag, "BUTTON");
            assert_eq!(selector_info.id.as_deref(), Some("submit-btn"));
            assert_eq!(selector_info.css.as_deref(), Some("#submit-btn"));
            assert_eq!(selector_info.text_content.as_deref(), Some("Submit"));
        }
        _ => panic!("expected BrowserClick"),
    }
}

#[test]
fn parse_input_event() {
    let json = r##"{"__rote":true,"type":"input","tagName":"INPUT","value":"Alice","selector":{"id":"name-field","css":"#name-field","xpath":"//*[@id=\"name-field\"]"}}"##;
    let params = console_event(json);
    let cmd = parse_recorder_event(&params).unwrap();

    match cmd {
        Command::BrowserInput {
            selector_info,
            tag,
            value,
        } => {
            assert_eq!(tag, "INPUT");
            assert_eq!(value, "Alice");
            assert_eq!(selector_info.id.as_deref(), Some("name-field"));
        }
        _ => panic!("expected BrowserInput"),
    }
}

#[test]
fn non_recorder_message_ignored() {
    let params = console_event(r##"{"message": "hello world"}"##);
    assert!(parse_recorder_event(&params).is_none());
}

#[test]
fn non_log_type_ignored() {
    let params = console_call("error", r##"{"__rote":true,"type":"click","tagName":"BUTTON","selector":{"id":"x","css":"#x","xpath":"//x"}}"##);
    assert!(parse_recorder_event(&params).is_none());
}

#[test]
fn plain_text_message_ignored() {
    let params = console_event("rote: recorder installed");
    assert!(parse_recorder_event(&params).is_none());
}

#[test]
fn auto_inject_params_has_source() {
    let params = auto_inject_params();
    assert!(params.get("source").is_some());
    let source = params.text_at("source").unwrap();
    assert!(source.contains("__roteRecorder"));
}

#[test]
fn null_selector_fields_handled() {
    let json = r##"{"__rote":true,"type":"click","tagName":"DIV","selector":{"id":null,"css":"div.content","xpath":"//div","textContent":null}}"##;
    let params = console_event(json);
    let cmd = parse_recorder_event(&params).unwrap();

    match cmd {
        Command::BrowserClick { selector_info, tag } => {
            assert_eq!(tag, "DIV");
            assert!(selector_info.id.is_none());
            assert_eq!(selector_info.css.as_deref(), Some("div.content"));
            assert!(selector_info.text_content.is_none());
        }
        _ => panic!("expected BrowserClick"),
    }
}

#[test]
fn training_command_maps_top_level_navigation() {
    let event = Event {
        method: "Page.frameNavigated".to_owned(),
        params: parse_json(r#"{"frame":{"url":"https://example.com/form"}}"#).unwrap(),
    };

    let command = training_command_from_cdp_event(&event).unwrap();
    match command {
        Command::BrowserNavigation { url } => {
            assert_eq!(url, "https://example.com/form");
        }
        _ => panic!("expected BrowserNavigation"),
    }
}

#[test]
fn training_ignores_sub_frames_and_other_events() {
    let event = |method: &str, params: &str| Event {
        method: method.to_owned(),
        params: parse_json(params).unwrap(),
    };
    let sub = event("Page.frameNavigated", r#"{"frame":{"url":"u","parentId":"F"}}"#);
    assert!(training_command_from_cdp_event(&sub).is_none());
    let bare = event("Page.frameNavigated", "{}");
    assert!(training_command_from_cdp_event(&bare).is_none());
    let other = event("Page.loadEventFired", r#"{"frame":{"url":"u"}}"#);
    assert!(training_command_from_cdp_event(&other).is_none());
}

#[test]
fn training_hears_the_recorder() {
    let json = r##"{"__rote":true,"type":"input","tagName":"INPUT","value":"Alice","selector":{"id":"n"}}"##;
    let event = Event {
        method: "Runtime.consoleAPICalled".to_owned(),
        params: console_event(json),
    };
    assert!(matches!(
        training_command_from_cdp_event(&event),
        Some(Command::BrowserInput { value, .. }) if value == "Alice"
    ));
}

#[test]
fn unmarked_and_unknown_messages_are_ignored() {
    let message = |text: &str| parse_json(text).unwrap();
    let click = r#""type":"click","tagName":"A","selector":{}"#;
    assert!(command_from_message(&message(&format!(r#"{{"__rote":true,{click}}}"#))).is_some());
    assert!(command_from_message(&message(&format!(r#"{{"__rote":false,{click}}}"#))).is_none());
    assert!(command_from_message(&message(&format!(r#"{{"__rote":"true",{click}}}"#))).is_none());
    let hover = r#"{"__rote":true,"type":"hover","tagName":"A","selector":{}}"#;
    assert!(command_from_message(&message(hover)).is_none());
    let no_value = r#"{"__rote":true,"type":"input","tagName":"A","selector":{}}"#;
    assert!(command_from_message(&message(no_value)).is_none());
}

#[test]
fn empty_selector_fields_are_absent() {
    let json = r##"{"__rote":true,"type":"click","tagName":"DIV","selector":{"id":"","css":"d"}}"##;
    match parse_recorder_event(&console_event(json)) {
        Some(Command::BrowserClick { selector_info, .. }) => {
            assert_eq!(selector_info.id, None);
            assert_eq!(selector_info.css.as_deref(), Some("d"));
        }
        other => panic!("unexpected {other:?}"),
    }
}

#[test]
fn the_script_is_injected_as_it_is() {
    assert_eq!(auto_inject_params().text_at("source").unwrap(), RECORDER_SCRIPT);
}
