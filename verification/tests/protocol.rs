//! CDP messages and JSON documents.
use rote::cdp::protocol::{
    domain_for_method, enable_command, is_evaluated_true, is_main_frame_navigation,
    is_top_navigation, runtime_evaluate, text_params, BrowserVersion, Event, Message, RawMessage,
    WireError, ENABLED_DOMAINS,
};
use rote::json::{parse_json, quoted, Json};

fn json(text: &str) -> Json {
    parse_json(text).unwrap()
}

fn raw() -> RawMessage {
    RawMessage { id: None, method: None, result: None, error: None, params: None }
}

#[test]
fn raw_response_classifies_as_response() {
    let raw = RawMessage { id: Some(1), result: Some(json(r#"{"value": "hello"}"#)), ..raw() };
    let msg = raw.classify().unwrap();
    match msg {
        Message::Response(r) => {
            assert_eq!(r.id, 1);
            assert!(r.result.is_ok());
        }
        Message::Event(_) => panic!("expected response"),
    }
}

#[test]
fn raw_error_response_classifies() {
    let error = WireError { code: -32000, message: "not found".to_owned(), data: None };
    let raw = RawMessage { id: Some(2), error: Some(error), ..raw() };
    let msg = raw.classify().unwrap();
    match msg {
        Message::Response(r) => {
            assert_eq!(r.id, 2);
            let err = r.result.unwrap_err();
            assert_eq!(err.code, -32000);
            assert_eq!(err.message, "not found");
        }
        Message::Event(_) => panic!("expected response"),
    }
}

#[test]
fn raw_event_classifies_as_event() {
    let raw = RawMessage {
        method: Some("Page.loadEventFired".to_owned()),
        params: Some(json(r#"{"timestamp": 123.4}"#)),
        ..raw()
    };
    let msg = raw.classify().unwrap();
    match msg {
        Message::Event(e) => {
            assert_eq!(e.method, "Page.loadEventFired");
            assert_eq!(e.params.get("timestamp"), Some(&Json::Number("123.4".to_owned())));
        }
        Message::Response(_) => panic!("expected event"),
    }
}

#[test]
fn an_error_counts_before_a_result() {
    let error = WireError { code: 1, message: "no".to_owned(), data: None };
    let raw = RawMessage { id: Some(3), error: Some(error.clone()), result: Some(Json::Null), ..raw() };
    match raw.classify() {
        Some(Message::Response(r)) => assert_eq!(r.result, Err(error)),
        other => panic!("unexpected {other:?}"),
    }
}

#[test]
fn what_is_not_sent_is_null() {
    match (RawMessage { id: Some(4), ..raw() }).classify() {
        Some(Message::Response(r)) => assert_eq!(r.result, Ok(Json::Null)),
        other => panic!("unexpected {other:?}"),
    }
    match (RawMessage { method: Some("A.b".to_owned()), ..raw() }).classify() {
        Some(Message::Event(e)) => assert_eq!(e.params, Json::Null),
        other => panic!("unexpected {other:?}"),
    }
    assert_eq!(raw().classify(), None);
}

#[test]
fn domain_extraction() {
    assert_eq!(domain_for_method("Page.loadEventFired"), Some("Page"));
    assert_eq!(domain_for_method("Runtime.evaluate"), Some("Runtime"));
    assert_eq!(domain_for_method("nodot"), Some("nodot"));
}

#[test]
fn domain_extraction_at_the_edges() {
    assert_eq!(domain_for_method(""), Some(""));
    assert_eq!(domain_for_method(".x"), Some(""));
    assert_eq!(domain_for_method("a.b.c"), Some("a"));
    assert_eq!(ENABLED_DOMAINS, ["Runtime", "Page", "DOM"]);
}

#[test]
fn enable_command_format() {
    let cmd = enable_command(5, "Runtime");
    assert_eq!(cmd.method, "Runtime.enable");
    assert_eq!(cmd.id, 5);
    assert!(cmd.params.is_none());
}

#[test]
fn evaluate_command_format() {
    let cmd = runtime_evaluate(42, "document.title");
    assert_eq!(cmd.id, 42);
    assert_eq!(cmd.method, "Runtime.evaluate");
    let params = cmd.params.unwrap();
    assert_eq!(params.text_at("expression").unwrap(), "document.title");
    assert!(params.get("returnByValue").unwrap().is_true());
    assert_eq!(params, json(r#"{"expression":"document.title","returnByValue":true}"#));
}

#[test]
fn browser_version_debugger_url() {
    let ver = BrowserVersion {
        browser: "Chrome/120".to_owned(),
        protocol_version: "1.3".to_owned(),
        ws_debugger_url: Some("ws://localhost:9222/devtools/browser/abc".to_owned()),
    };
    assert_eq!(
        ver.debugger_url(),
        Some("ws://localhost:9222/devtools/browser/abc"),
    );
}

#[test]
fn evaluation_replies() {
    assert!(is_evaluated_true(&json(r#"{"result":{"type":"boolean","value":true}}"#)));
    assert!(!is_evaluated_true(&json(r#"{"result":{"type":"boolean","value":false}}"#)));
    assert!(!is_evaluated_true(&json(r#"{"result":{"type":"string","value":"true"}}"#)));
    assert!(!is_evaluated_true(&json(r#"{"exceptionDetails":{}}"#)));
}

#[test]
fn navigations_of_the_main_frame() {
    let event = |method: &str, params: &str| Event { method: method.to_owned(), params: json(params) };
    let main = event("Page.frameNavigated", r#"{"frame":{"url":"u"}}"#);
    let null = event("Page.frameNavigated", r#"{"frame":{"parentId":null}}"#);
    let sub = event("Page.frameNavigated", r#"{"frame":{"parentId":"F"}}"#);
    let other = event("Page.loadEventFired", r#"{"frame":{}}"#);
    assert!(is_main_frame_navigation(&main) && is_top_navigation(&main));
    assert!(is_main_frame_navigation(&null) && !is_top_navigation(&null));
    assert!(!is_main_frame_navigation(&sub) && !is_top_navigation(&sub));
    assert!(!is_main_frame_navigation(&other) && !is_top_navigation(&other));
}

#[test]
fn json_documents_are_parsed() {
    let text = r#"{"a":[1,{"b":null},"x\n"],"c":false,"d":{}}"#;
    let doc = json(text);
    assert_eq!(
        doc.get("a"),
        Some(&Json::Array(vec![
            Json::Number("1".to_owned()),
            Json::Object(vec![("b".to_owned(), Json::Null)]),
            Json::Text("x\n".to_owned()),
        ])),
    );
    assert_eq!(doc.get("c"), Some(&Json::Bool(false)));
    assert_eq!(doc.get("d"), Some(&Json::Object(vec![])));
    assert_eq!(doc.get("e"), None);
    assert_eq!(doc.clone(), doc);
    assert_eq!(parse_json("{"), None);
    assert_eq!(parse_json("rote: recorder installed"), None);
}

#[test]
fn deep_documents_are_parsed_or_refused() {
    let nested = |n: usize| format!("{}{}", "[".repeat(n), "]".repeat(n));
    assert!(parse_json(&nested(100)).is_some());
    assert!(parse_json(&nested(200)).is_none());
}

#[test]
fn quoted_text_reads_back() {
    for text in ["", "plain", "it's a \"test\"", "tab\tnew\nline", "\u{0}\u{1f}", "caf\u{e9} \u{1f600}"] {
        let literal = quoted(text);
        assert_ne!(literal, text);
        assert_eq!(parse_json(&literal), Some(Json::Text(text.to_owned())));
    }
    assert_eq!(quoted("a\"b"), r#""a\"b""#);
}

#[test]
fn single_text_parameters() {
    assert_eq!(text_params("url", "https://example.com"), json(r#"{"url":"https://example.com"}"#));
}
