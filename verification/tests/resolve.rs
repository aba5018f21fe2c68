//! Element resolution.
use rote::playback::resolve::{next_search, not_found, resolution_js, start_search, strategy_js, Search};
use rote::workflow::{Resolution, Selector};

/// Extract the JS body from the IIFE so we can inspect it more easily.
fn has_snippet(js: &str, snippet: &str) -> bool {
    js.contains(snippet)
}

#[test]
fn id_resolution_uses_get_element_by_id() {
    let r = Resolution::Id {
        id: "name-field".to_owned(),
    };
    let js = resolution_js(&r, "INPUT");
    assert!(has_snippet(&js, "getElementById"));
    assert!(has_snippet(&js, r#""name-field""#));
    assert!(has_snippet(&js, "__roteTarget"));
}

#[test]
fn css_resolution_uses_query_selector() {
    let r = Resolution::Css {
        selector: "#age-field".to_owned(),
    };
    let js = resolution_js(&r, "INPUT");
    assert!(has_snippet(&js, "querySelector"));
    // serde_json serialises the string as "\"#age-field\""
    assert!(has_snippet(&js, "age-field"));
}

#[test]
fn xpath_resolution_uses_evaluate() {
    let r = Resolution::XPath {
        path: "//input[@id='x']".to_owned(),
    };
    let js = resolution_js(&r, "INPUT");
    assert!(has_snippet(&js, "document.evaluate"));
    assert!(has_snippet(&js, "FIRST_ORDERED_NODE_TYPE"));
    assert!(has_snippet(&js, r#""//input[@id='x']""#));
}

#[test]
fn text_content_resolution_uses_get_elements_by_tag_name() {
    let r = Resolution::TextContent {
        text: "Submit".to_owned(),
    };
    let js = resolution_js(&r, "BUTTON");
    assert!(has_snippet(&js, "getElementsByTagName"));
    assert!(has_snippet(&js, r#""BUTTON""#));
    assert!(has_snippet(&js, r#""Submit""#));
    assert!(has_snippet(&js, "textContent.trim()"));
}

#[test]
fn js_returns_true_and_false_branches() {
    for resolution in &[
        Resolution::Id { id: "x".to_owned() },
        Resolution::Css {
            selector: ".x".to_owned(),
        },
        Resolution::XPath {
            path: "//x".to_owned(),
        },
        Resolution::TextContent {
            text: "X".to_owned(),
        },
    ] {
        let js = resolution_js(resolution, "INPUT");
        assert!(
            has_snippet(&js, "return true;"),
            "missing true branch: {js}"
        );
        assert!(
            has_snippet(&js, "return false;"),
            "missing false branch: {js}"
        );
    }
}

#[test]
fn special_characters_are_escaped() {
    let r = Resolution::Id {
        id: r#"it's a "test""#.to_owned(),
    };
    let js = resolution_js(&r, "INPUT");
    // serde_json escapes the string — no raw quotes or apostrophes in the value.
    assert!(!js.contains(r"getElementById(it's"));
}

#[test]
fn exact_expressions() {
    let r = Resolution::Id { id: "a\"b".to_owned() };
    assert_eq!(
        resolution_js(&r, "INPUT"),
        r#"(function(){var e=document.getElementById("a\"b");if(e){window.__roteTarget=e;return true;}return false;})()"#,
    );
    let r = Resolution::Css { selector: ".x".to_owned() };
    assert_eq!(
        strategy_js(&r, "'.x'", "'A'"),
        "(function(){var e=document.querySelector('.x');if(e){window.__roteTarget=e;return true;}return false;})()",
    );
    let r = Resolution::XPath { path: "//x".to_owned() };
    assert_eq!(
        resolution_js(&r, "A"),
        r#"(function(){var e=document.evaluate("//x",document,null,XPathResult.FIRST_ORDERED_NODE_TYPE,null).singleNodeValue;if(e){window.__roteTarget=e;return true;}return false;})()"#,
    );
    let r = Resolution::TextContent { text: "Go".to_owned() };
    assert_eq!(
        resolution_js(&r, "A"),
        r#"(function(){var es=document.getElementsByTagName("A");for(var i=0;i<es.length;i++){if(es[i].textContent.trim()==="Go"){window.__roteTarget=es[i];return true;}}return false;})()"#,
    );
}

fn selector(n: usize) -> Selector {
    Selector {
        strategies: (0..n).map(|i| Resolution::Id { id: i.to_string() }).collect(),
        tag: "INPUT".to_owned(),
    }
}

#[test]
fn strategies_are_tried_in_order() {
    let selector = selector(2);
    assert_eq!(start_search(&selector), Ok(Search::Try(0)));
    assert_eq!(next_search(&selector, 0, false), Search::Try(1));
    assert_eq!(next_search(&selector, 1, false), Search::Wait);
    assert_eq!(next_search(&selector, 0, true), Search::Found);
}

#[test]
fn a_selector_without_strategies_fails_fast() {
    assert_eq!(
        start_search(&selector(0)).unwrap_err().message(),
        "element not found: selector has no strategies (tag: INPUT)",
    );
}

#[test]
fn an_element_that_is_not_found_is_described() {
    assert_eq!(
        not_found(&selector(1), "5.0s").message(),
        "element not found: selector with 1 strategy (tag: INPUT) not found within 5.0s",
    );
    assert_eq!(
        not_found(&selector(3), "5.0s").message(),
        "element not found: selector with 3 strategies (tag: INPUT) not found within 5.0s",
    );
}
