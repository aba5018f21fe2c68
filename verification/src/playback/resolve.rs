//! Element resolution: finding a DOM element by a [`Selector`]'s strategies.
use vstd::prelude::*;
use crate::json;
use crate::text;
use crate::workflow::{Resolution, ResolutionView, Selector, SelectorView};
use super::PlaybackError;

verus! {

/// How long to wait between retry attempts, in milliseconds.
pub const POLL_INTERVAL_MILLIS: u64 = 200;

/// The expression for one resolution strategy, where `wanted` and `tag` are
/// JavaScript literals of what is looked for and of the element's tag.
pub open spec fn lookup_js(strategy: ResolutionView, wanted: Seq<char>, tag: Seq<char>) -> Seq<
    char,
> {
    match strategy {
        ResolutionView::Id { .. } => "(function(){var e=document.getElementById("@ + wanted
            + ");if(e){window.__roteTarget=e;return true;}return false;})()"@,
        ResolutionView::Css { .. } => "(function(){var e=document.querySelector("@ + wanted
            + ");if(e){window.__roteTarget=e;return true;}return false;})()"@,
        ResolutionView::XPath { .. } => "(function(){var e=document.evaluate("@ + wanted
            + ",document,null,XPathResult.FIRST_ORDERED_NODE_TYPE,null).singleNodeValue;if(e){window.__roteTarget=e;return true;}return false;})()"@,
        ResolutionView::TextContent { .. } =>
            "(function(){var es=document.getElementsByTagName("@ + tag
            + ");for(var i=0;i<es.length;i++){if(es[i].textContent.trim()==="@ + wanted
            + "){window.__roteTarget=es[i];return true;}}return false;})()"@,
    }
}

/// Writes the expression for one resolution strategy, given the literals.
pub fn strategy_js(strategy: &Resolution, wanted: &str, tag: &str) -> (js: String)
    ensures
        js@ == lookup_js(strategy@, wanted@, tag@),
{
    match strategy {
        Resolution::Id { .. } => {
            let mut js = "(function(){var e=document.getElementById(".to_owned();
            js.append(wanted);
            js.append(");if(e){window.__roteTarget=e;return true;}return false;})()");
            js
        },
        Resolution::Css { .. } => {
            let mut js = "(function(){var e=document.querySelector(".to_owned();
            js.append(wanted);
            js.append(");if(e){window.__roteTarget=e;return true;}return false;})()");
            js
        },
        Resolution::XPath { .. } => {
            let mut js = "(function(){var e=document.evaluate(".to_owned();
            js.append(wanted);
            js.append(
                ",document,null,XPathResult.FIRST_ORDERED_NODE_TYPE,null).singleNodeValue;if(e){window.__roteTarget=e;return true;}return false;})()",
            );
            js
        },
        Resolution::TextContent { .. } => {
            let mut js = "(function(){var es=document.getElementsByTagName(".to_owned();
            js.append(tag);
            js.append(");for(var i=0;i<es.length;i++){if(es[i].textContent.trim()===");
            js.append(wanted);
            js.append("){window.__roteTarget=es[i];return true;}}return false;})()");
            js
        },
    }
}

/// What a strategy looks for.
fn strategy_text(strategy: &Resolution) -> (text: &String)
    ensures
        text@ == crate::training::strategy_text(strategy@),
{
    match strategy {
        Resolution::Id { id } => id,
        Resolution::Css { selector } => selector,
        Resolution::XPath { path } => path,
        Resolution::TextContent { text } => text,
    }
}

/// Generate a self-invoking JS expression for one resolution strategy.
///
/// On success the expression evaluates to `true` and stores the element in
/// `window.__roteTarget`, a well-known global used by subsequent JS steps
/// (`click()`, `focus()`, etc.) to act on the resolved element. On failure
/// it evaluates to `false`.
///
/// `tag` is the expected HTML tag name (e.g. `"INPUT"`, `"BUTTON"`) and is
/// used only for the [`Resolution::TextContent`] strategy.
pub fn resolution_js(resolution: &Resolution, tag: &str) -> (js: String)
    ensures
        js@ == lookup_js(
            resolution@,
            json::json_string(crate::training::strategy_text(resolution@)),
            json::json_string(tag@),
        ),
{
    let wanted = json::quoted(strategy_text(resolution));
    let tag = json::quoted(tag);
    strategy_js(resolution, &wanted, &tag)
}

/// What to do next to find an element.
#[derive(Debug, Clone, Copy, PartialEq, Eq, Structural)]
pub enum Search {
    /// Try a strategy.
    Try(usize),
    /// Wait for a while, and try the first strategy again.
    Wait,
    /// The element is found.
    Found,
}

/// What follows the attempt with one of `count` strategies: the strategies are
/// tried in order until one succeeds, then over again.
pub open spec fn search_after(count: nat, tried: nat, found: bool) -> Search {
    if found {
        Search::Found
    } else if tried + 1 < count {
        Search::Try((tried + 1) as usize)
    } else {
        Search::Wait
    }
}

/// Decides what follows the attempt with one of the strategies.
pub fn next_search(selector: &Selector, tried: usize, found: bool) -> (next: Search)
    ensures
        next == search_after(selector@.strategies.len(), tried as nat, found),
{
    let count = selector.strategies.len();
    if found {
        Search::Found
    } else if count > 0 && tried < count - 1 {
        Search::Try(tried + 1)
    } else {
        Search::Wait
    }
}

/// Decides how to start looking for an element.
///
/// # Errors
///
/// [`PlaybackError::ElementNotFound`] if there is nothing to try.
pub fn start_search(selector: &Selector) -> (search: Result<Search, PlaybackError>)
    ensures
        match search {
            Ok(search) => selector@.strategies.len() > 0 && search == Search::Try(0),
            Err(error) => {
                &&& selector@.strategies.len() == 0
                &&& error is ElementNotFound
                &&& error->ElementNotFound_0@ == "selector has no strategies (tag: "@
                    + selector.tag@ + ")"@
            },
        },
{
    // Fail fast: no point entering the retry loop with nothing to try.
    if selector.strategies.is_empty() {
        let mut why = "selector has no strategies (tag: ".to_owned();
        why.append(&selector.tag);
        why.append(")");
        return Err(PlaybackError::ElementNotFound(why));
    }
    Ok(Search::Try(0))
}

/// The text for an element that was not found in time.
pub open spec fn not_found_text(selector: SelectorView, waited: Seq<char>) -> Seq<char> {
    "selector with "@ + text::decimal(selector.strategies.len()) + " strateg"@ + (
    if selector.strategies.len() == 1 {
        "y"@
    } else {
        "ies"@
    }) + " (tag: "@ + selector.tag + ") not found within "@ + waited
}

/// The error for an element that was not found in time; `waited` is how long
/// was waited, as shown to the user.
pub fn not_found(selector: &Selector, waited: &str) -> (error: PlaybackError)
    ensures
        error is ElementNotFound,
        error->ElementNotFound_0@ == not_found_text(selector@, waited@),
{
    let mut why = "selector with ".to_owned();
    why.append(&text::decimal_text(selector.strategies.len() as u128));
    why.append(" strateg");
    if selector.strategies.len() == 1 {
        why.append("y");
    } else {
        why.append("ies");
    }
    why.append(" (tag: ");
    why.append(&selector.tag);
    why.append(") not found within ");
    why.append(waited);
    PlaybackError::ElementNotFound(why)
}

} // verus!
