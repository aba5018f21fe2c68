//! What a browser is started with, and which of its tabs is used.
use vstd::prelude::*;
use crate::text;
use super::protocol::TabInfo;
use super::CdpError;

verus! {

/// Default debugging port.
pub const DEFAULT_PORT: u16 = 9222;

/// Maximum time to wait for the browser's debug endpoint to become available,
/// in seconds.
pub const STARTUP_TIMEOUT_SECS: u64 = 10;

/// Interval between health check attempts during startup, in milliseconds.
pub const STARTUP_POLL_MILLIS: u64 = 200;

/// The command line arguments of a browser with remote debugging enabled.
pub open spec fn arguments(port: u16, profile_dir: Seq<char>) -> Seq<Seq<char>> {
    seq![
        "--remote-debugging-port="@ + text::decimal(port as nat),
        "--user-data-dir="@ + profile_dir,
        "--no-first-run"@,
        "--no-default-browser-check"@,
        "--disable-default-apps"@,
        "about:blank"@,
    ]
}

/// The command line arguments of a browser with remote debugging enabled.
pub fn launch_arguments(port: u16, profile_dir: &str) -> (args: Vec<String>)
    ensures
        args.deep_view() == arguments(port, profile_dir@),
{
    let mut args: Vec<String> = Vec::new();
    args.push(text::joined("--remote-debugging-port=", &text::decimal_text(port as u128)));
    args.push(text::joined("--user-data-dir=", profile_dir));
    args.push("--no-first-run".to_owned());
    args.push("--no-default-browser-check".to_owned());
    args.push("--disable-default-apps".to_owned());
    args.push("about:blank".to_owned());
    assert(args.deep_view() =~= arguments(port, profile_dir@));
    args
}

/// An address of the debug endpoint.
pub fn endpoint(port: u16, path: &str) -> (url: String)
    ensures
        url@ == "http://localhost:"@ + text::decimal(port as nat) + path@,
{
    let mut url = "http://localhost:".to_owned();
    url.append(&text::decimal_text(port as u128));
    url.append(path);
    url
}

/// Whether an error says that a browser did not come up in time.
pub open spec fn says_too_late(error: CdpError, port: u16) -> bool {
    &&& error is BrowserLaunch
    &&& error->BrowserLaunch_0@ == "browser did not start within "@ + text::decimal(
        STARTUP_TIMEOUT_SECS as nat,
    ) + " seconds on port "@ + text::decimal(port as nat)
}

/// The error for a browser that did not come up in time.
pub fn startup_timeout(port: u16) -> (error: CdpError)
    ensures
        says_too_late(error, port),
{
    let mut why = "browser did not start within ".to_owned();
    why.append(&text::decimal_text(STARTUP_TIMEOUT_SECS as u128));
    why.append(" seconds on port ");
    why.append(&text::decimal_text(port as u128));
    CdpError::BrowserLaunch(why)
}

/// How waiting for a browser to come up goes on.
#[derive(Debug, PartialEq)]
pub enum Startup {
    /// The debug endpoint is available.
    Ready,
    /// Ask the debug endpoint again after [`STARTUP_POLL_MILLIS`].
    Poll,
    /// Give up.
    Failed(CdpError),
}

/// Decides how waiting for a browser goes on after its debug endpoint was asked
/// once: `responded` is whether it answered, `in_time` whether there is time left.
pub fn startup_next(responded: bool, in_time: bool, port: u16) -> (next: Startup)
    ensures
        next is Ready <==> responded,
        next is Poll <==> !responded && in_time,
        next is Failed <==> !responded && !in_time,
        next matches Startup::Failed(error) ==> says_too_late(error, port),
{
    if responded {
        Startup::Ready
    } else if in_time {
        Startup::Poll
    } else {
        Startup::Failed(startup_timeout(port))
    }
}

/// Whether a tab is a page.
pub open spec fn is_page(tab: TabInfo) -> bool {
    tab.target_type@ == "page"@
}

/// Find the first page-type tab, or the first tab of any type.
///
/// # Errors
///
/// [`CdpError::NoTab`] if there is no tab at all.
pub fn first_page_tab(mut tabs: Vec<TabInfo>) -> (tab: Result<TabInfo, CdpError>)
    ensures
        match tab {
            Ok(tab) => exists|i: int|
                {
                    &&& 0 <= i < tabs@.len()
                    &&& #[trigger] tabs@[i] == tab
                    &&& forall|k: int| 0 <= k < i ==> !is_page(#[trigger] tabs@[k])
                    &&& !is_page(tab) ==> i == 0 && forall|k: int|
                        0 <= k < tabs@.len() ==> !is_page(#[trigger] tabs@[k])
                },
            Err(error) => error == CdpError::NoTab && tabs@.len() == 0,
        },
{
    if tabs.len() == 0 {
        return Err(CdpError::NoTab);
    }
    let ghost all = tabs@;
    let mut i: usize = 0;
    while i < tabs.len()
        invariant
            i <= tabs.len(),
            tabs@ == all,
            forall|k: int| 0 <= k < i ==> !is_page(#[trigger] all[k]),
        ensures
            i <= tabs.len(),
            tabs@ == all,
            forall|k: int| 0 <= k < i ==> !is_page(#[trigger] all[k]),
            i < tabs.len() ==> is_page(all[i as int]),
        decreases tabs.len() - i,
    {
        if text::same_text(&tabs[i].target_type, "page") {
            break;
        }
        i = i + 1;
    }
    if i == tabs.len() {
        i = 0;
    }
    Ok(tabs.swap_remove(i))
}

/// A browser is started with the port and the profile that it is told, first of all,
/// and with an empty page, last of all.
pub proof fn law_browser_is_told_where(port: u16, profile_dir: Seq<char>)
    ensures
        ({
            let args = arguments(port, profile_dir);
            let ports = "--remote-debugging-port="@;
            let profiles = "--user-data-dir="@;
            &&& args[0].take(ports.len() as int) == ports
            &&& text::digits_value(args[0].skip(ports.len() as int)) == port
            &&& args[1].take(profiles.len() as int) == profiles
            &&& args[1].skip(profiles.len() as int) == profile_dir
            &&& args.last() == "about:blank"@
        }),
{
    let args = arguments(port, profile_dir);
    let ports = "--remote-debugging-port="@;
    let profiles = "--user-data-dir="@;
    text::law_decimal_stands_for_number(port as nat);
    assert(args[0].take(ports.len() as int) =~= ports);
    assert(args[0].skip(ports.len() as int) =~= text::decimal(port as nat));
    assert(args[1].take(profiles.len() as int) =~= profiles);
    assert(args[1].skip(profiles.len() as int) =~= profile_dir);
}

/// The tab that is used is a page whenever there is one, and the first one.
pub proof fn law_pages_are_preferred(
    tabs: Vec<TabInfo>,
    tab: Result<TabInfo, CdpError>,
    page: int,
)
    requires
        call_ensures(first_page_tab, (tabs,), tab),
    ensures
        tab is Ok <==> tabs@.len() > 0,
        0 <= page < tabs@.len() && tabs@[page].target_type@ == "page"@ && (forall|k: int|
            0 <= k < page ==> (#[trigger] tabs@[k]).target_type@ != "page"@) ==> tab == Ok::<
            TabInfo,
            CdpError,
        >(tabs@[page]),
        (forall|k: int| 0 <= k < tabs@.len() ==> (#[trigger] tabs@[k]).target_type@ != "page"@)
            && tabs@.len() > 0 ==> tab == Ok::<TabInfo, CdpError>(tabs@[0]),
{
}

} // verus!
