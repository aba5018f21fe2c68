//! Browser discovery and launch.
use rote::cdp::discover;
use rote::cdp::discover::{BrowserKind, Platform, WindowsDirs};
use rote::cdp::launch;
use rote::cdp::protocol::TabInfo;
use rote::cdp::CdpError;

fn no_dirs() -> WindowsDirs {
    WindowsDirs { program_files: None, program_files_x86: None, local_app_data: None }
}

const PLATFORMS: [Platform; 3] = [Platform::Macos, Platform::Linux, Platform::Windows];

#[test]
fn candidates_are_not_empty() {
    for platform in PLATFORMS {
        let candidates = discover::candidate_paths(platform, &no_dirs());
        assert!(
            !candidates.is_empty(),
            "should have at least one candidate path on every platform",
        );
    }
}

#[test]
fn chrome_comes_before_edge() {
    for platform in PLATFORMS {
        let candidates = discover::candidate_paths(platform, &no_dirs());
        let first_chrome = candidates
            .iter()
            .position(|b| b.kind == BrowserKind::Chrome);
        let first_edge = candidates.iter().position(|b| b.kind == BrowserKind::Edge);
        if let (Some(c), Some(e)) = (first_chrome, first_edge) {
            assert!(c < e, "Chrome should be checked before Edge");
        }
    }
}

#[test]
fn browser_kind_names() {
    assert_eq!(BrowserKind::Chrome.name(), "Google Chrome");
    assert_eq!(BrowserKind::Edge.name(), "Microsoft Edge");
}

#[test]
fn macos_has_expected_paths() {
    let candidates = discover::candidate_paths(Platform::Macos, &no_dirs());
    let paths: Vec<_> = candidates
        .iter()
        .map(|b| b.path.as_str())
        .collect();
    assert!(paths.iter().any(|p| p.contains("Google Chrome")));
    assert!(paths.iter().any(|p| p.contains("Microsoft Edge")));
}

#[test]
fn linux_candidates_in_order() {
    let candidates = discover::linux_candidates();
    assert_eq!(candidates.len(), 9);
    assert_eq!(candidates[0].path, "google-chrome");
    assert_eq!(candidates[8].path, "/usr/bin/microsoft-edge");
}

#[test]
fn windows_directories_come_from_the_environment() {
    let dirs = WindowsDirs {
        program_files: Some("D:\\Programs".to_owned()),
        program_files_x86: None,
        local_app_data: None,
    };
    let candidates = discover::windows_candidates(&dirs);
    assert_eq!(
        candidates[0].path,
        "D:\\Programs\\Google\\Chrome\\Application\\chrome.exe",
    );
    assert_eq!(
        candidates[4].path,
        "C:\\Program Files (x86)\\Microsoft\\Edge\\Application\\msedge.exe",
    );
}

#[test]
fn only_existing_browsers_are_found() {
    let candidates = discover::macos_candidates();
    let found = discover::find_browsers(&candidates, &vec![false, true]);
    assert_eq!(found, vec![candidates[1].clone()]);
    assert_eq!(discover::find_browser(&candidates, &vec![true, true]), Some(candidates[0].clone()));
    assert_eq!(discover::find_browser(&candidates, &vec![false, false]), None);
}

fn tab(id: &str, target_type: &str) -> TabInfo {
    TabInfo {
        id: id.to_owned(),
        target_type: target_type.to_owned(),
        title: String::new(),
        url: String::new(),
        web_socket_debugger_url: None,
    }
}

#[test]
fn the_first_page_is_used() {
    let tabs = vec![tab("a", "worker"), tab("b", "page"), tab("c", "page")];
    assert_eq!(launch::first_page_tab(tabs).unwrap().id, "b");
}

#[test]
fn without_a_page_the_first_tab_is_used() {
    let tabs = vec![tab("a", "worker"), tab("b", "iframe")];
    assert_eq!(launch::first_page_tab(tabs).unwrap().id, "a");
}

#[test]
fn without_a_tab_there_is_an_error() {
    let error = launch::first_page_tab(vec![]).unwrap_err();
    assert_eq!(error, CdpError::NoTab);
    assert_eq!(error.message(), "no page tab found in browser");
}

#[test]
fn browser_arguments_and_addresses() {
    let args = launch::launch_arguments(launch::DEFAULT_PORT, "/tmp/profile");
    assert_eq!(
        args,
        vec![
            "--remote-debugging-port=9222",
            "--user-data-dir=/tmp/profile",
            "--no-first-run",
            "--no-default-browser-check",
            "--disable-default-apps",
            "about:blank",
        ],
    );
    assert_eq!(launch::endpoint(9222, "/json/list"), "http://localhost:9222/json/list");
    assert_eq!(
        launch::startup_timeout(9222).message(),
        "browser launch failed: browser did not start within 10 seconds on port 9222",
    );
}

#[test]
fn cdp_error_messages() {
    assert_eq!(CdpError::NoBrowser.message(), "no supported browser found (Chrome or Edge)");
    assert_eq!(CdpError::Connection("gone".to_owned()).message(), "connection error: gone");
    assert_eq!(CdpError::Protocol("odd".to_owned()).message(), "protocol error: odd");
    let failed = CdpError::CommandFailed { code: -32000, message: "not found".to_owned() };
    assert_eq!(failed.message(), "CDP command failed (-32000): not found");
}

#[test]
fn waiting_for_the_browser() {
    assert_eq!(launch::startup_next(true, true, 9222), launch::Startup::Ready);
    assert_eq!(launch::startup_next(true, false, 9222), launch::Startup::Ready);
    assert_eq!(launch::startup_next(false, true, 9222), launch::Startup::Poll);
    assert_eq!(
        launch::startup_next(false, false, 9222),
        launch::Startup::Failed(launch::startup_timeout(9222)),
    );
}

#[test]
fn found_chrome_comes_before_found_edge() {
    for platform in PLATFORMS {
        let candidates = discover::candidate_paths(platform, &no_dirs());
        // Leave out one candidate at a time, and all but the first and the last.
        for left_out in 0..=candidates.len() {
            let exists: Vec<bool> = (0..candidates.len())
                .map(|i| {
                    if left_out == candidates.len() {
                        i == 0 || i + 1 == candidates.len()
                    } else {
                        i != left_out
                    }
                })
                .collect();
            let found = discover::find_browsers(&candidates, &exists);
            let chromes = found.iter().filter(|b| b.kind == BrowserKind::Chrome).count();
            assert!(found[..chromes].iter().all(|b| b.kind == BrowserKind::Chrome));
            assert!(found[chromes..].iter().all(|b| b.kind == BrowserKind::Edge));
        }
    }
}
