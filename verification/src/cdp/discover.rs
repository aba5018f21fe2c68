//! Browser binary discovery across platforms.
use vstd::prelude::*;
use crate::text;

verus! {

/// A browser we can control via CDP.
#[derive(Debug, Clone, Copy, PartialEq, Eq, Structural)]
pub enum BrowserKind {
    Chrome,
    Edge,
}

impl BrowserKind {
    /// Human-readable name.
    pub fn name(self) -> (name: &'static str)
        ensures
            name@ == match self {
                BrowserKind::Chrome => "Google Chrome"@,
                BrowserKind::Edge => "Microsoft Edge"@,
            },
    {
        match self {
            BrowserKind::Chrome => "Google Chrome",
            BrowserKind::Edge => "Microsoft Edge",
        }
    }
}

/// A discovered browser installation.
#[derive(Debug, PartialEq)]
pub struct BrowserBinary {
    pub kind: BrowserKind,
    pub path: String,
}

/// The contents of a [`BrowserBinary`].
#[verifier::ext_equal]
pub struct BrowserBinaryView {
    pub kind: BrowserKind,
    pub path: Seq<char>,
}

impl View for BrowserBinary {
    type V = BrowserBinaryView;

    open spec fn view(&self) -> BrowserBinaryView {
        BrowserBinaryView { kind: self.kind, path: self.path@ }
    }
}

impl DeepView for BrowserBinary {
    type V = BrowserBinaryView;

    open spec fn deep_view(&self) -> BrowserBinaryView {
        self@
    }
}

impl Clone for BrowserBinary {
    fn clone(&self) -> (copy: Self)
        ensures
            copy@ == self@,
    {
        BrowserBinary { kind: self.kind, path: self.path.clone() }
    }
}

/// The operating systems on which browsers are looked for.
#[derive(Debug, Clone, Copy, PartialEq, Eq, Structural)]
pub enum Platform {
    Macos,
    Linux,
    Windows,
}

/// The directories on Windows that programs are installed in, where the
/// environment names them.
#[derive(Debug)]
pub struct WindowsDirs {
    /// `PROGRAMFILES`
    pub program_files: Option<String>,
    /// `PROGRAMFILES(X86)`
    pub program_files_x86: Option<String>,
    /// `LOCALAPPDATA`
    pub local_app_data: Option<String>,
}

/// The candidates among `candidates` that exist, in order.
pub open spec fn existing(
    candidates: Seq<BrowserBinaryView>,
    exists_: Seq<bool>,
) -> Seq<BrowserBinaryView>
    decreases candidates.len(),
{
    if candidates.len() == 0 {
        seq![]
    } else {
        let rest = existing(candidates.drop_last(), exists_);
        if exists_[candidates.len() - 1] {
            rest.push(candidates.last())
        } else {
            rest
        }
    }
}

/// Search order: Chrome first, then Edge.
/// Returns all candidates that exist on the filesystem, where `exists[i]` says
/// whether candidate `i` does.
pub fn find_browsers(candidates: &Vec<BrowserBinary>, exists: &Vec<bool>) -> (found: Vec<
    BrowserBinary,
>)
    requires
        candidates@.len() == exists@.len(),
    ensures
        found.deep_view() == existing(candidates.deep_view(), exists@),
{
    let mut found: Vec<BrowserBinary> = Vec::new();
    let ghost all = candidates.deep_view();
    let mut i: usize = 0;
    assert(found.deep_view() =~= existing(all.take(0), exists@));
    while i < candidates.len()
        invariant
            i <= candidates.len(),
            candidates@.len() == exists@.len(),
            all == candidates.deep_view(),
            found.deep_view() == existing(all.take(i as int), exists@),
        decreases candidates.len() - i,
    {
        let ghost before = found.deep_view();
        assert(all.take(i + 1).drop_last() =~= all.take(i as int));
        if exists[i] {
            found.push(candidates[i].clone());
            assert(found.deep_view() =~= before.push(all[i as int]));
        }
        i = i + 1;
    }
    assert(all.take(all.len() as int) =~= all);
    found
}

/// Find the first available browser.
pub fn find_browser(candidates: &Vec<BrowserBinary>, exists: &Vec<bool>) -> (found: Option<
    BrowserBinary,
>)
    requires
        candidates@.len() == exists@.len(),
    ensures
        found.deep_view() == if existing(candidates.deep_view(), exists@).len() > 0 {
            Some(existing(candidates.deep_view(), exists@)[0])
        } else {
            None
        },
{
    let mut found = find_browsers(candidates, exists);
    if found.len() == 0 {
        None
    } else {
        let ghost all = found.deep_view();
        let first = found.remove(0);
        assert(first@ == all[0]);
        Some(first)
    }
}

/// The candidate paths of a platform.
pub open spec fn candidates(platform: Platform, dirs: WindowsDirs) -> Seq<BrowserBinaryView> {
    match platform {
        Platform::Macos => macos_paths(),
        Platform::Linux => linux_paths(),
        Platform::Windows => windows_paths(
            named_or(dirs.program_files.deep_view(), "C:\\Program Files"@),
            named_or(dirs.program_files_x86.deep_view(), "C:\\Program Files (x86)"@),
            named_or(dirs.local_app_data.deep_view(), "C:\\Users\\Default\\AppData\\Local"@),
        ),
    }
}

/// A name from the environment, or a default.
pub open spec fn named_or(name: Option<Seq<char>>, default: Seq<char>) -> Seq<char> {
    match name {
        Some(name) => name,
        None => default,
    }
}

/// A Chrome binary.
pub open spec fn chrome(path: Seq<char>) -> BrowserBinaryView {
    BrowserBinaryView { kind: BrowserKind::Chrome, path }
}

/// An Edge binary.
pub open spec fn edge(path: Seq<char>) -> BrowserBinaryView {
    BrowserBinaryView { kind: BrowserKind::Edge, path }
}

/// The candidate paths on macOS.
pub open spec fn macos_paths() -> Seq<BrowserBinaryView> {
    seq![
        chrome("/Applications/Google Chrome.app/Contents/MacOS/Google Chrome"@),
        edge("/Applications/Microsoft Edge.app/Contents/MacOS/Microsoft Edge"@),
    ]
}

/// The candidate paths on Linux.
pub open spec fn linux_paths() -> Seq<BrowserBinaryView> {
    seq![
        chrome("google-chrome"@),
        chrome("google-chrome-stable"@),
        chrome("/usr/bin/google-chrome"@),
        chrome("/usr/bin/google-chrome-stable"@),
        chrome("chromium"@),
        chrome("chromium-browser"@),
        edge("microsoft-edge"@),
        edge("microsoft-edge-stable"@),
        edge("/usr/bin/microsoft-edge"@),
    ]
}

/// The candidate paths on Windows, given the program directories.
pub open spec fn windows_paths(
    program_files: Seq<char>,
    program_files_x86: Seq<char>,
    local_app_data: Seq<char>,
) -> Seq<BrowserBinaryView> {
    seq![
        chrome(program_files + "\\Google\\Chrome\\Application\\chrome.exe"@),
        chrome(program_files_x86 + "\\Google\\Chrome\\Application\\chrome.exe"@),
        chrome(local_app_data + "\\Google\\Chrome\\Application\\chrome.exe"@),
        edge(program_files + "\\Microsoft\\Edge\\Application\\msedge.exe"@),
        edge(program_files_x86 + "\\Microsoft\\Edge\\Application\\msedge.exe"@),
    ]
}

/// Platform-specific candidate paths.
/// Chrome paths come first so Chrome is preferred over Edge.
pub fn candidate_paths(platform: Platform, dirs: &WindowsDirs) -> (paths: Vec<BrowserBinary>)
    ensures
        paths.deep_view() == candidates(platform, *dirs),
{
    match platform {
        Platform::Macos => macos_candidates(),
        Platform::Linux => linux_candidates(),
        Platform::Windows => windows_candidates(dirs),
    }
}

/// The candidate binaries of a kind at the given path.
fn binary(kind: BrowserKind, path: &str) -> (binary: BrowserBinary)
    ensures
        binary@ == (BrowserBinaryView { kind, path: path@ }),
{
    BrowserBinary { kind, path: path.to_owned() }
}

/// The candidates on macOS.
pub fn macos_candidates() -> (paths: Vec<BrowserBinary>)
    ensures
        paths.deep_view() == macos_paths(),
{
    let mut paths: Vec<BrowserBinary> = Vec::new();
    paths.push(
        binary(BrowserKind::Chrome, "/Applications/Google Chrome.app/Contents/MacOS/Google Chrome"),
    );
    paths.push(
        binary(BrowserKind::Edge, "/Applications/Microsoft Edge.app/Contents/MacOS/Microsoft Edge"),
    );
    assert(paths.deep_view() =~= macos_paths());
    paths
}

/// The candidates on Linux.
pub fn linux_candidates() -> (paths: Vec<BrowserBinary>)
    ensures
        paths.deep_view() == linux_paths(),
{
    let mut paths: Vec<BrowserBinary> = Vec::new();
    paths.push(binary(BrowserKind::Chrome, "google-chrome"));
    paths.push(binary(BrowserKind::Chrome, "google-chrome-stable"));
    paths.push(binary(BrowserKind::Chrome, "/usr/bin/google-chrome"));
    paths.push(binary(BrowserKind::Chrome, "/usr/bin/google-chrome-stable"));
    paths.push(binary(BrowserKind::Chrome, "chromium"));
    paths.push(binary(BrowserKind::Chrome, "chromium-browser"));
    paths.push(binary(BrowserKind::Edge, "microsoft-edge"));
    paths.push(binary(BrowserKind::Edge, "microsoft-edge-stable"));
    paths.push(binary(BrowserKind::Edge, "/usr/bin/microsoft-edge"));
    assert(paths.deep_view() =~= linux_paths());
    paths
}

/// A directory from the environment, or a default.
fn directory(named: &Option<String>, default: &str) -> (directory: String)
    ensures
        directory@ == named_or(named.deep_view(), default@),
{
    match named {
        Some(name) => name.clone(),
        None => default.to_owned(),
    }
}

/// The candidates on Windows.
pub fn windows_candidates(dirs: &WindowsDirs) -> (paths: Vec<BrowserBinary>)
    ensures
        paths.deep_view() == candidates(Platform::Windows, *dirs),
{
    let program_files = directory(&dirs.program_files, "C:\\Program Files");
    let program_files_x86 = directory(&dirs.program_files_x86, "C:\\Program Files (x86)");
    let local_app_data = directory(&dirs.local_app_data, "C:\\Users\\Default\\AppData\\Local");
    let chrome = "\\Google\\Chrome\\Application\\chrome.exe";
    let edge = "\\Microsoft\\Edge\\Application\\msedge.exe";
    let mut paths: Vec<BrowserBinary> = Vec::new();
    paths.push(binary(BrowserKind::Chrome, &text::joined(&program_files, chrome)));
    paths.push(binary(BrowserKind::Chrome, &text::joined(&program_files_x86, chrome)));
    paths.push(binary(BrowserKind::Chrome, &text::joined(&local_app_data, chrome)));
    paths.push(binary(BrowserKind::Edge, &text::joined(&program_files, edge)));
    paths.push(binary(BrowserKind::Edge, &text::joined(&program_files_x86, edge)));
    assert(paths.deep_view() =~= windows_paths(program_files@, program_files_x86@, local_app_data@));
    paths
}

/// On every platform there are candidates, the first of them is a Chrome one, and
/// every Chrome candidate comes before every Edge candidate.
pub proof fn law_chrome_before_edge(platform: Platform, dirs: WindowsDirs)
    ensures
        candidates(platform, dirs).len() > 0,
        candidates(platform, dirs)[0].kind == BrowserKind::Chrome,
        chrome_first(candidates(platform, dirs)),
{
}

/// Every Chrome binary comes before every Edge binary.
pub open spec fn chrome_first(binaries: Seq<BrowserBinaryView>) -> bool {
    forall|i: int, j: int|
        {
            &&& 0 <= i < binaries.len()
            &&& 0 <= j < binaries.len()
            &&& (#[trigger] binaries[i]).kind == BrowserKind::Chrome
            &&& (#[trigger] binaries[j]).kind == BrowserKind::Edge
        } ==> i < j
}

/// Chrome is preferred among the browsers that are there: of those found on a
/// platform, every Chrome comes before every Edge, and the first one is a Chrome
/// if any of them is.
pub proof fn law_found_chrome_before_edge(
    platform: Platform,
    dirs: WindowsDirs,
    exists_: Seq<bool>,
)
    ensures
        chrome_first(existing(candidates(platform, dirs), exists_)),
        forall|i: int|
            0 <= i < existing(candidates(platform, dirs), exists_).len() && (#[trigger] existing(
                candidates(platform, dirs),
                exists_,
            )[i]).kind == BrowserKind::Chrome ==> existing(
                candidates(platform, dirs),
                exists_,
            )[0].kind == BrowserKind::Chrome,
{
    law_chrome_before_edge(platform, dirs);
    lemma_existing_chrome_first(candidates(platform, dirs), exists_);
}

/// What exists is among the candidates.
proof fn lemma_existing_among(all: Seq<BrowserBinaryView>, exists_: Seq<bool>, i: int)
    requires
        0 <= i < existing(all, exists_).len(),
    ensures
        exists|k: int| 0 <= k < all.len() && #[trigger] all[k] == existing(all, exists_)[i],
    decreases all.len(),
{
    let rest = existing(all.drop_last(), exists_);
    if i < rest.len() {
        lemma_existing_among(all.drop_last(), exists_, i);
        let k = choose|k: int|
            0 <= k < all.drop_last().len() && #[trigger] all.drop_last()[k] == rest[i];
        assert(all[k] == rest[i]);
    } else {
        assert(all[all.len() - 1] == existing(all, exists_)[i]);
    }
}

/// Leaving out candidates keeps their order.
proof fn lemma_existing_chrome_first(all: Seq<BrowserBinaryView>, exists_: Seq<bool>)
    requires
        chrome_first(all),
    ensures
        chrome_first(existing(all, exists_)),
    decreases all.len(),
{
    if all.len() > 0 {
        let rest = existing(all.drop_last(), exists_);
        let found = existing(all, exists_);
        assert(chrome_first(all.drop_last())) by {
            assert forall|i: int, j: int|
                {
                    &&& 0 <= i < all.drop_last().len()
                    &&& 0 <= j < all.drop_last().len()
                    &&& (#[trigger] all.drop_last()[i]).kind == BrowserKind::Chrome
                    &&& (#[trigger] all.drop_last()[j]).kind == BrowserKind::Edge
                } implies i < j by {
                assert(all[i].kind == BrowserKind::Chrome);
                assert(all[j].kind == BrowserKind::Edge);
            }
        }
        lemma_existing_chrome_first(all.drop_last(), exists_);
        assert forall|i: int, j: int|
            {
                &&& 0 <= i < found.len()
                &&& 0 <= j < found.len()
                &&& (#[trigger] found[i]).kind == BrowserKind::Chrome
                &&& (#[trigger] found[j]).kind == BrowserKind::Edge
            } implies i < j by {
            if i < rest.len() && j < rest.len() {
                assert(rest[i] == found[i] && rest[j] == found[j]);
            } else if i == rest.len() {
                // The last candidate is a Chrome, so there is no Edge before it.
                lemma_existing_among(all.drop_last(), exists_, j);
                let k = choose|k: int|
                    0 <= k < all.drop_last().len() && #[trigger] all.drop_last()[k] == rest[j];
                assert(all[k].kind == BrowserKind::Edge);
                assert(all[all.len() - 1].kind == BrowserKind::Chrome);
            }
        }
    }
}

/// A candidate is found exactly when it exists.
pub proof fn law_found_exactly_what_exists(
    all: Seq<BrowserBinaryView>,
    exists_: Seq<bool>,
    binary: BrowserBinaryView,
)
    requires
        all.len() == exists_.len(),
    ensures
        existing(all, exists_).contains(binary) <==> exists|k: int|
            0 <= k < all.len() && #[trigger] all[k] == binary && exists_[k],
{
    lemma_found_exactly(all, exists_, binary);
}

/// A candidate is found among the first ones exactly when it exists.
proof fn lemma_found_exactly(
    all: Seq<BrowserBinaryView>,
    exists_: Seq<bool>,
    binary: BrowserBinaryView,
)
    requires
        all.len() <= exists_.len(),
    ensures
        existing(all, exists_).contains(binary) <==> exists|k: int|
            0 <= k < all.len() && #[trigger] all[k] == binary && exists_[k],
    decreases all.len(),
{
    if all.len() > 0 {
        let rest = all.drop_last();
        let found = existing(rest, exists_);
        let last = all.len() - 1;
        lemma_found_exactly(rest, exists_, binary);
        if existing(all, exists_).contains(binary) {
            let i = choose|i: int|
                0 <= i < existing(all, exists_).len() && existing(all, exists_)[i] == binary;
            if i < found.len() {
                assert(found[i] == binary);
                let k = choose|k: int|
                    0 <= k < rest.len() && #[trigger] rest[k] == binary && exists_[k];
                assert(all[k] == binary);
            } else {
                assert(all[last] == binary);
            }
        }
        if exists|k: int| 0 <= k < all.len() && #[trigger] all[k] == binary && exists_[k] {
            let k = choose|k: int|
                0 <= k < all.len() && #[trigger] all[k] == binary && exists_[k];
            if k < last {
                assert(rest[k] == binary);
                let i = choose|i: int| 0 <= i < found.len() && found[i] == binary;
                assert(existing(all, exists_)[i] == binary);
            } else {
                assert(existing(all, exists_)[found.len() as int] == binary);
            }
        }
    }
}

/// The first browser found is the first candidate that exists.
pub proof fn law_first_existing_is_found_first(
    all: Seq<BrowserBinaryView>,
    exists_: Seq<bool>,
    k: int,
)
    requires
        0 <= k < all.len() <= exists_.len(),
        exists_[k],
        forall|j: int| 0 <= j < k ==> !#[trigger] exists_[j],
    ensures
        existing(all, exists_).len() > 0,
        existing(all, exists_)[0] == all[k],
    decreases all.len(),
{
    let rest = all.drop_last();
    if k < rest.len() {
        law_first_existing_is_found_first(rest, exists_, k);
    } else {
        lemma_none_exists(rest, exists_);
    }
}

/// Where none of the candidates exists none is found.
proof fn lemma_none_exists(all: Seq<BrowserBinaryView>, exists_: Seq<bool>)
    requires
        forall|j: int| 0 <= j < all.len() ==> !#[trigger] exists_[j],
    ensures
        existing(all, exists_).len() == 0,
    decreases all.len(),
{
    if all.len() > 0 {
        lemma_none_exists(all.drop_last(), exists_);
    }
}

/// On Windows browsers are looked for in the directories that the environment names,
/// each in its own, Chrome in all three and Edge in the first two.
pub proof fn law_named_directories_are_used(dirs: WindowsDirs)
    requires
        dirs.program_files is Some,
        dirs.program_files_x86 is Some,
        dirs.local_app_data is Some,
    ensures
        ({
            let found = candidates(Platform::Windows, dirs);
            let first = dirs.program_files->0@;
            let second = dirs.program_files_x86->0@;
            let third = dirs.local_app_data->0@;
            &&& found.len() == 5
            &&& first.is_prefix_of(found[0].path) && found[0].kind == BrowserKind::Chrome
            &&& second.is_prefix_of(found[1].path) && found[1].kind == BrowserKind::Chrome
            &&& third.is_prefix_of(found[2].path) && found[2].kind == BrowserKind::Chrome
            &&& first.is_prefix_of(found[3].path) && found[3].kind == BrowserKind::Edge
            &&& second.is_prefix_of(found[4].path) && found[4].kind == BrowserKind::Edge
        }),
{
}

} // verus!
