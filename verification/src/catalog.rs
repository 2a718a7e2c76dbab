//! Which browsers are installed, and where.

use crate::effects::texts;
use crate::errors::{ErrorView, SessionError};
use vstd::prelude::*;

verus! {

/// An installed browser.
#[derive(Debug, PartialEq, Eq, Hash)]
pub struct BrowserConfig {
    /// `chrome`, `edge` or `arc`.
    pub id: String,
    /// The name to show.
    pub name: String,
    /// The executable.
    pub path: String,
}

/// The mathematical content of a [`BrowserConfig`].
pub struct BrowserView {
    pub id: Seq<char>,
    pub name: Seq<char>,
    pub path: Seq<char>,
}

impl View for BrowserConfig {
    type V = BrowserView;

    open spec fn view(&self) -> BrowserView {
        BrowserView { id: self.id@, name: self.name@, path: self.path@ }
    }
}

impl BrowserConfig {
    /// A copy of the entry.
    pub fn duplicate(&self) -> (copy: BrowserConfig)
        ensures
            copy@ == self@,
    {
        BrowserConfig { id: self.id.clone(), name: self.name.clone(), path: self.path.clone() }
    }
}

/// The views of a list of browsers.
pub open spec fn browsers(v: Seq<BrowserConfig>) -> Seq<BrowserView> {
    Seq::new(v.len(), |i: int| v[i]@)
}

/// The operating system whose install locations are looked at.
#[derive(Clone, Copy, Debug, PartialEq, Eq, Structural)]
pub enum Platform {
    Windows,
    MacOs,
    Linux,
    Other,
}

/// The directories under which Windows installs programs, as the environment
/// names them: `PROGRAMFILES`, `PROGRAMFILES(X86)` and `LOCALAPPDATA`. A
/// variable that is not set is `None`.
#[derive(Debug)]
pub struct InstallRoots {
    pub program_files: Option<String>,
    pub program_files_x86: Option<String>,
    pub local_app_data: Option<String>,
}

/// The mathematical content of [`InstallRoots`].
pub struct RootsView {
    pub program_files: Option<Seq<char>>,
    pub program_files_x86: Option<Seq<char>>,
    pub local_app_data: Option<Seq<char>>,
}

impl View for InstallRoots {
    type V = RootsView;

    open spec fn view(&self) -> RootsView {
        RootsView {
            program_files: match self.program_files {
                Some(s) => Some(s@),
                None => None,
            },
            program_files_x86: match self.program_files_x86 {
                Some(s) => Some(s@),
                None => None,
            },
            local_app_data: match self.local_app_data {
                Some(s) => Some(s@),
                None => None,
            },
        }
    }
}

/// A root directory, or its default where the environment names none.
pub open spec fn root_or(root: Option<Seq<char>>, default: Seq<char>) -> Seq<char> {
    match root {
        Some(r) => r,
        None => default,
    }
}

/// A candidate, as a view.
pub open spec fn candidate(id: Seq<char>, name: Seq<char>, path: Seq<char>) -> BrowserView {
    BrowserView { id, name, path }
}

/// The well-known install locations on Windows, in the order in which they
/// are tried.
pub open spec fn windows_candidates(roots: RootsView) -> Seq<BrowserView> {
    let files = root_or(roots.program_files, "C:\\Program Files"@);
    let files_x86 = root_or(roots.program_files_x86, "C:\\Program Files (x86)"@);
    let local = root_or(roots.local_app_data, ""@);
    seq![
        candidate("chrome"@, "Google Chrome"@, files + "\\Google\\Chrome\\Application\\chrome.exe"@),
        candidate(
            "chrome"@,
            "Google Chrome"@,
            files_x86 + "\\Google\\Chrome\\Application\\chrome.exe"@,
        ),
        candidate(
            "edge"@,
            "Microsoft Edge"@,
            files + "\\Microsoft\\Edge\\Application\\msedge.exe"@,
        ),
        candidate(
            "edge"@,
            "Microsoft Edge"@,
            files_x86 + "\\Microsoft\\Edge\\Application\\msedge.exe"@,
        ),
        candidate("arc"@, "Arc"@, local + "\\Arc\\Application\\Arc.exe"@),
        candidate("arc"@, "Arc"@, local + "\\Arc\\Arc.exe"@),
    ]
}

/// The well-known install locations on macOS.
pub open spec fn macos_candidates() -> Seq<BrowserView> {
    seq![
        candidate(
            "chrome"@,
            "Google Chrome"@,
            "/Applications/Google Chrome.app/Contents/MacOS/Google Chrome"@,
        ),
        candidate(
            "edge"@,
            "Microsoft Edge"@,
            "/Applications/Microsoft Edge.app/Contents/MacOS/Microsoft Edge"@,
        ),
        candidate("arc"@, "Arc"@, "/Applications/Arc.app/Contents/MacOS/Arc"@),
    ]
}

/// The well-known install locations on Linux.
pub open spec fn linux_candidates() -> Seq<BrowserView> {
    seq![
        candidate("chrome"@, "Google Chrome Stable"@, "/usr/bin/google-chrome-stable"@),
        candidate("chrome"@, "Google Chrome"@, "/usr/bin/google-chrome"@),
        candidate("edge"@, "Microsoft Edge"@, "/usr/bin/microsoft-edge"@),
        candidate("edge"@, "Microsoft Edge Stable"@, "/usr/bin/microsoft-edge-stable"@),
        candidate("edge"@, "Microsoft Edge Beta"@, "/usr/bin/microsoft-edge-beta"@),
        candidate("edge"@, "Microsoft Edge Dev"@, "/usr/bin/microsoft-edge-dev"@),
        candidate("arc"@, "Arc"@, "/usr/bin/arc"@),
        candidate("arc"@, "Arc"@, "/usr/local/bin/arc"@),
        candidate("arc"@, "Arc"@, "/opt/arc/arc"@),
    ]
}

/// The well-known install locations of a platform. Elsewhere there are none.
pub open spec fn candidates(platform: Platform, roots: RootsView) -> Seq<BrowserView> {
    match platform {
        Platform::Windows => windows_candidates(roots),
        Platform::MacOs => macos_candidates(),
        Platform::Linux => linux_candidates(),
        Platform::Other => Seq::<BrowserView>::empty(),
    }
}

/// Some entry of `found` has this id.
pub open spec fn has_id(found: Seq<BrowserView>, id: Seq<char>) -> bool {
    exists|i: int| 0 <= i < found.len() && (#[trigger] found[i]).id == id
}

/// Some entry of `found` has this path.
pub open spec fn has_path(found: Seq<BrowserView>, path: Seq<char>) -> bool {
    exists|i: int| 0 <= i < found.len() && (#[trigger] found[i]).path == path
}

/// The installed browsers: going through the candidates in order, each one
/// whose path is installed is taken, unless a browser with its id or with its
/// path was taken before.
pub open spec fn detected(candidates: Seq<BrowserView>, installed: Seq<Seq<char>>) -> Seq<
    BrowserView,
>
    decreases candidates.len(),
{
    if candidates.len() == 0 {
        Seq::<BrowserView>::empty()
    } else {
        let before = detected(candidates.drop_last(), installed);
        let c = candidates.last();
        if installed.contains(c.path) && !has_id(before, c.id) && !has_path(before, c.path) {
            before.push(c)
        } else {
            before
        }
    }
}

fn entry(id: &str, name: &str, path: String) -> (e: BrowserConfig)
    ensures
        e@ == candidate(id@, name@, path@),
{
    BrowserConfig { id: String::from_str(id), name: String::from_str(name), path }
}

fn under(root: &Option<String>, default: &str, rest: &str) -> (path: String)
    ensures
        path@ == root_or(
            match *root {
                Some(r) => Some(r@),
                None => None,
            },
            default@,
        ) + rest@,
{
    let mut path = match root {
        Some(r) => r.clone(),
        None => String::from_str(default),
    };
    path.append(rest);
    path
}

fn windows_list(roots: &InstallRoots) -> (list: Vec<BrowserConfig>)
    ensures
        browsers(list@) == windows_candidates(roots@),
{
    let files = "C:\\Program Files";
    let files_x86 = "C:\\Program Files (x86)";
    let chrome = "\\Google\\Chrome\\Application\\chrome.exe";
    let edge = "\\Microsoft\\Edge\\Application\\msedge.exe";
    let mut list: Vec<BrowserConfig> = Vec::new();
    list.push(entry("chrome", "Google Chrome", under(&roots.program_files, files, chrome)));
    list.push(entry("chrome", "Google Chrome", under(&roots.program_files_x86, files_x86, chrome)));
    list.push(entry("edge", "Microsoft Edge", under(&roots.program_files, files, edge)));
    list.push(entry("edge", "Microsoft Edge", under(&roots.program_files_x86, files_x86, edge)));
    list.push(entry("arc", "Arc", under(&roots.local_app_data, "", "\\Arc\\Application\\Arc.exe")));
    list.push(entry("arc", "Arc", under(&roots.local_app_data, "", "\\Arc\\Arc.exe")));
    assert(browsers(list@) =~= windows_candidates(roots@));
    list
}

fn macos_list() -> (list: Vec<BrowserConfig>)
    ensures
        browsers(list@) == macos_candidates(),
{
    let mut list: Vec<BrowserConfig> = Vec::new();
    list.push(
        entry(
            "chrome",
            "Google Chrome",
            String::from_str("/Applications/Google Chrome.app/Contents/MacOS/Google Chrome"),
        ),
    );
    list.push(
        entry(
            "edge",
            "Microsoft Edge",
            String::from_str("/Applications/Microsoft Edge.app/Contents/MacOS/Microsoft Edge"),
        ),
    );
    list.push(entry("arc", "Arc", String::from_str("/Applications/Arc.app/Contents/MacOS/Arc")));
    assert(browsers(list@) =~= macos_candidates());
    list
}

fn linux_list() -> (list: Vec<BrowserConfig>)
    ensures
        browsers(list@) == linux_candidates(),
{
    let mut list: Vec<BrowserConfig> = Vec::new();
    list.push(
        entry("chrome", "Google Chrome Stable", String::from_str("/usr/bin/google-chrome-stable")),
    );
    list.push(entry("chrome", "Google Chrome", String::from_str("/usr/bin/google-chrome")));
    list.push(entry("edge", "Microsoft Edge", String::from_str("/usr/bin/microsoft-edge")));
    list.push(
        entry("edge", "Microsoft Edge Stable", String::from_str("/usr/bin/microsoft-edge-stable")),
    );
    list.push(
        entry("edge", "Microsoft Edge Beta", String::from_str("/usr/bin/microsoft-edge-beta")),
    );
    list.push(entry("edge", "Microsoft Edge Dev", String::from_str("/usr/bin/microsoft-edge-dev")));
    list.push(entry("arc", "Arc", String::from_str("/usr/bin/arc")));
    list.push(entry("arc", "Arc", String::from_str("/usr/local/bin/arc")));
    list.push(entry("arc", "Arc", String::from_str("/opt/arc/arc")));
    assert(browsers(list@) =~= linux_candidates());
    list
}

/// The well-known install locations of a platform, in the order in which
/// they are tried. `roots` matters on Windows only.
pub fn browser_candidates(platform: Platform, roots: &InstallRoots) -> (list: Vec<BrowserConfig>)
    ensures
        browsers(list@) == candidates(platform, roots@),
{
    match platform {
        Platform::Windows => windows_list(roots),
        Platform::MacOs => macos_list(),
        Platform::Linux => linux_list(),
        Platform::Other => {
            let list: Vec<BrowserConfig> = Vec::new();
            assert(browsers(list@) =~= Seq::<BrowserView>::empty());
            list
        },
    }
}

/// The paths of a list of browsers, in order.
pub open spec fn paths_of(list: Seq<BrowserView>) -> Seq<Seq<char>> {
    Seq::new(list.len(), |i: int| list[i].path)
}

/// The paths of the candidates: what has to be looked for on disk.
pub fn candidate_paths(candidates: &Vec<BrowserConfig>) -> (paths: Vec<String>)
    ensures
        texts(paths@) == paths_of(browsers(candidates@)),
{
    let mut paths: Vec<String> = Vec::new();
    let mut i: usize = 0;
    while i < candidates.len()
        invariant
            i <= candidates.len(),
            paths.len() == i,
            forall|j: int| 0 <= j < i ==> paths@[j]@ == candidates@[j].path@,
        decreases candidates.len() - i,
    {
        paths.push(candidates[i].path.clone());
        i += 1;
    }
    assert(texts(paths@) =~= paths_of(browsers(candidates@)));
    paths
}

/// Whether `path` is among `installed`.
pub fn is_installed(installed: &Vec<String>, path: &String) -> (r: bool)
    ensures
        r == texts(installed@).contains(path@),
{
    let mut i: usize = 0;
    while i < installed.len()
        invariant
            i <= installed.len(),
            forall|j: int| 0 <= j < i ==> texts(installed@)[j] != path@,
        decreases installed.len() - i,
    {
        if installed[i] == *path {
            assert(texts(installed@)[i as int] == path@);
            return true;
        }
        i += 1;
    }
    false
}

fn taken(found: &Vec<BrowserConfig>, c: &BrowserConfig) -> (r: bool)
    ensures
        r == (has_id(browsers(found@), c@.id) || has_path(browsers(found@), c@.path)),
{
    let mut i: usize = 0;
    while i < found.len()
        invariant
            i <= found.len(),
            forall|j: int|
                0 <= j < i ==> (#[trigger] browsers(found@)[j]).id != c@.id && browsers(
                    found@,
                )[j].path != c@.path,
        decreases found.len() - i,
    {
        if found[i].id == c.id || found[i].path == c.path {
            assert(browsers(found@)[i as int] == found@[i as int]@);
            return true;
        }
        i += 1;
    }
    false
}

/// The installed browsers among the candidates.
///
/// `installed` holds the candidate paths that are regular files. Of each
/// browser id the first installed candidate is reported; no path is reported
/// twice. With nothing installed the list is empty, which is no failure here.
pub fn detect_browsers(candidates: &Vec<BrowserConfig>, installed: &Vec<String>) -> (found: Vec<
    BrowserConfig,
>)
    ensures
        browsers(found@) == detected(browsers(candidates@), texts(installed@)),
{
    let mut found: Vec<BrowserConfig> = Vec::new();
    let mut i: usize = 0;
    assert(browsers(candidates@).take(0) =~= Seq::<BrowserView>::empty());
    assert(browsers(found@) =~= Seq::<BrowserView>::empty());
    while i < candidates.len()
        invariant
            i <= candidates.len(),
            browsers(found@) == detected(browsers(candidates@).take(i as int), texts(installed@)),
        decreases candidates.len() - i,
    {
        let c = &candidates[i];
        let ghost before = browsers(found@);
        proof {
            let upto = browsers(candidates@).take(i + 1);
            assert(upto.drop_last() =~= browsers(candidates@).take(i as int));
            assert(upto.last() == c@);
        }
        if is_installed(installed, &c.path) && !taken(&found, c) {
            found.push(c.duplicate());
            assert(browsers(found@) =~= before.push(c@));
        }
        i += 1;
    }
    assert(browsers(candidates@).take(candidates.len() as int) =~= browsers(candidates@));
    found
}

/// The installed browsers, or `NoBrowserFound` where there is none.
pub fn fetch_available_browsers(candidates: &Vec<BrowserConfig>, installed: &Vec<String>) -> (r:
    Result<Vec<BrowserConfig>, SessionError>)
    ensures
        match r {
            Ok(found) => browsers(found@) == detected(browsers(candidates@), texts(installed@))
                && found.len() > 0,
            Err(e) => detected(browsers(candidates@), texts(installed@)).len() == 0 && e@
                == ErrorView::NoBrowserFound,
        },
{
    let found = detect_browsers(candidates, installed);
    if found.len() == 0 {
        Err(SessionError::NoBrowserFound)
    } else {
        Ok(found)
    }
}

/// The browser with this path, if it is in the list.
pub open spec fn with_path(list: Seq<BrowserView>, path: Seq<char>) -> Option<BrowserView>
    decreases list.len(),
{
    if list.len() == 0 {
        None
    } else if list[0].path == path {
        Some(list[0])
    } else {
        with_path(list.skip(1), path)
    }
}

/// The first browser of the list that has this path.
pub fn find_by_path<'a>(list: &'a Vec<BrowserConfig>, path: &str) -> (r: Option<&'a BrowserConfig>)
    ensures
        match r {
            Some(b) => with_path(browsers(list@), path@) == Some(b@),
            None => with_path(browsers(list@), path@) is None,
        },
{
    let wanted = String::from_str(path);
    let mut i: usize = 0;
    assert(browsers(list@).skip(0) =~= browsers(list@));
    while i < list.len()
        invariant
            i <= list.len(),
            wanted@ == path@,
            with_path(browsers(list@), path@) == with_path(browsers(list@).skip(i as int), path@),
        decreases list.len() - i,
    {
        let ghost rest = browsers(list@).skip(i as int);
        assert(rest[0] == list@[i as int]@);
        if list[i].path == wanted {
            return Some(&list[i]);
        }
        assert(rest.skip(1) =~= browsers(list@).skip(i + 1));
        i += 1;
    }
    None
}

/// Every detected browser is one of the candidates, and its path is
/// installed.
pub proof fn lemma_detected_are_installed_candidates(
    candidates: Seq<BrowserView>,
    installed: Seq<Seq<char>>,
    i: int,
)
    requires
        0 <= i < detected(candidates, installed).len(),
    ensures
        candidates.contains(detected(candidates, installed)[i]),
        installed.contains(detected(candidates, installed)[i].path),
    decreases candidates.len(),
{
    let earlier = candidates.drop_last();
    let before = detected(earlier, installed);
    if i < before.len() {
        lemma_detected_are_installed_candidates(earlier, installed, i);
        let j = choose|j: int| 0 <= j < earlier.len() && earlier[j] == before[i];
        assert(candidates[j] == before[i]);
    } else {
        assert(candidates[candidates.len() - 1] == candidates.last());
    }
}

/// No two detected browsers share an id, and no two share a path.
pub proof fn lemma_detected_are_unique(
    candidates: Seq<BrowserView>,
    installed: Seq<Seq<char>>,
    i: int,
    j: int,
)
    requires
        0 <= i < j < detected(candidates, installed).len(),
    ensures
        detected(candidates, installed)[i].id != detected(candidates, installed)[j].id,
        detected(candidates, installed)[i].path != detected(candidates, installed)[j].path,
    decreases candidates.len(),
{
    let earlier = candidates.drop_last();
    let before = detected(earlier, installed);
    if j < before.len() {
        lemma_detected_are_unique(earlier, installed, i, j);
    } else {
        let c = candidates.last();
        assert(!has_id(before, c.id));
        assert(!has_path(before, c.path));
        assert(before[i].id != c.id);
        assert(before[i].path != c.path);
    }
}

/// What is detected among the first `k` candidates stays detected, in the
/// same place, when the others are looked at too.
pub proof fn lemma_detected_only_grows(
    candidates: Seq<BrowserView>,
    installed: Seq<Seq<char>>,
    k: int,
)
    requires
        0 <= k <= candidates.len(),
    ensures
        detected(candidates.take(k), installed).is_prefix_of(detected(candidates, installed)),
    decreases candidates.len() - k,
{
    if k == candidates.len() {
        assert(candidates.take(k) =~= candidates);
    } else {
        lemma_detected_only_grows(candidates, installed, k + 1);
        assert(candidates.take(k + 1).drop_last() =~= candidates.take(k));
    }
}

/// Of each browser the first installed candidate is reported: a candidate
/// whose path is installed is detected if no installed candidate before it
/// has its id or its path.
pub proof fn lemma_first_installed_is_detected(
    candidates: Seq<BrowserView>,
    installed: Seq<Seq<char>>,
    i: int,
)
    requires
        0 <= i < candidates.len(),
        installed.contains(candidates[i].path),
        forall|j: int|
            0 <= j < i && installed.contains((#[trigger] candidates[j]).path) ==> candidates[j].id
                != candidates[i].id && candidates[j].path != candidates[i].path,
    ensures
        detected(candidates, installed).contains(candidates[i]),
{
    let upto = candidates.take(i + 1);
    let earlier = candidates.take(i);
    let before = detected(earlier, installed);
    let c = candidates[i];
    assert(upto.drop_last() =~= earlier);
    assert(upto.last() == c);
    assert forall|n: int| 0 <= n < before.len() implies (#[trigger] before[n]).id != c.id
        && before[n].path != c.path by {
        lemma_detected_are_installed_candidates(earlier, installed, n);
        let j = choose|j: int| 0 <= j < earlier.len() && earlier[j] == before[n];
        assert(candidates[j] == before[n]);
    }
    assert(!has_id(before, c.id));
    assert(!has_path(before, c.path));
    assert(detected(upto, installed) == before.push(c));
    lemma_detected_only_grows(candidates, installed, i + 1);
    let all = detected(candidates, installed);
    assert(all[before.len() as int] == detected(upto, installed)[before.len() as int]);
    assert(all[before.len() as int] == c);
}

/// With nothing installed nothing is detected.
pub proof fn lemma_nothing_installed_nothing_detected(candidates: Seq<BrowserView>)
    ensures
        detected(candidates, Seq::<Seq<char>>::empty()).len() == 0,
    decreases candidates.len(),
{
    if candidates.len() > 0 {
        lemma_nothing_installed_nothing_detected(candidates.drop_last());
    }
}

} // verus!
