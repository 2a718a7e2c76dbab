//! Starting a browser with remote debugging switched on.

use crate::catalog::Platform;
use crate::discovery::{
    duplicate_url, effect_view, finished_view, get_browser_websocket_url, url_view, LookupPhase,
    LookupPhaseView, UrlLookup, UrlLookupView,
};
use crate::effects::{
    clone_texts, texts, ChildStatus, Effect, EffectView, FetchResult, FetchView, Outcome,
    OutcomeView,
};
use crate::errors::{ErrorView, SessionError};
use crate::probe::{new_page_address, new_page_url, version_address, version_url};
use crate::session::{ManageableBrowserInstance, SessionStore, SessionView};
use crate::text::{
    contains, decimal, ends_with, lowercase, push_decimal, str_contains, str_ends_with,
    to_lowercase,
};
use vstd::prelude::*;

verus! {

/// The milliseconds that a new process is given before it is looked at.
pub const GRACE_MS: u64 = 2000;

/// The seconds after which the reachability check is given up.
pub const REACH_TIMEOUT_SECS: u64 = 5;

/// The attempts to get the websocket of a new browser.
pub const LAUNCH_RETRIES: u32 = 20;

/// The milliseconds between those attempts.
pub const LAUNCH_DELAY_MS: u64 = 500;

/// The seconds after which the request for a first page is given up.
pub const PAGE_TIMEOUT_SECS: u64 = 10;

/// The origins that the browser is told to accept debugging connections
/// from. They are those that the controlling application is served from: its
/// development server in a development build, else the scheme that the
/// platform's web view uses.
pub open spec fn allowed_origins(is_dev: bool, platform: Platform) -> Seq<char> {
    if is_dev {
        "http://localhost:1420,http://127.0.0.1:1420"@
    } else {
        match platform {
            Platform::Windows => "http://tauri.localhost,https://tauri.localhost"@,
            Platform::MacOs | Platform::Linux => "tauri://localhost,https://tauri.localhost"@,
            Platform::Other => "tauri://localhost"@,
        }
    }
}

/// The origins that the browser is told to accept.
pub fn get_allowed_origins(is_dev: bool, platform: Platform) -> (origins: String)
    ensures
        origins@ == allowed_origins(is_dev, platform),
{
    if is_dev {
        String::from_str("http://localhost:1420,http://127.0.0.1:1420")
    } else {
        match platform {
            Platform::Windows => String::from_str("http://tauri.localhost,https://tauri.localhost"),
            Platform::MacOs | Platform::Linux => String::from_str(
                "tauri://localhost,https://tauri.localhost",
            ),
            Platform::Other => String::from_str("tauri://localhost"),
        }
    }
}

/// What a launch depends on besides the browser and the port.
#[derive(Debug)]
pub struct LaunchSettings {
    /// Whether the controlling application runs as a development build.
    pub is_dev: bool,
    pub platform: Platform,
    /// The system's directory for temporary files.
    pub temp_dir: String,
}

/// The mathematical content of [`LaunchSettings`].
pub struct SettingsView {
    pub is_dev: bool,
    pub platform: Platform,
    pub temp_dir: Seq<char>,
}

impl View for LaunchSettings {
    type V = SettingsView;

    open spec fn view(&self) -> SettingsView {
        SettingsView { is_dev: self.is_dev, platform: self.platform, temp_dir: self.temp_dir@ }
    }
}

impl LaunchSettings {
    /// A copy of the settings.
    pub fn duplicate(&self) -> (copy: LaunchSettings)
        ensures
            copy@ == self@,
    {
        LaunchSettings {
            is_dev: self.is_dev,
            platform: self.platform,
            temp_dir: self.temp_dir.clone(),
        }
    }
}

/// The brand that a lowercased executable path names, where it names one:
/// chrome is looked for first, then edge, then arc.
pub open spec fn brand(lowered: Seq<char>) -> Option<Seq<char>> {
    if contains(lowered, "chrome"@) {
        Some("chrome"@)
    } else if contains(lowered, "edge"@) || contains(lowered, "msedge"@) {
        Some("edge"@)
    } else if contains(lowered, "arc"@) {
        Some("arc"@)
    } else {
        None
    }
}

/// What stands between the parts of a path.
pub open spec fn separator(platform: Platform) -> Seq<char> {
    if platform == Platform::Windows {
        "\\"@
    } else {
        "/"@
    }
}

/// The directory under which the debug profiles lie: `/tmp` on macOS and
/// Linux, the system's directory for temporary files elsewhere.
pub open spec fn profile_root(platform: Platform, temp_dir: Seq<char>) -> Seq<char> {
    if platform == Platform::MacOs || platform == Platform::Linux {
        "/tmp"@
    } else {
        temp_dir
    }
}

/// The profile directory of a brand: `<brand>-debug-profile` under the
/// profile root.
pub open spec fn profile_dir(brand: Seq<char>, platform: Platform, temp_dir: Seq<char>) -> Seq<
    char,
> {
    let root = profile_root(platform, temp_dir);
    let sep = separator(platform);
    if ends_with(root, sep) {
        root + brand + "-debug-profile"@
    } else {
        root + sep + brand + "-debug-profile"@
    }
}

/// The flag that gives the debug session a profile directory of its own, so
/// that it never meets the user's real profile. It is set on every platform
/// whenever the lowercased path names a brand.
pub open spec fn profile_flag(lowered: Seq<char>, platform: Platform, temp_dir: Seq<char>) -> Option<
    Seq<char>,
> {
    match brand(lowered) {
        Some(b) => Some("--user-data-dir="@ + profile_dir(b, platform, temp_dir)),
        None => None,
    }
}

/// The arguments that a browser is started with.
pub open spec fn launch_args(
    lowered: Seq<char>,
    port: u16,
    origins: Seq<char>,
    platform: Platform,
    temp_dir: Seq<char>,
) -> Seq<Seq<char>> {
    seq![
        "--remote-debugging-port="@ + decimal(port as nat),
        "--remote-debugging-address=127.0.0.1"@,
        "--remote-allow-origins="@ + origins,
        "--no-first-run"@,
        "--no-default-browser-check"@,
        "--disable-background-timer-throttling"@,
        "--disable-backgrounding-occluded-windows"@,
        "--disable-renderer-backgrounding"@,
        "--enable-automation"@,
    ] + match profile_flag(lowered, platform, temp_dir) {
        Some(flag) => seq![flag],
        None => Seq::<Seq<char>>::empty(),
    }
}

/// The brand that a lowercased executable path names.
pub fn brand_of(lowered: &str) -> (b: Option<&'static str>)
    ensures
        match b {
            Some(name) => brand(lowered@) == Some(name@),
            None => brand(lowered@) is None,
        },
{
    if str_contains(lowered, "chrome") {
        Some("chrome")
    } else if str_contains(lowered, "edge") || str_contains(lowered, "msedge") {
        Some("edge")
    } else if str_contains(lowered, "arc") {
        Some("arc")
    } else {
        None
    }
}

/// The profile flag for a lowercased path.
pub fn profile_flag_for(lowered: &str, platform: Platform, temp_dir: &str) -> (flag: Option<String>)
    ensures
        match flag {
            Some(f) => profile_flag(lowered@, platform, temp_dir@) == Some(f@),
            None => profile_flag(lowered@, platform, temp_dir@) is None,
        },
{
    match brand_of(lowered) {
        None => None,
        Some(name) => {
            let root = match platform {
                Platform::MacOs | Platform::Linux => "/tmp",
                _ => temp_dir,
            };
            let sep = match platform {
                Platform::Windows => "\\",
                _ => "/",
            };
            let mut dir = String::from_str(root);
            if !str_ends_with(root, sep) {
                dir.append(sep);
            }
            dir.append(name);
            dir.append("-debug-profile");
            let mut flag = String::from_str("--user-data-dir=");
            flag.append(dir.as_str());
            Some(flag)
        },
    }
}

/// The arguments for a browser whose lowercased path is `lowered`.
pub fn launch_arguments(
    lowered: &str,
    port: u16,
    origins: &str,
    platform: Platform,
    temp_dir: &str,
) -> (args: Vec<String>)
    ensures
        texts(args@) == launch_args(lowered@, port, origins@, platform, temp_dir@),
{
    let mut args: Vec<String> = Vec::new();
    let mut debugging_port = String::from_str("--remote-debugging-port=");
    push_decimal(&mut debugging_port, port as u64);
    args.push(debugging_port);
    args.push(String::from_str("--remote-debugging-address=127.0.0.1"));
    let mut allow = String::from_str("--remote-allow-origins=");
    allow.append(origins);
    args.push(allow);
    args.push(String::from_str("--no-first-run"));
    args.push(String::from_str("--no-default-browser-check"));
    args.push(String::from_str("--disable-background-timer-throttling"));
    args.push(String::from_str("--disable-backgrounding-occluded-windows"));
    args.push(String::from_str("--disable-renderer-backgrounding"));
    args.push(String::from_str("--enable-automation"));
    match profile_flag_for(lowered, platform, temp_dir) {
        Some(flag) => {
            args.push(flag);
        },
        None => {},
    }
    assert(texts(args@) =~= launch_args(lowered@, port, origins@, platform, temp_dir@));
    args
}

/// Where a launch stands.
pub enum LaunchPhase {
    /// The process is to be started.
    Spawning,
    /// The grace period is to pass.
    Settling { pid: u32 },
    /// The process is to be looked at: it must not have ended.
    Checking { pid: u32 },
    /// The version endpoint is to be asked once, to tell a browser that does
    /// not debug at all from one that is still starting.
    Reaching { pid: u32 },
    /// The websocket is looked up.
    Discovering { pid: u32, lookup: UrlLookup },
    /// A first page is to be opened; whether that works does not matter.
    Greeting { pid: u32, url: String },
    /// The browser is up, but the store has come to hold a session with
    /// another process of ours, which is to be killed before it is replaced.
    Replacing { pid: u32, url: String, old: u32 },
    /// The launch has failed and the process is to be killed.
    Aborting { pid: u32, error: SessionError },
    /// The launch is over.
    Done { result: Result<String, SessionError> },
}

/// The mathematical content of a [`LaunchPhase`].
pub enum LaunchPhaseView {
    Spawning,
    Settling { pid: u32 },
    Checking { pid: u32 },
    Reaching { pid: u32 },
    Discovering { pid: u32, lookup: UrlLookupView },
    Greeting { pid: u32, url: Seq<char> },
    Replacing { pid: u32, url: Seq<char>, old: u32 },
    Aborting { pid: u32, error: ErrorView },
    Done { result: Result<Seq<char>, ErrorView> },
}

/// The launch of a browser on a port.
pub struct Launch {
    pub path: String,
    pub port: u16,
    pub args: Vec<String>,
    /// Whether a first page is opened once the browser is up.
    pub greets: bool,
    pub phase: LaunchPhase,
}

/// The mathematical content of a [`Launch`].
pub struct LaunchView {
    pub path: Seq<char>,
    pub port: u16,
    pub args: Seq<Seq<char>>,
    pub greets: bool,
    pub phase: LaunchPhaseView,
}

impl View for LaunchPhase {
    type V = LaunchPhaseView;

    open spec fn view(&self) -> LaunchPhaseView {
        match *self {
            LaunchPhase::Spawning => LaunchPhaseView::Spawning,
            LaunchPhase::Settling { pid } => LaunchPhaseView::Settling { pid },
            LaunchPhase::Checking { pid } => LaunchPhaseView::Checking { pid },
            LaunchPhase::Reaching { pid } => LaunchPhaseView::Reaching { pid },
            LaunchPhase::Discovering { pid, lookup } => LaunchPhaseView::Discovering {
                pid,
                lookup: lookup@,
            },
            LaunchPhase::Greeting { pid, url } => LaunchPhaseView::Greeting { pid, url: url@ },
            LaunchPhase::Replacing { pid, url, old } => LaunchPhaseView::Replacing {
                pid,
                url: url@,
                old,
            },
            LaunchPhase::Aborting { pid, error } => LaunchPhaseView::Aborting { pid, error: error@ },
            LaunchPhase::Done { result } => LaunchPhaseView::Done { result: url_view(result) },
        }
    }
}

impl View for Launch {
    type V = LaunchView;

    open spec fn view(&self) -> LaunchView {
        LaunchView {
            path: self.path@,
            port: self.port,
            args: texts(self.args@),
            greets: self.greets,
            phase: self.phase@,
        }
    }
}

/// The process that a store holds, where it holds one.
pub open spec fn held_process(store: Option<SessionView>) -> Option<u32> {
    match store {
        Some(s) => s.child,
        None => None,
    }
}

impl LaunchView {
    /// The launch in another phase.
    pub open spec fn at(self, phase: LaunchPhaseView) -> LaunchView {
        LaunchView { phase, ..self }
    }

    /// A launch that has started nothing yet. It does not look at the store:
    /// a launch changes the store only when it succeeds. An Arc browser is
    /// greeted with a first page.
    pub open spec fn begin(
        path: Seq<char>,
        lowered: Seq<char>,
        port: u16,
        origins: Seq<char>,
        platform: Platform,
        temp_dir: Seq<char>,
    ) -> LaunchView {
        LaunchView {
            path,
            port,
            args: launch_args(lowered, port, origins, platform, temp_dir),
            greets: contains(lowered, "arc"@),
            phase: LaunchPhaseView::Spawning,
        }
    }

    /// The launch and the store after a run of outcomes.
    pub open spec fn run(self, store: Option<SessionView>, outcomes: Seq<OutcomeView>) -> (
        LaunchView,
        Option<SessionView>,
    )
        decreases outcomes.len(),
    {
        if outcomes.len() == 0 {
            (self, store)
        } else {
            let (launch, store) = self.run(store, outcomes.drop_last());
            launch.advanced(store, outcomes.last())
        }
    }

    /// The effect that the launch waits for.
    pub open spec fn pending(self) -> Option<EffectView> {
        match self.phase {
            LaunchPhaseView::Spawning => Some(
                EffectView::Spawn { program: self.path, args: self.args },
            ),
            LaunchPhaseView::Settling { .. } => Some(EffectView::Sleep { millis: GRACE_MS }),
            LaunchPhaseView::Checking { pid } => Some(EffectView::Poll { pid }),
            LaunchPhaseView::Reaching { .. } => Some(
                EffectView::Get { url: version_url(self.port), timeout_secs: REACH_TIMEOUT_SECS },
            ),
            LaunchPhaseView::Discovering { lookup, .. } => lookup.pending(),
            LaunchPhaseView::Greeting { .. } => Some(
                EffectView::Get {
                    url: new_page_url(self.port, Some("https://www.google.com"@)),
                    timeout_secs: PAGE_TIMEOUT_SECS,
                },
            ),
            LaunchPhaseView::Replacing { old, .. } => Some(EffectView::Kill { pid: old }),
            LaunchPhaseView::Aborting { pid, .. } => Some(EffectView::Kill { pid }),
            LaunchPhaseView::Done { .. } => None,
        }
    }

    /// The result, once the launch is over.
    pub open spec fn result(self) -> Option<Result<Seq<char>, ErrorView>> {
        match self.phase {
            LaunchPhaseView::Done { result } => Some(result),
            _ => None,
        }
    }

    /// The browser is up: it becomes the session, in place of whatever
    /// record the store holds. Should the store hold another process of ours,
    /// that one is killed first.
    pub open spec fn completed(self, store: Option<SessionView>, pid: u32, url: Seq<char>) -> (
        LaunchView,
        Option<SessionView>,
    ) {
        match held_process(store) {
            Some(old) if old != pid => (self.at(LaunchPhaseView::Replacing { pid, url, old }), store),
            _ => (
                self.at(LaunchPhaseView::Done { result: Ok(url) }),
                Some(SessionView::launched(self.path, self.port, url, pid)),
            ),
        }
    }

    /// The launch with a lookup that has taken a step: an address completes
    /// it (after the first page, where one is opened); a failed lookup has
    /// the process killed.
    pub open spec fn discovered(
        self,
        store: Option<SessionView>,
        pid: u32,
        lookup: UrlLookupView,
    ) -> (LaunchView, Option<SessionView>) {
        match lookup.phase {
            LookupPhaseView::Done { result: Ok(url) } => if self.greets {
                (self.at(LaunchPhaseView::Greeting { pid, url }), store)
            } else {
                self.completed(store, pid, url)
            },
            LookupPhaseView::Done { result: Err(error) } => (
                self.at(LaunchPhaseView::Aborting { pid, error }),
                store,
            ),
            _ => (self.at(LaunchPhaseView::Discovering { pid, lookup }), store),
        }
    }

    /// The store once the kill of `pid` is reported: a session that held
    /// that process is gone, anything else stays.
    pub open spec fn without(store: Option<SessionView>, pid: u32) -> Option<SessionView> {
        if held_process(store) == Some(pid) {
            None
        } else {
            store
        }
    }

    /// The launch and the store after an outcome.
    ///
    /// A process that could not be started, or that ended during the grace
    /// period, fails the launch at once. Every later failure has the process
    /// killed before the error is reported. The store changes only when the
    /// launch succeeds; a launch that fails leaves it as it was.
    pub open spec fn advanced(self, store: Option<SessionView>, outcome: OutcomeView) -> (
        LaunchView,
        Option<SessionView>,
    ) {
        match (self.phase, outcome) {
            (LaunchPhaseView::Spawning, OutcomeView::Spawned { pid: Some(pid) }) => (
                self.at(LaunchPhaseView::Settling { pid }),
                store,
            ),
            (LaunchPhaseView::Spawning, OutcomeView::Spawned { pid: None }) => (
                self.at(LaunchPhaseView::Done { result: Err(ErrorView::ProcessSpawnFailed) }),
                store,
            ),
            (LaunchPhaseView::Settling { pid }, OutcomeView::Slept) => (
                self.at(LaunchPhaseView::Checking { pid }),
                store,
            ),
            (
                LaunchPhaseView::Checking { pid },
                OutcomeView::Polled { status: ChildStatus::Running },
            ) => (self.at(LaunchPhaseView::Reaching { pid }), store),
            (
                LaunchPhaseView::Checking { .. },
                OutcomeView::Polled { status: ChildStatus::Exited { code } },
            ) => (
                self.at(
                    LaunchPhaseView::Done { result: Err(ErrorView::ProcessExitedEarly { code }) },
                ),
                store,
            ),
            (
                LaunchPhaseView::Checking { pid },
                OutcomeView::Polled { status: ChildStatus::Unknown },
            ) => (
                self.at(LaunchPhaseView::Aborting { pid, error: ErrorView::ProcessStatusUnknown }),
                store,
            ),
            (
                LaunchPhaseView::Reaching { pid },
                OutcomeView::Got { result: FetchView::Unreachable { .. } },
            ) => (
                self.at(
                    LaunchPhaseView::Aborting {
                        pid,
                        error: ErrorView::EndpointUnreachable { attempts: 1 },
                    },
                ),
                store,
            ),
            (
                LaunchPhaseView::Reaching { pid },
                OutcomeView::Got { result: FetchView::Response { .. } },
            ) => self.discovered(
                store,
                pid,
                UrlLookupView::start(self.port, LAUNCH_RETRIES, LAUNCH_DELAY_MS),
            ),
            (LaunchPhaseView::Discovering { pid, lookup }, _) => self.discovered(
                store,
                pid,
                lookup.advanced(outcome),
            ),
            (LaunchPhaseView::Greeting { pid, url }, OutcomeView::Got { .. }) => self.completed(
                store,
                pid,
                url,
            ),
            (LaunchPhaseView::Replacing { pid, url, old }, OutcomeView::Killed) => self.completed(
                Self::without(store, old),
                pid,
                url,
            ),
            (LaunchPhaseView::Aborting { error, .. }, OutcomeView::Killed) => (
                self.at(LaunchPhaseView::Done { result: Err(error) }),
                store,
            ),
            _ => (self, store),
        }
    }
}

/// Starts the launch of the browser at `path` on `port`, where `lowered` is
/// the path in lowercase.
pub fn launch_lowered(
    path: &str,
    lowered: &str,
    port: u16,
    origins: &str,
    platform: Platform,
    temp_dir: &str,
) -> (launch: Launch)
    ensures
        launch@ == LaunchView::begin(path@, lowered@, port, origins@, platform, temp_dir@),
{
    Launch {
        path: String::from_str(path),
        port,
        args: launch_arguments(lowered, port, origins, platform, temp_dir),
        greets: str_contains(lowered, "arc"),
        phase: LaunchPhase::Spawning,
    }
}

/// Starts the launch of the browser at `target_browser_path` on `port`. The
/// store comes in with each step, and is written only when the launch
/// succeeds.
pub fn launch_new_instance(
    target_browser_path: &str,
    port: u16,
    settings: &LaunchSettings,
) -> (launch: Launch)
    ensures
        launch@ == LaunchView::begin(
            target_browser_path@,
            lowercase(target_browser_path@),
            port,
            allowed_origins(settings.is_dev, settings.platform),
            settings.platform,
            settings.temp_dir@,
        ),
{
    let lowered = to_lowercase(target_browser_path);
    let origins = get_allowed_origins(settings.is_dev, settings.platform);
    launch_lowered(
        target_browser_path,
        lowered.as_str(),
        port,
        origins.as_str(),
        settings.platform,
        settings.temp_dir.as_str(),
    )
}

/// The process that the store holds, where it holds one.
pub fn process_of(store: &SessionStore) -> (pid: Option<u32>)
    ensures
        pid == held_process(store@),
{
    match &store.current {
        Some(session) => session.child,
        None => None,
    }
}

/// Drops the session of the process `pid` from the store, if it holds that
/// one.
pub fn forget(store: &mut SessionStore, pid: u32)
    ensures
        final(store)@ == LaunchView::without(old(store)@, pid),
{
    match process_of(store) {
        Some(held) => {
            if held == pid {
                store.current = None;
            }
        },
        None => {},
    }
}

impl Launch {
    /// The effect to perform next, or nothing once the launch is over.
    pub fn pending(&self) -> (effect: Option<Effect>)
        ensures
            effect_view(effect) == self@.pending(),
    {
        match &self.phase {
            LaunchPhase::Spawning => Some(
                Effect::Spawn { program: self.path.clone(), args: clone_texts(&self.args) },
            ),
            LaunchPhase::Settling { .. } => Some(Effect::Sleep { millis: GRACE_MS }),
            LaunchPhase::Checking { pid } => Some(Effect::Poll { pid: *pid }),
            LaunchPhase::Reaching { .. } => Some(
                Effect::Get { url: version_address(self.port), timeout_secs: REACH_TIMEOUT_SECS },
            ),
            LaunchPhase::Discovering { lookup, .. } => lookup.pending(),
            LaunchPhase::Greeting { .. } => Some(
                Effect::Get {
                    url: new_page_address(self.port, Some("https://www.google.com")),
                    timeout_secs: PAGE_TIMEOUT_SECS,
                },
            ),
            LaunchPhase::Replacing { old, .. } => Some(Effect::Kill { pid: *old }),
            LaunchPhase::Aborting { pid, .. } => Some(Effect::Kill { pid: *pid }),
            LaunchPhase::Done { .. } => None,
        }
    }

    /// The result, once the launch is over: the websocket address of the new
    /// browser, or why there is none.
    pub fn result(&self) -> (r: Option<Result<String, SessionError>>)
        ensures
            finished_view(r) == self@.result(),
    {
        match &self.phase {
            LaunchPhase::Done { result } => Some(duplicate_url(result)),
            _ => None,
        }
    }

    fn completed(self, store: &mut SessionStore, pid: u32, url: String) -> (next: Launch)
        ensures
            (next@, final(store)@) == self@.completed(old(store)@, pid, url@),
    {
        let Launch { path, port, args, greets, phase: _ } = self;
        match process_of(store) {
            Some(old) => {
                if old != pid {
                    return Launch {
                        path,
                        port,
                        args,
                        greets,
                        phase: LaunchPhase::Replacing { pid, url, old },
                    };
                }
            },
            None => {},
        }
        store.current = Some(
            ManageableBrowserInstance::launched(path.clone(), port, url.clone(), pid),
        );
        Launch { path, port, args, greets, phase: LaunchPhase::Done { result: Ok(url) } }
    }

    fn discovered(self, store: &mut SessionStore, pid: u32, lookup: UrlLookup) -> (next: Launch)
        ensures
            (next@, final(store)@) == self@.discovered(old(store)@, pid, lookup@),
    {
        let UrlLookup { port: on, max_retries, delay_ms, remaining, phase } = lookup;
        match phase {
            LookupPhase::Done { result: Ok(url) } => {
                if self.greets {
                    let Launch { path, port, args, greets, phase: _ } = self;
                    Launch { path, port, args, greets, phase: LaunchPhase::Greeting { pid, url } }
                } else {
                    self.completed(store, pid, url)
                }
            },
            LookupPhase::Done { result: Err(error) } => {
                let Launch { path, port, args, greets, phase: _ } = self;
                Launch { path, port, args, greets, phase: LaunchPhase::Aborting { pid, error } }
            },
            phase => {
                let Launch { path, port, args, greets, phase: _ } = self;
                Launch {
                    path,
                    port,
                    args,
                    greets,
                    phase: LaunchPhase::Discovering {
                        pid,
                        lookup: UrlLookup { port: on, max_retries, delay_ms, remaining, phase },
                    },
                }
            },
        }
    }

    /// Takes the outcome of the pending effect. On success the new browser
    /// is put into the store.
    pub fn advance(self, store: &mut SessionStore, outcome: Outcome) -> (next: Launch)
        ensures
            (next@, final(store)@) == self@.advanced(old(store)@, outcome@),
    {
        let Launch { path, port, args, greets, phase } = self;
        match (phase, outcome) {
            (LaunchPhase::Spawning, Outcome::Spawned { pid: Some(pid) }) => Launch {
                path,
                port,
                args,
                greets,
                phase: LaunchPhase::Settling { pid },
            },
            (LaunchPhase::Spawning, Outcome::Spawned { pid: None }) => Launch {
                path,
                port,
                args,
                greets,
                phase: LaunchPhase::Done { result: Err(SessionError::ProcessSpawnFailed) },
            },
            (LaunchPhase::Settling { pid }, Outcome::Slept) => Launch {
                path,
                port,
                args,
                greets,
                phase: LaunchPhase::Checking { pid },
            },
            (LaunchPhase::Checking { pid }, Outcome::Polled { status: ChildStatus::Running }) => {
                Launch { path, port, args, greets, phase: LaunchPhase::Reaching { pid } }
            },
            (
                LaunchPhase::Checking { .. },
                Outcome::Polled { status: ChildStatus::Exited { code } },
            ) => Launch {
                path,
                port,
                args,
                greets,
                phase: LaunchPhase::Done { result: Err(SessionError::ProcessExitedEarly { code }) },
            },
            (LaunchPhase::Checking { pid }, Outcome::Polled { status: ChildStatus::Unknown }) => {
                Launch {
                    path,
                    port,
                    args,
                    greets,
                    phase: LaunchPhase::Aborting { pid, error: SessionError::ProcessStatusUnknown },
                }
            },
            (
                LaunchPhase::Reaching { pid },
                Outcome::Got { result: FetchResult::Unreachable { .. } },
            ) => Launch {
                path,
                port,
                args,
                greets,
                phase: LaunchPhase::Aborting {
                    pid,
                    error: SessionError::EndpointUnreachable { attempts: 1 },
                },
            },
            (
                LaunchPhase::Reaching { pid },
                Outcome::Got { result: FetchResult::Response { .. } },
            ) => {
                let lookup = get_browser_websocket_url(port, LAUNCH_RETRIES, LAUNCH_DELAY_MS);
                let launch = Launch { path, port, args, greets, phase: LaunchPhase::Spawning };
                launch.discovered(store, pid, lookup)
            },
            (LaunchPhase::Discovering { pid, lookup }, outcome) => {
                let lookup = lookup.advance(outcome);
                let launch = Launch { path, port, args, greets, phase: LaunchPhase::Spawning };
                launch.discovered(store, pid, lookup)
            },
            (LaunchPhase::Greeting { pid, url }, Outcome::Got { .. }) => {
                let launch = Launch { path, port, args, greets, phase: LaunchPhase::Spawning };
                launch.completed(store, pid, url)
            },
            (LaunchPhase::Replacing { pid, url, old }, Outcome::Killed) => {
                forget(store, old);
                let launch = Launch { path, port, args, greets, phase: LaunchPhase::Spawning };
                launch.completed(store, pid, url)
            },
            (LaunchPhase::Aborting { error, .. }, Outcome::Killed) => Launch {
                path,
                port,
                args,
                greets,
                phase: LaunchPhase::Done { result: Err(error) },
            },
            (phase, _) => Launch { path, port, args, greets, phase },
        }
    }
}

/// A launch never leaves a process of ours without a record. Whatever the
/// store holds when a launch takes a step: a process that it held before is
/// still held afterwards, or the step was the report of that very process's
/// kill, which the launch had asked for.
pub proof fn lemma_launch_never_orphans_a_process(
    launch: LaunchView,
    store: Option<SessionView>,
    outcome: OutcomeView,
    pid: u32,
)
    requires
        held_process(store) == Some(pid),
    ensures
        held_process(launch.advanced(store, outcome).1) == Some(pid) || (outcome
            == OutcomeView::Killed && launch.pending() == Some(EffectView::Kill { pid })),
{
}

/// A step of a launch changes the store only by succeeding: where the store
/// is not as it was, the launch has just ended with an address.
pub proof fn lemma_launch_writes_only_on_success(
    launch: LaunchView,
    store: Option<SessionView>,
    outcome: OutcomeView,
)
    ensures
        launch.advanced(store, outcome).1 == store || launch.advanced(
            store,
            outcome,
        ).0.result() matches Some(Ok(_)),
        launch.phase is Done ==> launch.advanced(store, outcome) == (launch, store),
{
}

/// A launch that fails leaves the store as it was, whatever it held: after
/// any run of outcomes, the store is unchanged unless the launch has ended
/// with an address. A session that was held, launched or adopted, is there
/// after a failed spawn, an early exit and an unreachable endpoint alike.
pub proof fn lemma_failed_launch_leaves_the_store(
    launch: LaunchView,
    store: Option<SessionView>,
    outcomes: Seq<OutcomeView>,
)
    requires
        launch.phase !is Done,
    ensures
        launch.run(store, outcomes).1 == store || launch.run(store, outcomes).0.result()
            matches Some(Ok(_)),
    decreases outcomes.len(),
{
    if outcomes.len() > 0 {
        lemma_failed_launch_leaves_the_store(launch, store, outcomes.drop_last());
        let (before, held) = launch.run(store, outcomes.drop_last());
        lemma_launch_writes_only_on_success(before, held, outcomes.last());
    }
}

/// When a launch succeeds, the store holds the new browser as a session with
/// its process: for the executable and on the port of the launch, with the
/// address that is returned.
pub proof fn lemma_launch_stores_what_it_returns(
    launch: LaunchView,
    store: Option<SessionView>,
    outcome: OutcomeView,
)
    requires
        launch.phase !is Done,
    ensures
        match launch.advanced(store, outcome).0.result() {
            Some(Ok(url)) => match launch.advanced(store, outcome).1 {
                Some(s) => s.launched_by_app() && s == (SessionView {
                    path: launch.path,
                    port: launch.port,
                    ws_url: url,
                    child: s.child,
                }),
                None => false,
            },
            Some(Err(_)) => launch.advanced(store, outcome).1 == store,
            None => true,
        },
{
}

/// A launch that fails leaves no process behind. It ends with an error only
/// where no process was started, where the process had ended by itself, or
/// where the kill of the process was just reported.
pub proof fn lemma_failed_launch_leaves_no_process(
    launch: LaunchView,
    store: Option<SessionView>,
    outcome: OutcomeView,
)
    requires
        launch.phase !is Done,
        launch.advanced(store, outcome).0.result() matches Some(Err(_)),
    ensures
        launch.advanced(store, outcome).1 == store,
        match launch.phase {
            LaunchPhaseView::Spawning => outcome == (OutcomeView::Spawned { pid: None }),
            LaunchPhaseView::Checking { .. } => outcome matches OutcomeView::Polled {
                status: ChildStatus::Exited { .. },
            },
            LaunchPhaseView::Aborting { pid, .. } => outcome == OutcomeView::Killed
                && launch.pending() == Some(EffectView::Kill { pid }),
            _ => false,
        },
{
}

} // verus!
