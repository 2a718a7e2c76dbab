//! Getting a usable browser: reuse the session, adopt a running browser, or
//! start a new one.

use crate::catalog::{
    browsers, candidate_paths, detect_browsers, detected, find_by_path, paths_of, with_path,
    BrowserConfig, BrowserView,
};
use crate::discovery::{duplicate_url, effect_view, finished_view, url_view};
use crate::effects::{ChildStatus, Effect, EffectView, FetchView, Outcome, OutcomeView};
use crate::errors::{ErrorView, SessionError};
use crate::launcher::{
    allowed_origins, forget, held_process, launch_new_instance,
    lemma_launch_never_orphans_a_process, process_of, Launch, LaunchPhase, LaunchPhaseView,
    LaunchSettings, LaunchView, SettingsView,
};
use crate::ports::{
    find_free_port, scan_for_existing_browser_instances, text_view, PortSearch, Scan, ScanPhase,
    ScanPhaseView, ScanView, SearchPhase,
};
use crate::launcher::PAGE_TIMEOUT_SECS;
use crate::probe::{
    extract_port_from_ws_url, new_page_address, new_page_url, port_text, version_address,
    version_url,
};
use crate::session::{ManageableBrowserInstance, SessionStore, SessionView};
use crate::text::{chars_of, lowercase, parse_u16, parsed_u16};
use vstd::prelude::*;

verus! {

/// The seconds after which the liveness probe of a session is given up.
pub const LIVENESS_TIMEOUT_SECS: u64 = 2;

/// The port above which a free port for a new browser is searched.
pub const FREE_PORT_START: u16 = 9222;

/// A copy of a list of browsers.
pub fn clone_browsers(list: &Vec<BrowserConfig>) -> (copy: Vec<BrowserConfig>)
    ensures
        browsers(copy@) == browsers(list@),
{
    let mut copy: Vec<BrowserConfig> = Vec::new();
    let mut i: usize = 0;
    while i < list.len()
        invariant
            i <= list.len(),
            copy.len() == i,
            forall|j: int| 0 <= j < i ==> copy@[j]@ == list@[j]@,
        decreases list.len() - i,
    {
        copy.push(list[i].duplicate());
        i += 1;
    }
    assert(browsers(copy@) =~= browsers(list@));
    copy
}

/// The port of a websocket address, where the address names one that is a
/// number.
pub open spec fn adoptable_port(url: Seq<char>) -> Option<u16> {
    match port_text(url) {
        Some(port) => parsed_u16(port),
        None => None,
    }
}

/// The port of a websocket address, as a number.
pub fn port_of(url: &str) -> (port: Option<u16>)
    ensures
        port == adoptable_port(url@),
{
    match extract_port_from_ws_url(url) {
        Ok(text) => parse_u16(&chars_of(text.as_str())),
        Err(_) => None,
    }
}

/// Where the reuse of a browser stands.
pub enum ReusePhase {
    /// The session is for the wanted browser and holds a process, which is to
    /// be looked at.
    Polling { pid: u32, port: u16, url: String },
    /// The session is for the wanted browser; its endpoint is to be asked
    /// whether it still answers.
    Probing { child: Option<u32>, port: u16, url: String },
    /// The session's process is to be killed: it is for another browser, or
    /// it no longer answers.
    Evicting { pid: u32 },
    /// The candidate paths are to be looked for on disk.
    Locating,
    /// The usual ports are scanned for a running browser of the wanted kind.
    Scanning { scan: Scan },
    /// Over: the websocket address of the browser in the store, or nothing.
    Done { found: Option<String> },
}

/// The mathematical content of a [`ReusePhase`].
pub enum ReusePhaseView {
    Polling { pid: u32, port: u16, url: Seq<char> },
    Probing { child: Option<u32>, port: u16, url: Seq<char> },
    Evicting { pid: u32 },
    Locating,
    Scanning { scan: ScanView },
    Done { found: Option<Seq<char>> },
}

/// An attempt to get a browser without starting one.
pub struct Reuse {
    /// The executable of the wanted browser.
    pub target: String,
    pub candidates: Vec<BrowserConfig>,
    pub phase: ReusePhase,
}

/// The mathematical content of a [`Reuse`].
pub struct ReuseView {
    pub target: Seq<char>,
    pub candidates: Seq<BrowserView>,
    pub phase: ReusePhaseView,
}

impl View for ReusePhase {
    type V = ReusePhaseView;

    open spec fn view(&self) -> ReusePhaseView {
        match *self {
            ReusePhase::Polling { pid, port, url } => ReusePhaseView::Polling {
                pid,
                port,
                url: url@,
            },
            ReusePhase::Probing { child, port, url } => ReusePhaseView::Probing {
                child,
                port,
                url: url@,
            },
            ReusePhase::Evicting { pid } => ReusePhaseView::Evicting { pid },
            ReusePhase::Locating => ReusePhaseView::Locating,
            ReusePhase::Scanning { scan } => ReusePhaseView::Scanning { scan: scan@ },
            ReusePhase::Done { found } => ReusePhaseView::Done { found: text_view(found) },
        }
    }
}

impl View for Reuse {
    type V = ReuseView;

    open spec fn view(&self) -> ReuseView {
        ReuseView {
            target: self.target@,
            candidates: browsers(self.candidates@),
            phase: self.phase@,
        }
    }
}

impl ReuseView {
    /// The attempt in another phase.
    pub open spec fn at(self, phase: ReusePhaseView) -> ReuseView {
        ReuseView { phase, ..self }
    }

    /// The attempt once the session is given up. A process of ours that the
    /// store holds is killed before its record is dropped; any other record
    /// is dropped at once. Then a running browser is searched.
    pub open spec fn cleared(self, store: Option<SessionView>) -> (ReuseView, Option<SessionView>) {
        match held_process(store) {
            Some(pid) => (self.at(ReusePhaseView::Evicting { pid }), store),
            None => (self.at(ReusePhaseView::Locating), None),
        }
    }

    /// The store once the process `pid` is known to be gone: a session that
    /// held that process is dropped, anything else stays.
    pub open spec fn without(store: Option<SessionView>, pid: u32) -> Option<SessionView> {
        if held_process(store) == Some(pid) {
            None
        } else {
            store
        }
    }

    /// The first step, which looks at the store.
    ///
    /// A session for the wanted browser is checked for liveness: its process
    /// first, where it has one, else its endpoint. A session for another
    /// browser is evicted: its process is killed if it is ours; if the
    /// browser was only found running, the record is dropped and the browser
    /// is left alone. With an empty store the search for a running browser
    /// starts at once.
    pub open spec fn begin(
        store: Option<SessionView>,
        target: Seq<char>,
        candidates: Seq<BrowserView>,
    ) -> (ReuseView, Option<SessionView>) {
        let fresh = ReuseView { target, candidates, phase: ReusePhaseView::Locating };
        match store {
            None => (fresh, None),
            Some(s) => if s.path == target {
                match s.child {
                    Some(pid) => (
                        fresh.at(ReusePhaseView::Polling { pid, port: s.port, url: s.ws_url }),
                        store,
                    ),
                    None => (
                        fresh.at(
                            ReusePhaseView::Probing { child: None, port: s.port, url: s.ws_url },
                        ),
                        store,
                    ),
                }
            } else {
                fresh.cleared(store)
            },
        }
    }

    /// The effect that the attempt waits for.
    pub open spec fn pending(self) -> Option<EffectView> {
        match self.phase {
            ReusePhaseView::Polling { pid, .. } => Some(EffectView::Poll { pid }),
            ReusePhaseView::Probing { port, .. } => Some(
                EffectView::Get { url: version_url(port), timeout_secs: LIVENESS_TIMEOUT_SECS },
            ),
            ReusePhaseView::Evicting { pid } => Some(EffectView::Kill { pid }),
            ReusePhaseView::Locating => Some(
                EffectView::Locate { paths: paths_of(self.candidates) },
            ),
            ReusePhaseView::Scanning { scan } => scan.pending(),
            ReusePhaseView::Done { .. } => None,
        }
    }

    /// What was found, once the attempt is over.
    pub open spec fn result(self) -> Option<Option<Seq<char>>> {
        match self.phase {
            ReusePhaseView::Done { found } => Some(found),
            _ => None,
        }
    }

    /// The attempt with a scan that has taken a step. A browser that the
    /// scan found is adopted, as a session without a process, if its address
    /// names a port and the store holds no process of ours; else nothing is
    /// found and the store stays as it is.
    pub open spec fn scanned(self, store: Option<SessionView>, scan: ScanView) -> (
        ReuseView,
        Option<SessionView>,
    ) {
        match scan.phase {
            ScanPhaseView::Done { found: Some(url) } => match adoptable_port(url) {
                Some(port) if held_process(store) is None => (
                    self.at(ReusePhaseView::Done { found: Some(url) }),
                    Some(SessionView::adopted(self.target, port, url)),
                ),
                _ => (self.at(ReusePhaseView::Done { found: None }), store),
            },
            ScanPhaseView::Done { found: None } => (
                self.at(ReusePhaseView::Done { found: None }),
                store,
            ),
            _ => (self.at(ReusePhaseView::Scanning { scan }), store),
        }
    }

    /// The attempt and the store after an outcome.
    pub open spec fn advanced(self, store: Option<SessionView>, outcome: OutcomeView) -> (
        ReuseView,
        Option<SessionView>,
    ) {
        match (self.phase, outcome) {
            (
                ReusePhaseView::Polling { pid, port, url },
                OutcomeView::Polled { status: ChildStatus::Running },
            ) => (self.at(ReusePhaseView::Probing { child: Some(pid), port, url }), store),
            (
                ReusePhaseView::Polling { pid, .. },
                OutcomeView::Polled { status: ChildStatus::Exited { .. } },
            ) => self.cleared(Self::without(store, pid)),
            (
                ReusePhaseView::Polling { pid, .. },
                OutcomeView::Polled { status: ChildStatus::Unknown },
            ) => (self.at(ReusePhaseView::Evicting { pid }), store),
            (ReusePhaseView::Probing { child, url, .. }, OutcomeView::Got { result }) => {
                if result.is_success() {
                    (self.at(ReusePhaseView::Done { found: Some(url) }), store)
                } else {
                    match child {
                        Some(pid) => (self.at(ReusePhaseView::Evicting { pid }), store),
                        None => self.cleared(store),
                    }
                }
            },
            (ReusePhaseView::Evicting { pid }, OutcomeView::Killed) => self.cleared(
                Self::without(store, pid),
            ),
            (ReusePhaseView::Locating, OutcomeView::Located { installed }) => match with_path(
                detected(self.candidates, installed),
                self.target,
            ) {
                Some(browser) => (
                    self.at(ReusePhaseView::Scanning { scan: ScanView::begin(browser.id) }),
                    store,
                ),
                None => (self.at(ReusePhaseView::Done { found: None }), store),
            },
            (ReusePhaseView::Scanning { scan }, _) => self.scanned(store, scan.advanced(outcome)),
            _ => (self, store),
        }
    }

    /// The attempt and the store agree: while the session is checked it is
    /// in the store, with the process that is looked at or killed; while a
    /// running browser is searched the store is empty; and at the end the
    /// store holds the browser whose address is returned, or nothing.
    pub open spec fn agrees_with(self, store: Option<SessionView>) -> bool {
        match self.phase {
            ReusePhaseView::Polling { pid, port, url } => store == Some(
                SessionView { path: self.target, port, ws_url: url, child: Some(pid) },
            ),
            ReusePhaseView::Probing { child, port, url } => store == Some(
                SessionView { path: self.target, port, ws_url: url, child },
            ),
            ReusePhaseView::Evicting { pid } => store matches Some(s) && s.child == Some(pid),
            ReusePhaseView::Locating => store is None,
            ReusePhaseView::Scanning { .. } => store is None,
            ReusePhaseView::Done { found: Some(url) } => store matches Some(s) && s.ws_url == url
                && s.path == self.target,
            ReusePhaseView::Done { found: None } => store is None,
        }
    }
}

/// Starts an attempt to get the browser at `target_browser_path` without
/// starting one: see [`ReuseView::begin`].
pub fn get_running_instance(
    store: &mut SessionStore,
    target_browser_path: &str,
    candidates: &Vec<BrowserConfig>,
) -> (reuse: Reuse)
    ensures
        (reuse@, final(store)@) == ReuseView::begin(
            old(store)@,
            target_browser_path@,
            browsers(candidates@),
        ),
{
    let target = String::from_str(target_browser_path);
    let held = store.current.take();
    let phase = match held {
        None => ReusePhase::Locating,
        Some(session) => {
            if session.path == target {
                let phase = match session.child {
                    Some(pid) => ReusePhase::Polling {
                        pid,
                        port: session.port,
                        url: session.ws_url.clone(),
                    },
                    None => ReusePhase::Probing {
                        child: None,
                        port: session.port,
                        url: session.ws_url.clone(),
                    },
                };
                store.current = Some(session);
                phase
            } else {
                match session.child {
                    Some(pid) => {
                        store.current = Some(session);
                        ReusePhase::Evicting { pid }
                    },
                    None => ReusePhase::Locating,
                }
            }
        },
    };
    Reuse { target, candidates: clone_browsers(candidates), phase }
}

impl Reuse {
    /// The effect to perform next, or nothing once the attempt is over.
    pub fn pending(&self) -> (effect: Option<Effect>)
        ensures
            effect_view(effect) == self@.pending(),
    {
        match &self.phase {
            ReusePhase::Polling { pid, .. } => Some(Effect::Poll { pid: *pid }),
            ReusePhase::Probing { port, .. } => Some(
                Effect::Get { url: version_address(*port), timeout_secs: LIVENESS_TIMEOUT_SECS },
            ),
            ReusePhase::Evicting { pid } => Some(Effect::Kill { pid: *pid }),
            ReusePhase::Locating => Some(Effect::Locate { paths: candidate_paths(&self.candidates) }),
            ReusePhase::Scanning { scan } => scan.pending(),
            ReusePhase::Done { .. } => None,
        }
    }

    /// What was found, once the attempt is over: the websocket address of
    /// the browser that is now in the store, or nothing.
    pub fn result(&self) -> (r: Option<Option<String>>)
        ensures
            match r {
                Some(found) => self@.result() == Some(text_view(found)),
                None => self@.result() is None,
            },
    {
        match &self.phase {
            ReusePhase::Done { found } => Some(found.clone()),
            _ => None,
        }
    }

    fn cleared(self, store: &mut SessionStore) -> (next: Reuse)
        ensures
            (next@, final(store)@) == self@.cleared(old(store)@),
    {
        let Reuse { target, candidates, phase: _ } = self;
        match process_of(store) {
            Some(pid) => Reuse { target, candidates, phase: ReusePhase::Evicting { pid } },
            None => {
                store.current = None;
                Reuse { target, candidates, phase: ReusePhase::Locating }
            },
        }
    }

    fn scanned(self, store: &mut SessionStore, scan: Scan) -> (next: Reuse)
        ensures
            (next@, final(store)@) == self@.scanned(old(store)@, scan@),
    {
        let Reuse { target, candidates, phase: _ } = self;
        let Scan { target: kind, port: at, phase } = scan;
        match phase {
            ScanPhase::Done { found: Some(url) } => {
                match port_of(url.as_str()) {
                    Some(port) => {
                        if process_of(store).is_none() {
                            store.current = Some(
                                ManageableBrowserInstance::adopted(
                                    target.clone(),
                                    port,
                                    url.clone(),
                                ),
                            );
                            Reuse {
                                target,
                                candidates,
                                phase: ReusePhase::Done { found: Some(url) },
                            }
                        } else {
                            Reuse { target, candidates, phase: ReusePhase::Done { found: None } }
                        }
                    },
                    None => Reuse { target, candidates, phase: ReusePhase::Done { found: None } },
                }
            },
            ScanPhase::Done { found: None } => Reuse {
                target,
                candidates,
                phase: ReusePhase::Done { found: None },
            },
            phase => Reuse {
                target,
                candidates,
                phase: ReusePhase::Scanning { scan: Scan { target: kind, port: at, phase } },
            },
        }
    }

    /// Takes the outcome of the pending effect.
    pub fn advance(self, store: &mut SessionStore, outcome: Outcome) -> (next: Reuse)
        ensures
            (next@, final(store)@) == self@.advanced(old(store)@, outcome@),
    {
        let Reuse { target, candidates, phase } = self;
        match (phase, outcome) {
            (
                ReusePhase::Polling { pid, port, url },
                Outcome::Polled { status: ChildStatus::Running },
            ) => Reuse {
                target,
                candidates,
                phase: ReusePhase::Probing { child: Some(pid), port, url },
            },
            (
                ReusePhase::Polling { pid, .. },
                Outcome::Polled { status: ChildStatus::Exited { .. } },
            ) => {
                forget(store, pid);
                let reuse = Reuse { target, candidates, phase: ReusePhase::Locating };
                reuse.cleared(store)
            },
            (ReusePhase::Polling { pid, .. }, Outcome::Polled { status: ChildStatus::Unknown }) => {
                Reuse { target, candidates, phase: ReusePhase::Evicting { pid } }
            },
            (ReusePhase::Probing { child, url, .. }, Outcome::Got { result }) => {
                if result.is_success() {
                    Reuse { target, candidates, phase: ReusePhase::Done { found: Some(url) } }
                } else {
                    match child {
                        Some(pid) => Reuse {
                            target,
                            candidates,
                            phase: ReusePhase::Evicting { pid },
                        },
                        None => {
                            let reuse = Reuse { target, candidates, phase: ReusePhase::Locating };
                            reuse.cleared(store)
                        },
                    }
                }
            },
            (ReusePhase::Evicting { pid }, Outcome::Killed) => {
                forget(store, pid);
                let reuse = Reuse { target, candidates, phase: ReusePhase::Locating };
                reuse.cleared(store)
            },
            (ReusePhase::Locating, Outcome::Located { installed }) => {
                let found = detect_browsers(&candidates, &installed);
                let phase = match find_by_path(&found, target.as_str()) {
                    Some(browser) => ReusePhase::Scanning {
                        scan: scan_for_existing_browser_instances(browser.id.as_str()),
                    },
                    None => ReusePhase::Done { found: None },
                };
                Reuse { target, candidates, phase }
            },
            (ReusePhase::Scanning { scan }, outcome) => {
                let scan = scan.advance(outcome);
                let reuse = Reuse { target, candidates, phase: ReusePhase::Locating };
                reuse.scanned(store, scan)
            },
            (phase, _) => Reuse { target, candidates, phase },
        }
    }
}

/// Switching browsers kills the process of the session that is replaced if
/// and only if this manager started it. For a store that holds a session of
/// another browser, the first step asks for a kill exactly when the session
/// has a process, and then for that one; a browser that was only found
/// running is left alone, and its record is dropped at once.
pub proof fn lemma_switch_kills_only_own_process(
    held: SessionView,
    target: Seq<char>,
    candidates: Seq<BrowserView>,
)
    requires
        held.path != target,
    ensures
        ({
            let (reuse, store) = ReuseView::begin(Some(held), target, candidates);
            &&& held.launched_by_app() ==> reuse.pending() == Some(
                EffectView::Kill { pid: held.child->0 },
            ) && store == Some(held)
            &&& !held.launched_by_app() ==> reuse.pending() == Some(
                EffectView::Locate { paths: paths_of(candidates) },
            ) && store is None
        }),
{
}

/// The first step of an attempt leaves attempt and store in agreement.
pub proof fn lemma_reuse_begins_in_agreement(
    store: Option<SessionView>,
    target: Seq<char>,
    candidates: Seq<BrowserView>,
)
    ensures
        ReuseView::begin(store, target, candidates).0.agrees_with(
            ReuseView::begin(store, target, candidates).1,
        ),
{
}

/// Every step keeps attempt and store in agreement. So a kill is only ever
/// asked for the process that the store holds, a running browser is only
/// searched while the store is empty, and an address is only returned for the
/// browser in the store.
pub proof fn lemma_reuse_stays_in_agreement(
    reuse: ReuseView,
    store: Option<SessionView>,
    outcome: OutcomeView,
)
    requires
        reuse.agrees_with(store),
    ensures
        reuse.advanced(store, outcome).0.agrees_with(reuse.advanced(store, outcome).1),
        reuse.pending() matches Some(EffectView::Kill { pid }) ==> store matches Some(s)
            && s.child == Some(pid),
{
}

/// An attempt never leaves a process of ours without a record. Whatever the
/// store holds when an attempt begins or takes a step: a process that it held
/// before is still held afterwards, unless the step was the report that this
/// very process was killed, as the attempt had asked, or that it has ended.
pub proof fn lemma_reuse_never_orphans_a_process(
    reuse: ReuseView,
    store: Option<SessionView>,
    outcome: OutcomeView,
    pid: u32,
)
    requires
        held_process(store) == Some(pid),
    ensures
        held_process(ReuseView::begin(store, reuse.target, reuse.candidates).1) == Some(pid),
        held_process(reuse.advanced(store, outcome).1) == Some(pid) || (outcome
            == OutcomeView::Killed && reuse.pending() == Some(EffectView::Kill { pid })) || (
        outcome matches OutcomeView::Polled { status: ChildStatus::Exited { .. } }
            && reuse.pending() == Some(EffectView::Poll { pid })),
{
}

/// Where the acquisition of a browser stands.
pub enum AcquirePhase {
    /// No browser was named: the installed ones are to be found, and the
    /// first of them is taken.
    Resolving,
    /// A browser is sought without starting one.
    Reusing { reuse: Reuse },
    /// A free port for a new browser is searched.
    Allocating { target: String, search: PortSearch },
    /// A new browser is started.
    Launching { launch: Launch },
    /// A browser was adopted or started; a first page is to be opened in it.
    /// Whether that works does not matter.
    Greeting { port: u16, url: String },
    /// Over.
    Done { result: Result<String, SessionError> },
}

/// The mathematical content of an [`AcquirePhase`].
pub enum AcquirePhaseView {
    Resolving,
    Reusing { reuse: ReuseView },
    Allocating { target: Seq<char>, search: PortSearch },
    Launching { launch: LaunchView },
    Greeting { port: u16, url: Seq<char> },
    Done { result: Result<Seq<char>, ErrorView> },
}

/// The acquisition of a usable browser.
pub struct Acquire {
    pub candidates: Vec<BrowserConfig>,
    pub settings: LaunchSettings,
    pub phase: AcquirePhase,
}

/// The mathematical content of an [`Acquire`].
pub struct AcquireView {
    pub candidates: Seq<BrowserView>,
    pub settings: SettingsView,
    pub phase: AcquirePhaseView,
}

impl View for AcquirePhase {
    type V = AcquirePhaseView;

    open spec fn view(&self) -> AcquirePhaseView {
        match *self {
            AcquirePhase::Resolving => AcquirePhaseView::Resolving,
            AcquirePhase::Reusing { reuse } => AcquirePhaseView::Reusing { reuse: reuse@ },
            AcquirePhase::Allocating { target, search } => AcquirePhaseView::Allocating {
                target: target@,
                search,
            },
            AcquirePhase::Launching { launch } => AcquirePhaseView::Launching { launch: launch@ },
            AcquirePhase::Greeting { port, url } => AcquirePhaseView::Greeting { port, url: url@ },
            AcquirePhase::Done { result } => AcquirePhaseView::Done { result: url_view(result) },
        }
    }
}

impl View for Acquire {
    type V = AcquireView;

    open spec fn view(&self) -> AcquireView {
        AcquireView {
            candidates: browsers(self.candidates@),
            settings: self.settings@,
            phase: self.phase@,
        }
    }
}

impl AcquireView {
    /// The acquisition in another phase.
    pub open spec fn at(self, phase: AcquirePhaseView) -> AcquireView {
        AcquireView { phase, ..self }
    }

    /// The acquisition once a browser was adopted or started: a first page
    /// is opened in it, on the port of the session.
    pub open spec fn welcomed(self, store: Option<SessionView>, url: Seq<char>) -> AcquireView {
        match store {
            Some(s) => self.at(AcquirePhaseView::Greeting { port: s.port, url }),
            None => self.at(AcquirePhaseView::Done { result: Ok(url) }),
        }
    }

    /// The acquisition with a reuse that has taken a step. A session that
    /// proved alive ends it with the stored address; a browser that was just
    /// adopted (`adopted`) gets a first page; if none was found, a free port
    /// is searched.
    pub open spec fn reused(
        self,
        store: Option<SessionView>,
        reuse: ReuseView,
        adopted: bool,
    ) -> AcquireView {
        match reuse.phase {
            ReusePhaseView::Done { found: Some(url) } => if adopted {
                self.welcomed(store, url)
            } else {
                self.at(AcquirePhaseView::Done { result: Ok(url) })
            },
            ReusePhaseView::Done { found: None } => self.at(
                AcquirePhaseView::Allocating {
                    target: reuse.target,
                    search: PortSearch::begin(FREE_PORT_START),
                },
            ),
            _ => self.at(AcquirePhaseView::Reusing { reuse }),
        }
    }

    /// The acquisition with a port search that has taken a step. On the port
    /// that was found the browser is started; without a port the acquisition
    /// fails with `PortExhausted`.
    pub open spec fn allocated(
        self,
        store: Option<SessionView>,
        target: Seq<char>,
        search: PortSearch,
    ) -> (AcquireView, Option<SessionView>) {
        match search.phase {
            SearchPhase::Done { port: Some(port) } => {
                let launch = LaunchView::begin(
                    target,
                    lowercase(target),
                    port,
                    allowed_origins(self.settings.is_dev, self.settings.platform),
                    self.settings.platform,
                    self.settings.temp_dir,
                );
                (self.launched(store, launch), store)
            },
            SearchPhase::Done { port: None } => (
                self.at(AcquirePhaseView::Done { result: Err(ErrorView::PortExhausted) }),
                store,
            ),
            _ => (self.at(AcquirePhaseView::Allocating { target, search }), store),
        }
    }

    /// The acquisition with a launch that has taken a step. A browser that
    /// came up gets a first page.
    pub open spec fn launched(self, store: Option<SessionView>, launch: LaunchView) -> AcquireView {
        match launch.phase {
            LaunchPhaseView::Done { result: Ok(url) } => self.welcomed(store, url),
            LaunchPhaseView::Done { result: Err(e) } => self.at(
                AcquirePhaseView::Done { result: Err(e) },
            ),
            _ => self.at(AcquirePhaseView::Launching { launch }),
        }
    }

    /// The first step. With a browser named, the store is looked at as
    /// [`ReuseView::begin`] says.
    pub open spec fn begin(
        store: Option<SessionView>,
        path: Option<Seq<char>>,
        candidates: Seq<BrowserView>,
        settings: SettingsView,
    ) -> (AcquireView, Option<SessionView>) {
        let fresh = AcquireView { candidates, settings, phase: AcquirePhaseView::Resolving };
        match path {
            Some(target) => {
                let (reuse, store) = ReuseView::begin(store, target, candidates);
                (fresh.reused(store, reuse, false), store)
            },
            None => (fresh, store),
        }
    }

    /// The effect that the acquisition waits for.
    pub open spec fn pending(self) -> Option<EffectView> {
        match self.phase {
            AcquirePhaseView::Resolving => Some(
                EffectView::Locate { paths: paths_of(self.candidates) },
            ),
            AcquirePhaseView::Reusing { reuse } => reuse.pending(),
            AcquirePhaseView::Allocating { search, .. } => search.pending_effect(),
            AcquirePhaseView::Launching { launch } => launch.pending(),
            AcquirePhaseView::Greeting { port, .. } => Some(
                EffectView::Get {
                    url: new_page_url(port, Some("https://www.google.com"@)),
                    timeout_secs: PAGE_TIMEOUT_SECS,
                },
            ),
            AcquirePhaseView::Done { .. } => None,
        }
    }

    /// The result, once the acquisition is over.
    pub open spec fn result(self) -> Option<Result<Seq<char>, ErrorView>> {
        match self.phase {
            AcquirePhaseView::Done { result } => Some(result),
            _ => None,
        }
    }

    /// The acquisition and the store after an outcome.
    ///
    /// The order is fixed: the session in the store is checked or evicted
    /// first; only with an empty store is a running browser adopted; and only
    /// when none was found is a port searched and a browser started.
    pub open spec fn advanced(self, store: Option<SessionView>, outcome: OutcomeView) -> (
        AcquireView,
        Option<SessionView>,
    ) {
        match (self.phase, outcome) {
            (AcquirePhaseView::Resolving, OutcomeView::Located { installed }) => {
                let found = detected(self.candidates, installed);
                if found.len() == 0 {
                    (
                        self.at(AcquirePhaseView::Done { result: Err(ErrorView::NoBrowserFound) }),
                        store,
                    )
                } else {
                    let (reuse, store) = ReuseView::begin(store, found[0].path, self.candidates);
                    (self.reused(store, reuse, false), store)
                }
            },
            (AcquirePhaseView::Reusing { reuse }, _) => {
                let adopted = reuse.phase is Scanning;
                let (reuse, store) = reuse.advanced(store, outcome);
                (self.reused(store, reuse, adopted), store)
            },
            (AcquirePhaseView::Allocating { target, search }, _) => self.allocated(
                store,
                target,
                search.advanced(outcome),
            ),
            (AcquirePhaseView::Launching { launch }, _) => {
                let (launch, store) = launch.advanced(store, outcome);
                (self.launched(store, launch), store)
            },
            (AcquirePhaseView::Greeting { url, .. }, OutcomeView::Got { .. }) => (
                self.at(AcquirePhaseView::Done { result: Ok(url) }),
                store,
            ),
            _ => (self, store),
        }
    }

    /// The acquisition and the store agree. While a port is searched and
    /// while a browser is started, the store is empty: the session that was
    /// there has been evicted before. At the end the store holds the browser
    /// whose address is returned; after a failure to start one it is empty.
    pub open spec fn agrees_with(self, store: Option<SessionView>) -> bool {
        match self.phase {
            AcquirePhaseView::Resolving => true,
            AcquirePhaseView::Reusing { reuse } => reuse.agrees_with(store),
            AcquirePhaseView::Allocating { .. } => store is None,
            AcquirePhaseView::Launching { launch } => store is None && launch.phase !is Done
                && launch.phase !is Replacing,
            AcquirePhaseView::Greeting { port, url } => store matches Some(s) && s.ws_url == url
                && s.port == port,
            AcquirePhaseView::Done { result: Ok(url) } => store matches Some(s) && s.ws_url == url,
            AcquirePhaseView::Done { result: Err(e) } => e == ErrorView::NoBrowserFound
                || store is None,
        }
    }
}

/// Starts the acquisition of a usable browser: the one at `browser_path`,
/// or the first installed one where none is named.
pub fn launch_browser(
    store: &mut SessionStore,
    browser_path: Option<String>,
    candidates: &Vec<BrowserConfig>,
    settings: &LaunchSettings,
) -> (acquire: Acquire)
    ensures
        (acquire@, final(store)@) == AcquireView::begin(
            old(store)@,
            text_view(browser_path),
            browsers(candidates@),
            settings@,
        ),
{
    let fresh = Acquire {
        candidates: clone_browsers(candidates),
        settings: settings.duplicate(),
        phase: AcquirePhase::Resolving,
    };
    match browser_path {
        Some(target) => {
            let reuse = get_running_instance(store, target.as_str(), candidates);
            fresh.reused(store, reuse, false)
        },
        None => fresh,
    }
}

impl Acquire {
    /// The effect to perform next, or nothing once the acquisition is over.
    pub fn pending(&self) -> (effect: Option<Effect>)
        ensures
            effect_view(effect) == self@.pending(),
    {
        match &self.phase {
            AcquirePhase::Resolving => Some(
                Effect::Locate { paths: candidate_paths(&self.candidates) },
            ),
            AcquirePhase::Reusing { reuse } => reuse.pending(),
            AcquirePhase::Allocating { search, .. } => search.pending(),
            AcquirePhase::Launching { launch } => launch.pending(),
            AcquirePhase::Greeting { port, .. } => Some(
                Effect::Get {
                    url: new_page_address(*port, Some("https://www.google.com")),
                    timeout_secs: PAGE_TIMEOUT_SECS,
                },
            ),
            AcquirePhase::Done { .. } => None,
        }
    }

    /// The result, once the acquisition is over: the websocket address of
    /// the browser that is now in the store, or why there is none.
    pub fn result(&self) -> (r: Option<Result<String, SessionError>>)
        ensures
            finished_view(r) == self@.result(),
    {
        match &self.phase {
            AcquirePhase::Done { result } => Some(duplicate_url(result)),
            _ => None,
        }
    }

    fn welcomed(store: &SessionStore, url: String) -> (phase: AcquirePhase)
        ensures
            phase@ == match store@ {
                Some(s) => AcquirePhaseView::Greeting { port: s.port, url: url@ },
                None => AcquirePhaseView::Done { result: Ok(url@) },
            },
    {
        match &store.current {
            Some(session) => AcquirePhase::Greeting { port: session.port, url },
            None => AcquirePhase::Done { result: Ok(url) },
        }
    }

    fn reused(self, store: &SessionStore, reuse: Reuse, adopted: bool) -> (next: Acquire)
        ensures
            next@ == self@.reused(store@, reuse@, adopted),
    {
        let Acquire { candidates, settings, phase: _ } = self;
        let Reuse { target, candidates: listed, phase } = reuse;
        let phase = match phase {
            ReusePhase::Done { found: Some(url) } => {
                if adopted {
                    Acquire::welcomed(store, url)
                } else {
                    AcquirePhase::Done { result: Ok(url) }
                }
            },
            ReusePhase::Done { found: None } => AcquirePhase::Allocating {
                target,
                search: find_free_port(FREE_PORT_START),
            },
            phase => AcquirePhase::Reusing { reuse: Reuse { target, candidates: listed, phase } },
        };
        Acquire { candidates, settings, phase }
    }

    fn allocated(self, store: &mut SessionStore, target: String, search: PortSearch) -> (next:
        Acquire)
        ensures
            (next@, final(store)@) == self@.allocated(old(store)@, target@, search),
    {
        let Acquire { candidates, settings, phase: _ } = self;
        let phase = match search.phase {
            SearchPhase::Done { port: Some(port) } => {
                let launch = launch_new_instance(target.as_str(), port, &settings);
                let acquire = Acquire { candidates, settings, phase: AcquirePhase::Resolving };
                return acquire.launched(store, launch);
            },
            SearchPhase::Done { port: None } => AcquirePhase::Done {
                result: Err(SessionError::PortExhausted),
            },
            _ => AcquirePhase::Allocating { target, search },
        };
        Acquire { candidates, settings, phase }
    }

    fn launched(self, store: &SessionStore, launch: Launch) -> (next: Acquire)
        ensures
            next@ == self@.launched(store@, launch@),
    {
        let Acquire { candidates, settings, phase: _ } = self;
        let Launch { path, port, args, greets, phase } = launch;
        let phase = match phase {
            LaunchPhase::Done { result: Ok(url) } => Acquire::welcomed(store, url),
            LaunchPhase::Done { result: Err(e) } => AcquirePhase::Done { result: Err(e) },
            phase => AcquirePhase::Launching { launch: Launch { path, port, args, greets, phase } },
        };
        Acquire { candidates, settings, phase }
    }

    /// Takes the outcome of the pending effect.
    pub fn advance(self, store: &mut SessionStore, outcome: Outcome) -> (next: Acquire)
        ensures
            (next@, final(store)@) == self@.advanced(old(store)@, outcome@),
    {
        let Acquire { candidates, settings, phase } = self;
        match (phase, outcome) {
            (AcquirePhase::Resolving, Outcome::Located { installed }) => {
                let found = detect_browsers(&candidates, &installed);
                if found.len() == 0 {
                    Acquire {
                        candidates,
                        settings,
                        phase: AcquirePhase::Done { result: Err(SessionError::NoBrowserFound) },
                    }
                } else {
                    assert(browsers(found@)[0] == found@[0]@);
                    let reuse = get_running_instance(store, found[0].path.as_str(), &candidates);
                    let acquire = Acquire { candidates, settings, phase: AcquirePhase::Resolving };
                    acquire.reused(store, reuse, false)
                }
            },
            (AcquirePhase::Reusing { reuse }, outcome) => {
                let adopted = match &reuse.phase {
                    ReusePhase::Scanning { .. } => true,
                    _ => false,
                };
                let reuse = reuse.advance(store, outcome);
                let acquire = Acquire { candidates, settings, phase: AcquirePhase::Resolving };
                acquire.reused(store, reuse, adopted)
            },
            (AcquirePhase::Allocating { target, search }, outcome) => {
                let search = search.advance(&outcome);
                let acquire = Acquire { candidates, settings, phase: AcquirePhase::Resolving };
                acquire.allocated(store, target, search)
            },
            (AcquirePhase::Launching { launch }, outcome) => {
                let launch = launch.advance(store, outcome);
                let acquire = Acquire { candidates, settings, phase: AcquirePhase::Resolving };
                acquire.launched(store, launch)
            },
            (AcquirePhase::Greeting { url, .. }, Outcome::Got { .. }) => Acquire {
                candidates,
                settings,
                phase: AcquirePhase::Done { result: Ok(url) },
            },
            (phase, _) => Acquire { candidates, settings, phase },
        }
    }
}

/// The first step of an acquisition leaves acquisition and store in
/// agreement.
pub proof fn lemma_acquire_begins_in_agreement(
    store: Option<SessionView>,
    path: Option<Seq<char>>,
    candidates: Seq<BrowserView>,
    settings: SettingsView,
)
    ensures
        AcquireView::begin(store, path, candidates, settings).0.agrees_with(
            AcquireView::begin(store, path, candidates, settings).1,
        ),
{
}

/// Every step keeps acquisition and store in agreement. So there is never
/// more than one session, and never a session beside a browser that is being
/// started: a process is started, and a port searched for it, only while the
/// store is empty, and a kill that is asked for while a session is held is
/// for the process of that session.
pub proof fn lemma_acquire_stays_in_agreement(
    acquire: AcquireView,
    store: Option<SessionView>,
    outcome: OutcomeView,
)
    requires
        acquire.agrees_with(store),
    ensures
        acquire.advanced(store, outcome).0.agrees_with(acquire.advanced(store, outcome).1),
        acquire.pending() matches Some(EffectView::Spawn { .. }) ==> store is None,
        acquire.pending() matches Some(EffectView::Bind { .. }) ==> store is None,
        acquire.pending() matches Some(EffectView::Kill { pid }) ==> (store matches Some(s)
            ==> s.child == Some(pid)),
{
    match acquire.phase {
        AcquirePhaseView::Reusing { reuse } => {
            lemma_reuse_stays_in_agreement(reuse, store, outcome);
        },
        AcquirePhaseView::Resolving => {
            if let OutcomeView::Located { installed } = outcome {
                let found = detected(acquire.candidates, installed);
                if found.len() > 0 {
                    lemma_reuse_begins_in_agreement(store, found[0].path, acquire.candidates);
                }
            }
        },
        _ => {},
    }
}

/// Asking twice gives the same browser: when an acquisition has ended with
/// an address, the next one for the same executable first checks that very
/// session, and returns the identical address as soon as the session proves
/// alive, without a port being searched or a process started.
pub proof fn lemma_live_session_is_reused(
    held: SessionView,
    candidates: Seq<BrowserView>,
    settings: SettingsView,
    answer: FetchView,
)
    requires
        answer.is_success(),
    ensures
        ({
            let (first, store) = AcquireView::begin(
                Some(held),
                Some(held.path),
                candidates,
                settings,
            );
            let checked = if held.child is Some {
                first.advanced(store, OutcomeView::Polled { status: ChildStatus::Running })
            } else {
                (first, store)
            };
            let after = checked.0.advanced(checked.1, OutcomeView::Got { result: answer });
            &&& store == Some(held)
            &&& first.pending() == if held.child is Some {
                Some(EffectView::Poll { pid: held.child->0 })
            } else {
                Some(
                    EffectView::Get {
                        url: version_url(held.port),
                        timeout_secs: LIVENESS_TIMEOUT_SECS,
                    },
                )
            }
            &&& checked.0.pending() == Some(
                EffectView::Get { url: version_url(held.port), timeout_secs: LIVENESS_TIMEOUT_SECS },
            )
            &&& after.0.result() == Some(Ok::<_, ErrorView>(held.ws_url))
            &&& after.1 == Some(held)
        }),
{
}

/// An acquisition never leaves a process of ours without a record, whatever
/// the store holds: a process that the store held before a step is still held
/// afterwards, unless the step was the report that this very process was
/// killed, as the acquisition had asked, or that it has ended.
pub proof fn lemma_acquire_never_orphans_a_process(
    acquire: AcquireView,
    store: Option<SessionView>,
    outcome: OutcomeView,
    pid: u32,
)
    requires
        held_process(store) == Some(pid),
    ensures
        held_process(acquire.advanced(store, outcome).1) == Some(pid) || (outcome
            == OutcomeView::Killed && acquire.pending() == Some(EffectView::Kill { pid })) || (
        outcome matches OutcomeView::Polled { status: ChildStatus::Exited { .. } }
            && acquire.pending() == Some(EffectView::Poll { pid })),
{
    match acquire.phase {
        AcquirePhaseView::Reusing { reuse } => {
            lemma_reuse_never_orphans_a_process(reuse, store, outcome, pid);
        },
        AcquirePhaseView::Launching { launch } => {
            lemma_launch_never_orphans_a_process(launch, store, outcome, pid);
        },
        AcquirePhaseView::Resolving => {
            if let OutcomeView::Located { installed } = outcome {
                let found = detected(acquire.candidates, installed);
                if found.len() > 0 {
                    let fresh = ReuseView {
                        target: found[0].path,
                        candidates: acquire.candidates,
                        phase: ReusePhaseView::Locating,
                    };
                    lemma_reuse_never_orphans_a_process(fresh, store, outcome, pid);
                }
            }
        },
        _ => {},
    }
}

} // verus!
