//! A trial run: can this browser be found running, or be started? What is
//! tried and what comes of it is written down line by line.

use crate::catalog::{
    browsers, candidate_paths, detect_browsers, detected, find_by_path, paths_of, with_path,
    BrowserConfig, BrowserView,
};
use crate::discovery::effect_view;
use crate::effects::{texts, Effect, EffectView, Outcome, OutcomeView};
use crate::errors::ErrorView;
use crate::launcher::{
    allowed_origins, launch_new_instance, lemma_launch_writes_only_on_success, Launch,
    LaunchPhase, LaunchPhaseView, LaunchSettings, LaunchView, SettingsView,
};
use crate::manager::{clone_browsers, FREE_PORT_START};
use crate::ports::{
    find_free_port, scan_for_existing_browser_instances, PortSearch, Scan, ScanPhase, ScanPhaseView,
    ScanView, SearchPhase,
};
use crate::session::{sunset_browser_instance, SessionStore, SessionView, Teardown};
use crate::text::{decimal, lowercase, push_decimal};
use vstd::prelude::*;

verus! {

/// Where a trial run stands.
pub enum DiagnosisPhase {
    /// The candidate paths are to be looked for on disk.
    Locating,
    /// A running browser of the kind is searched.
    Scanning { scan: Scan },
    /// A free port is searched.
    Allocating { search: PortSearch },
    /// The browser is started.
    Launching { launch: Launch },
    /// The browser that was started for the trial is closed again.
    Cleaning { teardown: Teardown },
    /// Over.
    Done,
}

/// The mathematical content of a [`DiagnosisPhase`].
pub enum DiagnosisPhaseView {
    Locating,
    Scanning { scan: ScanView },
    Allocating { search: PortSearch },
    Launching { launch: LaunchView },
    Cleaning { teardown: Teardown },
    Done,
}

/// A trial run for one executable.
pub struct Diagnosis {
    pub path: String,
    pub candidates: Vec<BrowserConfig>,
    pub settings: LaunchSettings,
    /// What was found so far.
    pub lines: Vec<String>,
    pub phase: DiagnosisPhase,
}

/// The mathematical content of a [`Diagnosis`].
pub struct DiagnosisView {
    pub path: Seq<char>,
    pub candidates: Seq<BrowserView>,
    pub settings: SettingsView,
    pub lines: Seq<Seq<char>>,
    pub phase: DiagnosisPhaseView,
}

impl View for DiagnosisPhase {
    type V = DiagnosisPhaseView;

    open spec fn view(&self) -> DiagnosisPhaseView {
        match *self {
            DiagnosisPhase::Locating => DiagnosisPhaseView::Locating,
            DiagnosisPhase::Scanning { scan } => DiagnosisPhaseView::Scanning { scan: scan@ },
            DiagnosisPhase::Allocating { search } => DiagnosisPhaseView::Allocating { search },
            DiagnosisPhase::Launching { launch } => DiagnosisPhaseView::Launching {
                launch: launch@,
            },
            DiagnosisPhase::Cleaning { teardown } => DiagnosisPhaseView::Cleaning { teardown },
            DiagnosisPhase::Done => DiagnosisPhaseView::Done,
        }
    }
}

impl View for Diagnosis {
    type V = DiagnosisView;

    open spec fn view(&self) -> DiagnosisView {
        DiagnosisView {
            path: self.path@,
            candidates: browsers(self.candidates@),
            settings: self.settings@,
            lines: texts(self.lines@),
            phase: self.phase@,
        }
    }
}

/// The lines as one text, with a line break between every two.
pub open spec fn report_of(lines: Seq<Seq<char>>) -> Seq<char>
    decreases lines.len(),
{
    if lines.len() == 0 {
        Seq::<char>::empty()
    } else if lines.len() == 1 {
        lines[0]
    } else {
        report_of(lines.drop_last()) + "\n"@ + lines.last()
    }
}

impl DiagnosisView {
    /// The run with one more line, in another phase.
    pub open spec fn said(self, line: Seq<char>, phase: DiagnosisPhaseView) -> DiagnosisView {
        DiagnosisView { lines: self.lines.push(line), phase, ..self }
    }

    /// The run in another phase.
    pub open spec fn at(self, phase: DiagnosisPhaseView) -> DiagnosisView {
        DiagnosisView { phase, ..self }
    }

    /// The first step. An executable that does not exist ends the run at
    /// once. The store is not touched unless a browser comes up.
    pub open spec fn begin(
        store: Option<SessionView>,
        path: Seq<char>,
        exists: bool,
        candidates: Seq<BrowserView>,
        settings: SettingsView,
    ) -> (DiagnosisView, Option<SessionView>) {
        let fresh = DiagnosisView {
            path,
            candidates,
            settings,
            lines: Seq::empty(),
            phase: DiagnosisPhaseView::Locating,
        };
        if exists {
            (fresh.said("Browser executable found"@, DiagnosisPhaseView::Locating), store)
        } else {
            (
                fresh.said(
                    "Browser executable not found at specified path"@,
                    DiagnosisPhaseView::Done,
                ),
                store,
            )
        }
    }

    /// The effect that the run waits for.
    pub open spec fn pending(self) -> Option<EffectView> {
        match self.phase {
            DiagnosisPhaseView::Locating => Some(
                EffectView::Locate { paths: paths_of(self.candidates) },
            ),
            DiagnosisPhaseView::Scanning { scan } => scan.pending(),
            DiagnosisPhaseView::Allocating { search } => search.pending_effect(),
            DiagnosisPhaseView::Launching { launch } => launch.pending(),
            DiagnosisPhaseView::Cleaning { teardown } => teardown.pending_effect(),
            DiagnosisPhaseView::Done => None,
        }
    }

    /// The report, once the run is over.
    pub open spec fn report(self) -> Option<Seq<char>> {
        match self.phase {
            DiagnosisPhaseView::Done => Some(report_of(self.lines)),
            _ => None,
        }
    }

    /// The run turned to the search for a free port.
    pub open spec fn allocating(self) -> DiagnosisView {
        self.at(DiagnosisPhaseView::Allocating { search: PortSearch::begin(FREE_PORT_START) })
    }

    /// The run with a scan that has taken a step: a running browser ends the
    /// run; without one a port is searched.
    pub open spec fn scanned(self, scan: ScanView) -> DiagnosisView {
        match scan.phase {
            ScanPhaseView::Done { found: Some(url) } => self.said(
                "Found existing "@ + scan.target + " instance: "@ + url,
                DiagnosisPhaseView::Done,
            ),
            ScanPhaseView::Done { found: None } => self.said(
                "No existing instances found"@,
                DiagnosisPhaseView::Done,
            ).allocating(),
            _ => self.at(DiagnosisPhaseView::Scanning { scan }),
        }
    }

    /// The run with a launch that has taken a step. A browser that came up
    /// is closed again, as a release does; a failure is written down.
    pub open spec fn launched(self, store: Option<SessionView>, launch: LaunchView) -> (
        DiagnosisView,
        Option<SessionView>,
    ) {
        match launch.phase {
            LaunchPhaseView::Done { result: Ok(url) } => {
                let (teardown, store) = Teardown::release(store);
                (
                    self.said(
                        "Successfully launched browser with WebSocket: "@ + url,
                        DiagnosisPhaseView::Done,
                    ).cleaned(teardown),
                    store,
                )
            },
            LaunchPhaseView::Done { result: Err(e) } => (
                self.said("Failed to launch browser: "@ + e.message(), DiagnosisPhaseView::Done),
                store,
            ),
            _ => (self.at(DiagnosisPhaseView::Launching { launch }), store),
        }
    }

    /// The run with a port search that has taken a step: on the port that
    /// was found the browser is started.
    pub open spec fn allocated(self, store: Option<SessionView>, search: PortSearch) -> (
        DiagnosisView,
        Option<SessionView>,
    ) {
        match search.phase {
            SearchPhase::Done { port: Some(port) } => {
                let launch = LaunchView::begin(
                    self.path,
                    lowercase(self.path),
                    port,
                    allowed_origins(self.settings.is_dev, self.settings.platform),
                    self.settings.platform,
                    self.settings.temp_dir,
                );
                self.said(
                    "Found free port: "@ + decimal(port as nat),
                    DiagnosisPhaseView::Done,
                ).said("Attempting to launch browser..."@, DiagnosisPhaseView::Done).launched(
                    store,
                    launch,
                )
            },
            SearchPhase::Done { port: None } => (
                self.said("No free ports available"@, DiagnosisPhaseView::Done),
                store,
            ),
            _ => (self.at(DiagnosisPhaseView::Allocating { search }), store),
        }
    }

    /// The run with a closing that has taken a step.
    pub open spec fn cleaned(self, teardown: Teardown) -> DiagnosisView {
        if teardown.done() {
            self.said("Cleaned up test instance"@, DiagnosisPhaseView::Done)
        } else {
            self.at(DiagnosisPhaseView::Cleaning { teardown })
        }
    }

    /// The run and the store after an outcome.
    pub open spec fn advanced(self, store: Option<SessionView>, outcome: OutcomeView) -> (
        DiagnosisView,
        Option<SessionView>,
    ) {
        match (self.phase, outcome) {
            (DiagnosisPhaseView::Locating, OutcomeView::Located { installed }) => match with_path(
                detected(self.candidates, installed),
                self.path,
            ) {
                Some(browser) => (
                    self.said(
                        "Browser detected as: "@ + browser.id,
                        DiagnosisPhaseView::Done,
                    ).scanned(ScanView::begin(browser.id)),
                    store,
                ),
                None => (self.allocating(), store),
            },
            (DiagnosisPhaseView::Scanning { scan }, _) => (
                self.scanned(scan.advanced(outcome)),
                store,
            ),
            (DiagnosisPhaseView::Allocating { search }, _) => self.allocated(
                store,
                search.advanced(outcome),
            ),
            (DiagnosisPhaseView::Launching { launch }, _) => {
                let (launch, store) = launch.advanced(store, outcome);
                self.launched(store, launch)
            },
            (DiagnosisPhaseView::Cleaning { teardown }, _) => (
                self.cleaned(teardown.advanced(outcome)),
                store,
            ),
            _ => (self, store),
        }
    }
}

fn say(lines: &mut Vec<String>, line: String)
    ensures
        texts(final(lines)@) == texts(old(lines)@).push(line@),
{
    lines.push(line);
    assert(texts(lines@) =~= texts(old(lines)@).push(line@));
}

/// Starts a trial run for the executable at `browser_path`; `exists` says
/// whether there is such a file.
pub fn debug_browser_connection(
    store: &mut SessionStore,
    browser_path: &str,
    exists: bool,
    candidates: &Vec<BrowserConfig>,
    settings: &LaunchSettings,
) -> (d: Diagnosis)
    ensures
        (d@, final(store)@) == DiagnosisView::begin(
            old(store)@,
            browser_path@,
            exists,
            browsers(candidates@),
            settings@,
        ),
{
    let mut lines: Vec<String> = Vec::new();
    assert(texts(lines@) =~= Seq::<Seq<char>>::empty());
    let phase = if exists {
        say(&mut lines, String::from_str("Browser executable found"));
        DiagnosisPhase::Locating
    } else {
        say(&mut lines, String::from_str("Browser executable not found at specified path"));
        DiagnosisPhase::Done
    };
    Diagnosis {
        path: String::from_str(browser_path),
        candidates: clone_browsers(candidates),
        settings: settings.duplicate(),
        lines,
        phase,
    }
}

impl Diagnosis {
    /// The effect to perform next, or nothing once the run is over.
    pub fn pending(&self) -> (effect: Option<Effect>)
        ensures
            effect_view(effect) == self@.pending(),
    {
        match &self.phase {
            DiagnosisPhase::Locating => Some(
                Effect::Locate { paths: candidate_paths(&self.candidates) },
            ),
            DiagnosisPhase::Scanning { scan } => scan.pending(),
            DiagnosisPhase::Allocating { search } => search.pending(),
            DiagnosisPhase::Launching { launch } => launch.pending(),
            DiagnosisPhase::Cleaning { teardown } => teardown.pending(),
            DiagnosisPhase::Done => None,
        }
    }

    /// The report, once the run is over: the lines, one below the other.
    pub fn report(&self) -> (r: Option<String>)
        ensures
            match r {
                Some(text) => self@.report() == Some(text@),
                None => self@.report() is None,
            },
    {
        match &self.phase {
            DiagnosisPhase::Done => {
                let mut text = String::new();
                let mut i: usize = 0;
                assert(texts(self.lines@).take(0) =~= Seq::<Seq<char>>::empty());
                while i < self.lines.len()
                    invariant
                        i <= self.lines.len(),
                        text@ == report_of(texts(self.lines@).take(i as int)),
                    decreases self.lines.len() - i,
                {
                    let ghost upto = texts(self.lines@).take(i + 1);
                    proof {
                        assert(upto.drop_last() =~= texts(self.lines@).take(i as int));
                        assert(upto.last() == self.lines@[i as int]@);
                    }
                    if i > 0 {
                        text.append("\n");
                    }
                    text.append(self.lines[i].as_str());
                    proof {
                        if i == 0 {
                            assert(text@ =~= upto[0]);
                        }
                    }
                    i += 1;
                }
                assert(texts(self.lines@).take(self.lines.len() as int) =~= texts(self.lines@));
                Some(text)
            },
            _ => None,
        }
    }

    fn scanned(self, scan: Scan) -> (next: Diagnosis)
        ensures
            next@ == self@.scanned(scan@),
    {
        let Diagnosis { path, candidates, settings, mut lines, phase: _ } = self;
        let Scan { target, port, phase } = scan;
        let phase = match phase {
            ScanPhase::Done { found: Some(url) } => {
                let mut line = String::from_str("Found existing ");
                line.append(target.as_str());
                line.append(" instance: ");
                line.append(url.as_str());
                say(&mut lines, line);
                DiagnosisPhase::Done
            },
            ScanPhase::Done { found: None } => {
                say(&mut lines, String::from_str("No existing instances found"));
                DiagnosisPhase::Allocating { search: find_free_port(FREE_PORT_START) }
            },
            phase => DiagnosisPhase::Scanning { scan: Scan { target, port, phase } },
        };
        Diagnosis { path, candidates, settings, lines, phase }
    }

    fn cleaned(self, teardown: Teardown) -> (next: Diagnosis)
        ensures
            next@ == self@.cleaned(teardown),
    {
        let Diagnosis { path, candidates, settings, mut lines, phase: _ } = self;
        let phase = if teardown.is_done() {
            say(&mut lines, String::from_str("Cleaned up test instance"));
            DiagnosisPhase::Done
        } else {
            DiagnosisPhase::Cleaning { teardown }
        };
        Diagnosis { path, candidates, settings, lines, phase }
    }

    fn launched(self, store: &mut SessionStore, launch: Launch) -> (next: Diagnosis)
        ensures
            (next@, final(store)@) == self@.launched(old(store)@, launch@),
    {
        let Diagnosis { path, candidates, settings, mut lines, phase: _ } = self;
        let Launch { path: program, port, args, greets, phase } = launch;
        match phase {
            LaunchPhase::Done { result: Ok(url) } => {
                let mut line = String::from_str("Successfully launched browser with WebSocket: ");
                line.append(url.as_str());
                say(&mut lines, line);
                let teardown = sunset_browser_instance(store);
                let run = Diagnosis { path, candidates, settings, lines, phase: DiagnosisPhase::Done };
                run.cleaned(teardown)
            },
            LaunchPhase::Done { result: Err(e) } => {
                let mut line = String::from_str("Failed to launch browser: ");
                line.append(e.message().as_str());
                say(&mut lines, line);
                Diagnosis { path, candidates, settings, lines, phase: DiagnosisPhase::Done }
            },
            phase => Diagnosis {
                path,
                candidates,
                settings,
                lines,
                phase: DiagnosisPhase::Launching {
                    launch: Launch { path: program, port, args, greets, phase },
                },
            },
        }
    }

    fn allocated(self, store: &mut SessionStore, search: PortSearch) -> (next: Diagnosis)
        ensures
            (next@, final(store)@) == self@.allocated(old(store)@, search),
    {
        let Diagnosis { path, candidates, settings, mut lines, phase: _ } = self;
        match search.phase {
            SearchPhase::Done { port: Some(port) } => {
                let mut line = String::from_str("Found free port: ");
                push_decimal(&mut line, port as u64);
                say(&mut lines, line);
                say(&mut lines, String::from_str("Attempting to launch browser..."));
                let launch = launch_new_instance(path.as_str(), port, &settings);
                let run = Diagnosis { path, candidates, settings, lines, phase: DiagnosisPhase::Done };
                run.launched(store, launch)
            },
            SearchPhase::Done { port: None } => {
                say(&mut lines, String::from_str("No free ports available"));
                Diagnosis { path, candidates, settings, lines, phase: DiagnosisPhase::Done }
            },
            _ => Diagnosis {
                path,
                candidates,
                settings,
                lines,
                phase: DiagnosisPhase::Allocating { search },
            },
        }
    }

    /// Takes the outcome of the pending effect.
    pub fn advance(self, store: &mut SessionStore, outcome: Outcome) -> (next: Diagnosis)
        ensures
            (next@, final(store)@) == self@.advanced(old(store)@, outcome@),
    {
        let Diagnosis { path, candidates, settings, mut lines, phase } = self;
        match (phase, outcome) {
            (DiagnosisPhase::Locating, Outcome::Located { installed }) => {
                let found = detect_browsers(&candidates, &installed);
                match find_by_path(&found, path.as_str()) {
                    Some(browser) => {
                        let mut line = String::from_str("Browser detected as: ");
                        line.append(browser.id.as_str());
                        say(&mut lines, line);
                        let scan = scan_for_existing_browser_instances(browser.id.as_str());
                        let run = Diagnosis {
                            path,
                            candidates,
                            settings,
                            lines,
                            phase: DiagnosisPhase::Done,
                        };
                        run.scanned(scan)
                    },
                    None => Diagnosis {
                        path,
                        candidates,
                        settings,
                        lines,
                        phase: DiagnosisPhase::Allocating {
                            search: find_free_port(FREE_PORT_START),
                        },
                    },
                }
            },
            (DiagnosisPhase::Scanning { scan }, outcome) => {
                let scan = scan.advance(outcome);
                let run = Diagnosis { path, candidates, settings, lines, phase: DiagnosisPhase::Done };
                run.scanned(scan)
            },
            (DiagnosisPhase::Allocating { search }, outcome) => {
                let search = search.advance(&outcome);
                let run = Diagnosis { path, candidates, settings, lines, phase: DiagnosisPhase::Done };
                run.allocated(store, search)
            },
            (DiagnosisPhase::Launching { launch }, outcome) => {
                let launch = launch.advance(store, outcome);
                let run = Diagnosis { path, candidates, settings, lines, phase: DiagnosisPhase::Done };
                run.launched(store, launch)
            },
            (DiagnosisPhase::Cleaning { teardown }, outcome) => {
                let teardown = teardown.advance(&outcome);
                let run = Diagnosis { path, candidates, settings, lines, phase: DiagnosisPhase::Done };
                run.cleaned(teardown)
            },
            (phase, _) => Diagnosis { path, candidates, settings, lines, phase },
        }
    }
}

/// A trial run leaves no browser of its own behind: when the browser it
/// started has come up, the store is emptied as a release does, and the run
/// goes on to have that process looked at and killed. A trial whose launch
/// fails leaves the store as it was: see
/// [`crate::launcher::lemma_failed_launch_leaves_the_store`].
pub proof fn lemma_trial_closes_what_it_started(
    run: DiagnosisView,
    store: Option<SessionView>,
    launch: LaunchView,
    url: Seq<char>,
)
    requires
        launch.phase == (LaunchPhaseView::Done { result: Ok::<_, ErrorView>(url) }),
    ensures
        run.launched(store, launch).1 is None,
        run.launched(store, launch).0.pending() == Teardown::release(store).0.pending_effect(),
{
}

/// A trial run changes the store only when the browser it started has come
/// up: in every other step, a failed launch among them, the store stays as
/// it was, with the session it held.
pub proof fn lemma_trial_keeps_the_store_unless_it_launched(
    run: DiagnosisView,
    store: Option<SessionView>,
    outcome: OutcomeView,
)
    ensures
        run.advanced(store, outcome).1 == store || (run.phase matches DiagnosisPhaseView::Launching {
            launch,
        } && launch.advanced(store, outcome).0.result() matches Some(Ok(_))),
{
    if let DiagnosisPhaseView::Launching { launch } = run.phase {
        lemma_launch_writes_only_on_success(launch, store, outcome);
    }
}

} // verus!
