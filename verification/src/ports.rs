//! Local ports: finding a free one, and finding a browser that already
//! listens on one of the usual debugging ports.

use crate::discovery::{
    effect_view, get_browser_websocket_url, LookupPhase, LookupPhaseView, UrlLookup, UrlLookupView,
};
use crate::discovery::LOOKUP_TIMEOUT_SECS;
use crate::effects::{Effect, EffectView, FetchView, Outcome, OutcomeView};
use crate::probe::{
    browser_info, browser_type, determine_browser_type, get_browser_info, version_address,
    version_url, websocket_reading, ReadingView,
};
use vstd::prelude::*;

verus! {

/// The ports above the start that are probed before the start itself.
pub const PROBES: u32 = 100;

/// The first of the usual debugging ports.
pub const SCAN_FIRST_PORT: u16 = 9222;

/// The last of the usual debugging ports.
pub const SCAN_LAST_PORT: u16 = 9232;

/// The attempts to get the websocket of a browser found by scanning.
pub const SCAN_RETRIES: u32 = 3;

/// The milliseconds between those attempts.
pub const SCAN_DELAY_MS: u64 = 500;

/// The seconds after which a question to the version endpoint is given up.
pub const INFO_TIMEOUT_SECS: u64 = 5;

/// Where a search for a free port stands.
#[derive(Clone, Copy, Debug, PartialEq, Eq, Structural)]
pub enum SearchPhase {
    /// The candidate is to be bound.
    Probing,
    /// The start port itself is to be bound.
    Fallback,
    /// The search is over.
    Done { port: Option<u16> },
}

/// A search for a free port above `start`.
///
/// The ports `start + 1` to `start + 100` are probed in turn, as far as they
/// exist; the first that can be bound is the result. If none can, `start`
/// itself is bound, and the result is the port that this listener got (with
/// `start` 0 the system chooses one).
#[derive(Clone, Copy, Debug, PartialEq, Eq, Structural)]
pub struct PortSearch {
    pub start: u16,
    /// The port that is probed next.
    pub candidate: u16,
    /// The probes that have failed.
    pub tries: u32,
    pub phase: SearchPhase,
}

impl PortSearch {
    /// A search that has probed nothing yet.
    pub open spec fn begin(start: u16) -> PortSearch {
        if start < 65535 {
            PortSearch { start, candidate: (start + 1) as u16, tries: 0, phase: SearchPhase::Probing }
        } else {
            PortSearch { start, candidate: start, tries: 0, phase: SearchPhase::Fallback }
        }
    }

    /// The effect that the search waits for.
    pub open spec fn pending_effect(self) -> Option<EffectView> {
        match self.phase {
            SearchPhase::Probing => Some(EffectView::Bind { port: self.candidate }),
            SearchPhase::Fallback => Some(EffectView::Bind { port: self.start }),
            SearchPhase::Done { .. } => None,
        }
    }

    /// The search after an outcome.
    pub open spec fn advanced(self, outcome: OutcomeView) -> PortSearch {
        match (self.phase, outcome) {
            (SearchPhase::Probing, OutcomeView::Bound { local: Some(_) }) => PortSearch {
                phase: SearchPhase::Done { port: Some(self.candidate) },
                ..self
            },
            (SearchPhase::Probing, OutcomeView::Bound { local: None }) => if self.tries + 1
                < PROBES && self.candidate < 65535 {
                PortSearch {
                    candidate: (self.candidate + 1) as u16,
                    tries: (self.tries + 1) as u32,
                    ..self
                }
            } else {
                PortSearch { phase: SearchPhase::Fallback, ..self }
            },
            (SearchPhase::Fallback, OutcomeView::Bound { local }) => PortSearch {
                phase: SearchPhase::Done { port: local },
                ..self
            },
            _ => self,
        }
    }

    /// The search after `k` probes that all failed.
    pub open spec fn after_refusals(self, k: nat) -> PortSearch
        decreases k,
    {
        if k == 0 {
            self
        } else {
            self.after_refusals((k - 1) as nat).advanced(OutcomeView::Bound { local: None })
        }
    }

    /// The effect to perform next, or nothing once the search is over.
    pub fn pending(&self) -> (effect: Option<Effect>)
        ensures
            effect_view(effect) == self.pending_effect(),
    {
        match self.phase {
            SearchPhase::Probing => Some(Effect::Bind { port: self.candidate }),
            SearchPhase::Fallback => Some(Effect::Bind { port: self.start }),
            SearchPhase::Done { .. } => None,
        }
    }

    /// The port found, once the search is over; the inner value is nothing
    /// where no port could be bound at all.
    pub fn result(&self) -> (r: Option<Option<u16>>)
        ensures
            r == match self.phase {
                SearchPhase::Done { port } => Some(port),
                _ => None,
            },
    {
        match self.phase {
            SearchPhase::Done { port } => Some(port),
            _ => None,
        }
    }

    /// Takes the outcome of the pending effect.
    pub fn advance(self, outcome: &Outcome) -> (next: PortSearch)
        ensures
            next == self.advanced(outcome@),
    {
        match (self.phase, outcome) {
            (SearchPhase::Probing, Outcome::Bound { local: Some(_) }) => PortSearch {
                start: self.start,
                candidate: self.candidate,
                tries: self.tries,
                phase: SearchPhase::Done { port: Some(self.candidate) },
            },
            (SearchPhase::Probing, Outcome::Bound { local: None }) => {
                if self.tries < PROBES - 1 && self.candidate < 65535 {
                    PortSearch {
                        start: self.start,
                        candidate: self.candidate + 1,
                        tries: self.tries + 1,
                        phase: SearchPhase::Probing,
                    }
                } else {
                    PortSearch {
                        start: self.start,
                        candidate: self.candidate,
                        tries: self.tries,
                        phase: SearchPhase::Fallback,
                    }
                }
            },
            (SearchPhase::Fallback, Outcome::Bound { local }) => PortSearch {
                start: self.start,
                candidate: self.candidate,
                tries: self.tries,
                phase: SearchPhase::Done { port: *local },
            },
            _ => self,
        }
    }
}

/// Starts a search for a free port above `start_port`.
pub fn find_free_port(start_port: u16) -> (search: PortSearch)
    ensures
        search == PortSearch::begin(start_port),
{
    if start_port < 65535 {
        PortSearch {
            start: start_port,
            candidate: start_port + 1,
            tries: 0,
            phase: SearchPhase::Probing,
        }
    } else {
        PortSearch { start: start_port, candidate: start_port, tries: 0, phase: SearchPhase::Fallback }
    }
}

/// While fewer than a hundred probes have failed and a higher port exists,
/// the search probes the next port above the start: after `k` failures the
/// candidate is `start + k + 1`.
pub proof fn lemma_search_probes_in_order(start: u16, k: nat)
    requires
        k < PROBES,
        start + k + 1 <= 65535,
    ensures
        PortSearch::begin(start).after_refusals(k) == (PortSearch {
            start,
            candidate: (start + k + 1) as u16,
            tries: k as u32,
            phase: SearchPhase::Probing,
        }),
        PortSearch::begin(start).after_refusals(k).pending_effect() == Some(
            EffectView::Bind { port: (start + k + 1) as u16 },
        ),
    decreases k,
{
    if k > 0 {
        lemma_search_probes_in_order(start, (k - 1) as nat);
    }
}

/// The first port that can be bound is the result: if the probes of
/// `start + 1` to `start + k` failed and that of `start + k + 1` succeeds, the
/// search ends with `start + k + 1`.
pub proof fn lemma_first_bindable_port_is_found(start: u16, k: nat, local: u16)
    requires
        k < PROBES,
        start + k + 1 <= 65535,
    ensures
        PortSearch::begin(start).after_refusals(k).advanced(
            OutcomeView::Bound { local: Some(local) },
        ).phase == (SearchPhase::Done { port: Some((start + k + 1) as u16) }),
{
    lemma_search_probes_in_order(start, k);
}

/// When every probe has failed (a hundred, or as many as there are ports
/// above the start), the start port itself is bound, and the result is
/// whatever port that listener got, or nothing.
pub proof fn lemma_exhausted_search_falls_back(start: u16, k: nat, local: Option<u16>)
    requires
        k == if start + PROBES <= 65535 {
            PROBES as int
        } else {
            65535 - start
        },
    ensures
        PortSearch::begin(start).after_refusals(k).phase == SearchPhase::Fallback,
        PortSearch::begin(start).after_refusals(k).pending_effect() == Some(
            EffectView::Bind { port: start },
        ),
        PortSearch::begin(start).after_refusals(k).advanced(OutcomeView::Bound { local }).phase
            == (SearchPhase::Done { port: local }),
{
    if k > 0 {
        lemma_search_probes_in_order(start, (k - 1) as nat);
    }
}

/// A search ends with a port only when a bind of that port was reported to
/// have succeeded: the probe of the candidate, or the bind of the start port,
/// whose listener then had that port.
pub proof fn lemma_found_port_was_bound(search: PortSearch, outcome: OutcomeView, port: u16)
    requires
        search.phase !is Done,
        search.advanced(outcome).phase == (SearchPhase::Done { port: Some(port) }),
    ensures
        outcome matches OutcomeView::Bound { local: Some(local) } && match search.phase {
            SearchPhase::Probing => search.pending_effect() == Some(EffectView::Bind { port }),
            _ => search.pending_effect() == Some(EffectView::Bind { port: search.start }) && local
                == port,
        },
{
}

/// Where a scan of the usual debugging ports stands.
pub enum ScanPhase {
    /// The version endpoint of the port is to be asked who is there.
    Asking,
    /// The browser on the port is the wanted one; its websocket is looked up.
    Looking { lookup: UrlLookup },
    /// The scan is over.
    Done { found: Option<String> },
}

/// The mathematical content of a [`ScanPhase`].
pub enum ScanPhaseView {
    Asking,
    Looking { lookup: UrlLookupView },
    Done { found: Option<Seq<char>> },
}

/// A scan of the ports 9222 to 9232 for a running browser of one kind.
pub struct Scan {
    /// The wanted kind, as `determine_browser_type` names it.
    pub target: String,
    /// The port that is looked at.
    pub port: u16,
    pub phase: ScanPhase,
}

/// The mathematical content of a [`Scan`].
pub struct ScanView {
    pub target: Seq<char>,
    pub port: u16,
    pub phase: ScanPhaseView,
}

/// The mathematical content of an optional text.
pub open spec fn text_view(t: Option<String>) -> Option<Seq<char>> {
    match t {
        Some(t) => Some(t@),
        None => None,
    }
}

impl View for ScanPhase {
    type V = ScanPhaseView;

    open spec fn view(&self) -> ScanPhaseView {
        match *self {
            ScanPhase::Asking => ScanPhaseView::Asking,
            ScanPhase::Looking { lookup } => ScanPhaseView::Looking { lookup: lookup@ },
            ScanPhase::Done { found } => ScanPhaseView::Done { found: text_view(found) },
        }
    }
}

impl View for Scan {
    type V = ScanView;

    open spec fn view(&self) -> ScanView {
        ScanView { target: self.target@, port: self.port, phase: self.phase@ }
    }
}

impl ScanView {
    /// A scan that has looked at nothing yet.
    pub open spec fn begin(target: Seq<char>) -> ScanView {
        ScanView { target, port: SCAN_FIRST_PORT, phase: ScanPhaseView::Asking }
    }

    /// The effect that the scan waits for.
    pub open spec fn pending(self) -> Option<EffectView> {
        match self.phase {
            ScanPhaseView::Asking => Some(
                EffectView::Get { url: version_url(self.port), timeout_secs: INFO_TIMEOUT_SECS },
            ),
            ScanPhaseView::Looking { lookup } => lookup.pending(),
            ScanPhaseView::Done { .. } => None,
        }
    }

    /// What was found, once the scan is over.
    pub open spec fn result(self) -> Option<Option<Seq<char>>> {
        match self.phase {
            ScanPhaseView::Done { found } => Some(found),
            _ => None,
        }
    }

    /// The scan turned to the next port, or over after the last.
    pub open spec fn moved_on(self) -> ScanView {
        if self.port < SCAN_LAST_PORT {
            ScanView { port: (self.port + 1) as u16, phase: ScanPhaseView::Asking, ..self }
        } else {
            ScanView { phase: ScanPhaseView::Done { found: None }, ..self }
        }
    }

    /// The scan with a lookup that has taken a step: an address ends the
    /// scan, a failed lookup turns it to the next port.
    pub open spec fn looked(self, lookup: UrlLookupView) -> ScanView {
        match lookup.phase {
            LookupPhaseView::Done { result: Ok(url) } => ScanView {
                phase: ScanPhaseView::Done { found: Some(url) },
                ..self
            },
            LookupPhaseView::Done { result: Err(_) } => self.moved_on(),
            _ => ScanView { phase: ScanPhaseView::Looking { lookup }, ..self },
        }
    }

    /// The scan after it has asked one port after another, from where it
    /// stands, and got these answers.
    pub open spec fn after_silence(self, answers: Seq<FetchView>) -> ScanView
        decreases answers.len(),
    {
        if answers.len() == 0 {
            self
        } else {
            self.after_silence(answers.drop_last()).advanced(
                OutcomeView::Got { result: answers.last() },
            )
        }
    }

    /// The scan after an outcome.
    pub open spec fn advanced(self, outcome: OutcomeView) -> ScanView {
        match (self.phase, outcome) {
            (ScanPhaseView::Asking, OutcomeView::Got { result }) => match browser_info(result) {
                Ok(info) => if browser_type(info.0, info.1) == self.target {
                    self.looked(UrlLookupView::start(self.port, SCAN_RETRIES, SCAN_DELAY_MS))
                } else {
                    self.moved_on()
                },
                Err(_) => self.moved_on(),
            },
            (ScanPhaseView::Looking { lookup }, _) => self.looked(lookup.advanced(outcome)),
            _ => self,
        }
    }
}

/// Starts a scan for a running browser of the kind `target_browser_type`.
pub fn scan_for_existing_browser_instances(target_browser_type: &str) -> (scan: Scan)
    ensures
        scan@ == ScanView::begin(target_browser_type@),
{
    Scan {
        target: String::from_str(target_browser_type),
        port: SCAN_FIRST_PORT,
        phase: ScanPhase::Asking,
    }
}

impl Scan {
    /// The effect to perform next, or nothing once the scan is over.
    pub fn pending(&self) -> (effect: Option<Effect>)
        ensures
            effect_view(effect) == self@.pending(),
    {
        match &self.phase {
            ScanPhase::Asking => Some(
                Effect::Get { url: version_address(self.port), timeout_secs: INFO_TIMEOUT_SECS },
            ),
            ScanPhase::Looking { lookup } => lookup.pending(),
            ScanPhase::Done { .. } => None,
        }
    }

    /// What was found, once the scan is over: the websocket address of the
    /// first matching browser that gave one, or nothing.
    pub fn result(&self) -> (r: Option<Option<String>>)
        ensures
            match r {
                Some(found) => self@.result() == Some(text_view(found)),
                None => self@.result() is None,
            },
    {
        match &self.phase {
            ScanPhase::Done { found } => Some(found.clone()),
            _ => None,
        }
    }

    fn moved_on(target: String, port: u16) -> (next: Scan)
        ensures
            next@ == (ScanView { target: target@, port, phase: ScanPhaseView::Asking }).moved_on(),
    {
        if port < SCAN_LAST_PORT {
            Scan { target, port: port + 1, phase: ScanPhase::Asking }
        } else {
            Scan { target, port, phase: ScanPhase::Done { found: None } }
        }
    }

    fn looked(target: String, port: u16, lookup: UrlLookup) -> (next: Scan)
        ensures
            next@ == (ScanView { target: target@, port, phase: ScanPhaseView::Asking }).looked(
                lookup@,
            ),
    {
        match lookup.phase {
            LookupPhase::Done { result: Ok(url) } => Scan {
                target,
                port,
                phase: ScanPhase::Done { found: Some(url) },
            },
            LookupPhase::Done { result: Err(_) } => Scan::moved_on(target, port),
            phase => Scan {
                target,
                port,
                phase: ScanPhase::Looking {
                    lookup: UrlLookup {
                        port: lookup.port,
                        max_retries: lookup.max_retries,
                        delay_ms: lookup.delay_ms,
                        remaining: lookup.remaining,
                        phase,
                    },
                },
            },
        }
    }

    /// Takes the outcome of the pending effect.
    pub fn advance(self, outcome: Outcome) -> (next: Scan)
        ensures
            next@ == self@.advanced(outcome@),
    {
        let Scan { target, port, phase } = self;
        match (phase, outcome) {
            (ScanPhase::Asking, Outcome::Got { result }) => {
                match get_browser_info(&result) {
                    Ok(info) => {
                        let kind = determine_browser_type(info.0.as_str(), info.1.as_str());
                        if kind == target {
                            let lookup = get_browser_websocket_url(port, SCAN_RETRIES, SCAN_DELAY_MS);
                            Scan::looked(target, port, lookup)
                        } else {
                            Scan::moved_on(target, port)
                        }
                    },
                    Err(_) => Scan::moved_on(target, port),
                }
            },
            (ScanPhase::Looking { lookup }, outcome) => {
                let lookup = lookup.advance(outcome);
                Scan::looked(target, port, lookup)
            },
            (phase, _) => Scan { target, port, phase },
        }
    }
}

/// No answer in `answers` describes a browser of the kind `target`: each is
/// a failure, or describes a browser of another kind.
pub open spec fn none_matches(answers: Seq<FetchView>, target: Seq<char>) -> bool {
    forall|i: int|
        0 <= i < answers.len() ==> match #[trigger] browser_info(answers[i]) {
            Ok(info) => browser_type(info.0, info.1) != target,
            Err(_) => true,
        }
}

/// The ports 9222 to 9232 are asked in order, each once: after `k` ports
/// without a browser of the wanted kind the scan asks port `9222 + k`, and
/// after all eleven it is over and has found nothing, which is no error.
pub proof fn lemma_scan_asks_ports_in_order(target: Seq<char>, answers: Seq<FetchView>)
    requires
        answers.len() <= SCAN_LAST_PORT - SCAN_FIRST_PORT + 1,
        none_matches(answers, target),
    ensures
        ({
            let scan = ScanView::begin(target).after_silence(answers);
            if answers.len() <= SCAN_LAST_PORT - SCAN_FIRST_PORT {
                &&& scan == (ScanView {
                    target,
                    port: (SCAN_FIRST_PORT + answers.len()) as u16,
                    phase: ScanPhaseView::Asking,
                })
                &&& scan.pending() == Some(
                    EffectView::Get {
                        url: version_url((SCAN_FIRST_PORT + answers.len()) as u16),
                        timeout_secs: INFO_TIMEOUT_SECS,
                    },
                )
            } else {
                &&& scan.result() == Some(None::<Seq<char>>)
                &&& scan.pending() is None
            }
        }),
    decreases answers.len(),
{
    if answers.len() > 0 {
        let before = answers.drop_last();
        assert(none_matches(before, target)) by {
            assert forall|i: int| 0 <= i < before.len() implies match #[trigger] browser_info(
                before[i],
            ) {
                Ok(info) => browser_type(info.0, info.1) != target,
                Err(_) => true,
            } by {
                assert(before[i] == answers[i]);
            }
        }
        lemma_scan_asks_ports_in_order(target, before);
        let last = answers.last();
        assert(last == answers[answers.len() - 1]);
        let info = browser_info(last);
        assert(match info {
            Ok(info) => browser_type(info.0, info.1) != target,
            Err(_) => true,
        });
    }
}

/// A browser of the wanted kind that names its websocket at once ends the
/// scan with that address, on whatever port it is found.
pub proof fn lemma_scan_takes_first_match(scan: ScanView, answer: FetchView, url: Seq<char>)
    requires
        scan.phase == ScanPhaseView::Asking,
        browser_info(answer) matches Ok(info) && browser_type(info.0, info.1) == scan.target,
    ensures
        ({
            let looking = scan.advanced(OutcomeView::Got { result: answer });
            &&& looking.phase == (ScanPhaseView::Looking {
                lookup: UrlLookupView::start(scan.port, SCAN_RETRIES, SCAN_DELAY_MS),
            })
            &&& looking.pending() == Some(
                EffectView::Get {
                    url: version_url(scan.port),
                    timeout_secs: LOOKUP_TIMEOUT_SECS,
                },
            )
            &&& websocket_reading(answer) == (ReadingView::Found { url }) ==> looking.advanced(
                OutcomeView::Got { result: answer },
            ).result() == Some(Some(url))
        }),
{
}

/// The address that an answer gives to a scan for `target`: the answer must
/// describe a browser of that kind and name its websocket.
pub open spec fn address_for(answer: FetchView, target: Seq<char>) -> Option<Seq<char>> {
    match browser_info(answer) {
        Ok(info) => if browser_type(info.0, info.1) == target {
            match websocket_reading(answer) {
                ReadingView::Found { url } => Some(url),
                _ => None,
            }
        } else {
            None
        },
        Err(_) => None,
    }
}

/// The first address that the ports from `from` to 9232 give, where `world`
/// says what each port answers.
pub open spec fn first_address(world: spec_fn(u16) -> FetchView, target: Seq<char>, from: int) -> Option<
    Seq<char>,
>
    decreases SCAN_LAST_PORT + 1 - from,
{
    if from < 0 || from > SCAN_LAST_PORT {
        None
    } else {
        match address_for(world(from as u16), target) {
            Some(url) => Some(url),
            None => first_address(world, target, from + 1),
        }
    }
}

impl ScanView {
    /// The scan after it has dealt with the port it looks at, where that
    /// port answers `answer` whenever it is asked.
    pub open spec fn visited(self, answer: FetchView) -> ScanView {
        let asked = self.advanced(OutcomeView::Got { result: answer });
        if asked.phase is Looking {
            asked.advanced(OutcomeView::Got { result: answer })
        } else {
            asked
        }
    }

    /// The scan after it has dealt with `ports` ports in a world where every
    /// port keeps answering the same.
    pub open spec fn run(self, world: spec_fn(u16) -> FetchView, ports: nat) -> ScanView
        decreases ports,
    {
        if ports == 0 {
            self
        } else {
            self.visited(world(self.port)).run(world, (ports - 1) as nat)
        }
    }
}

/// A scan that is over stays as it is.
pub proof fn lemma_finished_scan_rests(scan: ScanView, world: spec_fn(u16) -> FetchView, ports: nat)
    requires
        scan.phase is Done,
    ensures
        scan.run(world, ports) == scan,
    decreases ports,
{
    if ports > 0 {
        lemma_finished_scan_rests(scan, world, (ports - 1) as nat);
    }
}

/// Over a whole run, a scan returns the address of the first port, from the
/// one it looks at to 9232, on which a browser of the wanted kind answers and
/// names its websocket; and nothing where there is no such port. This holds
/// in any world in which each port keeps giving the same answer.
pub proof fn lemma_scan_returns_first_address(scan: ScanView, world: spec_fn(u16) -> FetchView)
    requires
        scan.phase == ScanPhaseView::Asking,
        SCAN_FIRST_PORT <= scan.port <= SCAN_LAST_PORT,
    ensures
        scan.run(world, (SCAN_LAST_PORT + 1 - scan.port) as nat).result() == Some(
            first_address(world, scan.target, scan.port as int),
        ),
    decreases SCAN_LAST_PORT + 1 - scan.port,
{
    let answer = world(scan.port);
    let left = (SCAN_LAST_PORT - scan.port) as nat;
    let next = scan.visited(answer);
    assert(scan.run(world, left + 1) == next.run(world, left));
    let asked = scan.advanced(OutcomeView::Got { result: answer });
    match address_for(answer, scan.target) {
        Some(url) => {
            assert(next.phase == ScanPhaseView::Done { found: Some(url) });
            lemma_finished_scan_rests(next, world, left);
            assert(first_address(world, scan.target, scan.port as int) == Some(url));
        },
        None => {
            assert(next == scan.moved_on());
            assert(first_address(world, scan.target, scan.port as int) == first_address(
                world,
                scan.target,
                scan.port + 1,
            ));
            if scan.port < SCAN_LAST_PORT {
                lemma_scan_returns_first_address(next, world);
            } else {
                lemma_finished_scan_rests(next, world, left);
                assert(first_address(world, scan.target, scan.port + 1) is None);
            }
        },
    }
}

/// A whole scan, from its beginning, returns the address of the first of the
/// ports 9222 to 9232 on which a browser of the wanted kind answers and names
/// its websocket.
pub proof fn lemma_whole_scan_returns_first_address(
    target: Seq<char>,
    world: spec_fn(u16) -> FetchView,
)
    ensures
        ScanView::begin(target).run(world, 11).result() == Some(
            first_address(world, target, SCAN_FIRST_PORT as int),
        ),
{
    lemma_scan_returns_first_address(ScanView::begin(target), world);
}

} // verus!
