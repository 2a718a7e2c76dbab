//! Asking a starting browser for its debugging websocket, again and again.
//!
//! The delay between attempts is fixed: the endpoint is on the loopback
//! interface and fails only while the browser is still starting.

use crate::effects::{Effect, EffectView, FetchView, Outcome, OutcomeView};
use crate::errors::{ErrorView, SessionError};
use crate::probe::{
    read_websocket, version_address, version_url, websocket_reading, Reading, ReadingView,
};
use vstd::prelude::*;

verus! {

/// The seconds after which one attempt is given up.
pub const LOOKUP_TIMEOUT_SECS: u64 = 10;

/// The mathematical content of an optional effect.
pub open spec fn effect_view(effect: Option<Effect>) -> Option<EffectView> {
    match effect {
        Some(e) => Some(e@),
        None => None,
    }
}

/// The mathematical content of an address or an error.
pub open spec fn url_view(r: Result<String, SessionError>) -> Result<Seq<char>, ErrorView> {
    match r {
        Ok(url) => Ok(url@),
        Err(e) => Err(e@),
    }
}

/// The mathematical content of an address or an error, where there is one.
pub open spec fn finished_view(r: Option<Result<String, SessionError>>) -> Option<
    Result<Seq<char>, ErrorView>,
> {
    match r {
        Some(r) => Some(url_view(r)),
        None => None,
    }
}

/// A copy of an address or an error.
pub fn duplicate_url(r: &Result<String, SessionError>) -> (copy: Result<String, SessionError>)
    ensures
        url_view(copy) == url_view(*r),
{
    match r {
        Ok(url) => Ok(url.clone()),
        Err(e) => Err(e.duplicate()),
    }
}

/// Where a lookup stands.
pub enum LookupPhase {
    /// The version endpoint is to be asked.
    Fetching,
    /// The delay before the next attempt is to pass.
    Sleeping,
    /// The lookup is over.
    Done { result: Result<String, SessionError> },
}

/// The mathematical content of a [`LookupPhase`].
pub enum LookupPhaseView {
    Fetching,
    Sleeping,
    Done { result: Result<Seq<char>, ErrorView> },
}

/// A lookup of the debugging websocket on one port.
pub struct UrlLookup {
    pub port: u16,
    pub max_retries: u32,
    pub delay_ms: u64,
    /// The attempts that may still be made.
    pub remaining: u32,
    pub phase: LookupPhase,
}

/// The mathematical content of a [`UrlLookup`].
pub struct UrlLookupView {
    pub port: u16,
    pub max_retries: u32,
    pub delay_ms: u64,
    pub remaining: u32,
    pub phase: LookupPhaseView,
}

impl View for LookupPhase {
    type V = LookupPhaseView;

    open spec fn view(&self) -> LookupPhaseView {
        match *self {
            LookupPhase::Fetching => LookupPhaseView::Fetching,
            LookupPhase::Sleeping => LookupPhaseView::Sleeping,
            LookupPhase::Done { result } => LookupPhaseView::Done { result: url_view(result) },
        }
    }
}

impl View for UrlLookup {
    type V = UrlLookupView;

    open spec fn view(&self) -> UrlLookupView {
        UrlLookupView {
            port: self.port,
            max_retries: self.max_retries,
            delay_ms: self.delay_ms,
            remaining: self.remaining,
            phase: self.phase@,
        }
    }
}

impl UrlLookupView {
    /// A lookup that has made no attempt yet. With no attempt allowed it is
    /// over at once.
    pub open spec fn start(port: u16, max_retries: u32, delay_ms: u64) -> UrlLookupView {
        UrlLookupView {
            port,
            max_retries,
            delay_ms,
            remaining: max_retries,
            phase: if max_retries == 0 {
                LookupPhaseView::Done {
                    result: Err(ErrorView::EndpointUnreachable { attempts: 0 }),
                }
            } else {
                LookupPhaseView::Fetching
            },
        }
    }

    /// The effect that the lookup waits for.
    pub open spec fn pending(self) -> Option<EffectView> {
        match self.phase {
            LookupPhaseView::Fetching => Some(
                EffectView::Get { url: version_url(self.port), timeout_secs: LOOKUP_TIMEOUT_SECS },
            ),
            LookupPhaseView::Sleeping => Some(EffectView::Sleep { millis: self.delay_ms }),
            LookupPhaseView::Done { .. } => None,
        }
    }

    /// The result, once the lookup is over.
    pub open spec fn result(self) -> Option<Result<Seq<char>, ErrorView>> {
        match self.phase {
            LookupPhaseView::Done { result } => Some(result),
            _ => None,
        }
    }

    /// The lookup after one answer of the version endpoint.
    ///
    /// An address ends the lookup with success. A document without one, or a
    /// body that is no document, ends it with an error at once. Anything else
    /// uses up one attempt; the lookup sleeps if another is left and gives up
    /// otherwise.
    pub open spec fn answered(self, result: FetchView) -> UrlLookupView {
        match websocket_reading(result) {
            ReadingView::Found { url } => UrlLookupView {
                phase: LookupPhaseView::Done { result: Ok(url) },
                ..self
            },
            ReadingView::Missing => UrlLookupView {
                phase: LookupPhaseView::Done { result: Err(ErrorView::WebSocketUrlMissing) },
                ..self
            },
            ReadingView::Malformed => UrlLookupView {
                phase: LookupPhaseView::Done { result: Err(ErrorView::MalformedResponse) },
                ..self
            },
            ReadingView::NotReady => if self.remaining > 1 {
                UrlLookupView {
                    remaining: (self.remaining - 1) as u32,
                    phase: LookupPhaseView::Sleeping,
                    ..self
                }
            } else {
                UrlLookupView {
                    remaining: 0,
                    phase: LookupPhaseView::Done {
                        result: Err(ErrorView::EndpointUnreachable { attempts: self.max_retries }),
                    },
                    ..self
                }
            },
        }
    }

    /// The lookup after an outcome.
    pub open spec fn advanced(self, outcome: OutcomeView) -> UrlLookupView {
        match (self.phase, outcome) {
            (LookupPhaseView::Fetching, OutcomeView::Got { result }) => self.answered(result),
            (LookupPhaseView::Sleeping, OutcomeView::Slept) => UrlLookupView {
                phase: LookupPhaseView::Fetching,
                ..self
            },
            _ => self,
        }
    }

    /// The lookup after a run of rounds that each found the endpoint not
    /// ready and then slept.
    pub open spec fn after_failures(self, failures: Seq<FetchView>) -> UrlLookupView
        decreases failures.len(),
    {
        if failures.len() == 0 {
            self
        } else {
            self.after_failures(failures.drop_last()).advanced(
                OutcomeView::Got { result: failures.last() },
            ).advanced(OutcomeView::Slept)
        }
    }
}

/// Starts a lookup of the debugging websocket on `port`: at most
/// `max_retries` attempts, `delay_ms` milliseconds apart.
pub fn get_browser_websocket_url(port: u16, max_retries: u32, delay_ms: u64) -> (lookup: UrlLookup)
    ensures
        lookup@ == UrlLookupView::start(port, max_retries, delay_ms),
{
    UrlLookup {
        port,
        max_retries,
        delay_ms,
        remaining: max_retries,
        phase: if max_retries == 0 {
            LookupPhase::Done { result: Err(SessionError::EndpointUnreachable { attempts: 0 }) }
        } else {
            LookupPhase::Fetching
        },
    }
}

impl UrlLookup {
    /// The effect to perform next, or nothing once the lookup is over.
    pub fn pending(&self) -> (effect: Option<Effect>)
        ensures
            effect_view(effect) == self@.pending(),
    {
        match &self.phase {
            LookupPhase::Fetching => Some(
                Effect::Get { url: version_address(self.port), timeout_secs: LOOKUP_TIMEOUT_SECS },
            ),
            LookupPhase::Sleeping => Some(Effect::Sleep { millis: self.delay_ms }),
            LookupPhase::Done { .. } => None,
        }
    }

    /// The result, once the lookup is over.
    pub fn result(&self) -> (r: Option<Result<String, SessionError>>)
        ensures
            finished_view(r) == self@.result(),
    {
        match &self.phase {
            LookupPhase::Done { result } => Some(duplicate_url(result)),
            _ => None,
        }
    }

    /// Takes the outcome of the pending effect.
    pub fn advance(self, outcome: Outcome) -> (next: UrlLookup)
        ensures
            next@ == self@.advanced(outcome@),
    {
        let UrlLookup { port, max_retries, delay_ms, remaining, phase } = self;
        match (phase, outcome) {
            (LookupPhase::Fetching, Outcome::Got { result }) => {
                let phase = match read_websocket(&result) {
                    Reading::Found { url } => LookupPhase::Done { result: Ok(url) },
                    Reading::Missing => LookupPhase::Done {
                        result: Err(SessionError::WebSocketUrlMissing),
                    },
                    Reading::Malformed => LookupPhase::Done {
                        result: Err(SessionError::MalformedResponse),
                    },
                    Reading::NotReady => {
                        if remaining > 1 {
                            return UrlLookup {
                                port,
                                max_retries,
                                delay_ms,
                                remaining: remaining - 1,
                                phase: LookupPhase::Sleeping,
                            };
                        }
                        return UrlLookup {
                            port,
                            max_retries,
                            delay_ms,
                            remaining: 0,
                            phase: LookupPhase::Done {
                                result: Err(
                                    SessionError::EndpointUnreachable { attempts: max_retries },
                                ),
                            },
                        };
                    },
                };
                UrlLookup { port, max_retries, delay_ms, remaining, phase }
            },
            (LookupPhase::Sleeping, Outcome::Slept) => UrlLookup {
                port,
                max_retries,
                delay_ms,
                remaining,
                phase: LookupPhase::Fetching,
            },
            (phase, _) => UrlLookup { port, max_retries, delay_ms, remaining, phase },
        }
    }
}

/// Every answer in `failures` finds the endpoint not ready.
pub open spec fn all_not_ready(failures: Seq<FetchView>) -> bool {
    forall|i: int|
        0 <= i < failures.len() ==> (#[trigger] websocket_reading(failures[i]))
            == ReadingView::NotReady
}

/// Against an endpoint that is never ready, a lookup makes exactly as many
/// attempts as it was given: after `k` failed rounds, with `k` below the
/// limit, it asks again and has the other attempts left; when the last
/// attempt fails too, it gives up with `EndpointUnreachable`, which carries
/// the number of attempts, and asks for nothing more.
pub proof fn lemma_lookup_gives_up_after_max_retries(
    port: u16,
    max_retries: u32,
    delay_ms: u64,
    failures: Seq<FetchView>,
    last: FetchView,
)
    requires
        failures.len() < max_retries,
        all_not_ready(failures),
        websocket_reading(last) == ReadingView::NotReady,
    ensures
        ({
            let lookup = UrlLookupView::start(port, max_retries, delay_ms).after_failures(failures);
            let next = lookup.advanced(OutcomeView::Got { result: last });
            &&& lookup == UrlLookupView {
                remaining: (max_retries - failures.len()) as u32,
                ..UrlLookupView::start(port, max_retries, delay_ms)
            }
            &&& lookup.pending() == Some(
                EffectView::Get { url: version_url(port), timeout_secs: LOOKUP_TIMEOUT_SECS },
            )
            &&& failures.len() + 1 < max_retries ==> next.pending() == Some(
                EffectView::Sleep { millis: delay_ms },
            )
            &&& failures.len() + 1 == max_retries ==> next.pending() is None && next.result()
                == Some(
                Err::<Seq<char>, _>(ErrorView::EndpointUnreachable { attempts: max_retries }),
            )
        }),
    decreases failures.len(),
{
    let start = UrlLookupView::start(port, max_retries, delay_ms);
    if failures.len() > 0 {
        let before = failures.drop_last();
        assert(all_not_ready(before)) by {
            assert forall|i: int| 0 <= i < before.len() implies (#[trigger] websocket_reading(
                before[i],
            )) == ReadingView::NotReady by {
                assert(before[i] == failures[i]);
            }
        }
        assert(websocket_reading(failures.last()) == ReadingView::NotReady);
        lemma_lookup_gives_up_after_max_retries(
            port,
            max_retries,
            delay_ms,
            before,
            failures.last(),
        );
        let earlier = start.after_failures(before);
        let failed = earlier.advanced(OutcomeView::Got { result: failures.last() });
        assert(failed == earlier.answered(failures.last()));
        assert(failed.phase == LookupPhaseView::Sleeping);
        assert(start.after_failures(failures) == failed.advanced(OutcomeView::Slept));
    }
    let lookup = start.after_failures(failures);
    assert(lookup.advanced(OutcomeView::Got { result: last }) == lookup.answered(last));
}

/// An answer without a websocket address ends a lookup at once, whatever
/// attempts are left: the result is `WebSocketUrlMissing` and nothing more is
/// asked for.
pub proof fn lemma_missing_address_ends_lookup(lookup: UrlLookupView, answer: FetchView)
    requires
        lookup.phase == LookupPhaseView::Fetching,
        websocket_reading(answer) == ReadingView::Missing,
    ensures
        lookup.advanced(OutcomeView::Got { result: answer }).result() == Some(
            Err::<Seq<char>, _>(ErrorView::WebSocketUrlMissing),
        ),
        lookup.advanced(OutcomeView::Got { result: answer }).pending() is None,
{
}

/// A lookup stops at the first answer that names a websocket: it returns that
/// address and asks for no further delay.
pub proof fn lemma_first_address_ends_lookup(
    lookup: UrlLookupView,
    answer: FetchView,
    url: Seq<char>,
)
    requires
        lookup.phase == LookupPhaseView::Fetching,
        websocket_reading(answer) == (ReadingView::Found { url }),
    ensures
        lookup.advanced(OutcomeView::Got { result: answer }).result() == Some(
            Ok::<_, ErrorView>(url),
        ),
        lookup.advanced(OutcomeView::Got { result: answer }).pending() is None,
{
}

} // verus!
