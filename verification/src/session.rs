//! The one managed browser session, and how it is given up.

use crate::discovery::effect_view;
use crate::effects::{ChildStatus, Effect, EffectView, Outcome, OutcomeView};
use vstd::prelude::*;

verus! {

/// The browser instance in use.
///
/// `child` is the process that this manager started, by its id; a browser
/// that was found running has none, and is never killed from here.
#[derive(Debug, PartialEq, Eq)]
pub struct ManageableBrowserInstance {
    pub path: String,
    pub port: u16,
    pub ws_url: String,
    pub child: Option<u32>,
}

/// The mathematical content of a [`ManageableBrowserInstance`].
pub struct SessionView {
    pub path: Seq<char>,
    pub port: u16,
    pub ws_url: Seq<char>,
    pub child: Option<u32>,
}

impl SessionView {
    /// The session of a browser that was started from here.
    pub open spec fn launched(path: Seq<char>, port: u16, ws_url: Seq<char>, pid: u32) -> SessionView {
        SessionView { path, port, ws_url, child: Some(pid) }
    }

    /// The session of a browser that was found running.
    pub open spec fn adopted(path: Seq<char>, port: u16, ws_url: Seq<char>) -> SessionView {
        SessionView { path, port, ws_url, child: None }
    }

    /// The browser was started from here, so there is a process to end.
    pub open spec fn launched_by_app(self) -> bool {
        self.child is Some
    }
}

impl View for ManageableBrowserInstance {
    type V = SessionView;

    open spec fn view(&self) -> SessionView {
        SessionView { path: self.path@, port: self.port, ws_url: self.ws_url@, child: self.child }
    }
}

impl ManageableBrowserInstance {
    /// The session of a browser that was started from here.
    pub fn launched(path: String, port: u16, ws_url: String, pid: u32) -> (s: Self)
        ensures
            s@ == SessionView::launched(path@, port, ws_url@, pid),
    {
        ManageableBrowserInstance { path, port, ws_url, child: Some(pid) }
    }

    /// The session of a browser that was found running.
    pub fn adopted(path: String, port: u16, ws_url: String) -> (s: Self)
        ensures
            s@ == SessionView::adopted(path@, port, ws_url@),
    {
        ManageableBrowserInstance { path, port, ws_url, child: None }
    }

    /// Whether the browser was started from here: exactly then the session
    /// holds a process.
    pub fn launched_by_app(&self) -> (r: bool)
        ensures
            r == self@.launched_by_app(),
            r == (self.child is Some),
    {
        self.child.is_some()
    }
}

/// The place of the one managed session. It is empty or holds one session;
/// every operation of this crate that changes it takes it by `&mut`, so the
/// caller's lock around it serialises them.
#[derive(Debug)]
pub struct SessionStore {
    pub current: Option<ManageableBrowserInstance>,
}

impl View for SessionStore {
    type V = Option<SessionView>;

    open spec fn view(&self) -> Option<SessionView> {
        match self.current {
            Some(s) => Some(s@),
            None => None,
        }
    }
}

impl SessionStore {
    /// An empty store.
    pub fn new() -> (store: SessionStore)
        ensures
            store@ is None,
    {
        SessionStore { current: None }
    }

    /// Whether a session is held.
    pub fn is_active(&self) -> (r: bool)
        ensures
            r == (self@ is Some),
    {
        self.current.is_some()
    }
}

/// Where the closing of a session stands.
#[derive(Clone, Copy, Debug, PartialEq, Eq, Structural)]
pub enum TeardownPhase {
    /// The process is to be looked at: it may have ended already.
    Polling { pid: u32 },
    /// The process is to be killed and waited for.
    Killing { pid: u32 },
    /// Nothing is left to do.
    Done,
}

/// The closing of a session. It is best effort and cannot fail: what goes
/// wrong while a process is looked at, killed or waited for is swallowed by
/// whoever performs the effect.
#[derive(Clone, Copy, Debug, PartialEq, Eq, Structural)]
pub struct Teardown {
    pub phase: TeardownPhase,
}

impl Teardown {
    /// Release: the store is emptied whatever it held. A process of ours is
    /// looked at first and killed unless it has ended; a browser that was
    /// only found running is left alone. Without a session this is over at
    /// once.
    pub open spec fn release(store: Option<SessionView>) -> (Teardown, Option<SessionView>) {
        match store {
            Some(SessionView { child: Some(pid), .. }) => (
                Teardown { phase: TeardownPhase::Polling { pid } },
                None,
            ),
            _ => (Teardown { phase: TeardownPhase::Done }, None),
        }
    }

    /// Forced close: a session of ours is removed and its process killed
    /// without a look first. A session that was only found running stays in
    /// the store: a browser that was not started from here is never ended
    /// from here, and its record is not lost either.
    pub open spec fn force(store: Option<SessionView>) -> (Teardown, Option<SessionView>) {
        match store {
            Some(SessionView { child: Some(pid), .. }) => (
                Teardown { phase: TeardownPhase::Killing { pid } },
                None,
            ),
            _ => (Teardown { phase: TeardownPhase::Done }, store),
        }
    }

    /// The effect that the closing waits for.
    pub open spec fn pending_effect(self) -> Option<EffectView> {
        match self.phase {
            TeardownPhase::Polling { pid } => Some(EffectView::Poll { pid }),
            TeardownPhase::Killing { pid } => Some(EffectView::Kill { pid }),
            TeardownPhase::Done => None,
        }
    }

    /// The closing after an outcome. A process that has ended already is not
    /// killed; one that runs, or whose state the system cannot tell, is.
    pub open spec fn advanced(self, outcome: OutcomeView) -> Teardown {
        match (self.phase, outcome) {
            (
                TeardownPhase::Polling { .. },
                OutcomeView::Polled { status: ChildStatus::Exited { .. } },
            ) => Teardown { phase: TeardownPhase::Done },
            (TeardownPhase::Polling { pid }, OutcomeView::Polled { .. }) => Teardown {
                phase: TeardownPhase::Killing { pid },
            },
            (TeardownPhase::Killing { .. }, OutcomeView::Killed) => Teardown {
                phase: TeardownPhase::Done,
            },
            _ => self,
        }
    }

    /// The closing is over. It then has succeeded: there is no other end.
    pub open spec fn done(self) -> bool {
        self.phase == TeardownPhase::Done
    }

    /// The effect to perform next, or nothing once the closing is over.
    pub fn pending(&self) -> (effect: Option<Effect>)
        ensures
            effect_view(effect) == self.pending_effect(),
    {
        match self.phase {
            TeardownPhase::Polling { pid } => Some(Effect::Poll { pid }),
            TeardownPhase::Killing { pid } => Some(Effect::Kill { pid }),
            TeardownPhase::Done => None,
        }
    }

    /// Whether the closing is over.
    pub fn is_done(&self) -> (r: bool)
        ensures
            r == self.done(),
            r == (self.pending_effect() is None),
    {
        match self.phase {
            TeardownPhase::Done => true,
            _ => false,
        }
    }

    /// Takes the outcome of the pending effect.
    pub fn advance(self, outcome: &Outcome) -> (next: Teardown)
        ensures
            next == self.advanced(outcome@),
    {
        match (self.phase, outcome) {
            (
                TeardownPhase::Polling { .. },
                Outcome::Polled { status: ChildStatus::Exited { .. } },
            ) => Teardown { phase: TeardownPhase::Done },
            (TeardownPhase::Polling { pid }, Outcome::Polled { .. }) => Teardown {
                phase: TeardownPhase::Killing { pid },
            },
            (TeardownPhase::Killing { .. }, Outcome::Killed) => Teardown {
                phase: TeardownPhase::Done,
            },
            _ => self,
        }
    }
}

/// Releases the session: see [`Teardown::release`].
pub fn sunset_browser_instance(store: &mut SessionStore) -> (teardown: Teardown)
    ensures
        (teardown, final(store)@) == Teardown::release(old(store)@),
{
    let held = store.current.take();
    match held {
        Some(ManageableBrowserInstance { child: Some(pid), .. }) => Teardown {
            phase: TeardownPhase::Polling { pid },
        },
        _ => Teardown { phase: TeardownPhase::Done },
    }
}

/// Closes the session by force: see [`Teardown::force`].
pub fn force_close_browser(store: &mut SessionStore) -> (teardown: Teardown)
    ensures
        (teardown, final(store)@) == Teardown::force(old(store)@),
{
    let held = store.current.take();
    match held {
        Some(ManageableBrowserInstance { child: Some(pid), .. }) => Teardown {
            phase: TeardownPhase::Killing { pid },
        },
        other => {
            store.current = other;
            Teardown { phase: TeardownPhase::Done }
        },
    }
}

/// Release is idempotent: on an empty store it changes nothing, asks for
/// nothing and is over; and after any release the store is empty, so a second
/// one is of that kind.
pub proof fn lemma_release_is_idempotent(store: Option<SessionView>)
    ensures
        Teardown::release(store).1 is None,
        Teardown::release(None).0.pending_effect() is None,
        Teardown::release(None).0.done(),
        Teardown::release(Teardown::release(store).1) == Teardown::release(None),
{
}

/// Teardown cannot fail the caller. A release, and a forced close too, is
/// over after at most a look and a kill, whatever the look at the process
/// shows, also when the system cannot tell its state; and a release leaves
/// the store empty.
pub proof fn lemma_teardown_always_ends(store: Option<SessionView>, status: ChildStatus)
    ensures
        ({
            let (release, emptied) = Teardown::release(store);
            let looked = release.advanced(OutcomeView::Polled { status });
            &&& emptied is None
            &&& release.done() || looked.done() || looked.advanced(OutcomeView::Killed).done()
            &&& match store {
                Some(s) if s.launched_by_app() && status !is Exited => looked.pending_effect()
                    == Some(EffectView::Kill { pid: s.child->0 }),
                _ => true,
            }
        }),
        ({
            let (forced, _) = Teardown::force(store);
            forced.done() || forced.advanced(OutcomeView::Killed).done()
        }),
{
}

/// A process is killed on release or forced close only if this manager
/// started it: a kill is asked for only when the store held a session with a
/// process, and then for that process. A forced close leaves a session that
/// was found running in the store, unchanged, and is over at once.
pub proof fn lemma_only_own_process_is_killed(store: Option<SessionView>)
    ensures
        Teardown::force(store).0.pending_effect() == match store {
            Some(s) if s.launched_by_app() => Some(EffectView::Kill { pid: s.child->0 }),
            _ => None,
        },
        Teardown::release(store).0.pending_effect() == match store {
            Some(s) if s.launched_by_app() => Some(EffectView::Poll { pid: s.child->0 }),
            _ => None,
        },
        (store matches Some(s) && !s.launched_by_app()) ==> Teardown::force(store).1 == store
            && Teardown::force(store).0.done(),
        forall|t: Teardown, o: OutcomeView, pid: u32|
            t.advanced(o).pending_effect() == Some(EffectView::Kill { pid }) ==> t.phase == (
            TeardownPhase::Killing { pid }) || t.phase == (TeardownPhase::Polling { pid }),
{
}

} // verus!
