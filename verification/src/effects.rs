//! The boundary to the outside world.
//!
//! A machine of this crate names an [`Effect`]; whoever drives it performs the
//! effect and reports the [`Outcome`]. An outcome that does not answer the
//! pending effect leaves a machine as it is.

use vstd::prelude::*;

verus! {

/// The views of a sequence of strings.
pub open spec fn texts(v: Seq<String>) -> Seq<Seq<char>> {
    Seq::new(v.len(), |i: int| v[i]@)
}

/// What one HTTP GET brought back.
#[derive(Debug, PartialEq, Eq)]
pub enum FetchResult {
    /// No response: the connection failed or timed out. `reason` is what the
    /// transport said.
    Unreachable { reason: String },
    /// A response with its status code and its whole body.
    Response { status: u16, body: Vec<u8> },
}

/// What a non-blocking look at a child process shows.
#[derive(Clone, Copy, Debug, PartialEq, Eq, Structural)]
pub enum ChildStatus {
    /// The process is still running.
    Running,
    /// The process has ended, with this exit code where there is one.
    Exited { code: Option<i32> },
    /// The system could not tell.
    Unknown,
}

/// Something to be done outside.
#[derive(Debug, PartialEq, Eq)]
pub enum Effect {
    /// Find out which of these paths are regular files.
    Locate { paths: Vec<String> },
    /// Bind a loopback TCP listener on this port and release it at once.
    Bind { port: u16 },
    /// HTTP GET of a loopback address, giving up after the timeout.
    Get { url: String, timeout_secs: u64 },
    /// Wait.
    Sleep { millis: u64 },
    /// Start a process with captured output and no input.
    Spawn { program: String, args: Vec<String> },
    /// Look, without blocking, whether the child process has ended.
    Poll { pid: u32 },
    /// Kill the child process and wait for it; failures are swallowed.
    Kill { pid: u32 },
}

/// What was observed when an effect was performed.
#[derive(Debug, PartialEq, Eq)]
pub enum Outcome {
    /// The paths, among those asked for, that are regular files.
    Located { installed: Vec<String> },
    /// The local port of the listener, or nothing if the bind failed.
    Bound { local: Option<u16> },
    /// The result of the GET.
    Got { result: FetchResult },
    /// The wait is over.
    Slept,
    /// The id of the new process, or nothing if it could not be started.
    Spawned { pid: Option<u32> },
    /// The state of the child process.
    Polled { status: ChildStatus },
    /// The child process is gone.
    Killed,
}

/// The mathematical content of an [`Effect`].
pub enum EffectView {
    Locate { paths: Seq<Seq<char>> },
    Bind { port: u16 },
    Get { url: Seq<char>, timeout_secs: u64 },
    Sleep { millis: u64 },
    Spawn { program: Seq<char>, args: Seq<Seq<char>> },
    Poll { pid: u32 },
    Kill { pid: u32 },
}

/// The mathematical content of a [`FetchResult`].
pub enum FetchView {
    Unreachable { reason: Seq<char> },
    Response { status: u16, body: Seq<u8> },
}

/// The mathematical content of an [`Outcome`].
pub enum OutcomeView {
    Located { installed: Seq<Seq<char>> },
    Bound { local: Option<u16> },
    Got { result: FetchView },
    Slept,
    Spawned { pid: Option<u32> },
    Polled { status: ChildStatus },
    Killed,
}

impl View for FetchResult {
    type V = FetchView;

    open spec fn view(&self) -> FetchView {
        match *self {
            FetchResult::Unreachable { reason } => FetchView::Unreachable { reason: reason@ },
            FetchResult::Response { status, body } => FetchView::Response { status, body: body@ },
        }
    }
}

impl View for Effect {
    type V = EffectView;

    open spec fn view(&self) -> EffectView {
        match *self {
            Effect::Locate { paths } => EffectView::Locate { paths: texts(paths@) },
            Effect::Bind { port } => EffectView::Bind { port },
            Effect::Get { url, timeout_secs } => EffectView::Get { url: url@, timeout_secs },
            Effect::Sleep { millis } => EffectView::Sleep { millis },
            Effect::Spawn { program, args } => EffectView::Spawn {
                program: program@,
                args: texts(args@),
            },
            Effect::Poll { pid } => EffectView::Poll { pid },
            Effect::Kill { pid } => EffectView::Kill { pid },
        }
    }
}

impl View for Outcome {
    type V = OutcomeView;

    open spec fn view(&self) -> OutcomeView {
        match *self {
            Outcome::Located { installed } => OutcomeView::Located { installed: texts(installed@) },
            Outcome::Bound { local } => OutcomeView::Bound { local },
            Outcome::Got { result } => OutcomeView::Got { result: result@ },
            Outcome::Slept => OutcomeView::Slept,
            Outcome::Spawned { pid } => OutcomeView::Spawned { pid },
            Outcome::Polled { status } => OutcomeView::Polled { status },
            Outcome::Killed => OutcomeView::Killed,
        }
    }
}

impl FetchView {
    /// The response carries a status from 200 to 299.
    pub open spec fn is_success(self) -> bool {
        self matches FetchView::Response { status, .. } && 200 <= status <= 299
    }
}

impl FetchResult {
    /// Whether the response carries a status from 200 to 299.
    pub fn is_success(&self) -> (r: bool)
        ensures
            r == self@.is_success(),
    {
        match self {
            FetchResult::Unreachable { .. } => false,
            FetchResult::Response { status, .. } => 200 <= *status && *status <= 299,
        }
    }
}

/// A copy of a list of strings.
pub fn clone_texts(v: &Vec<String>) -> (out: Vec<String>)
    ensures
        texts(out@) == texts(v@),
{
    let mut out: Vec<String> = Vec::new();
    let mut i: usize = 0;
    while i < v.len()
        invariant
            i <= v.len(),
            out.len() == i,
            forall|j: int| 0 <= j < i ==> out@[j]@ == v@[j]@,
        decreases v.len() - i,
    {
        out.push(v[i].clone());
        i += 1;
    }
    assert(texts(out@) =~= texts(v@));
    out
}

} // verus!
