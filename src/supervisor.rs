use vstd::prelude::*;

use crate::attach::AttachError;

verus! {

/// Why the kernel refused the program's bytecode.
#[derive(Debug, Clone, Copy, PartialEq, Eq, Structural)]
pub enum LoadError {
    /// The kernel's verifier rejected the program as unsafe.
    VerificationFailed,
    /// The kernel's limits on objects were reached.
    ResourceExhausted,
    /// The bytecode container is malformed.
    FormatError,
}

/// The step that made the supervisor fail.
#[derive(Debug, Clone, Copy, PartialEq, Eq, Structural)]
pub enum Failure {
    Load(LoadError),
    Attach(AttachError),
    /// The relay of diagnostic records could not start.
    Relay,
    /// Detaching during teardown failed.
    Detach,
}

/// Where the supervisor stands in its life.
#[derive(Debug, Clone, Copy, PartialEq, Eq, Structural)]
pub enum Phase {
    Loading,
    Attaching,
    StartingRelay,
    Running,
    StoppingRelay,
    Detaching,
    Done,
}

/// What happened outside since the last action.
#[derive(Debug, Clone, Copy, PartialEq, Eq, Structural)]
pub enum Event {
    Loaded,
    LoadFailed(LoadError),
    Attached,
    AttachFailed(AttachError),
    RelayStarted,
    RelayFailed,
    /// The interrupt signal arrived.
    Interrupted,
    RelayStopped,
    Detached,
    DetachFailed,
}

/// What the supervisor asks to be done next.
#[derive(Debug, Clone, Copy, PartialEq, Eq, Structural)]
pub enum Action {
    Load,
    Attach,
    StartRelay,
    WaitForSignal,
    StopRelay,
    Detach,
    /// End the process, with the failure if there was one.
    Exit(Option<Failure>),
    /// The event does not belong to the current phase; nothing to do.
    Ignore,
}

/// Whether the program is bound to the interface while in `p`.
pub open spec fn holds_attachment(p: Phase) -> bool {
    p == Phase::StartingRelay || p == Phase::Running || p == Phase::StoppingRelay
}

/// The phase, the failure recorded so far, and the action after `ev`
/// arrives in phase `p` with failure `f` recorded.
pub open spec fn transition(p: Phase, f: Option<Failure>, ev: Event) -> (Phase, Option<Failure>, Action) {
    match (p, ev) {
        (Phase::Loading, Event::Loaded) => (Phase::Attaching, f, Action::Attach),
        (Phase::Loading, Event::LoadFailed(e)) => (
            Phase::Done,
            Some(Failure::Load(e)),
            Action::Exit(Some(Failure::Load(e))),
        ),
        (Phase::Attaching, Event::Attached) => (Phase::StartingRelay, f, Action::StartRelay),
        (Phase::Attaching, Event::AttachFailed(e)) => (
            Phase::Done,
            Some(Failure::Attach(e)),
            Action::Exit(Some(Failure::Attach(e))),
        ),
        (Phase::StartingRelay, Event::RelayStarted) => (Phase::Running, f, Action::WaitForSignal),
        (Phase::StartingRelay, Event::RelayFailed) => (
            Phase::Detaching,
            Some(Failure::Relay),
            Action::Detach,
        ),
        (Phase::Running, Event::Interrupted) => (Phase::StoppingRelay, f, Action::StopRelay),
        (Phase::StoppingRelay, Event::RelayStopped) => (Phase::Detaching, f, Action::Detach),
        (Phase::Detaching, Event::Detached) => (Phase::Done, f, Action::Exit(f)),
        (Phase::Detaching, Event::DetachFailed) => {
            let g = if f is Some {
                f
            } else {
                Some(Failure::Detach)
            };
            (Phase::Done, g, Action::Exit(g))
        },
        _ => (p, f, Action::Ignore),
    }
}

/// The exit status for an outcome: zero only when nothing failed.
pub open spec fn exit_status(outcome: Option<Failure>) -> i32 {
    if outcome is Some {
        1
    } else {
        0
    }
}

/// The supervisor never ends the process while the program is bound: every
/// exit comes before the attach succeeded or after the detach was tried.
pub proof fn lemma_no_exit_while_attached(p: Phase, f: Option<Failure>, ev: Event)
    ensures
        transition(p, f, ev).2 is Exit ==> {
            &&& !holds_attachment(p)
            &&& transition(p, f, ev).0 == Phase::Done
        },
{
}

/// A program that the kernel refused is never attached: the supervisor exits
/// with the load failure, and once done it ignores every later event.
pub proof fn lemma_rejected_load_never_attaches(f: Option<Failure>, e: LoadError, later: Event)
    ensures
        transition(Phase::Loading, f, Event::LoadFailed(e)) == (
            Phase::Done,
            Some(Failure::Load(e)),
            Action::Exit(Some(Failure::Load(e))),
        ),
        transition(Phase::Done, Some(Failure::Load(e)), later) == (
            Phase::Done,
            Some(Failure::Load(e)),
            Action::Ignore,
        ),
{
}

/// A failed step is never forgotten: once a failure is recorded, the exit
/// status is non-zero.
pub proof fn lemma_failure_kept(p: Phase, f: Option<Failure>, ev: Event)
    ensures
        f is Some ==> transition(p, f, ev).1 is Some,
        transition(p, f, ev).2 == Action::Exit(None) ==> f is None && p == Phase::Detaching
            && ev == Event::Detached,
{
}

/// Drives the start, run and teardown of the packet filter. Each outside step
/// is done by the caller, who reports how it went.
pub struct Supervisor {
    phase: Phase,
    failure: Option<Failure>,
}

impl Supervisor {
    /// The phase the supervisor is in.
    pub closed spec fn phase_of(&self) -> Phase {
        self.phase
    }

    /// The failure recorded so far.
    pub closed spec fn failure_of(&self) -> Option<Failure> {
        self.failure
    }

    /// A supervisor about to load the program; its first action is `Load`.
    pub fn new() -> (r: Supervisor)
        ensures
            r.phase_of() == Phase::Loading,
            r.failure_of() == None::<Failure>,
    {
        Supervisor { phase: Phase::Loading, failure: None }
    }

    /// The first action: load the program.
    pub fn first_action(&self) -> (r: Action)
        ensures
            r == Action::Load,
    {
        Action::Load
    }

    /// The current phase.
    pub fn phase(&self) -> (r: Phase)
        ensures
            r == self.phase_of(),
    {
        self.phase
    }

    /// The failure recorded so far, if any.
    pub fn failure(&self) -> (r: Option<Failure>)
        ensures
            r == self.failure_of(),
    {
        self.failure
    }

    /// Takes in what happened and says what to do next.
    pub fn step(&mut self, ev: Event) -> (r: Action)
        ensures
            (final(self).phase_of(), final(self).failure_of(), r) == transition(
                old(self).phase_of(),
                old(self).failure_of(),
                ev,
            ),
    {
        let p = self.phase;
        let f = self.failure;
        let (np, nf, a) = match (p, ev) {
            (Phase::Loading, Event::Loaded) => (Phase::Attaching, f, Action::Attach),
            (Phase::Loading, Event::LoadFailed(e)) => (
                Phase::Done,
                Some(Failure::Load(e)),
                Action::Exit(Some(Failure::Load(e))),
            ),
            (Phase::Attaching, Event::Attached) => (Phase::StartingRelay, f, Action::StartRelay),
            (Phase::Attaching, Event::AttachFailed(e)) => (
                Phase::Done,
                Some(Failure::Attach(e)),
                Action::Exit(Some(Failure::Attach(e))),
            ),
            (Phase::StartingRelay, Event::RelayStarted) => (Phase::Running, f, Action::WaitForSignal),
            (Phase::StartingRelay, Event::RelayFailed) => (
                Phase::Detaching,
                Some(Failure::Relay),
                Action::Detach,
            ),
            (Phase::Running, Event::Interrupted) => (Phase::StoppingRelay, f, Action::StopRelay),
            (Phase::StoppingRelay, Event::RelayStopped) => (Phase::Detaching, f, Action::Detach),
            (Phase::Detaching, Event::Detached) => (Phase::Done, f, Action::Exit(f)),
            (Phase::Detaching, Event::DetachFailed) => {
                let g = if f.is_some() {
                    f
                } else {
                    Some(Failure::Detach)
                };
                (Phase::Done, g, Action::Exit(g))
            },
            _ => (p, f, Action::Ignore),
        };
        self.phase = np;
        self.failure = nf;
        a
    }
}

/// The process exit status for an outcome: zero only when nothing failed.
pub fn exit_code(outcome: Option<Failure>) -> (r: i32)
    ensures
        r == exit_status(outcome),
{
    match outcome {
        Some(_) => 1,
        None => 0,
    }
}

} // verus!
