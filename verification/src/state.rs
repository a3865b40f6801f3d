//! The idle/running state of the pruner, and the controller's abstract
//! transition function.

use vstd::prelude::*;

use crate::event::{CompletionStatus, PollOutcome, PruneEvent};

verus! {

/// The possible pruner states within the controller.
///
/// `Idle` means no pruning pass is outstanding; the controller holds the
/// runner so the next start can hand it out. `Running` means a pass is
/// outstanding: the runner is owned by the background unit of work and the
/// caller's event loop holds the completion handle.
///
/// The distinction is load-bearing: while the pruner runs it holds the
/// store's write lock, so the foreground must defer its own store writes
/// until the controller reports the run over.
pub enum PrunerState<R> {
    /// Pruner is idle, holding the reusable runner.
    ///
    /// The option is `Some` at every observation point; it is emptied only
    /// inside the atomic start transition.
    Idle(Option<R>),
    /// Pruner is running; a completion is awaited.
    Running,
}

impl<R> PrunerState<R> {
    /// The runner held while idle; `None` while running.
    pub open spec fn held_runner(self) -> Option<R> {
        match self {
            PrunerState::Idle(runner) => runner,
            PrunerState::Running => None,
        }
    }

    /// Well-formedness: an idle state always holds a runner. Every
    /// constructor establishes this and every transition preserves it.
    pub open spec fn wf(self) -> bool {
        self is Idle ==> self.held_runner() is Some
    }

    /// Returns `true` if the state matches idle.
    pub fn is_idle(&self) -> (r: bool)
        ensures
            r == (self is Idle),
    {
        matches!(self, PrunerState::Idle(_))
    }
}

/// One step of the completion phase: what a single non-blocking channel
/// check does to the state, and which event it yields.
///
/// While idle there is no channel to check, so nothing happens; while
/// running, a delivered value returns the runner and finishes the run, a
/// closed channel reports the run lost and leaves the state running for
/// good, and an open-but-empty channel changes nothing.
pub open spec fn completion_step<R, E>(
    s: PrunerState<R>,
    c: CompletionStatus<R, E>,
) -> (PrunerState<R>, PollOutcome<E>) {
    match s {
        PrunerState::Idle(_) => (s, PollOutcome::Pending),
        PrunerState::Running => match c {
            CompletionStatus::Delivered(runner, result) => (
                PrunerState::Idle(Some(runner)),
                PollOutcome::Ready(PruneEvent::Finished { result }),
            ),
            CompletionStatus::Closed => (
                PrunerState::Running,
                PollOutcome::Ready(PruneEvent::TaskDropped),
            ),
            CompletionStatus::Pending => (PrunerState::Running, PollOutcome::Pending),
        },
    }
}

/// One full advance tick: start a run if idle with a runner at hand,
/// otherwise drive the completion phase with this tick's channel check.
pub open spec fn advance_step<R, E>(
    s: PrunerState<R>,
    c: CompletionStatus<R, E>,
) -> (PrunerState<R>, PollOutcome<E>) {
    match s {
        PrunerState::Idle(runner) => match runner {
            Some(_) => (PrunerState::Running, PollOutcome::Ready(PruneEvent::Started)),
            None => (s, PollOutcome::Pending),
        },
        PrunerState::Running => completion_step(s, c),
    }
}

} // verus!
