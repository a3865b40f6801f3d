//! The prune controller: owns the run state and a handle to the task
//! spawner, and advances one tick at a time without ever blocking.

use vstd::prelude::*;

use crate::event::{CompletionStatus, PollOutcome, PruneEvent};
use crate::state::{advance_step, completion_step, PrunerState};

verus! {

/// Capability to execute one pruning run off the foreground thread.
///
/// Implementations take ownership of the runner and only enqueue the work:
/// the call must return without waiting for the run. The finished runner
/// and its outcome come back through the completion channel owned by the
/// caller's event loop, and an implementation is expected to escalate an
/// abnormal termination of the submitted work as a critical event.
pub trait TaskSpawner<R> {
    /// The history of runners submitted to this spawner, in order. Purely
    /// abstract: a verified implementation overrides this with its own
    /// accounting of submissions and proves the contract below against it.
    open spec fn submitted(&self) -> Seq<R> {
        Seq::empty()
    }

    /// Submit one pruning run for background execution: afterwards the
    /// submission history is the old one extended by exactly this runner.
    fn spawn_prune_run(&mut self, runner: R)
        ensures
            final(self).submitted() == old(self).submitted().push(runner),
    ;
}

/// Manages pruning under the control of the engine's event loop.
///
/// The controller is single-threaded and cooperative: every operation
/// either completes immediately or reports "not yet". Exactly one run may
/// be outstanding at a time, and `is_pruner_active` is the authoritative
/// signal that the shared store's write path is taken.
pub struct PruneController<R, S> {
    /// The current state of the pruner.
    pruner_state: PrunerState<R>,
    /// The type that can spawn the pruner task.
    pruner_task_spawner: S,
}

impl<R, S: TaskSpawner<R>> PruneController<R, S> {
    /// The abstract state this controller is in.
    pub closed spec fn state_of(self) -> PrunerState<R> {
        self.pruner_state
    }

    /// The spawner handle the controller carries.
    pub closed spec fn spawner_of(self) -> S {
        self.pruner_task_spawner
    }

    /// Well-formedness: whenever the controller is idle it holds a runner.
    pub open spec fn wf(self) -> bool {
        self.state_of().wf()
    }

    /// True iff no pruning run is outstanding.
    pub open spec fn is_idle_spec(self) -> bool {
        self.state_of() is Idle
    }

    /// Create a new instance, idle and holding `pruner`.
    pub fn new(pruner: R, pruner_task_spawner: S) -> (c: Self)
        ensures
            c.wf(),
            c.state_of() == PrunerState::Idle(Some(pruner)),
            c.spawner_of() == pruner_task_spawner,
    {
        PruneController { pruner_state: PrunerState::Idle(Some(pruner)), pruner_task_spawner }
    }

    /// Returns `true` if the pruner is idle.
    pub fn is_pruner_idle(&self) -> (r: bool)
        ensures
            r == self.is_idle_spec(),
    {
        self.pruner_state.is_idle()
    }

    /// Returns `true` if the pruner is active, i.e. a run is outstanding
    /// and store writes must be deferred.
    pub fn is_pruner_active(&self) -> (r: bool)
        ensures
            r == !self.is_idle_spec(),
    {
        !self.is_pruner_idle()
    }

    /// This will spawn the pruner if it is idle: the held runner is taken
    /// out, handed to the task spawner, and the state moves to running.
    /// If a run is already outstanding this is a no-op returning nothing,
    /// so at most one run is ever in flight.
    ///
    /// `Started` comes back exactly when one unit of work, owning the
    /// previously held runner, was submitted to the spawner.
    pub fn try_spawn_pruner<E>(&mut self) -> (ev: Option<PruneEvent<E>>)
        requires
            old(self).wf(),
        ensures
            final(self).wf(),
            old(self).is_idle_spec() ==> {
                &&& ev == Some(PruneEvent::<E>::Started)
                &&& final(self).state_of() is Running
                &&& final(self).spawner_of().submitted() == old(self).spawner_of().submitted()
                    .push(old(self).state_of().held_runner()->Some_0)
            },
            !old(self).is_idle_spec() ==> {
                &&& ev is None
                &&& *final(self) == *old(self)
            },
    {
        match &mut self.pruner_state {
            PrunerState::Idle(pruner) => {
                let taken = pruner.take();
                match taken {
                    Some(p) => {
                        self.pruner_task_spawner.spawn_prune_run(p);
                        self.pruner_state = PrunerState::Running;
                        Some(PruneEvent::Started)
                    },
                    None => None,
                }
            },
            PrunerState::Running => None,
        }
    }

    /// Advances the pruner state with this tick's completion-channel check.
    ///
    /// While idle there is no channel, so the caller can only report
    /// `Pending` and nothing happens. While running, a delivered value
    /// returns the runner and yields `Finished`; a closed channel yields
    /// `TaskDropped` and leaves the state running for good; an open, empty
    /// channel yields nothing this tick.
    pub fn poll_pruner<E>(&mut self, completion: CompletionStatus<R, E>) -> (r: PollOutcome<E>)
        requires
            old(self).wf(),
            old(self).is_idle_spec() ==> completion is Pending,
        ensures
            final(self).wf(),
            (final(self).state_of(), r) == completion_step::<R, E>(
                old(self).state_of(),
                completion,
            ),
            final(self).spawner_of() == old(self).spawner_of(),
    {
        match self.pruner_state {
            PrunerState::Idle(_) => PollOutcome::Pending,
            PrunerState::Running => match completion {
                CompletionStatus::Delivered(runner, result) => {
                    self.pruner_state = PrunerState::Idle(Some(runner));
                    PollOutcome::Ready(PruneEvent::Finished { result })
                },
                CompletionStatus::Closed => PollOutcome::Ready(PruneEvent::TaskDropped),
                CompletionStatus::Pending => PollOutcome::Pending,
            },
        }
    }

    /// Advances the prune process by one tick of the caller's event loop.
    ///
    /// First tries to spawn a run; if one was started, `Started` comes
    /// back at once, and exactly one unit of work owning the previously
    /// held runner was submitted to the spawner. Otherwise the spawner is
    /// left untouched and the completion phase is driven with this tick's
    /// channel check. The whole tick follows `advance_step` on the
    /// abstract state.
    pub fn poll<E>(&mut self, completion: CompletionStatus<R, E>) -> (r: PollOutcome<E>)
        requires
            old(self).wf(),
            old(self).is_idle_spec() ==> completion is Pending,
        ensures
            final(self).wf(),
            (final(self).state_of(), r) == advance_step::<R, E>(old(self).state_of(), completion),
            old(self).is_idle_spec() ==> final(self).spawner_of().submitted() == old(
                self,
            ).spawner_of().submitted().push(old(self).state_of().held_runner()->Some_0),
            !old(self).is_idle_spec() ==> final(self).spawner_of() == old(self).spawner_of(),
    {
        // Try to spawn a pruner
        if let Some(event) = self.try_spawn_pruner() {
            return PollOutcome::Ready(event);
        }
        let outcome = self.poll_pruner(completion);
        if let PollOutcome::Ready(event) = outcome {
            return PollOutcome::Ready(event);
        }
        if !self.pruner_state.is_idle() {
            // Can not make any progress this tick.
            return PollOutcome::Pending;
        }
        // Defensive only: an idle controller always holds a runner, so the
        // spawn attempt above would have succeeded. Nothing to do.
        PollOutcome::Pending
    }
}

} // verus!
