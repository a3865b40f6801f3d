//! Events and tick inputs of the prune controller.

use vstd::prelude::*;

verus! {

/// The event type emitted by the prune controller.
///
/// `E` is the typed failure a pruning pass may report; the controller never
/// inspects it, it only hands it through to the caller.
#[derive(Debug, PartialEq, Eq)]
pub enum PruneEvent<E> {
    /// A pruning run was started.
    Started,
    /// A pruning run finished; the controller is idle again and holds the
    /// returned runner.
    Finished {
        /// Final result of the pruning run.
        result: Result<(), E>,
    },
    /// The background unit of work disappeared without posting a result:
    /// its side of the completion channel closed first. The runner is lost
    /// and the controller stays in the running state for good.
    TaskDropped,
}

/// What one non-blocking check of the completion channel reported.
///
/// The channel itself lives with the caller's event loop; the controller is
/// handed the check's result as a plain value once per tick.
#[derive(Debug)]
pub enum CompletionStatus<R, E> {
    /// The finished runner and its outcome were delivered.
    Delivered(R, Result<(), E>),
    /// The producer side closed without ever delivering a value.
    Closed,
    /// Nothing yet; the channel is still open.
    Pending,
}

/// The outcome of one advance tick: either a definitive event, or nothing
/// this tick.
#[derive(Debug, PartialEq, Eq)]
pub enum PollOutcome<E> {
    /// A state transition happened and produced this event.
    Ready(PruneEvent<E>),
    /// No event this tick; try again on the next wakeup.
    Pending,
}

} // verus!
