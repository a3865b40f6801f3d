//! The controller's guarantees, stated and proved over the abstract
//! transition function that the executable `poll` is pinned to.
//!
//! `poll` ensures that its state change and outcome equal `advance_step`
//! on the abstract state, so everything proved here about `advance_step`
//! holds of every run of the executable controller.

use vstd::prelude::*;

use crate::event::{CompletionStatus, PollOutcome, PruneEvent};
use crate::state::{advance_step, PrunerState};

verus! {

/// The state after driving one advance tick per entry of `cs`, in order.
pub open spec fn advance_seq<R, E>(
    s: PrunerState<R>,
    cs: Seq<CompletionStatus<R, E>>,
) -> PrunerState<R>
    decreases cs.len(),
{
    if cs.len() == 0 {
        s
    } else {
        advance_seq(advance_step::<R, E>(s, cs[0]).0, cs.subrange(1, cs.len() as int))
    }
}

/// No entry of `cs` delivers a completed run.
pub open spec fn no_delivery<R, E>(cs: Seq<CompletionStatus<R, E>>) -> bool {
    forall|i: int| 0 <= i < cs.len() ==> !((#[trigger] cs[i]) is Delivered)
}

/// Every entry of `cs` reports the completion channel closed.
pub open spec fn all_closed<R, E>(cs: Seq<CompletionStatus<R, E>>) -> bool {
    forall|i: int| 0 <= i < cs.len() ==> ((#[trigger] cs[i]) is Closed)
}

/// Advancing preserves well-formedness: from a well-formed state, every
/// tick leads to a well-formed state.
pub proof fn lemma_advance_preserves_wf<R, E>(s: PrunerState<R>, c: CompletionStatus<R, E>)
    requires
        s.wf(),
    ensures
        advance_step::<R, E>(s, c).0.wf(),
{
}

/// From any well-formed idle state, one advance tick starts a run: it
/// yields exactly `Started` and leaves a run outstanding. In particular
/// the first tick of a freshly constructed controller does so.
pub proof fn lemma_idle_advance_starts<R, E>(s: PrunerState<R>, c: CompletionStatus<R, E>)
    requires
        s.wf(),
        s is Idle,
    ensures
        advance_step::<R, E>(s, c).1 == PollOutcome::Ready(PruneEvent::<E>::Started),
        advance_step::<R, E>(s, c).0 is Running,
{
}

/// While a run is outstanding, no advance tick yields a second `Started`,
/// whatever the completion channel reports.
pub proof fn lemma_no_second_start<R, E>(s: PrunerState<R>, c: CompletionStatus<R, E>)
    requires
        s is Running,
    ensures
        advance_step::<R, E>(s, c).1 != PollOutcome::Ready(PruneEvent::<E>::Started),
{
}

/// While a run is outstanding and no completion is delivered, the run
/// stays outstanding through any sequence of ticks.
pub proof fn lemma_running_stays_running<R, E>(s: PrunerState<R>, cs: Seq<CompletionStatus<R, E>>)
    requires
        s is Running,
        no_delivery(cs),
    ensures
        advance_seq::<R, E>(s, cs) is Running,
    decreases cs.len(),
{
    if cs.len() > 0 {
        let s1 = advance_step::<R, E>(s, cs[0]).0;
        let rest = cs.subrange(1, cs.len() as int);
        assert forall|i: int| 0 <= i < rest.len() implies !((#[trigger] rest[i]) is Delivered) by {
            assert(rest[i] == cs[i + 1]);
        }
        lemma_running_stays_running(s1, rest);
    }
}

/// At most one run is in flight: between `Started` and its terminal
/// event, no sequence of advance ticks ever yields another `Started`.
pub proof fn lemma_at_most_one_run_in_flight<R, E>(
    s: PrunerState<R>,
    cs: Seq<CompletionStatus<R, E>>,
)
    requires
        s is Running,
        no_delivery(cs),
    ensures
        forall|i: int| 0 <= i < cs.len() ==> (#[trigger] advance_step::<R, E>(
            advance_seq::<R, E>(s, cs.take(i)),
            cs[i],
        )).1 != PollOutcome::Ready(PruneEvent::<E>::Started),
        advance_seq::<R, E>(s, cs) is Running,
{
    assert forall|i: int| 0 <= i < cs.len() implies (#[trigger] advance_step::<R, E>(
        advance_seq::<R, E>(s, cs.take(i)),
        cs[i],
    )).1 != PollOutcome::Ready(PruneEvent::<E>::Started) by {
        let prefix = cs.take(i);
        assert forall|j: int| 0 <= j < prefix.len() implies !((#[trigger] prefix[j])
            is Delivered) by {
            assert(prefix[j] == cs[j]);
        }
        lemma_running_stays_running(s, prefix);
        lemma_no_second_start::<R, E>(advance_seq::<R, E>(s, prefix), cs[i]);
    }
    lemma_running_stays_running(s, cs);
}

/// A delivered completion finishes the run: the tick yields `Finished`
/// with exactly the delivered outcome, and the controller is idle again
/// holding exactly the returned runner. This holds for a success and for
/// a failure outcome alike, so a failure never strands the controller.
pub proof fn lemma_finished_returns_runner<R, E>(
    s: PrunerState<R>,
    runner: R,
    outcome: Result<(), E>,
)
    requires
        s is Running,
    ensures
        ({
            let (s1, ev) = advance_step::<R, E>(s, CompletionStatus::Delivered(runner, outcome));
            &&& ev == PollOutcome::Ready(PruneEvent::Finished { result: outcome })
            &&& s1 == PrunerState::<R>::Idle(Some(runner))
            &&& s1.wf()
        }),
{
}

/// After a run finishes, the next tick can start a fresh run reusing the
/// returned runner, whatever the outcome of the finished run was.
pub proof fn lemma_restart_after_finished<R, E>(
    s: PrunerState<R>,
    runner: R,
    outcome: Result<(), E>,
    c2: CompletionStatus<R, E>,
)
    requires
        s is Running,
    ensures
        ({
            let s1 = advance_step::<R, E>(s, CompletionStatus::Delivered(runner, outcome)).0;
            &&& advance_step::<R, E>(s1, c2).1 == PollOutcome::Ready(PruneEvent::<E>::Started)
            &&& advance_step::<R, E>(s1, c2).0 is Running
        }),
{
}

/// A closed completion channel reports the run lost: the tick yields
/// `TaskDropped` and the state stays running, unchanged.
pub proof fn lemma_task_dropped_stays_running<R, E>(s: PrunerState<R>)
    requires
        s is Running,
    ensures
        advance_step::<R, E>(s, CompletionStatus::<R, E>::Closed).0 == s,
        advance_step::<R, E>(s, CompletionStatus::<R, E>::Closed).1 == PollOutcome::Ready(
            PruneEvent::<E>::TaskDropped,
        ),
{
}

/// Once the background unit of work is lost, the condition is permanent:
/// with the channel reporting closed on every tick, every tick yields
/// `TaskDropped` again, the state stays running throughout, and no new
/// run is ever started.
pub proof fn lemma_stuck_after_task_dropped<R, E>(
    s: PrunerState<R>,
    cs: Seq<CompletionStatus<R, E>>,
)
    requires
        s is Running,
        all_closed(cs),
    ensures
        forall|i: int| 0 <= i < cs.len() ==> (#[trigger] advance_step::<R, E>(
            advance_seq::<R, E>(s, cs.take(i)),
            cs[i],
        )).1 == PollOutcome::Ready(PruneEvent::<E>::TaskDropped),
        advance_seq::<R, E>(s, cs) is Running,
{
    assert(no_delivery(cs));
    assert forall|i: int| 0 <= i < cs.len() implies (#[trigger] advance_step::<R, E>(
        advance_seq::<R, E>(s, cs.take(i)),
        cs[i],
    )).1 == PollOutcome::Ready(PruneEvent::<E>::TaskDropped) by {
        let prefix = cs.take(i);
        assert forall|j: int| 0 <= j < prefix.len() implies !((#[trigger] prefix[j])
            is Delivered) by {
            assert(prefix[j] == cs[j]);
        }
        lemma_running_stays_running(s, prefix);
        lemma_task_dropped_stays_running::<R, E>(advance_seq::<R, E>(s, prefix));
    }
    lemma_running_stays_running(s, cs);
}

} // verus!
