use std::cell::RefCell;
use std::rc::Rc;

use engine_prune::controller::{PruneController, TaskSpawner};
use engine_prune::event::{CompletionStatus, PollOutcome, PruneEvent};
use engine_prune::state::PrunerState;

/// A test spawner that records every runner handed to it in a log shared
/// with the test body.
struct RecordingSpawner {
    log: Rc<RefCell<Vec<u32>>>,
}

impl TaskSpawner<u32> for RecordingSpawner {
    fn spawn_prune_run(&mut self, runner: u32) {
        self.log.borrow_mut().push(runner);
    }
}

fn make_controller(runner: u32) -> (PruneController<u32, RecordingSpawner>, Rc<RefCell<Vec<u32>>>) {
    let log = Rc::new(RefCell::new(Vec::new()));
    let spawner = RecordingSpawner { log: log.clone() };
    (PruneController::new(runner, spawner), log)
}

#[test]
fn fresh_controller_is_idle() {
    let (c, log) = make_controller(1);
    assert!(c.is_pruner_idle());
    assert!(!c.is_pruner_active());
    assert_eq!(log.borrow().len(), 0);
}

#[test]
fn first_poll_starts_exactly_one_run() {
    let (mut c, log) = make_controller(7);
    let ev = c.poll::<u32>(CompletionStatus::Pending);
    assert_eq!(ev, PollOutcome::Ready(PruneEvent::Started));
    assert!(c.is_pruner_active());
    assert!(!c.is_pruner_idle());
    assert_eq!(*log.borrow(), vec![7]);
}

#[test]
fn no_second_start_while_run_outstanding() {
    let (mut c, log) = make_controller(7);
    let ev = c.poll::<u32>(CompletionStatus::Pending);
    assert_eq!(ev, PollOutcome::Ready(PruneEvent::Started));
    for _ in 0..5 {
        let ev = c.poll::<u32>(CompletionStatus::Pending);
        assert_eq!(ev, PollOutcome::Pending);
        assert!(c.is_pruner_active());
    }
    assert_eq!(*log.borrow(), vec![7]);
}

#[test]
fn successful_completion_returns_to_idle_and_allows_restart() {
    let (mut c, log) = make_controller(7);
    assert_eq!(c.poll::<u32>(CompletionStatus::Pending), PollOutcome::Ready(PruneEvent::Started));
    let ev = c.poll::<u32>(CompletionStatus::Delivered(7, Ok(())));
    assert_eq!(ev, PollOutcome::Ready(PruneEvent::Finished { result: Ok(()) }));
    assert!(c.is_pruner_idle());
    let ev = c.poll::<u32>(CompletionStatus::Pending);
    assert_eq!(ev, PollOutcome::Ready(PruneEvent::Started));
    assert_eq!(*log.borrow(), vec![7, 7]);
}

#[test]
fn failed_completion_still_returns_to_idle() {
    let (mut c, log) = make_controller(3);
    assert_eq!(c.poll::<u32>(CompletionStatus::Pending), PollOutcome::Ready(PruneEvent::Started));
    let ev = c.poll::<u32>(CompletionStatus::Delivered(3, Err(42)));
    assert_eq!(ev, PollOutcome::Ready(PruneEvent::Finished { result: Err(42) }));
    assert!(c.is_pruner_idle());
    assert!(!c.is_pruner_active());
    let ev = c.poll::<u32>(CompletionStatus::Pending);
    assert_eq!(ev, PollOutcome::Ready(PruneEvent::Started));
    assert_eq!(*log.borrow(), vec![3, 3]);
}

#[test]
fn delivered_runner_is_the_one_reused() {
    let (mut c, log) = make_controller(1);
    assert_eq!(c.poll::<u32>(CompletionStatus::Pending), PollOutcome::Ready(PruneEvent::Started));
    // The background work hands back a runner of its own; the controller
    // must hold and reuse exactly that one.
    let ev = c.poll::<u32>(CompletionStatus::Delivered(99, Ok(())));
    assert_eq!(ev, PollOutcome::Ready(PruneEvent::Finished { result: Ok(()) }));
    assert_eq!(c.poll::<u32>(CompletionStatus::Pending), PollOutcome::Ready(PruneEvent::Started));
    assert_eq!(*log.borrow(), vec![1, 99]);
}

#[test]
fn task_dropped_is_permanent() {
    let (mut c, log) = make_controller(7);
    assert_eq!(c.poll::<u32>(CompletionStatus::Pending), PollOutcome::Ready(PruneEvent::Started));
    let ev = c.poll::<u32>(CompletionStatus::Closed);
    assert_eq!(ev, PollOutcome::Ready(PruneEvent::TaskDropped));
    assert!(c.is_pruner_active());
    for _ in 0..5 {
        let ev = c.poll::<u32>(CompletionStatus::Closed);
        assert_eq!(ev, PollOutcome::Ready(PruneEvent::TaskDropped));
        assert!(c.is_pruner_active());
        assert!(!c.is_pruner_idle());
    }
    // The one spawned run is the only one ever submitted.
    assert_eq!(*log.borrow(), vec![7]);
}

#[test]
fn scenario_successful_cycle_and_reuse() {
    let (mut c, log) = make_controller(11);
    // Start.
    assert_eq!(c.poll::<u32>(CompletionStatus::Pending), PollOutcome::Ready(PruneEvent::Started));
    // No completion yet.
    assert_eq!(c.poll::<u32>(CompletionStatus::Pending), PollOutcome::Pending);
    assert!(c.is_pruner_active());
    // Background run completes successfully.
    assert_eq!(
        c.poll::<u32>(CompletionStatus::Delivered(11, Ok(()))),
        PollOutcome::Ready(PruneEvent::Finished { result: Ok(()) })
    );
    assert!(c.is_pruner_idle());
    // The same runner is started again.
    assert_eq!(c.poll::<u32>(CompletionStatus::Pending), PollOutcome::Ready(PruneEvent::Started));
    assert_eq!(*log.borrow(), vec![11, 11]);
}

#[test]
fn scenario_abnormal_termination_sticks() {
    let (mut c, log) = make_controller(11);
    assert_eq!(c.poll::<u32>(CompletionStatus::Pending), PollOutcome::Ready(PruneEvent::Started));
    // The worker disappears without posting a result.
    assert_eq!(c.poll::<u32>(CompletionStatus::Closed), PollOutcome::Ready(PruneEvent::TaskDropped));
    assert_eq!(c.poll::<u32>(CompletionStatus::Closed), PollOutcome::Ready(PruneEvent::TaskDropped));
    assert!(c.is_pruner_active());
    assert_eq!(*log.borrow(), vec![11]);
}

#[test]
fn try_spawn_pruner_starts_once() {
    let (mut c, log) = make_controller(5);
    let ev = c.try_spawn_pruner::<u32>();
    assert_eq!(ev, Some(PruneEvent::Started));
    assert!(c.is_pruner_active());
    let ev = c.try_spawn_pruner::<u32>();
    assert_eq!(ev, None);
    assert_eq!(*log.borrow(), vec![5]);
}

#[test]
fn poll_pruner_reports_nothing_while_idle() {
    let (mut c, _log) = make_controller(5);
    let r = c.poll_pruner::<u32>(CompletionStatus::Pending);
    assert_eq!(r, PollOutcome::Pending);
    assert!(c.is_pruner_idle());
}

#[test]
fn poll_pruner_consumes_delivery() {
    let (mut c, _log) = make_controller(5);
    assert_eq!(c.try_spawn_pruner::<u32>(), Some(PruneEvent::Started));
    assert_eq!(c.poll_pruner::<u32>(CompletionStatus::Pending), PollOutcome::Pending);
    let r = c.poll_pruner::<u32>(CompletionStatus::Delivered(5, Err(8)));
    assert_eq!(r, PollOutcome::Ready(PruneEvent::Finished { result: Err(8) }));
    assert!(c.is_pruner_idle());
}

#[test]
fn state_is_idle_matches_variant() {
    let idle: PrunerState<u32> = PrunerState::Idle(Some(4));
    assert!(idle.is_idle());
    let running: PrunerState<u32> = PrunerState::Running;
    assert!(!running.is_idle());
}
