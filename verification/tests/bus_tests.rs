use event_sourcing::bus::notifying::{CommitAction, ListenSet, ListenerCore};
use event_sourcing::bus::persistent::{
    checkpoint_after, resume_position, sort_by_activation, PendingConsumer, PersistentBusCore, ReplayPlan,
};
use event_sourcing::bus::projection::{next_step, ProjectionRegistry, ProjectionReplay, ProjectionStep};
use event_sourcing::bus::subscription::{plan_consumers, StartFrom, SubscriptionOptions};
use event_sourcing::error::EventSourcingError;
use event_sourcing::event::EventType;

const TEST_EVENT: u64 = 7;
const OTHER_EVENT: u64 = 8;

fn consumer(activate_after: i64, checkpoint_name: Option<&str>, handle: usize) -> PendingConsumer<i64> {
    PendingConsumer {
        activate_after,
        checkpoint_name: checkpoint_name.map(|n| n.to_string()),
        event_type: TEST_EVENT,
        handle,
    }
}

/// Runs a replay over stored events with sequences 1..=count and returns
/// how many times each handle took an event.
fn replay_counts(consumers: Vec<PendingConsumer<i64>>, count: i64, handles: usize) -> Vec<usize> {
    let mut counts = vec![0usize; handles];
    let mut plan = match ReplayPlan::plan(consumers) {
        Some(p) => p,
        None => return counts,
    };
    for seq in 1..=count {
        if seq <= plan.position() {
            continue;
        }
        for h in plan.on_event(seq, TEST_EVENT) {
            counts[h] += 1;
        }
    }
    counts
}

#[test]
fn persistent_start_can_only_be_called_once() {
    let mut bus: PersistentBusCore<i64> = PersistentBusCore::new();
    assert!(bus.start().is_ok());
    assert!(bus.start().is_err());
}

#[test]
fn reject_replayable_consumer_after_start() {
    let mut bus: PersistentBusCore<i64> = PersistentBusCore::new();
    bus.start().unwrap();
    let result = bus.accept_replayable(&StartFrom::Beginning);
    assert!(matches!(result, Err(EventSourcingError::Bus { .. })));
}

#[test]
fn latest_consumers_are_not_replayable() {
    let bus: PersistentBusCore<i64> = PersistentBusCore::new();
    let err = bus.accept_replayable(&StartFrom::Latest).unwrap_err();
    assert_eq!(err.message(), "Latest consumers should use start_consumer_with_options");
    let named = bus
        .accept_replayable(&StartFrom::Checkpoint { consumer_name: "my-consumer".to_string() })
        .unwrap();
    assert_eq!(named, Some("my-consumer".to_string()));
    assert_eq!(bus.accept_replayable(&StartFrom::Beginning).unwrap(), None);
}

#[test]
fn start_hands_over_consumers_in_activation_order() {
    let mut bus: PersistentBusCore<i64> = PersistentBusCore::new();
    bus.enqueue(consumer(5, None, 0));
    bus.enqueue(consumer(2, Some("b"), 1));
    bus.enqueue(consumer(5, None, 2));
    bus.enqueue(consumer(0, None, 3));
    let started = bus.start().unwrap();
    let handles: Vec<usize> = started.iter().map(|c| c.handle).collect();
    assert_eq!(handles, vec![3, 1, 0, 2]);
    let again = bus.start().unwrap_err();
    assert_eq!(again.message(), "PersistentEventBus::start() called more than once");
}

#[test]
fn sort_keeps_every_consumer() {
    let sorted = sort_by_activation(vec![consumer(3, None, 0), consumer(1, None, 1), consumer(2, None, 2)]);
    let positions: Vec<i64> = sorted.iter().map(|c| c.activate_after).collect();
    assert_eq!(positions, vec![1, 2, 3]);
}

#[test]
fn sort_keeps_registration_order_at_equal_positions() {
    let sorted = sort_by_activation(vec![
        consumer(2, None, 0),
        consumer(1, None, 1),
        consumer(2, None, 2),
        consumer(1, None, 3),
        consumer(2, None, 4),
    ]);
    let handles: Vec<usize> = sorted.iter().map(|c| c.handle).collect();
    assert_eq!(handles, vec![1, 3, 0, 2, 4]);
}

#[test]
fn start_hands_over_ties_in_registration_order() {
    let mut core: PersistentBusCore<i64> = PersistentBusCore::new();
    core.enqueue(consumer(5, None, 0));
    core.enqueue(consumer(0, None, 1));
    core.enqueue(consumer(5, None, 2));
    let handed = core.start().unwrap();
    let handles: Vec<usize> = handed.iter().map(|c| c.handle).collect();
    assert_eq!(handles, vec![1, 0, 2]);
}

#[test]
fn beginning_consumer_replays_all_events() {
    let counts = replay_counts(vec![consumer(0, None, 0)], 2, 1);
    assert_eq!(counts[0], 2);
}

#[test]
fn checkpoint_consumer_resumes_from_saved_position() {
    let counts = replay_counts(vec![consumer(2, Some("my-consumer"), 0)], 3, 1);
    assert_eq!(counts[0], 1);
}

#[test]
fn deferred_consumer_joins_when_replay_passes_it() {
    let counts = replay_counts(vec![consumer(0, None, 0), consumer(2, Some("late"), 1)], 4, 2);
    assert_eq!(counts, vec![4, 2]);
}

#[test]
fn replay_skips_events_of_other_types() {
    let mut plan = ReplayPlan::plan(vec![consumer(0, None, 0)]).unwrap();
    assert!(plan.on_event(1, OTHER_EVENT).is_empty());
    assert_eq!(plan.on_event(2, TEST_EVENT), vec![0]);
    assert_eq!(plan.position(), 2);
    let live = plan.finish();
    assert_eq!(live.len(), 1);
}

#[test]
fn no_replay_without_consumers() {
    assert!(ReplayPlan::<i64>::plan(Vec::new()).is_none());
}

#[test]
fn checkpoint_saved_on_successful_replay() {
    let name = Some("my-consumer".to_string());
    assert_eq!(checkpoint_after(true, &name, 2i64), Some(("my-consumer".to_string(), 2)));
}

#[test]
fn checkpoint_not_saved_on_consumer_error() {
    let name = Some("my-consumer".to_string());
    assert_eq!(checkpoint_after(false, &name, 2i64), None);
    assert_eq!(checkpoint_after(true, &None, 2i64), None);
}

#[test]
fn failed_checkpoint_load_starts_from_beginning() {
    let failed: Result<i64, EventSourcingError> = Err(EventSourcingError::Store { message: "down".to_string() });
    assert_eq!(resume_position(failed), 0);
    assert_eq!(resume_position(Ok(7i64)), 7);
}

fn registry_with(names: &[&str]) -> ProjectionRegistry {
    let mut registry = ProjectionRegistry::new();
    for name in names {
        registry.register(name.to_string(), EventType::of(TEST_EVENT, "TestEvent".to_string())).unwrap();
    }
    registry
}

fn projection_runs(checkpoints: Vec<i64>, count: i64) -> Vec<usize> {
    let registry = registry_with(&vec!["proj"; checkpoints.len()]);
    let mut runs = vec![0usize; checkpoints.len()];
    let mut replay = ProjectionReplay::new(&registry, checkpoints).unwrap();
    for seq in 1..=count {
        if seq <= replay.position() {
            continue;
        }
        for i in replay.on_event(seq, TEST_EVENT) {
            runs[i] += 1;
            replay.on_outcome(i, seq, TEST_EVENT, true);
        }
    }
    runs
}

#[test]
fn projection_start_can_only_be_called_once() {
    let mut registry = ProjectionRegistry::new();
    assert!(registry.start().is_ok());
    assert!(registry.start().is_err());
}

#[test]
fn reject_projection_after_start() {
    let mut registry = ProjectionRegistry::new();
    registry.start().unwrap();
    let result = registry.register("late".to_string(), EventType::of(TEST_EVENT, "TestEvent".to_string()));
    let err = result.unwrap_err();
    assert_eq!(err.message(), "Cannot register projection after bus has started");
}

#[test]
fn replay_runs_projections_for_existing_events() {
    assert_eq!(projection_runs(vec![0], 2), vec![2]);
}

#[test]
fn replay_resumes_from_checkpoint() {
    assert_eq!(projection_runs(vec![2], 3), vec![1]);
}

#[test]
fn replay_starts_at_earliest_checkpoint() {
    assert_eq!(projection_runs(vec![3, 1, 4], 5), vec![2, 4, 1]);
}

#[test]
fn replayed_event_does_not_run_twice() {
    let registry = registry_with(&["proj"]);
    let mut replay = ProjectionReplay::new(&registry, vec![0i64]).unwrap();
    assert_eq!(replay.on_event(1, TEST_EVENT), vec![0]);
    replay.on_outcome(0, 1, TEST_EVENT, true);
    assert!(replay.on_event(1, TEST_EVENT).is_empty());
    assert_eq!(replay.checkpoint(0), 1);
}

#[test]
fn failed_projection_stops_for_the_rest_of_the_replay() {
    let registry = registry_with(&["proj", "other"]);
    let mut replay = ProjectionReplay::new(&registry, vec![0i64, 0]).unwrap();
    assert_eq!(replay.on_event(1, TEST_EVENT), vec![0, 1]);
    replay.on_outcome(0, 1, TEST_EVENT, false);
    replay.on_outcome(1, 1, TEST_EVENT, true);
    assert_eq!(replay.failure(0), Some((1, TEST_EVENT)));
    assert_eq!(replay.checkpoint(0), 0);
    assert_eq!(replay.checkpoint(1), 1);
    assert_eq!(replay.on_event(2, TEST_EVENT), vec![1]);
    replay.on_outcome(1, 2, TEST_EVENT, true);
    replay.on_outcome(0, 2, TEST_EVENT, true);
    assert_eq!(replay.checkpoint(0), 0);
    assert_eq!(replay.checkpoint(1), 2);
}

#[test]
fn failed_projection_is_retried_on_next_replay() {
    let registry = registry_with(&["proj"]);
    let mut first = ProjectionReplay::new(&registry, vec![0i64]).unwrap();
    assert_eq!(first.on_event(1, TEST_EVENT), vec![0]);
    first.on_outcome(0, 1, TEST_EVENT, false);
    assert!(first.on_event(2, TEST_EVENT).is_empty());
    let saved = first.checkpoint(0);
    assert_eq!(saved, 0);
    let mut second = ProjectionReplay::new(&registry, vec![saved]).unwrap();
    assert_eq!(second.position(), 0);
    assert_eq!(second.on_event(1, TEST_EVENT), vec![0]);
}

#[test]
fn publish_runs_matching_projections() {
    let mut registry = ProjectionRegistry::new();
    registry.register("a".to_string(), EventType::of(TEST_EVENT, "TestEvent".to_string())).unwrap();
    registry
        .register_multi(
            "b".to_string(),
            &vec![EventType::of(OTHER_EVENT, "Other".to_string()), EventType::of(TEST_EVENT, "TestEvent".to_string())],
        )
        .unwrap();
    registry.register("c".to_string(), EventType::of(OTHER_EVENT, "Other".to_string())).unwrap();
    assert_eq!(registry.start().unwrap(), true);
    assert_eq!(registry.matching(TEST_EVENT), vec![0, 1]);
    assert_eq!(registry.matching(OTHER_EVENT), vec![1, 2]);
    assert_eq!(registry.name(1), "b");
}

#[test]
fn checkpoint_not_saved_on_projection_failure() {
    assert_eq!(next_step(ProjectionStep::Begin, true), ProjectionStep::Handle);
    assert_eq!(next_step(ProjectionStep::Handle, false), ProjectionStep::Rollback);
    assert_eq!(next_step(ProjectionStep::Rollback, true), ProjectionStep::Done);
}

#[test]
fn checkpoint_saved_after_successful_projection() {
    assert_eq!(next_step(ProjectionStep::Handle, true), ProjectionStep::SaveCheckpoint);
    assert_eq!(next_step(ProjectionStep::SaveCheckpoint, true), ProjectionStep::Commit);
    assert_eq!(next_step(ProjectionStep::SaveCheckpoint, false), ProjectionStep::Rollback);
    assert_eq!(next_step(ProjectionStep::Begin, false), ProjectionStep::Done);
    assert_eq!(next_step(ProjectionStep::Commit, true), ProjectionStep::Committed);
    assert_eq!(next_step(ProjectionStep::Commit, false), ProjectionStep::Done);
}

#[test]
fn local_publish_dispatches_directly_without_notification() {
    let mut listener: ListenerCore<i64, &str> = ListenerCore::new(0);
    listener.on_pending(0, "direct");
    match listener.on_committed(0, 1) {
        CommitAction::Dispatch(e) => assert_eq!(e, "direct"),
        other => panic!("unexpected {:?}", other),
    }
    assert_eq!(listener.position(), 1);
}

#[test]
fn failed_publish_does_not_dispatch() {
    let mut listener: ListenerCore<i64, &str> = ListenerCore::new(0);
    listener.on_pending(3, "should abort");
    listener.on_abort(3);
    assert!(matches!(listener.on_committed(3, 1), CommitAction::Unknown));
    assert_eq!(listener.position(), 0);
}

#[test]
fn committed_event_after_gap_waits_for_catch_up() {
    let mut listener: ListenerCore<i64, &str> = ListenerCore::new(0);
    listener.on_pending(1, "local");
    match listener.on_committed(1, 3) {
        CommitAction::CatchUpFirst(e) => {
            listener.advance(1);
            listener.advance(2);
            assert_eq!(listener.settle(3, e), Some("local"));
        }
        other => panic!("unexpected {:?}", other),
    }
    assert_eq!(listener.position(), 3);
}

#[test]
fn committed_event_already_caught_up_is_not_dispatched_again() {
    let mut listener: ListenerCore<i64, &str> = ListenerCore::new(0);
    listener.on_pending(1, "local");
    listener.advance(2);
    assert!(matches!(listener.on_committed(1, 2), CommitAction::AlreadyDispatched));
    assert_eq!(listener.settle(2, "again"), None);
    assert_eq!(listener.position(), 2);
}

#[test]
fn listening_set_restarts_only_for_new_types() {
    let mut set = ListenSet::new();
    assert!(set.ensure(TEST_EVENT));
    assert!(!set.ensure(TEST_EVENT));
    assert!(set.ensure(OTHER_EVENT));
    let mut listed: Vec<u64> = set.listed().iter().copied().collect();
    listed.sort();
    assert_eq!(listed, vec![TEST_EVENT, OTHER_EVENT]);
}

#[test]
fn subscription_options_defaults_and_builders() {
    let options = SubscriptionOptions::new();
    assert_eq!(options.workers, 1);
    assert!(options.name.is_none());
    assert!(matches!(options.start_from, StartFrom::Latest));
    let options = SubscriptionOptions::new().with_workers(0);
    assert_eq!(options.workers, 1);
    let options = SubscriptionOptions::new().named("test".to_string()).start_from(StartFrom::Beginning);
    assert_eq!(options.name.as_deref(), Some("test"));
    assert!(matches!(options.start_from, StartFrom::Beginning));
}

#[test]
fn start_consumer_with_multiple_workers() {
    let options = SubscriptionOptions::new().named("multi-worker".to_string()).with_workers(3);
    let plan = plan_consumers(options, "TestEvent".to_string());
    assert_eq!(plan.task_count(), 4);
    assert_eq!(plan.fanout.as_deref(), Some("multi-worker-fanout"));
    assert_eq!(plan.workers, vec!["multi-worker-worker-0", "multi-worker-worker-1", "multi-worker-worker-2"]);
}

#[test]
fn single_worker_consumer_uses_default_name() {
    let plan = plan_consumers(SubscriptionOptions::new(), "TestEvent".to_string());
    assert_eq!(plan.name, "TestEvent");
    assert!(plan.fanout.is_none());
    assert!(plan.workers.is_empty());
    assert_eq!(plan.task_count(), 1);
}

#[test]
fn worker_names_use_decimal_numbers() {
    let options = SubscriptionOptions::new().named("w".to_string()).with_workers(12);
    let plan = plan_consumers(options, "x".to_string());
    assert_eq!(plan.workers[11], "w-worker-11");
}
