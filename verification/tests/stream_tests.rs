use event_sourcing::aggregate::{Aggregate, ApplyEvent};
use event_sourcing::event::{DomainEvent, EventType, StoredEvent};
use event_sourcing::repository::AggregateRepository;
use event_sourcing::stream::{StreamDefinition, StreamId};
use event_sourcing::aggregate::AggregateType;

const MEDIUM_CREATED: u64 = 1;
const MEDIUM_UPDATED: u64 = 2;
const TASK_CREATED: u64 = 3;
const UNRELATED: u64 = 4;

#[derive(Debug, Clone)]
enum TestEvent {
    MediumCreated { medium_id: String, title: String },
    MediumUpdated { medium_id: String, title: String },
    TaskCreated { task_id: String, medium_id: Option<String> },
    Unrelated,
}

impl DomainEvent for TestEvent {
    fn event_type_code(&self) -> u64 {
        match self {
            TestEvent::MediumCreated { .. } => MEDIUM_CREATED,
            TestEvent::MediumUpdated { .. } => MEDIUM_UPDATED,
            TestEvent::TaskCreated { .. } => TASK_CREATED,
            TestEvent::Unrelated => UNRELATED,
        }
    }

    fn type_code(&self) -> u64 {
        self.event_type_code()
    }

    fn stream_key(&self, aggregate: String) -> Option<String> {
        self.stream_key_for(&aggregate)
    }

    fn stream_key_for(&self, aggregate: &String) -> Option<String> {
        match (self, aggregate.as_str()) {
            (TestEvent::MediumCreated { medium_id, .. }, "Medium") => Some(medium_id.clone()),
            (TestEvent::MediumUpdated { medium_id, .. }, "Medium") => Some(medium_id.clone()),
            (TestEvent::TaskCreated { medium_id, .. }, "Medium") => medium_id.clone(),
            (TestEvent::TaskCreated { task_id, .. }, "Task") => Some(task_id.clone()),
            _ => None,
        }
    }
}

#[derive(Default, Debug)]
struct Medium {
    id: String,
    title: String,
    task_count: usize,
}

impl Aggregate for Medium {
    fn category_name() -> String {
        Self::aggregate_type()
    }

    fn empty() -> Self {
        Self::initial()
    }

    fn aggregate_type() -> String {
        "Medium".to_string()
    }

    fn initial() -> Self {
        Medium::default()
    }
}

impl ApplyEvent<TestEvent> for Medium {
    fn applied(self, event: TestEvent) -> Self {
        let mut state = self;
        state.apply(&event);
        state
    }

    fn apply(&mut self, event: &TestEvent) {
        match event {
            TestEvent::MediumCreated { medium_id, title } => {
                self.id = medium_id.clone();
                self.title = title.clone();
            }
            TestEvent::MediumUpdated { title, .. } => {
                self.title = title.clone();
            }
            TestEvent::TaskCreated { .. } => {
                self.task_count += 1;
            }
            TestEvent::Unrelated => {}
        }
    }
}

#[derive(Default, Debug)]
struct Task {
    id: String,
}

impl Aggregate for Task {
    fn category_name() -> String {
        Self::aggregate_type()
    }

    fn empty() -> Self {
        Self::initial()
    }

    fn aggregate_type() -> String {
        "Task".to_string()
    }

    fn initial() -> Self {
        Task::default()
    }
}

impl ApplyEvent<TestEvent> for Task {
    fn applied(self, event: TestEvent) -> Self {
        let mut state = self;
        state.apply(&event);
        state
    }

    fn apply(&mut self, event: &TestEvent) {
        if let TestEvent::TaskCreated { task_id, .. } = event {
            self.id = task_id.clone();
        }
    }
}

fn medium_stream() -> StreamDefinition<Medium> {
    StreamDefinition::<Medium>::builder()
        .with(EventType::of(MEDIUM_CREATED, "MediumCreated".to_string()))
        .with(EventType::of(MEDIUM_UPDATED, "MediumUpdated".to_string()))
        .with(EventType::of(TASK_CREATED, "TaskCreated".to_string()))
        .build()
}

fn task_stream() -> StreamDefinition<Task> {
    StreamDefinition::<Task>::builder()
        .with(EventType::of(TASK_CREATED, "TaskCreated".to_string()))
        .build()
}

fn created(id: &str, title: &str) -> TestEvent {
    TestEvent::MediumCreated { medium_id: id.to_string(), title: title.to_string() }
}

fn updated(id: &str, title: &str) -> TestEvent {
    TestEvent::MediumUpdated { medium_id: id.to_string(), title: title.to_string() }
}

#[test]
fn stream_id_extracts_for_registered_event() {
    let stream = medium_stream();
    let event = created("abc", "Test");
    let id = stream.stream_id(&event).unwrap();
    assert_eq!(id.aggregate_type().name(), "Medium");
    assert_eq!(id.id(), "abc");
}

#[test]
fn stream_id_returns_none_for_unregistered_event() {
    let stream = medium_stream();
    let event = TestEvent::Unrelated;
    assert!(stream.stream_id(&event).is_none());
}

#[test]
fn stream_id_returns_none_when_extractor_returns_none() {
    let stream = medium_stream();
    let event = TestEvent::TaskCreated { task_id: "t1".to_string(), medium_id: None };
    assert!(stream.stream_id(&event).is_none());
}

#[test]
fn reconstitute_applies_all_events() {
    let stream = medium_stream();
    let events = vec![
        StoredEvent { sequence: 1i64, event: created("abc", "Original") },
        StoredEvent { sequence: 2, event: updated("abc", "Updated") },
        StoredEvent {
            sequence: 3,
            event: TestEvent::TaskCreated { task_id: "t1".to_string(), medium_id: Some("abc".to_string()) },
        },
    ];

    let medium: Medium = stream.reconstitute(&events);
    assert_eq!(medium.id, "abc");
    assert_eq!(medium.title, "Updated");
    assert_eq!(medium.task_count, 1);
}

#[test]
fn event_types_returns_registered_types() {
    let stream = medium_stream();
    let types = stream.event_types();
    assert_eq!(types.len(), 3);
}

#[test]
fn stream_id_for_constructs_id() {
    let stream = medium_stream();
    let id = stream.stream_id_for("abc");
    assert_eq!(id.aggregate_type().name(), "Medium");
    assert_eq!(id.id(), "abc");
    assert_eq!(id.to_storage_key(), "Medium-abc");
}

fn repo() -> AggregateRepository<(), ()> {
    AggregateRepository::new(())
}

#[test]
fn streams_for_matches_multiple_streams() {
    let mut repo = repo();
    repo.register(medium_stream());
    repo.register(task_stream());

    let event = TestEvent::TaskCreated { task_id: "t1".to_string(), medium_id: Some("abc".to_string()) };
    let streams = repo.streams_for(&event);
    assert_eq!(streams.len(), 2);

    let categories: Vec<&str> = streams.iter().map(|s| s.aggregate_type().name()).collect();
    assert!(categories.contains(&"Medium"));
    assert!(categories.contains(&"Task"));
}

#[test]
fn streams_for_matches_none() {
    let mut repo = repo();
    repo.register(medium_stream());

    let event = TestEvent::Unrelated;
    assert!(repo.streams_for(&event).is_empty());
}

#[test]
fn streams_for_matches_one_only() {
    let mut repo = repo();
    repo.register(medium_stream());
    repo.register(task_stream());

    let event = created("abc", "Test");
    let streams = repo.streams_for(&event);
    assert_eq!(streams.len(), 1);
    assert_eq!(streams[0].aggregate_type().name(), "Medium");
}

#[test]
fn load_reconstitutes_aggregate() {
    let mut repo = repo();
    repo.register(medium_stream());

    let (stream, snapshot_store) = repo.load_target::<Medium>("abc").unwrap();
    assert_eq!(stream.to_storage_key(), "Medium-abc");
    assert!(snapshot_store.is_none());

    let events = vec![
        StoredEvent { sequence: 1i64, event: created("abc", "Original") },
        StoredEvent { sequence: 2i64, event: updated("abc", "Updated") },
    ];
    let (medium, version) = repo.rebuild::<Medium, i64, TestEvent>(None, &events).unwrap();
    assert_eq!(medium.id, "abc");
    assert_eq!(medium.title, "Updated");
    assert_eq!(version, 2);
}

#[test]
fn load_returns_error_for_unregistered_aggregate() {
    let repo = repo();
    let result = repo.load_target::<Medium>("abc");
    assert!(result.is_err());
    let events: Vec<StoredEvent<i64, TestEvent>> = Vec::new();
    assert!(repo.rebuild::<Medium, i64, TestEvent>(None, &events).is_err());
}

#[test]
fn load_returns_default_for_empty_stream() {
    let mut repo = repo();
    repo.register(medium_stream());

    let events: Vec<StoredEvent<i64, TestEvent>> = Vec::new();
    let (medium, version) = repo.rebuild::<Medium, i64, TestEvent>(None, &events).unwrap();
    assert_eq!(medium.id, "");
    assert_eq!(medium.title, "");
    assert_eq!(version, 0);
}

#[test]
fn stream_ids_equal_by_category_and_id() {
    let a = StreamId::new(AggregateType::new("Medium".to_string()), "abc".to_string());
    let b = StreamId::new(AggregateType::new("Medium".to_string()), "abc".to_string());
    let c = StreamId::new(AggregateType::new("Task".to_string()), "abc".to_string());
    let d = StreamId::new(AggregateType::new("Medium".to_string()), "xyz".to_string());
    assert_eq!(a, b);
    assert_ne!(a, c);
    assert_ne!(a, d);
    let mut set = std::collections::HashSet::new();
    set.insert(a);
    assert!(set.contains(&b));
    assert!(!set.contains(&c));
}
