use event_sourcing::aggregate::{Aggregate, ApplyEvent};
use event_sourcing::event::{DomainEvent, EventType};
use event_sourcing::projection::linking::StreamLinkingProjection;
use event_sourcing::stream::StreamDefinition;

const TEST_EVENT: u64 = 10;
const OTHER_EVENT: u64 = 11;

#[derive(Debug)]
enum LinkEvent {
    Test { id: String },
    Other,
}

impl DomainEvent for LinkEvent {
    fn event_type_code(&self) -> u64 {
        match self {
            LinkEvent::Test { .. } => TEST_EVENT,
            LinkEvent::Other => OTHER_EVENT,
        }
    }

    fn type_code(&self) -> u64 {
        self.event_type_code()
    }

    fn stream_key(&self, aggregate: String) -> Option<String> {
        self.stream_key_for(&aggregate)
    }

    fn stream_key_for(&self, aggregate: &String) -> Option<String> {
        match (self, aggregate.as_str()) {
            (LinkEvent::Test { id }, "Test") => Some(id.clone()),
            _ => None,
        }
    }
}

#[derive(Default)]
struct TestAggregate;

impl Aggregate for TestAggregate {
    fn category_name() -> String {
        Self::aggregate_type()
    }

    fn empty() -> Self {
        Self::initial()
    }

    fn aggregate_type() -> String {
        "Test".to_string()
    }

    fn initial() -> Self {
        TestAggregate
    }
}

impl ApplyEvent<LinkEvent> for TestAggregate {
    fn applied(self, event: LinkEvent) -> Self {
        let mut state = self;
        state.apply(&event);
        state
    }

    fn apply(&mut self, _event: &LinkEvent) {}
}

/// Records (sequence, storage key) pairs, as a link store would.
struct MockLinkStore {
    links: Vec<(i64, String)>,
}

fn test_stream() -> StreamDefinition<TestAggregate> {
    StreamDefinition::<TestAggregate>::builder()
        .with(EventType::of(TEST_EVENT, "TestEvent".to_string()))
        .build()
}

fn link_all(projection: &StreamLinkingProjection<std::cell::RefCell<MockLinkStore>>, event: &LinkEvent, seq: i64) {
    for stream in projection.links_for(event) {
        projection.link_store().borrow_mut().links.push((seq, stream.to_storage_key()));
    }
}

#[test]
fn stream_linking_links_matching_events() {
    let link_store = std::cell::RefCell::new(MockLinkStore { links: Vec::new() });
    let projection = StreamLinkingProjection::new(vec![test_stream().extractor()], link_store);

    let event = LinkEvent::Test { id: "abc".to_string() };
    link_all(&projection, &event, 42);

    let links = projection.link_store().borrow().links.clone();
    assert_eq!(links.len(), 1);
    assert_eq!(links[0].0, 42);
    assert_eq!(links[0].1, "Test-abc");
}

#[test]
fn stream_linking_skips_non_matching_events() {
    let link_store = std::cell::RefCell::new(MockLinkStore { links: Vec::new() });
    let projection = StreamLinkingProjection::new(vec![test_stream().extractor()], link_store);

    link_all(&projection, &LinkEvent::Other, 42);

    assert_eq!(projection.link_store().borrow().links.len(), 0);
}

#[test]
fn event_types_is_union_of_extractors() {
    let stream_def = test_stream();
    let link_store = MockLinkStore { links: Vec::new() };
    let projection = StreamLinkingProjection::new(vec![stream_def.extractor()], link_store);

    let types = projection.event_types();
    assert_eq!(types.len(), 1);
}

#[test]
fn event_types_union_keeps_each_type_once() {
    let medium = StreamDefinition::<TestAggregate>::builder()
        .with(EventType::of(1, "A".to_string()))
        .with(EventType::of(2, "B".to_string()))
        .with(EventType::of(1, "A again".to_string()))
        .build();
    assert_eq!(medium.event_types().len(), 2);
    let other = StreamDefinition::<TestAggregate>::builder()
        .with(EventType::of(2, "B".to_string()))
        .with(EventType::of(3, "C".to_string()))
        .build();
    let projection = StreamLinkingProjection::new(vec![medium.extractor(), other.extractor()], ());
    let codes: Vec<u64> = projection.event_types().iter().map(|t| t.id()).collect();
    assert_eq!(codes, vec![1, 2, 3]);
    assert!(projection.event_types().iter().all(|t| t.name() == "<unknown>"));
    assert_eq!(projection.name(), "stream_linker");
}
