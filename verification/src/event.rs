use vstd::prelude::*;

verus! {

/// Identity of a domain event type.
///
/// Two event types are equal when their type codes are equal; the name is
/// descriptive only.
#[derive(Debug)]
pub struct EventType {
    id: u64,
    name: String,
}

impl EventType {
    pub closed spec fn code(self) -> u64 {
        self.id
    }

    pub closed spec fn label(self) -> Seq<char> {
        self.name@
    }

    /// The event type with the given type code and name.
    pub fn of(id: u64, name: String) -> (r: Self)
        ensures
            r.code() == id,
            r.label() == name@,
    {
        EventType { id, name }
    }

    /// The event type of a concrete event; its name is the placeholder used
    /// when the concrete type name is not at hand.
    pub fn of_dyn<E: DomainEvent>(event: &E) -> (r: Self)
        ensures
            r.code() == event.type_code(),
            r.label() == dyn_event_name(),
    {
        let name = String::from_str("dyn DomainEvent");
        proof {
            reveal_strlit("dyn DomainEvent");
        }
        EventType { id: event.event_type_code(), name }
    }

    /// The event type with the given type code and an `<unknown>` name.
    pub fn from_type_id(id: u64) -> (r: Self)
        ensures
            r.code() == id,
            r.label() == unknown_event_name(),
    {
        let name = String::from_str("<unknown>");
        proof {
            reveal_strlit("<unknown>");
        }
        EventType { id, name }
    }

    pub fn id(&self) -> (r: u64)
        ensures
            r == self.code(),
    {
        self.id
    }

    pub fn name(&self) -> (r: &str)
        ensures
            r@ == self.label(),
    {
        self.name.as_str()
    }
}

impl Clone for EventType {
    fn clone(&self) -> (r: Self)
        ensures
            r == *self,
    {
        EventType { id: self.id, name: self.name.clone() }
    }
}

impl PartialEq for EventType {
    fn eq(&self, other: &Self) -> (r: bool) {
        self.id == other.id
    }
}

impl vstd::std_specs::cmp::PartialEqSpecImpl for EventType {
    open spec fn obeys_eq_spec() -> bool {
        true
    }

    open spec fn eq_spec(&self, other: &Self) -> bool {
        self.code() == other.code()
    }
}

pub open spec fn dyn_event_name() -> Seq<char> {
    "dyn DomainEvent"@
}

pub open spec fn unknown_event_name() -> Seq<char> {
    "<unknown>"@
}

/// A domain event as the core sees it: a type code that routes it, and, for
/// each aggregate category, the id of the stream of that category it belongs
/// to (if any).
pub trait DomainEvent: Sized {
    spec fn type_code(&self) -> u64;

    /// The id of the stream of category `aggregate` this event belongs to,
    /// if any.
    spec fn stream_key(&self, aggregate: String) -> Option<String>;

    fn event_type_code(&self) -> (r: u64)
        ensures
            r == self.type_code(),
    ;

    fn stream_key_for(&self, aggregate: &String) -> (r: Option<String>)
        ensures
            r == self.stream_key(*aggregate),
    ;
}

/// An event as read back from the store, with its global sequence.
pub struct StoredEvent<S, E> {
    pub sequence: S,
    pub event: E,
}

} // verus!
