use vstd::prelude::*;

use crate::aggregate::{category_of, Aggregate, AggregateType, ApplyEvent};
use crate::event::{DomainEvent, EventType, StoredEvent, unknown_event_name};

verus! {

/// The mathematical content of a stream id: its category and instance id.
pub struct StreamKey {
    pub category: Seq<char>,
    pub id: Seq<char>,
}

/// The storage form of a stream key, `"<category>-<id>"`.
pub open spec fn storage_key(k: StreamKey) -> Seq<char> {
    k.category + "-"@ + k.id
}

/// A typed stream identifier: an aggregate category plus an instance id.
/// Two ids are equal when their categories and instance ids are.
#[derive(Debug, Eq, Hash)]
pub struct StreamId {
    aggregate_type: AggregateType,
    id: String,
}

impl StreamId {
    pub closed spec fn key(self) -> StreamKey {
        StreamKey { category: self.aggregate_type.label(), id: self.id@ }
    }

    pub fn new(aggregate_type: AggregateType, id: String) -> (r: Self)
        ensures
            r.key() == (StreamKey { category: aggregate_type.label(), id: id@ }),
    {
        StreamId { aggregate_type, id }
    }

    pub fn aggregate_type(&self) -> (r: &AggregateType)
        ensures
            r.label() == self.key().category,
    {
        &self.aggregate_type
    }

    pub fn id(&self) -> (r: &str)
        ensures
            r@ == self.key().id,
    {
        self.id.as_str()
    }

    /// The string used for storage, e.g. `"Medium-abc"`.
    pub fn to_storage_key(&self) -> (r: String)
        ensures
            r@ == storage_key(self.key()),
    {
        let dash = "-";
        proof {
            reveal_strlit("-");
        }
        let r = String::from_str(self.aggregate_type.name()).concat(dash).concat(self.id.as_str());
        r
    }
}

impl Clone for StreamId {
    fn clone(&self) -> (r: Self)
        ensures
            r == *self,
    {
        StreamId { aggregate_type: self.aggregate_type.clone(), id: self.id.clone() }
    }
}

impl PartialEq for StreamId {
    fn eq(&self, other: &Self) -> (r: bool) {
        self.aggregate_type == other.aggregate_type && self.id == other.id
    }
}

impl vstd::std_specs::cmp::PartialEqSpecImpl for StreamId {
    open spec fn obeys_eq_spec() -> bool {
        true
    }

    open spec fn eq_spec(&self, other: &Self) -> bool {
        self.key() == other.key()
    }
}


/// Whether `codes` holds `code`.
pub fn holds_code(codes: &Vec<u64>, code: u64) -> (r: bool)
    ensures
        r == codes@.contains(code),
{
    let mut i: usize = 0;
    while i < codes.len()
        invariant
            i <= codes.len(),
            forall|j: int| 0 <= j < i ==> codes@[j] != code,
        decreases codes.len() - i,
    {
        if codes[i] == code {
            assert(codes@[i as int] == code);
            return true;
        }
        i = i + 1;
    }
    false
}

/// The stream an event belongs to for a category `category` that registered
/// the event type codes `codes`: none when the event's type is not
/// registered, else the event's own key for that category.
pub open spec fn extracted_key<E: DomainEvent>(category: String, codes: Seq<u64>, event: E) -> Option<StreamKey> {
    if codes.contains(event.type_code()) {
        match event.stream_key(category) {
            Some(id) => Some(StreamKey { category: category@, id: id@ }),
            None => None,
        }
    } else {
        None
    }
}

/// A category claims only events of the types registered with it, and files
/// what it claims under its own name.
pub proof fn lemma_extracted_registered<E: DomainEvent>(category: String, codes: Seq<u64>, event: E)
    ensures
        extracted_key(category, codes, event) is Some ==> codes.contains(event.type_code()),
        extracted_key(category, codes, event) matches Some(k) ==> k.category == category@,
{
}

/// The content of a [`StreamExtractor`]: its category and registered codes.
pub struct ExtractorView {
    pub category: String,
    pub codes: Seq<u64>,
}

/// The streams an event belongs to across `extractors`, in extractor order
/// (extractors that do not claim the event contribute nothing).
pub open spec fn streams_of<E: DomainEvent>(extractors: Seq<ExtractorView>, event: E) -> Seq<StreamKey>
    decreases extractors.len(),
{
    if extractors.len() == 0 {
        Seq::empty()
    } else {
        let prior = streams_of(extractors.drop_last(), event);
        let last = extractors.last();
        match extracted_key(last.category, last.codes, event) {
            Some(k) => prior.push(k),
            None => prior,
        }
    }
}

/// An event whose type no extractor registered belongs to no stream.
pub proof fn lemma_streams_only_registered<E: DomainEvent>(extractors: Seq<ExtractorView>, event: E)
    requires
        forall|i: int| 0 <= i < extractors.len() ==> !(#[trigger] extractors[i]).codes.contains(event.type_code()),
    ensures
        streams_of(extractors, event) == Seq::<StreamKey>::empty(),
    decreases extractors.len(),
{
    if extractors.len() > 0 {
        let rest = extractors.drop_last();
        assert forall|i: int| 0 <= i < rest.len() implies !(#[trigger] rest[i]).codes.contains(event.type_code()) by {
            assert(rest[i] == extractors[i]);
        }
        lemma_streams_only_registered(rest, event);
        assert(!extractors[extractors.len() - 1].codes.contains(event.type_code()));
    }
}

/// The type-erased part of a stream definition: its category and the event
/// type codes registered with it (each at most once, in registration order).
#[derive(Debug)]
pub struct StreamExtractor {
    aggregate_type: AggregateType,
    codes: Vec<u64>,
}

impl StreamExtractor {
    pub closed spec fn category(self) -> Seq<char> {
        self.aggregate_type.label()
    }

    pub closed spec fn category_name(self) -> String {
        self.aggregate_type.text()
    }

    pub closed spec fn registered(self) -> Seq<u64> {
        self.codes@
    }

    #[verifier::type_invariant]
    closed spec fn inv(self) -> bool {
        self.codes@.no_duplicates()
    }

    pub open spec fn extracts<E: DomainEvent>(self, event: E) -> Option<StreamKey> {
        extracted_key(self.category_name(), self.registered(), event)
    }

    pub open spec fn view(self) -> ExtractorView {
        ExtractorView { category: self.category_name(), codes: self.registered() }
    }

    /// The category name is the text of the category.
    pub proof fn lemma_category(self)
        ensures
            self.category_name()@ == self.category(),
    {
        self.aggregate_type.lemma_label();
    }

    pub fn aggregate_type(&self) -> (r: &AggregateType)
        ensures
            r.label() == self.category(),
    {
        &self.aggregate_type
    }

    /// Whether the event type `code` is registered.
    pub fn handles(&self, code: u64) -> (r: bool)
        ensures
            r == self.registered().contains(code),
    {
        holds_code(&self.codes, code)
    }

    /// The stream this event belongs to, if its type is registered and it
    /// carries an id for this category.
    pub fn stream_id<E: DomainEvent>(&self, event: &E) -> (r: Option<StreamId>)
        ensures
            match r {
                Some(sid) => self.extracts(*event) == Some(sid.key()),
                None => self.extracts(*event) is None,
            },
            r matches Some(sid) ==> self.registered().contains(event.type_code()) && sid.key().category
                == self.category(),
    {
        proof {
            self.lemma_category();
        }
        let code = event.event_type_code();
        if !self.handles(code) {
            return None;
        }
        match event.stream_key_for(self.aggregate_type.name_text()) {
            Some(id) => Some(StreamId::new(self.aggregate_type.clone(), id)),
            None => None,
        }
    }

    /// The registered event types, in registration order, each under the
    /// `<unknown>` name.
    pub fn event_types(&self) -> (r: Vec<EventType>)
        ensures
            r@.len() == self.registered().len(),
            forall|i: int|
                0 <= i < r@.len() ==> #[trigger] r@[i].code() == self.registered()[i]
                    && r@[i].label() == unknown_event_name(),
    {
        let mut out: Vec<EventType> = Vec::new();
        let mut i: usize = 0;
        while i < self.codes.len()
            invariant
                i <= self.codes.len(),
                out@.len() == i,
                forall|j: int|
                    0 <= j < i ==> #[trigger] out@[j].code() == self.codes@[j]
                        && out@[j].label() == unknown_event_name(),
            decreases self.codes.len() - i,
        {
            out.push(EventType::from_type_id(self.codes[i]));
            i = i + 1;
        }
        out
    }
}

impl StreamExtractor {
    /// Fold the registered events among `events` into `initial`, in order.
    pub fn reconstitute_from<A: ApplyEvent<E>, S, E: DomainEvent>(&self, initial: A, events: &[StoredEvent<S, E>]) -> (r: A)
        ensures
            r == replayed(initial, self.registered(), events@),
    {
        let mut agg = initial;
        let mut i: usize = 0;
        while i < events.len()
            invariant
                i <= events.len(),
                agg == replayed(initial, self.registered(), events@.take(i as int)),
            decreases events.len() - i,
        {
            assert(events@.take(i as int + 1).drop_last() =~= events@.take(i as int));
            if self.handles(events[i].event.event_type_code()) {
                agg.apply(&events[i].event);
            }
            i = i + 1;
        }
        assert(events@.take(events@.len() as int) =~= events@);
        agg
    }
}

impl Clone for StreamExtractor {
    fn clone(&self) -> (r: Self)
        ensures
            r.category() == self.category(),
            r.category_name() == self.category_name(),
            r.registered() == self.registered(),
    {
        proof {
            use_type_invariant(self);
        }
        let codes = self.codes.clone();
        assert(codes@ =~= self.codes@);
        StreamExtractor { aggregate_type: self.aggregate_type.clone(), codes }
    }
}


/// The state reached from `state` by applying, in order, each stored event
/// whose type code is in `codes` (events of other types are skipped).
pub open spec fn replayed<A: ApplyEvent<E>, E: DomainEvent, S>(
    state: A,
    codes: Seq<u64>,
    events: Seq<StoredEvent<S, E>>,
) -> A
    decreases events.len(),
{
    if events.len() == 0 {
        state
    } else {
        let prior = replayed(state, codes, events.drop_last());
        let event = events.last().event;
        if codes.contains(event.type_code()) {
            prior.applied(event)
        } else {
            prior
        }
    }
}

/// Replaying a stream in two parts gives what replaying it whole gives: a
/// snapshot taken after the first part, with the second part replayed on
/// top of it, rebuilds the same aggregate as a replay from the start.
pub proof fn lemma_replay_split<A: ApplyEvent<E>, E: DomainEvent, S>(
    state: A,
    codes: Seq<u64>,
    first: Seq<StoredEvent<S, E>>,
    second: Seq<StoredEvent<S, E>>,
)
    ensures
        replayed(replayed(state, codes, first), codes, second) == replayed(state, codes, first + second),
    decreases second.len(),
{
    if second.len() == 0 {
        assert(first + second =~= first);
    } else {
        lemma_replay_split(state, codes, first, second.drop_last());
        assert((first + second).drop_last() =~= first + second.drop_last());
        assert((first + second).last() == second.last());
    }
}

/// A typed stream definition: which event types belong to the streams of
/// aggregate `A`, how to find the stream of an event, and how to rebuild an
/// `A` from its stream.
pub struct StreamDefinition<A: Aggregate> {
    extractor: StreamExtractor,
    aggregate: core::marker::PhantomData<A>,
}

impl<A: Aggregate> StreamDefinition<A> {
    pub closed spec fn category(self) -> Seq<char> {
        self.extractor.category()
    }

    pub closed spec fn category_name(self) -> String {
        self.extractor.category_name()
    }

    pub closed spec fn registered(self) -> Seq<u64> {
        self.extractor.registered()
    }

    #[verifier::type_invariant]
    closed spec fn inv(self) -> bool {
        self.extractor.category_name() == A::category_name()
    }

    pub open spec fn extracts<E: DomainEvent>(self, event: E) -> Option<StreamKey> {
        extracted_key(self.category_name(), self.registered(), event)
    }

    /// A builder for the streams of `A`, with no event type registered.
    pub fn builder() -> (r: StreamDefinitionBuilder<A>)
        ensures
            r.category() == category_of::<A>(),
            r.category_name() == A::category_name(),
            r.registered() == Seq::<u64>::empty(),
    {
        StreamDefinitionBuilder {
            aggregate_type: AggregateType::of::<A>(),
            codes: Vec::new(),
            aggregate: core::marker::PhantomData,
        }
    }

    /// The stream this event belongs to, if any: only events of a
    /// registered type belong to a stream of this category.
    pub fn stream_id<E: DomainEvent>(&self, event: &E) -> (r: Option<StreamId>)
        ensures
            match r {
                Some(sid) => self.extracts(*event) == Some(sid.key()),
                None => self.extracts(*event) is None,
            },
            r matches Some(sid) ==> self.registered().contains(event.type_code()) && sid.key().category
                == self.category(),
    {
        self.extractor.stream_id(event)
    }

    /// The stream of the aggregate instance `id`.
    pub fn stream_id_for(&self, id: &str) -> (r: StreamId)
        ensures
            r.key() == (StreamKey { category: self.category(), id: id@ }),
    {
        StreamId::new(self.extractor.aggregate_type().clone(), String::from_str(id))
    }

    /// The registered event types (under the `<unknown>` name).
    pub fn event_types(&self) -> (r: Vec<EventType>)
        ensures
            r@.len() == self.registered().len(),
            forall|i: int|
                0 <= i < r@.len() ==> #[trigger] r@[i].code() == self.registered()[i]
                    && r@[i].label() == unknown_event_name(),
    {
        let r = StreamExtractor::event_types(&self.extractor);
        assert(self.registered() == self.extractor.registered());
        r
    }

    /// The type-erased extraction part of this definition.
    pub fn extractor(&self) -> (r: StreamExtractor)
        ensures
            r.category() == self.category(),
            r.category_name() == self.category_name(),
            r.category_name() == A::category_name(),
            r.registered() == self.registered(),
    {
        proof {
            use_type_invariant(self);
        }
        self.extractor.clone()
    }

    /// Rebuild an aggregate from the empty state and a sequence of stored
    /// events.
    pub fn reconstitute<S, E: DomainEvent>(&self, events: &[StoredEvent<S, E>]) -> (r: A) where
        A: ApplyEvent<E>,

        ensures
            r == replayed(A::empty(), self.registered(), events@),
    {
        self.reconstitute_from(A::initial(), events)
    }

    /// Rebuild an aggregate from `initial` and a sequence of stored events.
    pub fn reconstitute_from<S, E: DomainEvent>(&self, initial: A, events: &[StoredEvent<S, E>]) -> (r: A) where
        A: ApplyEvent<E>,

        ensures
            r == replayed(initial, self.registered(), events@),
    {
        self.extractor.reconstitute_from(initial, events)
    }

    /// Apply one event if its type is registered; otherwise leave `agg` as is.
    pub fn apply_event<E: DomainEvent>(&self, agg: &mut A, event: &E) where A: ApplyEvent<E>
        ensures
            *final(agg) == if self.registered().contains(event.type_code()) {
                old(agg).applied(*event)
            } else {
                *old(agg)
            },
    {
        if self.extractor.handles(event.event_type_code()) {
            agg.apply(event);
        }
    }
}

/// Builds a [`StreamDefinition`] one event type at a time.
pub struct StreamDefinitionBuilder<A: Aggregate> {
    aggregate_type: AggregateType,
    codes: Vec<u64>,
    aggregate: core::marker::PhantomData<A>,
}

impl<A: Aggregate> StreamDefinitionBuilder<A> {
    #[verifier::type_invariant]
    closed spec fn inv(self) -> bool {
        &&& self.codes@.no_duplicates()
        &&& self.aggregate_type.text() == A::category_name()
    }
}

impl<A: Aggregate> StreamDefinitionBuilder<A> {
    pub closed spec fn category(self) -> Seq<char> {
        self.aggregate_type.label()
    }

    pub closed spec fn category_name(self) -> String {
        self.aggregate_type.text()
    }

    pub closed spec fn registered(self) -> Seq<u64> {
        self.codes@
    }

    /// Register an event type. Registering a type twice keeps one entry.
    pub fn with(self, event_type: EventType) -> (r: Self)
        ensures
            r.category() == self.category(),
            r.category_name() == A::category_name(),
            r.registered() == if self.registered().contains(event_type.code()) {
                self.registered()
            } else {
                self.registered().push(event_type.code())
            },
    {
        proof {
            use_type_invariant(&self);
        }
        let code = event_type.id();
        let StreamDefinitionBuilder { aggregate_type, mut codes, aggregate } = self;
        if !holds_code(&codes, code) {
            codes.push(code);
        }
        StreamDefinitionBuilder { aggregate_type, codes, aggregate }
    }

    pub fn build(self) -> (r: StreamDefinition<A>)
        ensures
            r.category() == self.category(),
            r.category_name() == A::category_name(),
            r.registered() == self.registered(),
    {
        proof {
            use_type_invariant(&self);
        }
        let StreamDefinitionBuilder { aggregate_type, codes, aggregate } = self;
        StreamDefinition {
            extractor: StreamExtractor { aggregate_type, codes },
            aggregate: core::marker::PhantomData,
        }
    }
}


/// Type-erased interface for finding the stream an event belongs to,
/// without knowing the aggregate type.
pub trait StreamExtract<E: DomainEvent> {
    spec fn claim(&self, event: E) -> Option<StreamKey>;

    spec fn codes(&self) -> Seq<u64>;

    fn stream_id(&self, event: &E) -> (r: Option<StreamId>)
        ensures
            match r {
                Some(sid) => self.claim(*event) == Some(sid.key()),
                None => self.claim(*event) is None,
            },
    ;

    fn event_types(&self) -> (r: Vec<EventType>)
        ensures
            r@.len() == self.codes().len(),
            forall|i: int| 0 <= i < r@.len() ==> #[trigger] r@[i].code() == self.codes()[i],
    ;
}

impl<E: DomainEvent> StreamExtract<E> for StreamExtractor {
    open spec fn claim(&self, event: E) -> Option<StreamKey> {
        self.extracts(event)
    }

    open spec fn codes(&self) -> Seq<u64> {
        self.registered()
    }

    fn stream_id(&self, event: &E) -> (r: Option<StreamId>) {
        StreamExtractor::stream_id(self, event)
    }

    fn event_types(&self) -> (r: Vec<EventType>) {
        StreamExtractor::event_types(self)
    }
}

impl<A: Aggregate, E: DomainEvent> StreamExtract<E> for StreamDefinition<A> {
    open spec fn claim(&self, event: E) -> Option<StreamKey> {
        self.extracts(event)
    }

    open spec fn codes(&self) -> Seq<u64> {
        self.registered()
    }

    fn stream_id(&self, event: &E) -> (r: Option<StreamId>) {
        StreamDefinition::stream_id(self, event)
    }

    fn event_types(&self) -> (r: Vec<EventType>) {
        StreamDefinition::event_types(self)
    }
}

} // verus!
