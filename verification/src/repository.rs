use vstd::prelude::*;

use crate::aggregate::{category_of, Aggregate, AggregateType, ApplyEvent, Snapshot};
use crate::error::EventSourcingError;
use crate::event::{DomainEvent, StoredEvent};
use crate::sequence::Sequence;
use crate::stream::{
    replayed, streams_of, ExtractorView, StreamDefinition, StreamExtractor, StreamId, StreamKey,
};

verus! {

/// What the repository keeps for one aggregate category.
pub struct Registration<Sn> {
    extractor: StreamExtractor,
    snapshot: Option<Sn>,
}

/// The content of a [`Registration`].
pub struct RegistrationView<Sn> {
    pub category: Seq<char>,
    pub codes: Seq<u64>,
    pub snapshot: Option<Sn>,
}

impl<Sn> Registration<Sn> {
    pub closed spec fn category(self) -> Seq<char> {
        self.extractor.category()
    }

    pub closed spec fn view(self) -> RegistrationView<Sn> {
        RegistrationView { category: self.extractor.category(), codes: self.extractor.registered(), snapshot: self.snapshot }
    }

    /// The snapshot store registered for this category, if any.
    pub fn snapshot_store(&self) -> (r: Option<&Sn>)
        ensures
            r == match self.view().snapshot {
                Some(s) => Some(&s),
                None => None::<&Sn>,
            },
    {
        match &self.snapshot {
            Some(s) => Some(s),
            None => None,
        }
    }
}

/// The message of the error for a category that has no registration.
pub open spec fn unregistered_message(category: Seq<char>) -> Seq<char> {
    "No stream definition registered for aggregate '"@ + category + "'"@
}

/// The version reached after loading `events` on top of `after`: the
/// sequence of the last event, or `after` when there is none.
pub open spec fn loaded_version<S, E>(after: S, events: Seq<StoredEvent<S, E>>) -> S {
    if events.len() == 0 {
        after
    } else {
        events.last().sequence
    }
}

/// Single read-only repository for all aggregate categories.
///
/// Each registered stream definition provides both the extraction logic (to
/// find the streams an event belongs to) and the registered event types used
/// to rebuild aggregates. A category may come with a snapshot store `Sn`;
/// the event store `St` is held for the caller that performs the reads.
pub struct AggregateRepository<St, Sn> {
    store: St,
    registrations: Vec<Registration<Sn>>,
    extractors: Vec<StreamExtractor>,
}

impl<St, Sn> AggregateRepository<St, Sn> {
    /// No category is registered twice.
    #[verifier::type_invariant]
    closed spec fn wf(self) -> bool {
        forall|i: int, j: int|
            0 <= i < j < self.registrations@.len() ==> #[trigger] self.registrations@[i].category()
                != #[trigger] self.registrations@[j].category()
    }

    /// The registration of each category.
    pub closed spec fn registry(self) -> Map<Seq<char>, RegistrationView<Sn>> {
        Map::new(
            |c: Seq<char>|
                exists|i: int|
                    0 <= i < self.registrations@.len() && #[trigger] self.registrations@[i].category()
                        == c,
            |c: Seq<char>|
                {
                    let i = choose|i: int|
                        0 <= i < self.registrations@.len() && #[trigger] self.registrations@[i].category()
                            == c;
                    self.registrations@[i].view()
                },
        )
    }

    /// The registered extractors, in registration order.
    pub closed spec fn extractor_views(self) -> Seq<ExtractorView> {
        self.extractors@.map_values(|e: StreamExtractor| e.view())
    }

    pub closed spec fn event_store(self) -> St {
        self.store
    }

    pub fn new(store: St) -> (r: Self)
        ensures
            r.registry() == Map::<Seq<char>, RegistrationView<Sn>>::empty(),
            r.extractor_views() == Seq::<ExtractorView>::empty(),
            r.event_store() == store,
    {
        let r = AggregateRepository { store, registrations: Vec::new(), extractors: Vec::new() };
        assert(r.registry() =~= Map::<Seq<char>, RegistrationView<Sn>>::empty());
        assert(r.extractor_views() =~= Seq::<ExtractorView>::empty());
        r
    }

    /// The event store.
    pub fn store(&self) -> (r: &St)
        ensures
            *r == self.event_store(),
    {
        &self.store
    }

    /// Index of the registration for `category` in `regs`, if any.
    fn position(regs: &Vec<Registration<Sn>>, category: &AggregateType) -> (r: Option<usize>)
        ensures
            match r {
                Some(i) => i < regs@.len() && regs@[i as int].category() == category.label(),
                None => forall|i: int| 0 <= i < regs@.len() ==> #[trigger] regs@[i].category() != category.label(),
            },
    {
        let mut i: usize = 0;
        while i < regs.len()
            invariant
                i <= regs@.len(),
                forall|j: int| 0 <= j < i ==> #[trigger] regs@[j].category() != category.label(),
            decreases regs.len() - i,
        {
            if regs[i].extractor.aggregate_type() == category {
                return Some(i);
            }
            i = i + 1;
        }
        None
    }

    /// Register the stream definition of `A`, without snapshots. A later
    /// registration of the same category replaces the earlier one.
    pub fn register<A: Aggregate>(&mut self, stream: StreamDefinition<A>)
        ensures
            final(self).registry() == old(self).registry().insert(
                category_of::<A>(),
                RegistrationView { category: category_of::<A>(), codes: stream.registered(), snapshot: None },
            ),
            final(self).extractor_views() == old(self).extractor_views().push(
                ExtractorView { category: A::category_name(), codes: stream.registered() },
            ),
            final(self).event_store() == old(self).event_store(),
    {
        let extractor = stream.extractor();
        proof {
            extractor.lemma_category();
        }
        self.insert_registration(extractor, None);
    }

    /// Register the stream definition of `A` together with its snapshot
    /// store.
    pub fn register_with_snapshots<A: Aggregate>(&mut self, stream: StreamDefinition<A>, snapshot_store: Sn)
        ensures
            final(self).registry() == old(self).registry().insert(
                category_of::<A>(),
                RegistrationView { category: category_of::<A>(), codes: stream.registered(), snapshot: Some(snapshot_store) },
            ),
            final(self).extractor_views() == old(self).extractor_views().push(
                ExtractorView { category: A::category_name(), codes: stream.registered() },
            ),
            final(self).event_store() == old(self).event_store(),
    {
        let extractor = stream.extractor();
        proof {
            extractor.lemma_category();
        }
        self.insert_registration(extractor, Some(snapshot_store));
    }

    /// The registered stream extractors, in registration order.
    pub fn extractors(&self) -> (r: &Vec<StreamExtractor>)
        ensures
            r@.map_values(|e: StreamExtractor| e.view()) == self.extractor_views(),
    {
        &self.extractors
    }

    /// All streams an event belongs to across the registered definitions,
    /// in registration order.
    pub fn streams_for<E: DomainEvent>(&self, event: &E) -> (r: Vec<StreamId>)
        ensures
            r@.map_values(|s: StreamId| s.key()) == streams_of(self.extractor_views(), *event),
    {
        let mut out: Vec<StreamId> = Vec::new();
        let mut i: usize = 0;
        while i < self.extractors.len()
            invariant
                i <= self.extractors@.len(),
                out@.map_values(|s: StreamId| s.key()) == streams_of(
                    self.extractor_views().take(i as int),
                    *event,
                ),
            decreases self.extractors.len() - i,
        {
            assert(self.extractor_views().take(i as int + 1).drop_last() =~= self.extractor_views().take(i as int));
            let ghost before = out@;
            match self.extractors[i].stream_id(event) {
                Some(sid) => {
                    out.push(sid);
                    assert(out@.map_values(|s: StreamId| s.key()) =~= before.map_values(|s: StreamId| s.key()).push(sid.key()));
                },
                None => {},
            }
            i = i + 1;
        }
        assert(self.extractor_views().take(self.extractors@.len() as int) =~= self.extractor_views());
        out
    }

    /// The registration of `A`'s category, or the store error that names it.
    pub fn registration<A: Aggregate>(&self) -> (r: Result<&Registration<Sn>, EventSourcingError>)
        ensures
            match r {
                Ok(reg) => self.registry().dom().contains(category_of::<A>()) && reg.view()
                    == self.registry()[category_of::<A>()] && reg.category() == category_of::<A>(),
                Err(e) => !self.registry().dom().contains(category_of::<A>()) && e is Store
                    && e.message_text() == unregistered_message(category_of::<A>()),
            },
    {
        proof {
            use_type_invariant(self);
        }
        let agg_type = AggregateType::of::<A>();
        match Self::position(&self.registrations, &agg_type) {
            Some(k) => {
                let reg = &self.registrations[k];
                proof {
                    let i = choose|i: int|
                        0 <= i < self.registrations@.len()
                            && #[trigger] self.registrations@[i].category() == category_of::<A>();
                    if i != k {
                        assert(self.registrations@[i].category() == self.registrations@[k as int].category());
                    }
                }
                Ok(reg)
            },
            None => {
                let prefix = "No stream definition registered for aggregate '";
                let suffix = "'";
                proof {
                    reveal_strlit("No stream definition registered for aggregate '");
                    reveal_strlit("'");
                }
                let message = String::from_str(prefix).concat(agg_type.name()).concat(suffix);
                Err(EventSourcingError::Store { message })
            },
        }
    }

    /// Where to load instance `id` of `A` from: its stream, and the snapshot
    /// store registered for `A` if any. Fails when `A` is not registered.
    pub fn load_target<A: Aggregate>(&self, id: &str) -> (r: Result<(StreamId, Option<&Sn>), EventSourcingError>)
        ensures
            match r {
                Ok((sid, snap)) => {
                    &&& self.registry().dom().contains(category_of::<A>())
                    &&& sid.key() == (StreamKey { category: category_of::<A>(), id: id@ })
                    &&& snap == match self.registry()[category_of::<A>()].snapshot {
                        Some(s) => Some(&s),
                        None => None::<&Sn>,
                    }
                },
                Err(e) => !self.registry().dom().contains(category_of::<A>()) && e is Store
                    && e.message_text() == unregistered_message(category_of::<A>()),
            },
    {
        let reg = self.registration::<A>()?;
        let sid = StreamId::new(reg.extractor.aggregate_type().clone(), String::from_str(id));
        Ok((sid, reg.snapshot_store()))
    }

    /// The state and version a load starts from: the snapshot's when there
    /// is one, else the empty aggregate at the origin of the log.
    pub fn resume_from<A: Aggregate, S: Sequence>(snapshot: Option<Snapshot<A, S>>) -> (r: (A, S))
        ensures
            r == match snapshot {
                Some(snap) => (snap.state, snap.version),
                None => (A::empty(), S::origin()),
            },
    {
        match snapshot {
            Some(snap) => (snap.state, snap.version),
            None => (A::initial(), S::initial()),
        }
    }

    /// Finish loading `A`: fold the events read after version `after` into
    /// `initial`. The version is the sequence of the last event, or `after`
    /// when no event followed it. Fails when `A` is not registered.
    pub fn finish_load<A: Aggregate + ApplyEvent<E>, S: Sequence, E: DomainEvent>(
        &self,
        initial: A,
        after: S,
        events: &[StoredEvent<S, E>],
    ) -> (r: Result<(A, S), EventSourcingError>)
        ensures
            match r {
                Ok((agg, version)) => {
                    &&& self.registry().dom().contains(category_of::<A>())
                    &&& agg == replayed(initial, self.registry()[category_of::<A>()].codes, events@)
                    &&& version == loaded_version(after, events@)
                },
                Err(e) => !self.registry().dom().contains(category_of::<A>()) && e is Store
                    && e.message_text() == unregistered_message(category_of::<A>()),
            },
    {
        let reg = self.registration::<A>()?;
        let version = if events.len() == 0 {
            after
        } else {
            events[events.len() - 1].sequence
        };
        let agg = reg.extractor.reconstitute_from(initial, events);
        Ok((agg, version))
    }

    /// Rebuild `A` from an optional snapshot and the events stored after
    /// it: the whole of a load once the reads are done.
    pub fn rebuild<A: Aggregate + ApplyEvent<E>, S: Sequence, E: DomainEvent>(
        &self,
        snapshot: Option<Snapshot<A, S>>,
        events: &[StoredEvent<S, E>],
    ) -> (r: Result<(A, S), EventSourcingError>)
        ensures
            match r {
                Ok((agg, version)) => {
                    let (start, after) = match snapshot {
                        Some(snap) => (snap.state, snap.version),
                        None => (A::empty(), S::origin()),
                    };
                    &&& self.registry().dom().contains(category_of::<A>())
                    &&& agg == replayed(start, self.registry()[category_of::<A>()].codes, events@)
                    &&& version == loaded_version(after, events@)
                },
                Err(e) => !self.registry().dom().contains(category_of::<A>()) && e is Store
                    && e.message_text() == unregistered_message(category_of::<A>()),
            },
    {
        let (initial, after) = Self::resume_from(snapshot);
        self.finish_load(initial, after, events)
    }

    /// Add or replace the registration of a category, and add its extractor.
    fn insert_registration(&mut self, extractor: StreamExtractor, snapshot: Option<Sn>)
        ensures
            final(self).registry() == old(self).registry().insert(
                extractor.category(),
                RegistrationView { category: extractor.category(), codes: extractor.registered(), snapshot },
            ),
            final(self).extractor_views() == old(self).extractor_views().push(extractor.view()),
            final(self).event_store() == old(self).event_store(),
    {
        proof {
            use_type_invariant(&*self);
        }
        let ghost old_regs = self.registrations@;
        let ghost cat = extractor.category();
        let ghost new_view = RegistrationView { category: extractor.category(), codes: extractor.registered(), snapshot };
        let mut regs: Vec<Registration<Sn>> = Vec::new();
        std::mem::swap(&mut regs, &mut self.registrations);
        let mut exts: Vec<StreamExtractor> = Vec::new();
        std::mem::swap(&mut exts, &mut self.extractors);
        let copy = extractor.clone();
        exts.push(copy);
        let pos = Self::position(&regs, extractor.aggregate_type());
        let reg = Registration { extractor, snapshot };
        match pos {
            Some(k) => {
                regs.set(k, reg);
                assert forall|i: int, j: int|
                    0 <= i < j < regs@.len() implies #[trigger] regs@[i].category()
                    != #[trigger] regs@[j].category() by {
                    assert(old_regs[i].category() != old_regs[j].category());
                }
                self.registrations = regs;
                proof {
                    assert forall|c: Seq<char>|
                        #![auto]
                        self.registry().dom().contains(c) == old(self).registry().insert(
                            cat,
                            new_view,
                        ).dom().contains(c) by {
                        if c != cat {
                            if exists|i: int|
                                0 <= i < old_regs.len() && #[trigger] old_regs[i].category() == c {
                                let i = choose|i: int|
                                    0 <= i < old_regs.len() && #[trigger] old_regs[i].category() == c;
                                assert(self.registrations@[i].category() == c);
                            }
                        } else {
                            assert(self.registrations@[k as int].category() == c);
                        }
                    }
                    assert forall|c: Seq<char>| #[trigger]
                        self.registry().dom().contains(c) implies self.registry()[c]
                        == old(self).registry().insert(cat, new_view)[c] by {
                        let i = choose|i: int|
                            0 <= i < self.registrations@.len()
                                && #[trigger] self.registrations@[i].category() == c;
                        if c != cat {
                            assert(i != k);
                            assert(old_regs[i].category() == c);
                            let j = choose|j: int|
                                0 <= j < old_regs.len() && #[trigger] old_regs[j].category() == c;
                            assert(j != k);
                            if i != j {
                                assert(old_regs[i].category() == old_regs[j].category());
                            }
                        } else {
                            if i != k {
                                assert(old_regs[i].category() == old_regs[k as int].category());
                            }
                        }
                    }
                    assert(self.registry() =~= old(self).registry().insert(cat, new_view));
                }
            },
            None => {
                regs.push(reg);
                assert forall|i: int, j: int|
                    0 <= i < j < regs@.len() implies #[trigger] regs@[i].category()
                    != #[trigger] regs@[j].category() by {
                    if j < old_regs.len() {
                        assert(old_regs[i].category() != old_regs[j].category());
                    } else {
                        assert(old_regs[i].category() != cat);
                    }
                }
                self.registrations = regs;
                proof {
                    let n = old_regs.len() as int;
                    assert forall|c: Seq<char>|
                        #![auto]
                        self.registry().dom().contains(c) == old(self).registry().insert(
                            cat,
                            new_view,
                        ).dom().contains(c) by {
                        if c != cat {
                            if exists|i: int|
                                0 <= i < old_regs.len() && #[trigger] old_regs[i].category() == c {
                                let i = choose|i: int|
                                    0 <= i < old_regs.len() && #[trigger] old_regs[i].category() == c;
                                assert(self.registrations@[i].category() == c);
                            }
                        } else {
                            assert(self.registrations@[n].category() == c);
                        }
                    }
                    assert forall|c: Seq<char>| #[trigger]
                        self.registry().dom().contains(c) implies self.registry()[c]
                        == old(self).registry().insert(cat, new_view)[c] by {
                        let i = choose|i: int|
                            0 <= i < self.registrations@.len()
                                && #[trigger] self.registrations@[i].category() == c;
                        if c != cat {
                            assert(i != n);
                            assert(old_regs[i].category() == c);
                            let j = choose|j: int|
                                0 <= j < old_regs.len() && #[trigger] old_regs[j].category() == c;
                            if i != j {
                                assert(old_regs[i].category() == old_regs[j].category());
                            }
                        } else {
                            assert(i == n);
                        }
                    }
                    assert(self.registry() =~= old(self).registry().insert(cat, new_view));
                }
            },
        }
        self.extractors = exts;
        assert(self.extractor_views() =~= old(self).extractor_views().push(extractor.view()));
    }
}

} // verus!
