use vstd::prelude::*;

use crate::event::{DomainEvent, EventType, unknown_event_name};
use crate::stream::{holds_code, streams_of, ExtractorView, StreamExtractor, StreamId};

verus! {

/// `acc` extended by the codes of `codes` it does not hold yet, in order.
pub open spec fn add_missing(acc: Seq<u64>, codes: Seq<u64>) -> Seq<u64>
    decreases codes.len(),
{
    if codes.len() == 0 {
        acc
    } else {
        let prior = add_missing(acc, codes.drop_last());
        if prior.contains(codes.last()) {
            prior
        } else {
            prior.push(codes.last())
        }
    }
}

/// The event type codes registered by any of `extractors`, each once, in
/// order of first registration.
pub open spec fn union_codes(extractors: Seq<ExtractorView>) -> Seq<u64>
    decreases extractors.len(),
{
    if extractors.len() == 0 {
        Seq::empty()
    } else {
        add_missing(union_codes(extractors.drop_last()), extractors.last().codes)
    }
}

/// Every code that some extractor registers.
pub open spec fn registered_anywhere(extractors: Seq<ExtractorView>, code: u64) -> bool {
    exists|i: int| 0 <= i < extractors.len() && #[trigger] extractors[i].codes.contains(code)
}

proof fn lemma_add_missing(acc: Seq<u64>, codes: Seq<u64>)
    requires
        acc.no_duplicates(),
    ensures
        add_missing(acc, codes).no_duplicates(),
        forall|c: u64| #[trigger]
            add_missing(acc, codes).contains(c) <==> (acc.contains(c) || codes.contains(c)),
    decreases codes.len(),
{
    if codes.len() > 0 {
        let rest = codes.drop_last();
        lemma_add_missing(acc, rest);
        let prior = add_missing(acc, rest);
        assert forall|c: u64| #[trigger]
            add_missing(acc, codes).contains(c) <==> (acc.contains(c) || codes.contains(c)) by {
            if codes.contains(c) && c != codes.last() {
                let k = choose|k: int| 0 <= k < codes.len() && codes[k] == c;
                assert(rest[k] == c);
            }
            if rest.contains(c) {
                let k = choose|k: int| 0 <= k < rest.len() && rest[k] == c;
                assert(codes[k] == c);
            }
            if !prior.contains(codes.last()) {
                assert(prior.push(codes.last()).last() == codes.last());
                if prior.contains(c) {
                    let k = choose|k: int| 0 <= k < prior.len() && prior[k] == c;
                    assert(prior.push(codes.last())[k] == c);
                }
                if prior.push(codes.last()).contains(c) && c != codes.last() {
                    let k = choose|k: int| 0 <= k < prior.len() + 1 && prior.push(codes.last())[k] == c;
                    assert(prior[k] == c);
                }
            }
            assert(codes[codes.len() - 1] == codes.last());
        }
    }
}

/// The union of the extractors' event types holds each code once, and
/// exactly the codes that some extractor registers.
pub proof fn lemma_union_codes(extractors: Seq<ExtractorView>)
    ensures
        union_codes(extractors).no_duplicates(),
        forall|c: u64| #[trigger]
            union_codes(extractors).contains(c) <==> registered_anywhere(extractors, c),
    decreases extractors.len(),
{
    if extractors.len() > 0 {
        let rest = extractors.drop_last();
        lemma_union_codes(rest);
        lemma_add_missing(union_codes(rest), extractors.last().codes);
        assert forall|c: u64| #[trigger]
            union_codes(extractors).contains(c) <==> registered_anywhere(extractors, c) by {
            if registered_anywhere(rest, c) {
                let i = choose|i: int| 0 <= i < rest.len() && #[trigger] rest[i].codes.contains(c);
                assert(extractors[i].codes.contains(c));
            }
            if registered_anywhere(extractors, c) {
                let i = choose|i: int| 0 <= i < extractors.len() && #[trigger] extractors[i].codes.contains(c);
                if i < extractors.len() - 1 {
                    assert(rest[i].codes.contains(c));
                }
            }
        }
    }
}

/// A projection that writes stream link records for published events.
///
/// It uses the registered extractors to decide which streams an event
/// belongs to; the link store `L` persists the links.
pub struct StreamLinkingProjection<L> {
    extractors: Vec<StreamExtractor>,
    link_store: L,
}

impl<L> StreamLinkingProjection<L> {
    pub closed spec fn extractor_views(self) -> Seq<ExtractorView> {
        self.extractors@.map_values(|e: StreamExtractor| e.view())
    }

    pub closed spec fn store(self) -> L {
        self.link_store
    }

    pub fn new(extractors: Vec<StreamExtractor>, link_store: L) -> (r: Self)
        ensures
            r.extractor_views() == extractors@.map_values(|e: StreamExtractor| e.view()),
            r.store() == link_store,
    {
        StreamLinkingProjection { extractors, link_store }
    }

    /// The projection's name, used as its checkpoint key.
    pub fn name(&self) -> (r: &'static str)
        ensures
            r@ == linker_name(),
    {
        proof {
            reveal_strlit("stream_linker");
        }
        "stream_linker"
    }

    pub fn link_store(&self) -> (r: &L)
        ensures
            *r == self.store(),
    {
        &self.link_store
    }

    /// The union of the extractors' event types, each type once.
    pub fn event_types(&self) -> (r: Vec<EventType>)
        ensures
            r@.map_values(|t: EventType| t.code()) == union_codes(self.extractor_views()),
            forall|i: int| 0 <= i < r@.len() ==> #[trigger] r@[i].label() == unknown_event_name(),
    {
        let mut types: Vec<EventType> = Vec::new();
        let mut codes: Vec<u64> = Vec::new();
        let mut i: usize = 0;
        while i < self.extractors.len()
            invariant
                i <= self.extractors@.len(),
                codes@ == union_codes(self.extractor_views().take(i as int)),
                types@.map_values(|t: EventType| t.code()) == codes@,
                forall|k: int| 0 <= k < types@.len() ==> #[trigger] types@[k].label() == unknown_event_name(),
            decreases self.extractors.len() - i,
        {
            let ghost views = self.extractor_views();
            assert(views.take(i as int + 1).drop_last() =~= views.take(i as int));
            let ets = self.extractors[i].event_types();
            let ghost acc0 = codes@;
            let ghost ext_codes = self.extractors@[i as int].registered();
            let mut j: usize = 0;
            while j < ets.len()
                invariant
                    i < self.extractors@.len(),
                    j <= ets@.len(),
                    ets@.len() == ext_codes.len(),
                    forall|k: int| 0 <= k < ets@.len() ==> #[trigger] ets@[k].code() == ext_codes[k]
                        && ets@[k].label() == unknown_event_name(),
                    codes@ == add_missing(acc0, ext_codes.take(j as int)),
                    types@.map_values(|t: EventType| t.code()) == codes@,
                    forall|k: int| 0 <= k < types@.len() ==> #[trigger] types@[k].label() == unknown_event_name(),
                decreases ets.len() - j,
            {
                assert(ext_codes.take(j as int + 1).drop_last() =~= ext_codes.take(j as int));
                let code = ets[j].id();
                if !holds_code(&codes, code) {
                    let ghost before = types@;
                    codes.push(code);
                    types.push(ets[j].clone());
                    assert(types@.map_values(|t: EventType| t.code()) =~= before.map_values(|t: EventType| t.code()).push(code));
                }
                j = j + 1;
            }
            assert(ext_codes.take(ets@.len() as int) =~= ext_codes);
            i = i + 1;
        }
        assert(self.extractor_views().take(self.extractors@.len() as int) =~= self.extractor_views());
        types
    }

    /// The streams an event is to be linked to, in extractor order.
    pub fn links_for<E: DomainEvent>(&self, event: &E) -> (r: Vec<StreamId>)
        ensures
            r@.map_values(|s: StreamId| s.key()) == streams_of(self.extractor_views(), *event),
    {
        let mut out: Vec<StreamId> = Vec::new();
        let mut i: usize = 0;
        while i < self.extractors.len()
            invariant
                i <= self.extractors@.len(),
                out@.map_values(|s: StreamId| s.key()) == streams_of(
                    self.extractor_views().take(i as int),
                    *event,
                ),
            decreases self.extractors.len() - i,
        {
            assert(self.extractor_views().take(i as int + 1).drop_last() =~= self.extractor_views().take(i as int));
            let ghost before = out@;
            match self.extractors[i].stream_id(event) {
                Some(sid) => {
                    out.push(sid);
                    assert(out@.map_values(|s: StreamId| s.key()) =~= before.map_values(|s: StreamId| s.key()).push(sid.key()));
                },
                None => {},
            }
            i = i + 1;
        }
        assert(self.extractor_views().take(self.extractors@.len() as int) =~= self.extractor_views());
        out
    }
}

pub open spec fn linker_name() -> Seq<char> {
    "stream_linker"@
}

} // verus!
