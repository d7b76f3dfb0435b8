use vstd::multiset::Multiset;
use vstd::prelude::*;

use crate::bus::subscription::StartFrom;
use crate::error::EventSourcingError;
use crate::sequence::Sequence;

verus! {

/// A replayable consumer waiting for the bus to start: the position after
/// which it takes events, the checkpoint it saves under (if any), and the
/// caller's handle for its callback.
#[derive(Debug)]
pub struct PendingConsumer<S> {
    pub activate_after: S,
    pub checkpoint_name: Option<String>,
    /// The type code of the events the consumer takes.
    pub event_type: u64,
    pub handle: usize,
}

/// `consumers` is ordered by activation position (never a later one
/// before an earlier one).
pub open spec fn ordered<S: Sequence>(consumers: Seq<PendingConsumer<S>>) -> bool {
    forall|i: int, j: int|
        0 <= i < j < consumers.len() ==> !(#[trigger] consumers[j].activate_after).behind(
            #[trigger] consumers[i].activate_after,
        )
}

/// Whether a consumer activates after position `a`.
pub open spec fn at_key<S: Sequence>(a: S) -> spec_fn(PendingConsumer<S>) -> bool {
    |c: PendingConsumer<S>| c.activate_after == a
}

/// The consumers of `cs` that activate after position `a`, in their order
/// in `cs`.
pub open spec fn at_position<S: Sequence>(cs: Seq<PendingConsumer<S>>, a: S) -> Seq<PendingConsumer<S>> {
    cs.filter(at_key(a))
}

proof fn lemma_none_at<S: Sequence>(s: Seq<PendingConsumer<S>>, a: S)
    requires
        forall|k: int| 0 <= k < s.len() ==> (#[trigger] s[k]).activate_after != a,
    ensures
        at_position(s, a) == Seq::<PendingConsumer<S>>::empty(),
    decreases s.len(),
{
    reveal(Seq::filter);
    if s.len() > 0 {
        let rest = s.drop_last();
        assert forall|k: int| 0 <= k < rest.len() implies (#[trigger] rest[k]).activate_after != a by {
            assert(rest[k] == s[k]);
        }
        lemma_none_at(rest, a);
    }
}

proof fn lemma_single_at<S: Sequence>(c: PendingConsumer<S>, a: S)
    ensures
        at_position(seq![c], a) == if c.activate_after == a {
            seq![c]
        } else {
            Seq::<PendingConsumer<S>>::empty()
        },
{
    reveal(Seq::filter);
    let e = Seq::<PendingConsumer<S>>::empty();
    assert(seq![c] =~= e.push(c));
    e.lemma_filter_push(c, at_key(a));
    assert(e.filter(at_key(a)) =~= e);
}

/// Inserting `c` where `insert_ordered` puts it places it after every
/// consumer at its own position.
proof fn lemma_insert_stable<S: Sequence>(before: Seq<PendingConsumer<S>>, p: int, c: PendingConsumer<S>)
    requires
        ordered(before),
        0 <= p <= before.len(),
        p < before.len() ==> c.activate_after.behind(before[p].activate_after),
    ensures
        forall|a: S|
            #[trigger] at_position(before.insert(p, c), a) == at_position(before, a) + at_position(seq![c], a),
{
    let s = before.insert(p, c);
    let head = before.take(p);
    let tail = before.skip(p);
    assert(s =~= head + seq![c] + tail);
    assert(before =~= head + tail);
    assert forall|a: S| #[trigger] at_position(before.insert(p, c), a) == at_position(before, a) + at_position(seq![c], a) by {
        Seq::filter_distributes_over_add(head + seq![c], tail, at_key(a));
        Seq::filter_distributes_over_add(head, seq![c], at_key(a));
        Seq::filter_distributes_over_add(head, tail, at_key(a));
        lemma_single_at(c, a);
        if a == c.activate_after {
            assert forall|k: int| 0 <= k < tail.len() implies (#[trigger] tail[k]).activate_after != a by {
                assert(tail[k] == before[p + k]);
                S::lemma_order(c.activate_after, c.activate_after, c.activate_after);
                if k > 0 {
                    assert(!before[p + k].activate_after.behind(before[p].activate_after));
                }
            }
            lemma_none_at(tail, a);
            assert(at_position(s, a) =~= at_position(before, a) + at_position(seq![c], a));
        } else {
            assert(at_position(s, a) =~= at_position(before, a) + at_position(seq![c], a));
        }
    }
}

/// Insert `c` into the ordered `v` after every consumer it is not behind.
fn insert_ordered<S: Sequence>(v: &mut Vec<PendingConsumer<S>>, c: PendingConsumer<S>)
    requires
        ordered(old(v)@),
    ensures
        ordered(final(v)@),
        final(v)@.to_multiset() == old(v)@.to_multiset().insert(c),
        forall|a: S| #[trigger] at_position(final(v)@, a) == at_position(old(v)@, a) + at_position(seq![c], a),
{
    let mut p: usize = 0;
    while p < v.len() && !c.activate_after.is_behind(&v[p].activate_after)
        invariant
            p <= v@.len(),
            v@ == old(v)@,
            ordered(v@),
            forall|k: int| 0 <= k < p ==> !c.activate_after.behind(#[trigger] v@[k].activate_after),
        decreases v.len() - p,
    {
        p = p + 1;
    }
    let ghost before = v@;
    proof {
        lemma_insert_keeps_order(before, p as int, c);
        lemma_insert_multiset(before, p as int, c);
        lemma_insert_stable(before, p as int, c);
    }
    v.insert(p, c);
    assert(v@ =~= before.insert(p as int, c));
}

proof fn lemma_insert_keeps_order<S: Sequence>(before: Seq<PendingConsumer<S>>, p: int, c: PendingConsumer<S>)
    requires
        ordered(before),
        0 <= p <= before.len(),
        forall|k: int| 0 <= k < p ==> !c.activate_after.behind(#[trigger] before[k].activate_after),
        p < before.len() ==> c.activate_after.behind(before[p].activate_after),
    ensures
        ordered(before.insert(p, c)),
{
    let s = before.insert(p, c);
    before.insert_ensures(p, c);
    assert forall|i: int, j: int|
        0 <= i < j < s.len() implies !(#[trigger] s[j]).activate_after.behind(
        (#[trigger] s[i]).activate_after,
    ) by {
        if i < p && j == p {
            assert(s[i] == before[i]);
        } else if i == p && j > p {
            let a = c.activate_after;
            let b = before[p].activate_after;
            let d = before[j - 1].activate_after;
            assert(s[j] == before[j - 1]);
            S::lemma_order(a, b, d);
            S::lemma_order(b, d, a);
            S::lemma_order(d, a, d);
            if j - 1 > p {
                assert(!d.behind(b));
            }
        } else if i < p && j > p {
            assert(s[i] == before[i]);
            assert(s[j] == before[j - 1]);
        } else if j < p {
            assert(s[i] == before[i]);
            assert(s[j] == before[j]);
        } else {
            assert(s[i] == before[i - 1]);
            assert(s[j] == before[j - 1]);
        }
    }
}

proof fn lemma_insert_multiset<A>(before: Seq<A>, p: int, c: A)
    requires
        0 <= p <= before.len(),
    ensures
        before.insert(p, c).to_multiset() == before.to_multiset().insert(c),
{
    broadcast use vstd::seq_lib::group_to_multiset_ensures, vstd::multiset::group_multiset_axioms;

    let s = before.insert(p, c);
    before.insert_ensures(p, c);
    assert(s.remove(p) =~= before);
    s.to_multiset_ensures();
    assert(s[p] == c);
    assert(s.to_multiset() =~= before.to_multiset().insert(c));
}

proof fn lemma_remove_first_multiset<A>(s: Seq<A>)
    requires
        s.len() > 0,
    ensures
        s.to_multiset() == s.remove(0).to_multiset().insert(s[0]),
{
    broadcast use vstd::seq_lib::group_to_multiset_ensures, vstd::multiset::group_multiset_axioms;

    s.to_multiset_ensures();
    assert(s.to_multiset() =~= s.remove(0).to_multiset().insert(s[0]));
}

/// Sort consumers by activation position; consumers at the same position
/// keep their registration order.
pub fn sort_by_activation<S: Sequence>(consumers: Vec<PendingConsumer<S>>) -> (r: Vec<PendingConsumer<S>>)
    ensures
        ordered(r@),
        r@.to_multiset() == consumers@.to_multiset(),
        forall|a: S| #[trigger] at_position(r@, a) == at_position(consumers@, a),
{
    let mut out: Vec<PendingConsumer<S>> = Vec::new();
    let mut rest = consumers;
    let ghost total = rest@;
    proof {
        broadcast use vstd::seq_lib::group_to_multiset_ensures, vstd::multiset::group_multiset_axioms;
        assert(out@.to_multiset() =~= Multiset::empty());
        assert(Multiset::<PendingConsumer<S>>::empty().add(total.to_multiset()) =~= total.to_multiset());
    }
    proof {
        reveal(Seq::filter);
        assert forall|a: S| #[trigger] at_position(total, a) == at_position(out@, a) + at_position(rest@, a) by {
            assert(at_position(out@, a) =~= Seq::<PendingConsumer<S>>::empty());
            assert(at_position(total, a) =~= at_position(out@, a) + at_position(rest@, a));
        }
    }
    while rest.len() > 0
        invariant
            ordered(out@),
            out@.to_multiset().add(rest@.to_multiset()) == total.to_multiset(),
            forall|a: S| #[trigger] at_position(total, a) == at_position(out@, a) + at_position(rest@, a),
        decreases rest.len(),
    {
        let ghost r0 = rest@;
        let ghost out0 = out@;
        let c = rest.remove(0);
        proof {
            r0.remove_ensures(0);
            assert(rest@ =~= r0.remove(0));
            lemma_remove_first_multiset(r0);
            broadcast use vstd::multiset::group_multiset_axioms;
        }
        let ghost cv = c;
        insert_ordered(&mut out, c);
        proof {
            assert(r0 =~= seq![cv] + rest@);
            assert forall|a: S| #[trigger] at_position(total, a) == at_position(out@, a) + at_position(rest@, a) by {
                Seq::filter_distributes_over_add(seq![cv], rest@, at_key(a));
                assert(at_position(total, a) == at_position(out0, a) + at_position(r0, a));
                assert(at_position(out@, a) == at_position(out0, a) + at_position(seq![cv], a));
                assert(at_position(total, a) =~= at_position(out@, a) + at_position(rest@, a));
            }
        }
    }
    proof {
        broadcast use vstd::seq_lib::group_to_multiset_ensures, vstd::multiset::group_multiset_axioms;
        assert(rest@ =~= Seq::<PendingConsumer<S>>::empty());
        rest@.to_multiset_ensures();
        assert(rest@.to_multiset() =~= Multiset::empty());
        assert(out@.to_multiset().add(Multiset::empty()) =~= out@.to_multiset());
        reveal(Seq::filter);
        assert forall|a: S| #[trigger] at_position(out@, a) == at_position(total, a) by {
            assert(at_position(rest@, a) =~= Seq::<PendingConsumer<S>>::empty());
            assert(at_position(total, a) =~= at_position(out@, a) + at_position(rest@, a));
        }
    }
    out
}


/// The consumers of `cs` whose activation position lies behind `seq`, in order.
pub open spec fn due<S: Sequence>(cs: Seq<PendingConsumer<S>>, seq: S) -> Seq<PendingConsumer<S>>
    decreases cs.len(),
{
    if cs.len() == 0 {
        Seq::empty()
    } else {
        let prior = due(cs.drop_last(), seq);
        if cs.last().activate_after.behind(seq) {
            prior.push(cs.last())
        } else {
            prior
        }
    }
}

/// The consumers of `cs` whose activation position does not lie behind `seq`.
pub open spec fn not_due<S: Sequence>(cs: Seq<PendingConsumer<S>>, seq: S) -> Seq<PendingConsumer<S>>
    decreases cs.len(),
{
    if cs.len() == 0 {
        Seq::empty()
    } else {
        let prior = not_due(cs.drop_last(), seq);
        if cs.last().activate_after.behind(seq) {
            prior
        } else {
            prior.push(cs.last())
        }
    }
}

/// The handles of the consumers of `cs` that take events of type `code`.
pub open spec fn handles_for<S>(cs: Seq<PendingConsumer<S>>, code: u64) -> Seq<usize>
    decreases cs.len(),
{
    if cs.len() == 0 {
        Seq::empty()
    } else {
        let prior = handles_for(cs.drop_last(), code);
        if cs.last().event_type == code {
            prior.push(cs.last().handle)
        } else {
            prior
        }
    }
}

/// The consumers of `cs` whose activation position lies ahead of `pos`.
pub open spec fn later<S: Sequence>(cs: Seq<PendingConsumer<S>>, pos: S) -> Seq<PendingConsumer<S>>
    decreases cs.len(),
{
    if cs.len() == 0 {
        Seq::empty()
    } else {
        let prior = later(cs.drop_last(), pos);
        if pos.behind(cs.last().activate_after) {
            prior.push(cs.last())
        } else {
            prior
        }
    }
}

/// The consumers of `cs` whose activation position does not lie ahead of `pos`.
pub open spec fn not_later<S: Sequence>(cs: Seq<PendingConsumer<S>>, pos: S) -> Seq<PendingConsumer<S>>
    decreases cs.len(),
{
    if cs.len() == 0 {
        Seq::empty()
    } else {
        let prior = not_later(cs.drop_last(), pos);
        if pos.behind(cs.last().activate_after) {
            prior
        } else {
            prior.push(cs.last())
        }
    }
}

proof fn lemma_later_members<S: Sequence>(cs: Seq<PendingConsumer<S>>, pos: S)
    ensures
        forall|i: int| 0 <= i < later(cs, pos).len() ==> pos.behind((#[trigger] later(cs, pos)[i]).activate_after),
        forall|i: int| 0 <= i < not_later(cs, pos).len() ==> !pos.behind((#[trigger] not_later(cs, pos)[i]).activate_after),
    decreases cs.len(),
{
    if cs.len() > 0 {
        lemma_later_members(cs.drop_last(), pos);
    }
}

proof fn lemma_due_members<S: Sequence>(cs: Seq<PendingConsumer<S>>, seq: S)
    ensures
        forall|i: int| 0 <= i < due(cs, seq).len() ==> (#[trigger] due(cs, seq)[i]).activate_after.behind(seq),
        forall|i: int| 0 <= i < not_due(cs, seq).len() ==> !(#[trigger] not_due(cs, seq)[i]).activate_after.behind(seq),
        forall|i: int| 0 <= i < not_due(cs, seq).len() ==> cs.contains(#[trigger] not_due(cs, seq)[i]),
        due(cs, seq).len() + not_due(cs, seq).len() == cs.len(),
    decreases cs.len(),
{
    if cs.len() > 0 {
        let rest = cs.drop_last();
        lemma_due_members(rest, seq);
        assert forall|i: int| 0 <= i < not_due(cs, seq).len() implies cs.contains(#[trigger] not_due(cs, seq)[i]) by {
            if i < not_due(rest, seq).len() {
                assert(not_due(cs, seq)[i] == not_due(rest, seq)[i]);
                let j = choose|j: int| 0 <= j < rest.len() && rest[j] == not_due(rest, seq)[i];
                assert(cs[j] == rest[j]);
            } else {
                assert(cs[cs.len() - 1] == cs.last());
            }
        }
    }
}

/// Activation loses and duplicates no consumer: the consumers due at
/// `seq` and those not due are, together, exactly the consumers.
pub proof fn lemma_due_partition<S: Sequence>(cs: Seq<PendingConsumer<S>>, seq: S)
    ensures
        (due(cs, seq) + not_due(cs, seq)).to_multiset() == cs.to_multiset(),
    decreases cs.len(),
{
    broadcast use vstd::seq_lib::group_to_multiset_ensures, vstd::multiset::group_multiset_axioms;

    if cs.len() == 0 {
        assert(due(cs, seq) + not_due(cs, seq) =~= cs);
    } else {
        let rest = cs.drop_last();
        let x = cs.last();
        lemma_due_partition(rest, seq);
        vstd::seq_lib::lemma_multiset_commutative(due(rest, seq), not_due(rest, seq));
        vstd::seq_lib::lemma_multiset_commutative(due(cs, seq), not_due(cs, seq));
        assert(rest.push(x) =~= cs);
        rest.to_multiset_ensures();
        due(rest, seq).to_multiset_ensures();
        not_due(rest, seq).to_multiset_ensures();
        assert(cs.to_multiset() =~= rest.to_multiset().insert(x));
        assert((due(cs, seq) + not_due(cs, seq)).to_multiset() =~= cs.to_multiset());
    }
}

/// The replay phase of the persistent bus.
///
/// Consumers whose activation position is the replay start take events from
/// the start; the others are deferred until the replay passes their own
/// position. `last_seq` is the position the next batch is read after.
pub struct ReplayPlan<S: Sequence> {
    active: Vec<PendingConsumer<S>>,
    deferred: Vec<PendingConsumer<S>>,
    last_seq: S,
}

impl<S: Sequence> ReplayPlan<S> {
    pub closed spec fn active_view(self) -> Seq<PendingConsumer<S>> {
        self.active@
    }

    pub closed spec fn deferred_view(self) -> Seq<PendingConsumer<S>> {
        self.deferred@
    }

    pub closed spec fn last(self) -> S {
        self.last_seq
    }

    /// Active consumers are at or before the replay position; deferred ones
    /// are at or after it.
    pub open spec fn wf(self) -> bool {
        &&& forall|i: int| 0 <= i < self.active_view().len() ==> !self.last().behind(
            (#[trigger] self.active_view()[i]).activate_after,
        )
        &&& forall|i: int| 0 <= i < self.deferred_view().len() ==> !(
        #[trigger] self.deferred_view()[i]).activate_after.behind(self.last())
    }

    /// Every replay plan is well formed.
    #[verifier::type_invariant]
    spec fn inv(self) -> bool {
        self.wf()
    }

    /// Split the (sorted) consumers at the first one's position. Nothing is
    /// to replay when there is no consumer.
    pub fn plan(consumers: Vec<PendingConsumer<S>>) -> (r: Option<Self>)
        ensures
            consumers@.len() == 0 <==> r is None,
            r matches Some(p) ==> {
                let start = consumers@[0].activate_after;
                &&& p.wf()
                &&& p.last() == start
                &&& p.active_view() == not_later(consumers@, start)
                &&& p.deferred_view() == later(consumers@, start)
            },
    {
        if consumers.len() == 0 {
            return None;
        }
        let start = consumers[0].activate_after;
        let ghost all = consumers@;
        assert(all.len() <= usize::MAX);
        let mut rest = consumers;
        let mut active: Vec<PendingConsumer<S>> = Vec::new();
        let mut deferred: Vec<PendingConsumer<S>> = Vec::new();
        let mut k: usize = 0;
        while rest.len() > 0
            invariant
                k <= all.len(),
                all.len() <= usize::MAX,
                rest@.len() + k == all.len(),
                rest@ == all.skip(k as int),
                active@ == not_later(all.take(k as int), start),
                deferred@ == later(all.take(k as int), start),
            decreases rest.len(),
        {
            let ghost r0 = rest@;
            assert(all.take(k as int + 1).drop_last() =~= all.take(k as int));
            assert(all.take(k as int + 1).last() == all[k as int]);
            let c = rest.remove(0);
            assert(rest@ =~= all.skip(k as int + 1));
            if start.is_behind(&c.activate_after) {
                deferred.push(c);
            } else {
                active.push(c);
            }
            k = k + 1;
        }
        assert(all.take(all.len() as int) =~= all);
        proof {
            lemma_later_members(all, start);
            assert forall|i: int| 0 <= i < deferred@.len() implies !(
            #[trigger] deferred@[i]).activate_after.behind(start) by {
                S::lemma_order(start, deferred@[i].activate_after, start);
            }
        }
        let p = ReplayPlan { active, deferred, last_seq: start };
        Some(p)
    }

    /// The position the next batch of events is read after.
    pub fn position(&self) -> (r: S)
        ensures
            r == self.last(),
    {
        self.last_seq
    }

    /// Take the event at `seq` of type `code`: activate the deferred
    /// consumers whose position it passes, and return the handles of the
    /// active consumers that take events of this type, in order.
    pub fn on_event(&mut self, seq: S, code: u64) -> (r: Vec<usize>)
        ensures
            final(self).wf(),
            final(self).active_view() == old(self).active_view() + due(old(self).deferred_view(), seq),
            final(self).deferred_view() == not_due(old(self).deferred_view(), seq),
            final(self).last() == if old(self).last().behind(seq) { seq } else { old(self).last() },
            r@ == handles_for(final(self).active_view(), code),
            old(self).last().behind(seq) ==> forall|i: int|
                0 <= i < final(self).active_view().len() ==> (#[trigger] final(self).active_view()[i]).activate_after.behind(seq),
            forall|i: int|
                0 <= i < final(self).deferred_view().len() ==> !(#[trigger] final(self).deferred_view()[i]).activate_after.behind(seq),
    {
        proof {
            use_type_invariant(&*self);
        }
        let mut cur = ReplayPlan { active: Vec::new(), deferred: Vec::new(), last_seq: self.last_seq };
        std::mem::swap(&mut cur, self);
        let ReplayPlan { mut active, deferred, mut last_seq } = cur;
        let ghost old_active = active@;
        let ghost old_last = last_seq;
        let mut rest: Vec<PendingConsumer<S>> = deferred;
        let ghost all = rest@;
        let total = rest.len();
        assert(all.len() == total);
        let mut kept: Vec<PendingConsumer<S>> = Vec::new();
        let mut k: usize = 0;
        while rest.len() > 0
            invariant
                k <= all.len(),
                all.len() <= usize::MAX,
                rest@.len() + k == all.len(),
                rest@ == all.skip(k as int),
                last_seq == old_last,
                active@ == old_active + due(all.take(k as int), seq),
                kept@ == not_due(all.take(k as int), seq),
            decreases rest.len(),
        {
            assert(all.take(k as int + 1).drop_last() =~= all.take(k as int));
            assert(all.take(k as int + 1).last() == all[k as int]);
            let c = rest.remove(0);
            assert(rest@ =~= all.skip(k as int + 1));
            if c.activate_after.is_behind(&seq) {
                let ghost a0 = active@;
                active.push(c);
                assert(active@ =~= old_active + due(all.take(k as int + 1), seq));
            } else {
                kept.push(c);
            }
            k = k + 1;
        }
        assert(all.take(all.len() as int) =~= all);
        let deferred = kept;
        if last_seq.is_behind(&seq) {
            last_seq = seq;
        }
        let mut handles: Vec<usize> = Vec::new();
        let mut i: usize = 0;
        while i < active.len()
            invariant
                i <= active@.len(),
                active@ == old_active + due(all, seq),
                deferred@ == not_due(all, seq),
                last_seq == if old_last.behind(seq) { seq } else { old_last },
                handles@ == handles_for(active@.take(i as int), code),
            decreases active.len() - i,
        {
            assert(active@.take(i as int + 1).drop_last() =~= active@.take(i as int));
            if active[i].event_type == code {
                handles.push(active[i].handle);
            }
            i = i + 1;
        }
        assert(active@.take(active@.len() as int) =~= active@);
        proof {
            lemma_due_members(all, seq);
            let due_part = due(all, seq);
            assert forall|i: int| 0 <= i < active@.len() implies !last_seq.behind(
                (#[trigger] active@[i]).activate_after,
            ) && (old_last.behind(seq) ==> active@[i].activate_after.behind(seq)) by {
                let a = active@[i].activate_after;
                if i < old_active.len() {
                    assert(active@[i] == old_active[i]);
                    S::lemma_order(a, old_last, seq);
                    S::lemma_order(seq, a, old_last);
                    S::lemma_order(old_last, a, old_last);
                    S::lemma_order(seq, old_last, seq);
                    S::lemma_order(a, seq, a);
                } else {
                    assert(active@[i] == due_part[i - old_active.len()]);
                    S::lemma_order(a, seq, old_last);
                    S::lemma_order(seq, a, seq);
                    S::lemma_order(old_last, a, seq);
                    S::lemma_order(a, old_last, a);
                    S::lemma_order(old_last, seq, a);
                }
            }
            assert forall|i: int| 0 <= i < deferred@.len() implies !(
            #[trigger] deferred@[i]).activate_after.behind(last_seq) by {
                let d = deferred@[i].activate_after;
                let j = choose|j: int| 0 <= j < all.len() && all[j] == deferred@[i];
                assert(!all[j].activate_after.behind(old_last));
                S::lemma_order(d, seq, old_last);
                S::lemma_order(d, old_last, seq);
            }
        }
        *self = ReplayPlan { active, deferred, last_seq };
        handles
    }

    /// End the replay: every consumer, the active ones first, is handed over
    /// to live dispatch.
    pub fn finish(self) -> (r: Vec<PendingConsumer<S>>)
        ensures
            r@ == self.active_view() + self.deferred_view(),
    {
        let ReplayPlan { mut active, mut deferred, last_seq } = self;
        active.append(&mut deferred);
        active
    }
}


pub open spec fn after_start_message() -> Seq<char> {
    "Cannot register replayable consumer after bus has started"@
}

pub open spec fn latest_message() -> Seq<char> {
    "Latest consumers should use start_consumer_with_options"@
}

pub open spec fn started_twice_message() -> Seq<char> {
    "PersistentEventBus::start() called more than once"@
}

/// The lifecycle of a persistent bus: replayable consumers are queued until
/// the bus starts; it starts once.
pub struct PersistentBusCore<S> {
    started: bool,
    pending: Vec<PendingConsumer<S>>,
}

impl<S: Sequence> PersistentBusCore<S> {
    pub closed spec fn is_started(self) -> bool {
        self.started
    }

    pub closed spec fn queued(self) -> Seq<PendingConsumer<S>> {
        self.pending@
    }

    pub fn new() -> (r: Self)
        ensures
            !r.is_started(),
            r.queued() == Seq::<PendingConsumer<S>>::empty(),
    {
        PersistentBusCore { started: false, pending: Vec::new() }
    }

    pub fn started(&self) -> (r: bool)
        ensures
            r == self.is_started(),
    {
        self.started
    }

    /// Decide how a replayable consumer starting at `start_from` is to be
    /// registered: `Ok(None)` from the beginning of the log, `Ok(Some(name))`
    /// from the checkpoint saved under `name`. Refused once the bus has
    /// started, and for `Latest`, which is not replayable.
    pub fn accept_replayable(&self, start_from: &StartFrom) -> (r: Result<Option<String>, EventSourcingError>)
        ensures
            self.is_started() ==> (r matches Err(e) && e is Bus && e.message_text() == after_start_message()),
            !self.is_started() ==> match start_from {
                StartFrom::Beginning => r == Ok::<Option<String>, EventSourcingError>(None),
                StartFrom::Checkpoint { consumer_name } => (r matches Ok(Some(n)) && n@ == consumer_name@),
                StartFrom::Latest => (r matches Err(e) && e is Bus && e.message_text() == latest_message()),
            },
    {
        if self.started {
            proof {
                reveal_strlit("Cannot register replayable consumer after bus has started");
            }
            return Err(EventSourcingError::Bus {
                message: String::from_str("Cannot register replayable consumer after bus has started"),
            });
        }
        match start_from {
            StartFrom::Beginning => Ok(None),
            StartFrom::Checkpoint { consumer_name } => Ok(Some(consumer_name.clone())),
            StartFrom::Latest => {
                proof {
                    reveal_strlit("Latest consumers should use start_consumer_with_options");
                }
                Err(EventSourcingError::Bus {
                    message: String::from_str("Latest consumers should use start_consumer_with_options"),
                })
            },
        }
    }

    /// Queue a replayable consumer for the replay phase.
    pub fn enqueue(&mut self, consumer: PendingConsumer<S>)
        ensures
            final(self).is_started() == old(self).is_started(),
            final(self).queued() == old(self).queued().push(consumer),
    {
        self.pending.push(consumer);
    }

    /// Start the bus: hand over the queued consumers sorted by activation
    /// position (ties in registration order). A second start is refused.
    pub fn start(&mut self) -> (r: Result<Vec<PendingConsumer<S>>, EventSourcingError>)
        ensures
            final(self).is_started(),
            old(self).is_started() ==> (r matches Err(e) && e is Bus && e.message_text() == started_twice_message()
                && final(self).queued() == old(self).queued()),
            !old(self).is_started() ==> (r matches Ok(cs) && ordered(cs@) && cs@.to_multiset()
                == old(self).queued().to_multiset() && final(self).queued().len() == 0
                && forall|a: S| #[trigger] at_position(cs@, a) == at_position(old(self).queued(), a)),
    {
        if self.started {
            proof {
                reveal_strlit("PersistentEventBus::start() called more than once");
            }
            return Err(EventSourcingError::Bus {
                message: String::from_str("PersistentEventBus::start() called more than once"),
            });
        }
        self.started = true;
        let mut taken: Vec<PendingConsumer<S>> = Vec::new();
        std::mem::swap(&mut taken, &mut self.pending);
        Ok(sort_by_activation(taken))
    }
}

/// The position a checkpointed consumer resumes after: the loaded
/// checkpoint, or the origin of the log when loading it failed.
pub fn resume_position<S: Sequence>(loaded: Result<S, EventSourcingError>) -> (r: S)
    ensures
        r == match loaded {
            Ok(s) => s,
            Err(_) => S::origin(),
        },
{
    match loaded {
        Ok(s) => s,
        Err(_) => S::initial(),
    }
}

/// What to save after a consumer handled the event at `seq`: its checkpoint
/// moves to `seq` when it succeeded and it has a checkpoint name; nothing is
/// saved otherwise.
pub fn checkpoint_after<S: Sequence>(succeeded: bool, checkpoint_name: &Option<String>, seq: S) -> (r: Option<(String, S)>)
    ensures
        match r {
            Some((name, at)) => succeeded && (checkpoint_name matches Some(n) && name@ == n@ && at == seq),
            None => !succeeded || checkpoint_name is None,
        },
{
    if !succeeded {
        return None;
    }
    match checkpoint_name {
        Some(n) => Some((n.clone(), seq)),
        None => None,
    }
}

} // verus!
