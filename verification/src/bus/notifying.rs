use std::collections::HashMap;
use std::collections::HashSet;
use vstd::prelude::*;

use crate::sequence::Sequence;

verus! {

broadcast use vstd::std_specs::hash::group_hash_axioms;

/// What the listener does with a local event whose append committed.
#[derive(Debug)]
pub enum CommitAction<V> {
    /// No pending event carries this publish id.
    Unknown,
    /// The listener has already dispatched this sequence (via catch-up).
    AlreadyDispatched,
    /// Dispatch the event directly; it is contiguous with what was dispatched.
    Dispatch(V),
    /// There is a gap before the event: load the missing events first, then
    /// settle the event.
    CatchUpFirst(V),
}

/// The listener side of a notifying persistent bus: the last dispatched
/// position and the local events published but not yet committed, by
/// publish id.
pub struct ListenerCore<S, V> {
    last_seq: S,
    pending: HashMap<u64, V>,
}

impl<S: Sequence, V> ListenerCore<S, V> {
    pub closed spec fn last(self) -> S {
        self.last_seq
    }

    pub closed spec fn pending_view(self) -> Map<u64, V> {
        self.pending@
    }

    /// A listener that has dispatched everything up to `last`.
    pub fn new(last: S) -> (r: Self)
        ensures
            r.last() == last,
            r.pending_view() == Map::<u64, V>::empty(),
    {
        ListenerCore { last_seq: last, pending: HashMap::new() }
    }

    pub fn position(&self) -> (r: S)
        ensures
            r == self.last(),
    {
        self.last_seq
    }

    /// A local event is about to be appended under publish id `id`.
    pub fn on_pending(&mut self, id: u64, event: V)
        ensures
            final(self).last() == old(self).last(),
            final(self).pending_view() == old(self).pending_view().insert(id, event),
    {
        self.pending.insert(id, event);
    }

    /// The append of publish id `id` failed: forget its event.
    pub fn on_abort(&mut self, id: u64)
        ensures
            final(self).last() == old(self).last(),
            final(self).pending_view() == old(self).pending_view().remove(id),
    {
        self.pending.remove(&id);
    }

    /// The append of publish id `id` committed at `seq`. The pending event is
    /// taken out; it is dispatched directly when `seq` directly follows the
    /// last dispatched position, skipped when `seq` is not past it, and
    /// otherwise waits for a catch-up.
    pub fn on_committed(&mut self, id: u64, seq: S) -> (r: CommitAction<V>)
        ensures
            final(self).pending_view() == old(self).pending_view().remove(id),
            !old(self).pending_view().contains_key(id) ==> r is Unknown && final(self).last() == old(self).last(),
            old(self).pending_view().contains_key(id) ==> {
                let ev = old(self).pending_view()[id];
                if !old(self).last().behind(seq) {
                    r is AlreadyDispatched && final(self).last() == old(self).last()
                } else if old(self).last().next_of(seq) {
                    r == CommitAction::Dispatch(ev) && final(self).last() == seq
                } else {
                    r == CommitAction::CatchUpFirst(ev) && final(self).last() == old(self).last()
                }
            },
            !final(self).last().behind(old(self).last()),
            r is Dispatch ==> old(self).last().behind(seq) && forall|c: S|
                !(old(self).last().behind(c) && #[trigger] c.behind(seq)),
    {
        proof {
            S::lemma_order(self.last_seq, seq, self.last_seq);
            assert forall|c: S| self.last_seq.next_of(seq) implies !(self.last_seq.behind(c) && #[trigger] c.behind(seq)) by {
                S::lemma_order(self.last_seq, seq, c);
            }
        }
        match self.pending.remove(&id) {
            None => CommitAction::Unknown,
            Some(event) => {
                if !self.last_seq.is_behind(&seq) {
                    CommitAction::AlreadyDispatched
                } else if self.last_seq.is_next(&seq) {
                    self.last_seq = seq;
                    CommitAction::Dispatch(event)
                } else {
                    CommitAction::CatchUpFirst(event)
                }
            },
        }
    }

    /// A loaded event at `seq` was dispatched during catch-up.
    pub fn advance(&mut self, seq: S)
        ensures
            final(self).pending_view() == old(self).pending_view(),
            final(self).last() == if old(self).last().behind(seq) { seq } else { old(self).last() },
            !final(self).last().behind(old(self).last()),
    {
        proof {
            S::lemma_order(self.last_seq, seq, self.last_seq);
        }
        if self.last_seq.is_behind(&seq) {
            self.last_seq = seq;
        }
    }

    /// After a catch-up, the committed local event at `seq` is dispatched
    /// unless the catch-up already passed it.
    pub fn settle(&mut self, seq: S, event: V) -> (r: Option<V>)
        ensures
            final(self).pending_view() == old(self).pending_view(),
            old(self).last().behind(seq) ==> r == Some(event) && final(self).last() == seq,
            !old(self).last().behind(seq) ==> r is None && final(self).last() == old(self).last(),
            !final(self).last().behind(old(self).last()),
    {
        proof {
            S::lemma_order(self.last_seq, seq, self.last_seq);
        }
        if self.last_seq.is_behind(&seq) {
            self.last_seq = seq;
            Some(event)
        } else {
            None
        }
    }
}

/// The event types a notifying bus listens for.
pub struct ListenSet {
    codes: HashSet<u64>,
}

impl ListenSet {
    pub closed spec fn codes(self) -> Set<u64> {
        self.codes@
    }

    pub fn new() -> (r: Self)
        ensures
            r.codes() == Set::<u64>::empty(),
    {
        ListenSet { codes: HashSet::new() }
    }

    /// Listen for `code` too. Returns whether the set grew, in which case
    /// the listener must restart with the new set.
    pub fn ensure(&mut self, code: u64) -> (r: bool)
        ensures
            r == !old(self).codes().contains(code),
            final(self).codes() == old(self).codes().insert(code),
    {
        self.codes.insert(code)
    }

    /// The type codes listened for.
    pub fn listed(&self) -> (r: &HashSet<u64>)
        ensures
            r@ == self.codes(),
    {
        &self.codes
    }
}

} // verus!
