use vstd::prelude::*;

verus! {

/// A totally ordered position in the global event log.
///
/// `behind(a, b)` means that `a` comes strictly before `b`; `next_of(a, b)`
/// means that `b` is the position directly after `a`.
pub trait Sequence: Copy + Sized {
    spec fn behind(self, other: Self) -> bool;

    spec fn next_of(self, other: Self) -> bool;

    /// The position before every stored event (the default checkpoint).
    spec fn origin() -> Self;

    fn is_behind(&self, other: &Self) -> (r: bool)
        ensures
            r == self.behind(*other),
    ;

    fn is_next(&self, other: &Self) -> (r: bool)
        ensures
            r == self.next_of(*other),
    ;

    fn initial() -> (r: Self)
        ensures
            r == Self::origin(),
    ;

    /// `behind` is a strict total order, and a direct successor lies ahead
    /// with no position in between.
    proof fn lemma_order(a: Self, b: Self, c: Self)
        ensures
            !a.behind(a),
            a.behind(b) && b.behind(c) ==> a.behind(c),
            a.behind(b) || b.behind(a) || a == b,
            a.next_of(b) ==> a.behind(b),
            a.next_of(b) ==> !(a.behind(c) && c.behind(b)),
    ;
}

impl Sequence for i64 {
    open spec fn behind(self, other: Self) -> bool {
        self < other
    }

    open spec fn next_of(self, other: Self) -> bool {
        self + 1 == other
    }

    open spec fn origin() -> Self {
        0
    }

    fn is_behind(&self, other: &Self) -> (r: bool) {
        *self < *other
    }

    fn is_next(&self, other: &Self) -> (r: bool) {
        *self < i64::MAX && *self + 1 == *other
    }

    fn initial() -> (r: Self) {
        0
    }

    proof fn lemma_order(a: Self, b: Self, c: Self) {
    }
}

/// For `i64` positions, `b` directly follows `a` exactly when `a` lies
/// behind `b` and no position lies strictly between them.
pub proof fn lemma_i64_next_is_successor(a: i64, b: i64)
    ensures
        a.next_of(b) <==> (a.behind(b) && forall|c: i64| !(a.behind(c) && #[trigger] c.behind(b))),
{
    if a.behind(b) && !a.next_of(b) {
        let c: i64 = (a + 1) as i64;
        assert(a.behind(c) && c.behind(b));
    }
}

} // verus!
