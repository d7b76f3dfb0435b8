use vstd::prelude::*;

verus! {

/// An event-sourced aggregate: a category name and an initial (empty) state.
pub trait Aggregate: Sized {
    /// The category name of this aggregate (e.g. "Medium").
    spec fn category_name() -> String;

    /// The state of an aggregate that no event has touched yet.
    spec fn empty() -> Self;

    fn aggregate_type() -> (r: String)
        ensures
            r == Self::category_name(),
    ;

    fn initial() -> (r: Self)
        ensures
            r == Self::empty(),
    ;
}

/// The category name of `A` as text.
pub open spec fn category_of<A: Aggregate>() -> Seq<char> {
    A::category_name()@
}

/// How an aggregate folds in one event.
pub trait ApplyEvent<E>: Sized {
    spec fn applied(self, event: E) -> Self;

    fn apply(&mut self, event: &E)
        ensures
            *final(self) == old(self).applied(*event),
    ;
}

/// The category of an aggregate, identified by its name.
#[derive(Debug, Eq, Hash)]
pub struct AggregateType {
    name: String,
}

impl AggregateType {
    pub closed spec fn label(self) -> Seq<char> {
        self.name@
    }

    pub closed spec fn text(self) -> String {
        self.name
    }

    /// The label is the view of the text.
    pub proof fn lemma_label(self)
        ensures
            self.text()@ == self.label(),
    {
    }

    pub fn new(name: String) -> (r: Self)
        ensures
            r.text() == name,
            r.label() == name@,
    {
        AggregateType { name }
    }

    /// The aggregate type of `A`.
    pub fn of<A: Aggregate>() -> (r: Self)
        ensures
            r.text() == A::category_name(),
            r.label() == category_of::<A>(),
    {
        AggregateType { name: A::aggregate_type() }
    }

    pub fn name(&self) -> (r: &str)
        ensures
            r@ == self.label(),
    {
        self.name.as_str()
    }

    /// The name as an owned string.
    pub fn name_text(&self) -> (r: &String)
        ensures
            *r == self.text(),
            r@ == self.label(),
    {
        &self.name
    }
}

impl Clone for AggregateType {
    fn clone(&self) -> (r: Self)
        ensures
            r == *self,
    {
        AggregateType { name: self.name.clone() }
    }
}

impl PartialEq for AggregateType {
    fn eq(&self, other: &Self) -> (r: bool) {
        self.name == other.name
    }
}

impl vstd::std_specs::cmp::PartialEqSpecImpl for AggregateType {
    open spec fn obeys_eq_spec() -> bool {
        true
    }

    open spec fn eq_spec(&self, other: &Self) -> bool {
        self.label() == other.label()
    }
}

/// A point-in-time snapshot of an aggregate's state.
pub struct Snapshot<A, S> {
    pub state: A,
    pub version: S,
}

} // verus!
