use vstd::prelude::*;

verus! {

/// An event store paired with a listener that signals newly stored events.
///
/// The store `S` handles persistence; the listener `L` yields the sequence
/// numbers of new events matching a filter. This pairing only exposes the
/// two side by side.
pub struct NotifyingEventStore<S, L> {
    store: S,
    listener: L,
}

impl<S, L> NotifyingEventStore<S, L> {
    pub closed spec fn inner(self) -> S {
        self.store
    }

    pub closed spec fn notifier(self) -> L {
        self.listener
    }

    pub fn new(store: S, listener: L) -> (r: Self)
        ensures
            r.inner() == store,
            r.notifier() == listener,
    {
        NotifyingEventStore { store, listener }
    }

    /// The inner store, which appends and loads.
    pub fn store(&self) -> (r: &S)
        ensures
            *r == self.inner(),
    {
        &self.store
    }

    /// The listener, which yields notifications.
    pub fn listener(&self) -> (r: &L)
        ensures
            *r == self.notifier(),
    {
        &self.listener
    }
}

} // verus!
