use vstd::prelude::*;

verus! {

/// Errors reported by the event sourcing core.
#[derive(Debug)]
pub enum EventSourcingError {
    /// A store (or a registration that a store lookup relies on) failed.
    Store { message: String },
    /// The bus refused an operation in its current lifecycle phase.
    Bus { message: String },
}

impl EventSourcingError {
    pub open spec fn message_text(self) -> Seq<char> {
        match self {
            EventSourcingError::Store { message } => message@,
            EventSourcingError::Bus { message } => message@,
        }
    }

    pub open spec fn is_store(self) -> bool {
        self is Store
    }

    pub open spec fn is_bus(self) -> bool {
        self is Bus
    }

    /// The human readable message carried by the error.
    pub fn message(&self) -> (r: &String)
        ensures
            r == match self {
                EventSourcingError::Store { message } => message,
                EventSourcingError::Bus { message } => message,
            },
    {
        match self {
            EventSourcingError::Store { message } => message,
            EventSourcingError::Bus { message } => message,
        }
    }
}

} // verus!
