//! The lifecycle shared by both bridges: each side of the conversation is
//! always in exactly one of these states, and the two terminal states are
//! never left again.

use vstd::prelude::*;

verus! {

/// Where a bridge stands in its pull cycle. `Idle` before the first pull,
/// `Pulling` while a pull is in flight against the underlying source,
/// `Delivering` once an item has been handed to the consumer and the
/// bridge is ready for the next pull. `Exhausted` and `Failed` are
/// terminal: the source is never polled again from either.
pub enum BridgeState<E> {
    Idle,
    Pulling,
    Delivering,
    Exhausted,
    Failed(E),
}

impl<E> BridgeState<E> {
    /// A terminal bridge never returns to pulling.
    pub open spec fn is_terminal(self) -> bool {
        self is Exhausted || self is Failed
    }

    /// Ready to start a pull: neither terminal nor already in flight.
    pub open spec fn is_ready(self) -> bool {
        self is Idle || self is Delivering
    }
}

} // verus!
