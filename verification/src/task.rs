//! The result of polling a handler or a behaviour.

use vstd::prelude::*;

verus! {

/// What a poll found. `Pending` means that nothing is due: the caller waits
/// to be woken before it polls again.
pub enum Poll<T> {
    /// A value is due.
    Ready(T),
    /// Nothing is due yet.
    Pending,
}

impl<T> Poll<T> {
    /// Whether a value is due.
    pub fn is_ready(&self) -> (ready: bool)
        ensures
            ready == (*self is Ready),
    {
        match self {
            Poll::Ready(_) => true,
            Poll::Pending => false,
        }
    }

    /// Whether nothing is due yet.
    pub fn is_pending(&self) -> (pending: bool)
        ensures
            pending == (*self is Pending),
    {
        !self.is_ready()
    }
}

} // verus!
