//! Single-threaded state machines driven by typed inputs, and the channels
//! they are built on. Every item here is the logic of one end or one shared
//! core of a channel; the handles that share a core between tasks live with
//! the runtime around the library.
use vstd::prelude::*;

pub mod channel;
pub mod context;
pub mod spawner;
pub mod waker;

verus! {

/// The outcome of polling: a value, or nothing yet.
#[derive(Debug)]
pub enum Poll<T> {
    Ready(T),
    Pending,
}

impl<T> Poll<T> {
    pub fn is_ready(&self) -> (r: bool)
        ensures
            r == (self is Ready),
    {
        match self {
            Poll::Ready(_) => true,
            Poll::Pending => false,
        }
    }
}

/// A type with no value: a state's `run` never returns one.
pub type Never = core::convert::Infallible;

/// A future that never completes.
pub struct FutNever;

impl FutNever {
    /// Polling never completes.
    pub fn poll(&mut self) -> (r: Poll<Never>)
        ensures
            r is Pending,
    {
        Poll::Pending
    }
}

} // verus!
