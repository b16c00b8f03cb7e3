//! The outcome of asking an asynchronous source whether it has something.
use vstd::prelude::*;

verus! {

/// What a source had to offer when it was polled.
#[derive(Debug, PartialEq, Eq)]
pub enum Async<T> {
    /// A value was there.
    Ready(T),
    /// Nothing yet; the polling task is woken when that changes.
    NotReady,
}

} // verus!
