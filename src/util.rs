//! Utilities that are useful when working with the transceiver.
use vstd::prelude::*;

pub use crate::time::duration_between;

verus! {

/// An error that can be a timeout or another error
#[derive(Debug)]
pub enum TimeoutError<T> {
    /// The operation timed out
    Timeout,
    /// Another error occured
    Other(T),
}

} // verus!
