//! Traits that users implement for the library, and the error of a send that failed.
use vstd::prelude::*;
use crate::can::CanMessage;

verus! {

/// A send that failed, holding the frame that was not sent.
#[derive(Debug, Clone, PartialEq, Eq, Copy)]
pub struct CanSendError(pub CanMessage);

/// Access to a stored value, such as an atomic cell.
pub trait LoadStore<T> {
    /// Reads the value.
    fn load(&self) -> T;

    /// Stores a new value.
    fn store(&self, value: T);
}

} // verus!
