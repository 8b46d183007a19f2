//! The failure a bounded container can report.

use vstd::prelude::*;

verus! {

/// The ways an append can be refused.
#[derive(Debug, Clone, Copy, PartialEq, Eq, Structural)]
pub enum Error {
    /// The elements on offer do not fit in the slots that are still free.
    NotEnoughCapacity,
}

/// The result of an operation that may be refused for want of room.
pub type Result<T> = core::result::Result<T, Error>;

} // verus!
