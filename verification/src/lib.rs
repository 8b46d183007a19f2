//! A pushable array with a fixed capacity.
//!
//! [`PushArray`] is a sequence container whose capacity is part of its type.
//! It is viewed as the mathematical sequence of its live elements, and every
//! operation is specified by what it does to that sequence.

pub mod compare;
pub mod error;
pub mod laws;
pub mod model;
pub mod push_array;
pub mod text;
pub mod trait_impls;

pub use error::Error;
pub use error::Result;
pub use push_array::PushArray;
