//! A fixed-capacity, append-only sequence container.
//!
//! A `FixedVec` is created with a fixed capacity and filled by `push`, which
//! hands out one slot per call until the capacity is exhausted; a rejected
//! push returns the value to the caller.  Capacity only ever changes through
//! the explicit, exclusive-access `realloc`.

pub mod fixed_vec;

pub use fixed_vec::FixedVec;
pub use fixed_vec::IntoIter;
