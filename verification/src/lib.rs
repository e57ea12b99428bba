//! A minimal on-chain counter: a single `u64` record kept in an account whose
//! address is derived from a fixed label, created once and incremented under
//! host-checked preconditions.

pub mod counter;
pub mod derivation;
pub mod errors;
pub mod layout;
