//! The error taxonomy of the counter: every way an operation can be rejected.
//!
//! Each error aborts its operation as a whole; no partial state change is ever
//! observable beside one of these.

use vstd::prelude::*;

verus! {

/// Why an operation was rejected.
#[derive(Clone, Copy, Debug, PartialEq, Eq, Structural)]
pub enum CounterError {
    /// Init found a record already allocated at the derived address.
    AlreadyInitialized,
    /// Increment found no record at the derived address.
    Uninitialized,
    /// The initializing caller cannot cover the allocation cost of the record.
    InsufficientFunds,
    /// Increment would take `count` past the largest representable value.
    ArithmeticOverflow,
    /// No disambiguation value yields a valid off-curve derived address.
    DerivationExhausted,
}

} // verus!
