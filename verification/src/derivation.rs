//! The address deriver: computes the one storage location of the counter
//! record from the fixed label `"counter"` and a program identity.
//!
//! The derived address is chosen so that it is not a valid key-pair address
//! (it lies off the signing curve): only the host's storage layer, never a
//! user, can authorize writes to it. The search walks the disambiguation
//! value ("bump") downward from its largest value and keeps the first
//! off-curve candidate.

use vstd::prelude::*;

use crate::errors::CounterError;

verus! {

/// The outcome of the program-derived-address search for the `"counter"`
/// label under the given program identity: the 32-byte address and its bump,
/// or nothing when every bump yields an on-curve address. A pure function of
/// the program identity alone.
pub uninterp spec fn counter_address_derivation(program_id: Seq<u8>) -> Option<(Seq<u8>, u8)>;

/// Relies on `Pubkey::try_find_program_address`: with the fixed seed
/// `b"counter"` the result is a function of the program id alone — the first
/// off-curve SHA-256 candidate, searched from bump 255 downward — and `None`
/// only when no bump yields an off-curve address.
#[verifier::external_body]
fn find_counter_address(program_id: &[u8; 32]) -> (r: Option<([u8; 32], u8)>)
    ensures
        match r {
            Some(pair) => counter_address_derivation(program_id@) == Some((pair.0@, pair.1)),
            None => counter_address_derivation(program_id@) is None,
        },
{
    let pid = solana_pubkey::Pubkey::new_from_array(*program_id);
    solana_pubkey::Pubkey::try_find_program_address(&[b"counter"], &pid)
        .map(|(address, bump)| (address.to_bytes(), bump))
}

/// Computes the storage location of the counter record for this program
/// identity: the one derived address and its bump. Repeated calls are
/// idempotent; the operation fails only with `DerivationExhausted`, when no
/// bump yields a valid off-curve address (unreachable in practice).
pub fn derive_address(program_id: &[u8; 32]) -> (r: Result<([u8; 32], u8), CounterError>)
    ensures
        match r {
            Ok(pair) => counter_address_derivation(program_id@) == Some((pair.0@, pair.1)),
            Err(e) => e == CounterError::DerivationExhausted
                && counter_address_derivation(program_id@) is None,
        },
{
    match find_counter_address(program_id) {
        Some(pair) => Ok(pair),
        None => Err(CounterError::DerivationExhausted),
    }
}

/// Idempotent derivation: the outcome is a function of the program identity
/// alone, so any two results the deriver can return for the same identity —
/// two addresses with their bumps, or twice the same failure — are identical.
pub proof fn lemma_derivation_idempotent(
    program_id: Seq<u8>,
    first: Option<(Seq<u8>, u8)>,
    second: Option<(Seq<u8>, u8)>,
)
    requires
        first == counter_address_derivation(program_id),
        second == counter_address_derivation(program_id),
    ensures
        first == second,
{
}

} // verus!
