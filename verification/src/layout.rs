//! The persisted form of the record: a fixed-size binary structure of 8 bytes
//! of host-internal discriminator metadata — opaque to this core — followed
//! by the count as an 8-byte unsigned little-endian integer. Sixteen bytes in
//! all, never resized.

use vstd::prelude::*;

use crate::counter::GlobalCounter;

verus! {

/// How many leading bytes the host's discriminator metadata takes.
pub const DISCRIMINATOR_LEN: usize = 8;

/// The fixed size of the persisted record.
pub const RECORD_LEN: usize = 16;

/// The persisted bytes of a record under a given discriminator.
pub open spec fn spec_record_bytes(discriminator: Seq<u8>, record: GlobalCounter) -> Seq<u8> {
    discriminator + vstd::bytes::spec_u64_to_le_bytes(record.count)
}

/// What reading a persisted record yields: the record, when the bytes are
/// exactly one record long and start with the expected discriminator;
/// nothing otherwise.
pub open spec fn spec_decode_record(bytes: Seq<u8>, discriminator: Seq<u8>) -> Option<
    GlobalCounter,
> {
    if bytes.len() == RECORD_LEN && bytes.subrange(0, DISCRIMINATOR_LEN as int) == discriminator {
        Some(
            GlobalCounter {
                count: vstd::bytes::spec_u64_from_le_bytes(
                    bytes.subrange(DISCRIMINATOR_LEN as int, RECORD_LEN as int),
                ),
            },
        )
    } else {
        None
    }
}

/// Writes a record in its persisted form: the given discriminator, then the
/// count in little-endian order.
pub fn encode_record(discriminator: &[u8; 8], record: &GlobalCounter) -> (r: Vec<u8>)
    ensures
        r@ == spec_record_bytes(discriminator@, *record),
        r@.len() == RECORD_LEN,
{
    let mut out: Vec<u8> = Vec::new();
    for i in 0..8
        invariant
            out@ =~= discriminator@.subrange(0, i as int),
    {
        out.push(discriminator[i]);
    }
    let mut count_bytes = vstd::bytes::u64_to_le_bytes(record.count);
    out.append(&mut count_bytes);
    proof {
        assert(discriminator@.subrange(0, 8) =~= discriminator@);
        assert(out@ =~= spec_record_bytes(discriminator@, *record));
    }
    out
}

/// Reads a persisted record back, refusing bytes of the wrong size and bytes
/// whose discriminator is not the expected one.
pub fn decode_record(bytes: &[u8], discriminator: &[u8; 8]) -> (r: Option<GlobalCounter>)
    ensures
        r == spec_decode_record(bytes@, discriminator@),
{
    if bytes.len() != RECORD_LEN {
        return None;
    }
    for i in 0..8
        invariant
            bytes@.len() == RECORD_LEN,
            forall|j: int| 0 <= j < i ==> bytes@[j] == discriminator@[j],
    {
        if bytes[i] != discriminator[i] {
            proof {
                assert(bytes@.subrange(0, DISCRIMINATOR_LEN as int)[i as int] != discriminator@[
                    i as int
                ]);
            }
            return None;
        }
    }
    proof {
        assert(bytes@.subrange(0, DISCRIMINATOR_LEN as int) =~= discriminator@);
    }
    let count_slice = vstd::slice::slice_subrange(bytes, 8, 16);
    let count = vstd::bytes::u64_from_le_bytes(count_slice);
    Some(GlobalCounter { count })
}

/// Round trip: a record written under a discriminator reads back as itself
/// under the same discriminator.
pub proof fn lemma_record_round_trip(discriminator: Seq<u8>, record: GlobalCounter)
    requires
        discriminator.len() == DISCRIMINATOR_LEN,
    ensures
        spec_decode_record(spec_record_bytes(discriminator, record), discriminator) == Some(record),
{
    vstd::bytes::lemma_auto_spec_u64_to_from_le_bytes();
    let bytes = spec_record_bytes(discriminator, record);
    assert(bytes.subrange(0, DISCRIMINATOR_LEN as int) =~= discriminator);
    assert(bytes.subrange(DISCRIMINATOR_LEN as int, RECORD_LEN as int)
        =~= vstd::bytes::spec_u64_to_le_bytes(record.count));
}

} // verus!
