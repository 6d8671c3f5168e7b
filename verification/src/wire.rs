//! The persisted shape of the counter record: sixteen bytes on the wire,
//! eight bytes of framing metadata — opaque to this logic — followed by the
//! count as an eight-byte little-endian unsigned integer.

use vstd::bytes::lemma_auto_spec_u64_to_from_le_bytes;
use vstd::bytes::spec_u64_from_le_bytes;
use vstd::bytes::spec_u64_to_le_bytes;
use vstd::bytes::u64_from_le_bytes;
use vstd::bytes::u64_to_le_bytes;
use vstd::prelude::*;

verus! {

/// The framing bytes that precede the count in a persisted record.
pub const FRAMING_BYTES: usize = 8;

/// The full size of a persisted record.
pub const RECORD_BYTES: usize = 16;

/// The bytes that stand for a count in a persisted record: its
/// little-endian encoding.
pub open spec fn spec_count_bytes(count: u64) -> Seq<u8> {
    spec_u64_to_le_bytes(count)
}

/// Encodes a count as it is persisted after the framing: eight
/// little-endian bytes.
pub fn encode_count(count: u64) -> (s: Vec<u8>)
    ensures
        s@ == spec_count_bytes(count),
        s@.len() == 8,
{
    u64_to_le_bytes(count)
}

/// Decodes the count from the eight bytes that follow the framing: the
/// returned count is exactly the one whose encoding the bytes are.
pub fn decode_count(bytes: &[u8]) -> (count: u64)
    requires
        bytes@.len() == 8,
    ensures
        bytes@ == spec_count_bytes(count),
{
    proof {
        lemma_auto_spec_u64_to_from_le_bytes();
    }
    u64_from_le_bytes(bytes)
}

/// Encoding a count and decoding the bytes gives the count back, and every
/// eight-byte sequence is the encoding of exactly one count.
pub proof fn lemma_count_codec_round_trip(count: u64, bytes: Seq<u8>)
    requires
        bytes.len() == 8,
    ensures
        spec_u64_from_le_bytes(spec_count_bytes(count)) == count,
        spec_count_bytes(spec_u64_from_le_bytes(bytes)) == bytes,
{
    lemma_auto_spec_u64_to_from_le_bytes();
}

} // verus!
