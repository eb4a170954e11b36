//! The header checksum: the running XOR of the 127 little-endian 32-bit
//! words in byte range `[0, 508)`, with two reserved values substituted.

use vstd::prelude::*;
use vstd::bytes::{spec_u32_from_le_bytes, u32_from_le_bytes};
use vstd::slice::slice_subrange;

verus! {

/// The 32-bit little-endian word that starts at byte `4 * k` of the buffer.
pub open spec fn spec_word_at(bytes: Seq<u8>, k: int) -> u32 {
    spec_u32_from_le_bytes(bytes.subrange(4 * k, 4 * k + 4))
}

/// XOR of the first `k` words of the buffer.
pub open spec fn spec_xor_words(bytes: Seq<u8>, k: int) -> u32
    decreases k,
{
    if k <= 0 {
        0u32
    } else {
        spec_xor_words(bytes, k - 1) ^ spec_word_at(bytes, k - 1)
    }
}

/// The raw XOR over the whole checksummed range: 127 words, bytes `[0, 508)`.
pub open spec fn spec_raw_checksum(bytes: Seq<u8>) -> u32 {
    spec_xor_words(bytes, 127)
}

/// The header checksum: the raw XOR, except that the reserved values
/// `0xFFFF_FFFF` and `0` are replaced by `0xFFFF_FFFE` and `1`.
pub open spec fn spec_header_checksum(bytes: Seq<u8>) -> u32 {
    let raw = spec_raw_checksum(bytes);
    if raw == 0xFFFF_FFFFu32 {
        0xFFFF_FFFEu32
    } else if raw == 0u32 {
        1u32
    } else {
        raw
    }
}

/// The checksum never takes a reserved value: the raw XOR `0xFFFF_FFFF`
/// calculates to `0xFFFF_FFFE` and the raw XOR `0` calculates to `1`, so the
/// result is never `0` and never `0xFFFF_FFFF`.
pub proof fn lemma_checksum_reserved_values(bytes: Seq<u8>)
    ensures
        spec_header_checksum(bytes) != 0,
        spec_header_checksum(bytes) != 0xFFFF_FFFFu32,
        spec_raw_checksum(bytes) == 0xFFFF_FFFFu32 ==> spec_header_checksum(bytes)
            == 0xFFFF_FFFEu32,
        spec_raw_checksum(bytes) == 0 ==> spec_header_checksum(bytes) == 1,
{
}

/// The checksum reads nothing outside the checksummed byte range: two
/// buffers that agree on bytes `[0, 508)` have the same checksum.
pub proof fn lemma_checksum_depends_on_checksummed_range(b1: Seq<u8>, b2: Seq<u8>)
    requires
        b1.len() >= 508,
        b2.len() >= 508,
        b1.subrange(0, 508) == b2.subrange(0, 508),
    ensures
        spec_header_checksum(b1) == spec_header_checksum(b2),
{
    lemma_xor_words_depends_on_prefix(b1, b2, 127);
}

/// Two buffers that agree on bytes `[0, 4 * k)` agree on the XOR of their
/// first `k` words.
proof fn lemma_xor_words_depends_on_prefix(b1: Seq<u8>, b2: Seq<u8>, k: int)
    requires
        0 <= 4 * k <= 508,
        b1.len() >= 508,
        b2.len() >= 508,
        b1.subrange(0, 508) == b2.subrange(0, 508),
    ensures
        spec_xor_words(b1, k) == spec_xor_words(b2, k),
    decreases k,
{
    if k > 0 {
        lemma_xor_words_depends_on_prefix(b1, b2, k - 1);
        assert forall|i: int| 0 <= i < 4 implies #[trigger] b1.subrange(4 * k - 4, 4 * k)[i]
            == b2.subrange(
            4 * k - 4,
            4 * k,
        )[i] by {
            assert(b1.subrange(0, 508)[4 * k - 4 + i] == b1[4 * k - 4 + i]);
            assert(b2.subrange(0, 508)[4 * k - 4 + i] == b2[4 * k - 4 + i]);
            assert(b1.subrange(4 * k - 4, 4 * k)[i] == b1[4 * k - 4 + i]);
            assert(b2.subrange(4 * k - 4, 4 * k)[i] == b2[4 * k - 4 + i]);
        }
        assert(b1.subrange(4 * k - 4, 4 * k) =~= b2.subrange(4 * k - 4, 4 * k));
    }
}

/// Computes the header checksum of a buffer holding at least the 508
/// checksummed bytes.
pub fn calculate_header_checksum(data: &[u8]) -> (checksum: u32)
    requires
        data@.len() >= 508,
    ensures
        checksum == spec_header_checksum(data@),
{
    let mut checksum: u32 = 0;
    let mut k: usize = 0;
    while k < 127
        invariant
            data@.len() >= 508,
            k <= 127,
            checksum == spec_xor_words(data@, k as int),
        decreases 127 - k,
    {
        let word = u32_from_le_bytes(slice_subrange(data, 4 * k, 4 * k + 4));
        checksum = checksum ^ word;
        k = k + 1;
    }
    if checksum == 0xFFFF_FFFF {
        0xFFFF_FFFE
    } else if checksum == 0 {
        1
    } else {
        checksum
    }
}

} // verus!
