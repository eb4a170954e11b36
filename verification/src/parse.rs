//! Extraction of the typed header fields from a byte buffer, using
//! little-endian decoding at fixed offsets.

use vstd::prelude::*;
use vstd::bytes::{spec_u32_from_le_bytes, spec_u64_from_le_bytes, u32_from_le_bytes,
    u64_from_le_bytes};
use vstd::slice::slice_subrange;
use vstd::utf8::{decode_utf8, valid_utf8};
use crate::checksum::spec_header_checksum;
use crate::checksum::calculate_header_checksum;
use crate::types::{FileInfo, FileInfoView, ParseError};

verus! {

/// Size in bytes of the fixed header that every analysis needs.
pub const HEADER_LEN: usize = 512;

/// Base offset of the hive-bins region: the bins follow the 4096-byte
/// header block, so all bin-region arithmetic is relative to this.
pub const BASE_OFFSET: u32 = 4096;

/// The 32-bit little-endian field that starts at byte `off`.
pub open spec fn spec_le32(bytes: Seq<u8>, off: int) -> u32 {
    spec_u32_from_le_bytes(bytes.subrange(off, off + 4))
}

/// The 64-bit little-endian field that starts at byte `off`.
pub open spec fn spec_le64(bytes: Seq<u8>, off: int) -> u64 {
    spec_u64_from_le_bytes(bytes.subrange(off, off + 8))
}

/// The signature field holds text: its four bytes are valid UTF-8.
pub open spec fn spec_signature_valid(bytes: Seq<u8>) -> bool {
    valid_utf8(bytes.subrange(0, 4))
}

/// The characters the four signature bytes decode to.
pub open spec fn spec_signature_chars(bytes: Seq<u8>) -> Seq<char> {
    decode_utf8(bytes.subrange(0, 4))
}

/// The hive-bins size the file's own length implies: everything past the
/// 4096-byte base offset. Degenerate files shorter than the base offset
/// yield the same wrapped 32-bit difference the size arithmetic produces.
pub open spec fn spec_measured_size(size: u32) -> u32 {
    vstd::wrapping::u32_specs::wrapping_sub(size, BASE_OFFSET)
}

/// What parsing a buffer yields: every fixed-offset field of the header,
/// or the reason the buffer is not a hive header.
pub open spec fn spec_parse(path: Seq<char>, bytes: Seq<u8>) -> Result<FileInfoView, ParseError>
    recommends
        bytes.len() <= u32::MAX,
{
    if bytes.len() < HEADER_LEN {
        Err(ParseError::BufferTooShort)
    } else if !spec_signature_valid(bytes) {
        Err(ParseError::InvalidSignature)
    } else {
        Ok(
            FileInfoView {
                path: path,
                size: bytes.len() as u32,
                signature: spec_signature_chars(bytes),
                primary_seq_num: spec_le32(bytes, 4),
                secondary_seq_num: spec_le32(bytes, 8),
                last_written: spec_le64(bytes, 12),
                major_version: spec_le32(bytes, 20),
                minor_version: spec_le32(bytes, 24),
                file_type: spec_le32(bytes, 28),
                file_format: spec_le32(bytes, 32),
                root_cell_offset: spec_le32(bytes, 36),
                hive_bins_size: spec_le32(bytes, 40),
                measured_hive_bins_size: spec_measured_size(bytes.len() as u32),
                clustering_factor: spec_le32(bytes, 44),
                stored_checksum: spec_le32(bytes, 508),
                calculated_checksum: spec_header_checksum(bytes),
            },
        )
    }
}

/// Reads the 32-bit little-endian field at `off`.
fn read_le32(data: &[u8], off: usize) -> (r: u32)
    requires
        off + 4 <= data.len(),
    ensures
        r == spec_le32(data@, off as int),
{
    u32_from_le_bytes(slice_subrange(data, off, off + 4))
}

/// Relies on `str::from_utf8`: it succeeds exactly on bytes that are valid
/// UTF-8, and the resulting string holds the characters those bytes encode.
#[verifier::external_body]
fn utf8_to_string(bytes: &[u8]) -> (r: Option<String>)
    ensures
        r is Some <==> valid_utf8(bytes@),
        (match r {
            Some(s) => s@ == decode_utf8(bytes@),
            None => true,
        }),
{
    match core::str::from_utf8(bytes) {
        Ok(s) => Some(s.to_owned()),
        Err(_) => None,
    }
}

/// Parses the header fields of a buffer holding at least the 512-byte fixed
/// header. `path` only labels the result; the buffer alone is parsed.
///
/// Fails with `BufferTooShort` on a buffer below 512 bytes and with
/// `InvalidSignature` when the signature bytes are not valid UTF-8 text; no
/// other buffer is rejected.
pub fn parse_header(path: &str, data: &[u8]) -> (r: Result<FileInfo, ParseError>)
    requires
        data@.len() <= u32::MAX,
    ensures
        (match r {
            Ok(info) => spec_parse(path@, data@) == Ok::<FileInfoView, ParseError>(info@),
            Err(e) => spec_parse(path@, data@) == Err::<FileInfoView, ParseError>(e),
        }),
{
    if data.len() < HEADER_LEN {
        return Err(ParseError::BufferTooShort);
    }
    let signature = match utf8_to_string(slice_subrange(data, 0, 4)) {
        Some(s) => s,
        None => {
            return Err(ParseError::InvalidSignature);
        },
    };
    let size = data.len() as u32;
    let info = FileInfo {
        path: path.to_owned(),
        size,
        signature,
        primary_seq_num: read_le32(data, 4),
        secondary_seq_num: read_le32(data, 8),
        last_written: u64_from_le_bytes(slice_subrange(data, 12, 20)),
        major_version: read_le32(data, 20),
        minor_version: read_le32(data, 24),
        file_type: read_le32(data, 28),
        file_format: read_le32(data, 32),
        root_cell_offset: read_le32(data, 36),
        hive_bins_size: read_le32(data, 40),
        measured_hive_bins_size: size.wrapping_sub(BASE_OFFSET),
        clustering_factor: read_le32(data, 44),
        stored_checksum: read_le32(data, 508),
        calculated_checksum: calculate_header_checksum(data),
    };
    proof {
        assert(spec_parse(path@, data@) == Ok::<FileInfoView, ParseError>(info@));
    }
    Ok(info)
}

} // verus!
