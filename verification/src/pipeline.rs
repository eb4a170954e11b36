//! The analysis pipeline: parse, then validate, over an in-memory buffer.
//!
//! Reading the file into the buffer, and writing patched bytes back, is the
//! caller's concern; everything the engine decides is decided here.

use vstd::prelude::*;
use crate::checksum::lemma_checksum_depends_on_checksummed_range;
use crate::fixes::{lemma_apply_singleton_unfold, lemma_write32_preserves_subrange,
    lemma_write32_reads_back, spec_apply_fixes, spec_find_fix_issue, CHECKSUM_OFFSET};
use crate::parse::{parse_header, spec_le32, spec_parse};
use crate::types::{AnalysisResult, AnalysisResultView, FixType, ParseError};
use crate::validate::{lemma_validate_fix_lookup, spec_validate, validate};

verus! {

/// What analysing a buffer yields: the parsed fields together with the
/// ordered issue report, or the reason the buffer is not a hive header.
pub open spec fn spec_analyze(path: Seq<char>, bytes: Seq<u8>) -> Result<
    AnalysisResultView,
    ParseError,
>
    recommends
        bytes.len() <= u32::MAX,
{
    match spec_parse(path, bytes) {
        Ok(info) => Ok(AnalysisResultView { issues: spec_validate(info), file_info: info }),
        Err(e) => Err(e),
    }
}

/// Analyses a buffer holding the bytes of one file: parses the header
/// fields, runs the fixed battery of validation rules, and returns the
/// complete result. Analysis never partially succeeds: either the full
/// result is returned or a parse error is.
pub fn analyze(path: &str, data: &[u8]) -> (r: Result<AnalysisResult, ParseError>)
    requires
        data@.len() <= u32::MAX,
    ensures
        (match r {
            Ok(analysis) => spec_analyze(path@, data@) == Ok::<AnalysisResultView, ParseError>(
                analysis@,
            ),
            Err(e) => spec_analyze(path@, data@) == Err::<AnalysisResultView, ParseError>(e),
        }),
{
    let info = match parse_header(path, data) {
        Ok(info) => info,
        Err(e) => {
            return Err(e);
        },
    };
    let issues = validate(&info);
    let analysis = AnalysisResult { issues, file_info: info };
    proof {
        assert(spec_analyze(path@, data@) == Ok::<AnalysisResultView, ParseError>(analysis@));
    }
    Ok(analysis)
}

/// Applying a checksum fix with the value the analysis itself calculated
/// makes a subsequent analysis of the patched bytes report no checksum
/// issue: the patch touches only the checksum field, so the recalculated
/// value is unchanged and now matches the stored one.
pub proof fn lemma_checksum_fix_round_trip(path: Seq<char>, bytes: Seq<u8>)
    requires
        bytes.len() <= u32::MAX,
        spec_parse(path, bytes) is Ok,
    ensures
        ({
            let analysis = spec_analyze(path, bytes)->Ok_0;
            let fixed = spec_apply_fixes(bytes, seq![FixType::Checksum], analysis.issues);
            &&& spec_analyze(path, fixed) is Ok
            &&& spec_find_fix_issue(spec_analyze(path, fixed)->Ok_0.issues, FixType::Checksum)
                is None
        }),
{
    let info = spec_parse(path, bytes)->Ok_0;
    let analysis = spec_analyze(path, bytes)->Ok_0;
    let fixed = spec_apply_fixes(bytes, seq![FixType::Checksum], analysis.issues);
    lemma_validate_fix_lookup(info);
    lemma_apply_singleton_unfold(bytes, FixType::Checksum, analysis.issues);
    if info.stored_checksum != info.calculated_checksum {
        let calculated = info.calculated_checksum;
        assert(fixed == crate::fixes::spec_write32(bytes, CHECKSUM_OFFSET as int, calculated));
        lemma_write32_reads_back(bytes, CHECKSUM_OFFSET as int, calculated);
        lemma_write32_preserves_subrange(bytes, CHECKSUM_OFFSET as int, calculated, 0, 508);
        lemma_checksum_depends_on_checksummed_range(fixed, bytes);
        lemma_write32_preserves_subrange(bytes, CHECKSUM_OFFSET as int, calculated, 0, 4);
        assert(crate::parse::spec_signature_valid(fixed));
        let info2 = spec_parse(path, fixed)->Ok_0;
        assert(info2.stored_checksum == spec_le32(fixed, 508));
        vstd::bytes::lemma_auto_spec_u32_to_from_le_bytes();
        assert(fixed.subrange(508, 512) == vstd::bytes::spec_u32_to_le_bytes(calculated));
        assert(vstd::bytes::spec_u32_to_le_bytes(calculated).len() == 4);
        assert(vstd::bytes::spec_u32_from_le_bytes(vstd::bytes::spec_u32_to_le_bytes(calculated))
            == calculated);
        assert(info2.stored_checksum == calculated);
        assert(info2.calculated_checksum == calculated);
        lemma_validate_fix_lookup(info2);
    } else {
        assert(fixed == bytes);
    }
}

/// A file of exactly `4096 + hive_bins_size` bytes reports no
/// hive-bins-size issue, and any other length of at least 4096 bytes does:
/// the measured size is the file length past the 4096-byte base offset.
pub proof fn lemma_hive_bins_size_boundary(path: Seq<char>, bytes: Seq<u8>)
    requires
        4096 <= bytes.len() <= u32::MAX,
        spec_parse(path, bytes) is Ok,
    ensures
        ({
            let analysis = spec_analyze(path, bytes)->Ok_0;
            spec_find_fix_issue(analysis.issues, FixType::HiveBinsSize) is None <==> bytes.len()
                == 4096 + spec_le32(bytes, 40)
        }),
{
    let info = spec_parse(path, bytes)->Ok_0;
    lemma_validate_fix_lookup(info);
    assert(info.measured_hive_bins_size == info.size - 4096);
}

} // verus!
