//! In-place binary patches for the remediable header fields, and the
//! orchestration that applies a caller-selected set of fixes to a buffer.
//!
//! The hive-bins-size and sequence-number fields lie inside the checksummed
//! byte range `[0, 508)`, so patching them invalidates the stored checksum;
//! the checksum field itself, at offset 508, lies outside it. After any such
//! structural fix the checksum is therefore recomputed and rewritten as the
//! final step, whether or not a checksum fix was selected.

use vstd::prelude::*;
use vstd::bytes::{spec_u32_to_le_bytes, u32_to_le_bytes};
use crate::checksum::{calculate_header_checksum, spec_header_checksum};
use crate::types::{AnalysisResult, FixData, FixType, IssueView};

verus! {

/// Offset of the primary sequence number field.
pub const PRIMARY_SEQ_OFFSET: usize = 4;

/// Offset of the secondary sequence number field.
pub const SECONDARY_SEQ_OFFSET: usize = 8;

/// Offset of the hive-bins size field.
pub const HIVE_BINS_SIZE_OFFSET: usize = 40;

/// Offset of the header checksum field.
pub const CHECKSUM_OFFSET: usize = 508;

/// The buffer with the 32-bit value written little-endian at `off`; all
/// other bytes are unchanged.
pub open spec fn spec_write32(bytes: Seq<u8>, off: int, value: u32) -> Seq<u8>
    recommends
        0 <= off,
        off + 4 <= bytes.len(),
{
    let le = spec_u32_to_le_bytes(value);
    bytes.update(off, le[0]).update(off + 1, le[1]).update(off + 2, le[2]).update(off + 3, le[3])
}

/// The first issue carrying the given fix type, if any: the fix workflow
/// looks fixes up by `FixType` identity, not by position.
pub open spec fn spec_find_fix_issue(issues: Seq<IssueView>, fix_type: FixType) -> Option<
    IssueView,
>
    decreases issues.len(),
{
    if issues.len() == 0 {
        None
    } else if issues[0].fix_type == Some(fix_type) {
        Some(issues[0])
    } else {
        spec_find_fix_issue(issues.drop_first(), fix_type)
    }
}

/// What applying one selected fix type does to the buffer, and whether it
/// was a structural fix (one inside the checksummed range). A fix type with
/// no matching issue, or whose issue carries a mismatched `FixData` shape,
/// is skipped.
pub open spec fn spec_apply_one(bytes: Seq<u8>, fix_type: FixType, issues: Seq<IssueView>) -> (
    Seq<u8>,
    bool,
) {
    match spec_find_fix_issue(issues, fix_type) {
        None => (bytes, false),
        Some(issue) => match (fix_type, issue.fix_data) {
            (FixType::HiveBinsSize, Some(FixData::HiveBinsSize(size))) => (
                spec_write32(bytes, HIVE_BINS_SIZE_OFFSET as int, size),
                true,
            ),
            (FixType::Checksum, Some(FixData::Checksum(sum))) => (
                spec_write32(bytes, CHECKSUM_OFFSET as int, sum),
                false,
            ),
            (FixType::SequenceNumbers, Some(FixData::SequenceNumbers(primary, secondary))) => (
                spec_write32(
                    spec_write32(bytes, PRIMARY_SEQ_OFFSET as int, primary),
                    SECONDARY_SEQ_OFFSET as int,
                    secondary,
                ),
                true,
            ),
            _ => (bytes, false),
        },
    }
}

/// The buffer after the selected fix types are applied in the caller's
/// order, and whether any applied fix was structural.
pub open spec fn spec_apply_selected(
    bytes: Seq<u8>,
    selected: Seq<FixType>,
    issues: Seq<IssueView>,
) -> (Seq<u8>, bool)
    decreases selected.len(),
{
    if selected.len() == 0 {
        (bytes, false)
    } else {
        let prev = spec_apply_selected(bytes, selected.drop_last(), issues);
        let step = spec_apply_one(prev.0, selected.last(), issues);
        (step.0, prev.1 || step.1)
    }
}

/// The full fix operation on a buffer: the selected fixes in order, then,
/// if any structural fix was applied, the checksum recomputed over the
/// patched bytes and rewritten as the final step.
pub open spec fn spec_apply_fixes(
    bytes: Seq<u8>,
    selected: Seq<FixType>,
    issues: Seq<IssueView>,
) -> Seq<u8> {
    let applied = spec_apply_selected(bytes, selected, issues);
    if applied.1 {
        spec_write32(applied.0, CHECKSUM_OFFSET as int, spec_header_checksum(applied.0))
    } else {
        applied.0
    }
}

/// A write changes nothing outside the four bytes it addresses.
pub proof fn lemma_write32_outside(bytes: Seq<u8>, off: int, value: u32, i: int)
    requires
        0 <= off,
        off + 4 <= bytes.len(),
        0 <= i < bytes.len(),
        !(off <= i < off + 4),
    ensures
        spec_write32(bytes, off, value)[i] == bytes[i],
{
}

/// A write leaves every byte range disjoint from its own four bytes as it
/// was.
pub proof fn lemma_write32_preserves_subrange(
    bytes: Seq<u8>,
    off: int,
    value: u32,
    lo: int,
    hi: int,
)
    requires
        0 <= off,
        off + 4 <= bytes.len(),
        0 <= lo <= hi <= bytes.len(),
        hi <= off || off + 4 <= lo,
    ensures
        spec_write32(bytes, off, value).subrange(lo, hi) == bytes.subrange(lo, hi),
{
    assert forall|i: int| 0 <= i < hi - lo implies #[trigger] spec_write32(bytes, off, value)
        .subrange(lo, hi)[i] == bytes.subrange(lo, hi)[i] by {
        lemma_write32_outside(bytes, off, value, lo + i);
    }
    assert(spec_write32(bytes, off, value).subrange(lo, hi) =~= bytes.subrange(lo, hi));
}

/// What a write put at `off` reads back as exactly the little-endian bytes
/// of the written value.
pub proof fn lemma_write32_reads_back(bytes: Seq<u8>, off: int, value: u32)
    requires
        0 <= off,
        off + 4 <= bytes.len(),
    ensures
        spec_write32(bytes, off, value).subrange(off, off + 4) == spec_u32_to_le_bytes(value),
        spec_write32(bytes, off, value).len() == bytes.len(),
{
    vstd::bytes::lemma_auto_spec_u32_to_from_le_bytes();
    let w = spec_write32(bytes, off, value);
    let le = spec_u32_to_le_bytes(value);
    assert(le.len() == 4);
    assert forall|i: int| 0 <= i < 4 implies #[trigger] w.subrange(off, off + 4)[i] == le[i] by {
        assert(w[off + i] == le[i]);
    }
    assert(w.subrange(off, off + 4) =~= le);
}

/// A write of the four bytes already present changes nothing at all.
pub proof fn lemma_write32_noop(bytes: Seq<u8>, off: int, value: u32)
    requires
        0 <= off,
        off + 4 <= bytes.len(),
        bytes.subrange(off, off + 4) == spec_u32_to_le_bytes(value),
    ensures
        spec_write32(bytes, off, value) == bytes,
{
    assert forall|i: int| 0 <= i < bytes.len() implies #[trigger] spec_write32(bytes, off, value)[i]
        == bytes[i] by {
        if off <= i < off + 4 {
            assert(bytes.subrange(off, off + 4)[i - off] == bytes[i]);
        } else {
            lemma_write32_outside(bytes, off, value, i);
        }
    }
    assert(spec_write32(bytes, off, value) =~= bytes);
}

/// How the fix lookup behaves when the issue list grows at the back: an
/// earlier match wins, else the new issue is consulted.
pub proof fn lemma_find_fix_issue_push(issues: Seq<IssueView>, issue: IssueView, fix_type: FixType)
    ensures
        spec_find_fix_issue(issues.push(issue), fix_type) == (if spec_find_fix_issue(
            issues,
            fix_type,
        ) is Some {
            spec_find_fix_issue(issues, fix_type)
        } else if issue.fix_type == Some(fix_type) {
            Some(issue)
        } else {
            None::<IssueView>
        }),
    decreases issues.len(),
{
    if issues.len() == 0 {
        assert(issues.push(issue)[0] == issue);
        assert(issues.push(issue).drop_first() =~= Seq::<IssueView>::empty());
    } else {
        assert(issues.push(issue)[0] == issues[0]);
        assert(issues.push(issue).drop_first() =~= issues.drop_first().push(issue));
        lemma_find_fix_issue_push(issues.drop_first(), issue, fix_type);
    }
}

/// Applying the same selected fix a second time, against the same analysis,
/// changes nothing: every byte the second pass writes is already there,
/// including the recomputed checksum. In particular a repeated hive-bins
/// size fix leaves the bytes at offset 40 identical after the first and
/// second application.
pub proof fn lemma_apply_fix_idempotent(bytes: Seq<u8>, fix_type: FixType, issues: Seq<IssueView>)
    requires
        bytes.len() >= 512,
    ensures
        spec_apply_fixes(
            spec_apply_fixes(bytes, seq![fix_type], issues),
            seq![fix_type],
            issues,
        ) == spec_apply_fixes(bytes, seq![fix_type], issues),
{
    let once = spec_apply_fixes(bytes, seq![fix_type], issues);
    lemma_apply_singleton_unfold(bytes, fix_type, issues);
    lemma_apply_singleton_unfold(once, fix_type, issues);
    match spec_find_fix_issue(issues, fix_type) {
        None => {},
        Some(issue) => {
            match (fix_type, issue.fix_data) {
                (FixType::HiveBinsSize, Some(FixData::HiveBinsSize(size))) => {
                    lemma_structural_write_idempotent(bytes, HIVE_BINS_SIZE_OFFSET as int, size);
                },
                (FixType::Checksum, Some(FixData::Checksum(sum))) => {
                    let w = spec_write32(bytes, CHECKSUM_OFFSET as int, sum);
                    lemma_write32_reads_back(bytes, CHECKSUM_OFFSET as int, sum);
                    lemma_write32_noop(w, CHECKSUM_OFFSET as int, sum);
                },
                (FixType::SequenceNumbers, Some(FixData::SequenceNumbers(primary, secondary))) => {
                    let wa = spec_write32(bytes, PRIMARY_SEQ_OFFSET as int, primary);
                    let wb = spec_write32(wa, SECONDARY_SEQ_OFFSET as int, secondary);
                    let wc = spec_write32(
                        wb,
                        CHECKSUM_OFFSET as int,
                        spec_header_checksum(wb),
                    );
                    // The second pass writes the primary value onto bytes it
                    // already holds, then likewise the secondary and the
                    // checksum.
                    lemma_write32_reads_back(bytes, PRIMARY_SEQ_OFFSET as int, primary);
                    lemma_write32_preserves_subrange(
                        wa,
                        SECONDARY_SEQ_OFFSET as int,
                        secondary,
                        PRIMARY_SEQ_OFFSET as int,
                        PRIMARY_SEQ_OFFSET as int + 4,
                    );
                    lemma_write32_reads_back(wa, SECONDARY_SEQ_OFFSET as int, secondary);
                    lemma_write32_preserves_subrange(
                        wb,
                        CHECKSUM_OFFSET as int,
                        spec_header_checksum(wb),
                        PRIMARY_SEQ_OFFSET as int,
                        PRIMARY_SEQ_OFFSET as int + 4,
                    );
                    lemma_write32_noop(wc, PRIMARY_SEQ_OFFSET as int, primary);
                    lemma_write32_preserves_subrange(
                        wb,
                        CHECKSUM_OFFSET as int,
                        spec_header_checksum(wb),
                        SECONDARY_SEQ_OFFSET as int,
                        SECONDARY_SEQ_OFFSET as int + 4,
                    );
                    lemma_write32_noop(wc, SECONDARY_SEQ_OFFSET as int, secondary);
                    lemma_write32_preserves_subrange(
                        wb,
                        CHECKSUM_OFFSET as int,
                        spec_header_checksum(wb),
                        0,
                        508,
                    );
                    crate::checksum::lemma_checksum_depends_on_checksummed_range(wc, wb);
                    lemma_write32_reads_back(wb, CHECKSUM_OFFSET as int, spec_header_checksum(wb));
                    lemma_write32_noop(wc, CHECKSUM_OFFSET as int, spec_header_checksum(wc));
                },
                _ => {},
            }
        },
    }
}

/// A structural fix followed by the checksum rewrite, repeated, is a no-op
/// the second time: the field bytes and the recomputed checksum are already
/// in place.
proof fn lemma_structural_write_idempotent(bytes: Seq<u8>, off: int, value: u32)
    requires
        0 <= off,
        off + 4 <= 508,
        bytes.len() >= 512,
    ensures
        ({
            let w = spec_write32(bytes, off, value);
            let once = spec_write32(w, CHECKSUM_OFFSET as int, spec_header_checksum(w));
            spec_write32(once, CHECKSUM_OFFSET as int, spec_header_checksum(spec_write32(once, off, value)))
                == once && spec_write32(once, off, value) == once
        }),
{
    let w = spec_write32(bytes, off, value);
    let once = spec_write32(w, CHECKSUM_OFFSET as int, spec_header_checksum(w));
    lemma_write32_reads_back(bytes, off, value);
    lemma_write32_preserves_subrange(w, CHECKSUM_OFFSET as int, spec_header_checksum(w), off, off + 4);
    lemma_write32_noop(once, off, value);
    lemma_write32_preserves_subrange(w, CHECKSUM_OFFSET as int, spec_header_checksum(w), 0, 508);
    crate::checksum::lemma_checksum_depends_on_checksummed_range(once, w);
    lemma_write32_reads_back(w, CHECKSUM_OFFSET as int, spec_header_checksum(w));
    lemma_write32_noop(once, CHECKSUM_OFFSET as int, spec_header_checksum(once));
}

/// Unfolds the fix operation for a single selected fix type.
pub proof fn lemma_apply_singleton_unfold(bytes: Seq<u8>, fix_type: FixType, issues: Seq<IssueView>)
    ensures
        spec_apply_selected(bytes, seq![fix_type], issues).0 == spec_apply_one(
            bytes,
            fix_type,
            issues,
        ).0,
        spec_apply_selected(bytes, seq![fix_type], issues).1 == spec_apply_one(
            bytes,
            fix_type,
            issues,
        ).1,
{
    let s = seq![fix_type];
    assert(s.len() == 1);
    assert(s.drop_last() =~= Seq::<FixType>::empty());
    assert(s.last() == fix_type);
    assert(spec_apply_selected(bytes, s.drop_last(), issues).0 == bytes);
    assert(spec_apply_selected(bytes, s.drop_last(), issues).1 == false);
}

/// Writes the 32-bit value little-endian at `off`, touching nothing else.
fn write_u32_at(data: &mut Vec<u8>, off: usize, value: u32)
    requires
        off + 4 <= old(data).len(),
    ensures
        final(data)@ == spec_write32(old(data)@, off as int, value),
        final(data)@.len() == old(data)@.len(),
{
    let le = u32_to_le_bytes(value);
    data[off] = le[0];
    data[off + 1] = le[1];
    data[off + 2] = le[2];
    data[off + 3] = le[3];
}

/// Writes the 4-byte little-endian hive-bins size at offset 40.
pub fn update_hive_bins_size(data: &mut Vec<u8>, new_size: u32)
    requires
        old(data).len() >= 512,
    ensures
        final(data)@ == spec_write32(old(data)@, HIVE_BINS_SIZE_OFFSET as int, new_size),
        final(data)@.len() == old(data)@.len(),
{
    write_u32_at(data, HIVE_BINS_SIZE_OFFSET, new_size);
}

/// Writes the primary sequence number at offset 4 and the secondary at
/// offset 8, each as 4 little-endian bytes.
pub fn update_sequence_numbers(data: &mut Vec<u8>, primary: u32, secondary: u32)
    requires
        old(data).len() >= 512,
    ensures
        final(data)@ == spec_write32(
            spec_write32(old(data)@, PRIMARY_SEQ_OFFSET as int, primary),
            SECONDARY_SEQ_OFFSET as int,
            secondary,
        ),
        final(data)@.len() == old(data)@.len(),
{
    write_u32_at(data, PRIMARY_SEQ_OFFSET, primary);
    write_u32_at(data, SECONDARY_SEQ_OFFSET, secondary);
}

/// Writes the 4-byte little-endian checksum at offset 508.
pub fn update_checksum(data: &mut Vec<u8>, new_checksum: u32)
    requires
        old(data).len() >= 512,
    ensures
        final(data)@ == spec_write32(old(data)@, CHECKSUM_OFFSET as int, new_checksum),
        final(data)@.len() == old(data)@.len(),
{
    write_u32_at(data, CHECKSUM_OFFSET, new_checksum);
}

/// Applies the selected fix types to the buffer, in the caller's order,
/// taking each fix's replacement value from the matching issue of the given
/// analysis. A fix type with no matching issue, or with a mismatched
/// `FixData` shape, is silently skipped: the caller may have selected fixes
/// against a stale analysis. If any structural fix was applied, the
/// checksum is recomputed over the patched bytes and rewritten last.
pub fn apply_fixes(data: &mut Vec<u8>, selected: &Vec<FixType>, analysis: &AnalysisResult)
    requires
        old(data).len() >= 512,
    ensures
        final(data)@ == spec_apply_fixes(old(data)@, selected@, analysis@.issues),
        final(data)@.len() == old(data)@.len(),
{
    let ghost issue_views = analysis@.issues;
    let mut needs_checksum_update = false;
    let mut i: usize = 0;
    while i < selected.len()
        invariant
            data@.len() == old(data)@.len() >= 512,
            i <= selected@.len(),
            issue_views == analysis@.issues,
            data@ == spec_apply_selected(old(data)@, selected@.subrange(0, i as int), issue_views).0,
            needs_checksum_update == spec_apply_selected(
                old(data)@,
                selected@.subrange(0, i as int),
                issue_views,
            ).1,
        decreases selected@.len() - i,
    {
        let fix_type = selected[i];
        let ghost data_before = data@;
        let ghost needs_before = needs_checksum_update;

        let mut found: Option<usize> = None;
        let mut j: usize = 0;
        proof {
            assert(issue_views.subrange(0, issue_views.len() as int) =~= issue_views);
        }
        while j < analysis.issues.len()
            invariant
                j <= analysis.issues@.len(),
                issue_views == analysis@.issues,
                (match found {
                    Some(k) => {
                        &&& k < analysis.issues@.len()
                        &&& spec_find_fix_issue(issue_views, fix_type) == Some(issue_views[k as int])
                    },
                    None => spec_find_fix_issue(
                        issue_views.subrange(j as int, issue_views.len() as int),
                        fix_type,
                    ) == spec_find_fix_issue(issue_views, fix_type),
                }),
            decreases analysis.issues@.len() - j,
        {
            if found.is_none() {
                let matches = match analysis.issues[j].fix_type {
                    Some(t) => t == fix_type,
                    None => false,
                };
                if matches {
                    found = Some(j);
                    proof {
                        assert(issue_views.subrange(j as int, issue_views.len() as int)[0]
                            == issue_views[j as int]);
                    }
                } else {
                    proof {
                        let sub = issue_views.subrange(j as int, issue_views.len() as int);
                        assert(sub[0] == issue_views[j as int]);
                        assert(sub.drop_first() =~= issue_views.subrange(
                            j as int + 1,
                            issue_views.len() as int,
                        ));
                    }
                }
            }
            j = j + 1;
        }
        proof {
            if found is None {
                assert(issue_views.subrange(
                    issue_views.len() as int,
                    issue_views.len() as int,
                ) =~= Seq::<IssueView>::empty());
            }
        }

        match found {
            Some(k) => {
                let issue = &analysis.issues[k];
                match (fix_type, issue.fix_data) {
                    (FixType::HiveBinsSize, Some(FixData::HiveBinsSize(size))) => {
                        update_hive_bins_size(data, size);
                        needs_checksum_update = true;
                    },
                    (FixType::Checksum, Some(FixData::Checksum(sum))) => {
                        update_checksum(data, sum);
                    },
                    (FixType::SequenceNumbers, Some(FixData::SequenceNumbers(primary, secondary)))
                        => {
                        update_sequence_numbers(data, primary, secondary);
                        needs_checksum_update = true;
                    },
                    _ => {},
                }
            },
            None => {},
        }
        proof {
            let sub_next = selected@.subrange(0, i as int + 1);
            assert(sub_next.drop_last() =~= selected@.subrange(0, i as int));
            assert(sub_next.last() == selected@[i as int]);
            let step = spec_apply_one(data_before, fix_type, issue_views);
            assert(data@ == step.0 && needs_checksum_update == (needs_before || step.1));
        }
        i = i + 1;
    }
    proof {
        assert(selected@.subrange(0, selected@.len() as int) =~= selected@);
    }
    if needs_checksum_update {
        let new_checksum = calculate_header_checksum(data.as_slice());
        update_checksum(data, new_checksum);
    }
}

} // verus!
