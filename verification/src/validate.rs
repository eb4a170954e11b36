//! The fixed battery of validation rules. Each rule appends zero or one
//! issue; all eight run unconditionally, and rule order is report order.

use vstd::prelude::*;
use crate::format::{spec_dec, spec_hex8, u32_to_dec_string, u32_to_hex8_string};
use crate::parse::BASE_OFFSET;
use crate::fixes::{lemma_find_fix_issue_push, spec_find_fix_issue};
use crate::types::{issues_view, FileInfo, FileInfoView, FixData, FixType, IssueSeverity,
    IssueView, ValidationIssue};

verus! {

/// The signature field holds the expected `"regf"` text.
pub open spec fn spec_signature_ok(info: FileInfoView) -> bool {
    info.signature == "regf"@
}

/// The stored checksum agrees with the one computed over the header bytes.
pub open spec fn spec_checksum_ok(info: FileInfoView) -> bool {
    info.stored_checksum == info.calculated_checksum
}

/// The stored hive-bins size agrees with the size the file's length implies.
pub open spec fn spec_hive_bins_size_ok(info: FileInfoView) -> bool {
    info.hive_bins_size == info.measured_hive_bins_size
}

/// The two sequence numbers agree; a mismatch signals an incomplete write.
pub open spec fn spec_sequence_numbers_ok(info: FileInfoView) -> bool {
    info.primary_seq_num == info.secondary_seq_num
}

/// The root cell starts strictly inside the file. A root cell offset that
/// points at or past the end of the file (equality included) is out of
/// bounds.
pub open spec fn spec_root_cell_ok(info: FileInfoView) -> bool {
    BASE_OFFSET + info.root_cell_offset < info.size
}

/// The version is a supported one: major 1, minor between 3 and 6.
pub open spec fn spec_version_ok(info: FileInfoView) -> bool {
    info.major_version == 1 && 3 <= info.minor_version <= 6
}

/// The file type marks a primary file.
pub open spec fn spec_file_type_ok(info: FileInfoView) -> bool {
    info.file_type == 0
}

/// The file format marks direct memory load.
pub open spec fn spec_file_format_ok(info: FileInfoView) -> bool {
    info.file_format == 1
}

/// The issue reported for a wrong signature. Not fixable: signature
/// corruption is not a remediable header field.
pub open spec fn spec_signature_issue(info: FileInfoView) -> IssueView {
    IssueView {
        severity: IssueSeverity::Critical,
        message: "Invalid signature: expected 'regf', found '"@ + info.signature + "'"@,
        details: Some("The registry file signature is invalid, indicating severe corruption"@),
        fix_type: None,
        fix_data: None,
    }
}

/// The issue reported for a checksum mismatch, fixable with the computed
/// checksum.
pub open spec fn spec_checksum_issue(info: FileInfoView) -> IssueView {
    IssueView {
        severity: IssueSeverity::Critical,
        message: "Header checksum mismatch"@,
        details: Some(
            "Stored: 0x"@ + spec_hex8(info.stored_checksum) + ", Calculated: 0x"@ + spec_hex8(
                info.calculated_checksum,
            ),
        ),
        fix_type: Some(FixType::Checksum),
        fix_data: Some(FixData::Checksum(info.calculated_checksum)),
    }
}

/// The issue reported for a hive-bins size mismatch, fixable with the
/// measured size.
pub open spec fn spec_hive_bins_issue(info: FileInfoView) -> IssueView {
    IssueView {
        severity: IssueSeverity::Warning,
        message: "Hive bins size mismatch"@,
        details: Some(
            "Stored: "@ + spec_dec(info.hive_bins_size as int) + " bytes, Measured: "@ + spec_dec(
                info.measured_hive_bins_size as int,
            ) + " bytes"@,
        ),
        fix_type: Some(FixType::HiveBinsSize),
        fix_data: Some(FixData::HiveBinsSize(info.measured_hive_bins_size)),
    }
}

/// The issue reported for mismatching sequence numbers, fixable by setting
/// both to the primary value.
pub open spec fn spec_sequence_issue(info: FileInfoView) -> IssueView {
    IssueView {
        severity: IssueSeverity::Warning,
        message: "Sequence numbers do not match"@,
        details: Some(
            "Primary: "@ + spec_dec(info.primary_seq_num as int) + ", Secondary: "@ + spec_dec(
                info.secondary_seq_num as int,
            ) + ". This may indicate an incomplete write operation."@,
        ),
        fix_type: Some(FixType::SequenceNumbers),
        fix_data: Some(FixData::SequenceNumbers(info.primary_seq_num, info.primary_seq_num)),
    }
}

/// The issue reported for an out-of-bounds root cell offset. Not fixable:
/// repairing it would require understanding hive content.
pub open spec fn spec_root_cell_issue(info: FileInfoView) -> IssueView {
    IssueView {
        severity: IssueSeverity::Critical,
        message: "Root cell offset out of bounds"@,
        details: Some(
            "Offset: "@ + spec_dec(info.root_cell_offset as int) + ", File size: "@ + spec_dec(
                info.size as int,
            ) + " bytes"@,
        ),
        fix_type: None,
        fix_data: None,
    }
}

/// The issue reported for an unsupported version. Not fixable.
pub open spec fn spec_version_issue(info: FileInfoView) -> IssueView {
    IssueView {
        severity: IssueSeverity::Warning,
        message: "Unsupported version"@,
        details: Some(
            "Version: "@ + spec_dec(info.major_version as int) + "."@ + spec_dec(
                info.minor_version as int,
            ) + ", expected 1.3 through 1.6"@,
        ),
        fix_type: None,
        fix_data: None,
    }
}

/// The issue reported for a file type other than primary. Not fixable.
pub open spec fn spec_file_type_issue(info: FileInfoView) -> IssueView {
    IssueView {
        severity: IssueSeverity::Warning,
        message: "Unexpected file type"@,
        details: Some(
            "Type "@ + spec_dec(info.file_type as int) + ": "@ + spec_file_type_label(
                info.file_type,
            ),
        ),
        fix_type: None,
        fix_data: None,
    }
}

/// The issue reported for a file format other than direct memory load. Not
/// fixable.
pub open spec fn spec_file_format_issue(info: FileInfoView) -> IssueView {
    IssueView {
        severity: IssueSeverity::Warning,
        message: "Unexpected file format"@,
        details: Some(
            "Format "@ + spec_dec(info.file_format as int) + ": "@ + spec_file_format_label(
                info.file_format,
            ),
        ),
        fix_type: None,
        fix_data: None,
    }
}

/// The full report: the eight rules in their fixed order, each appending its
/// issue exactly when its check fails. No rule short-circuits another.
pub open spec fn spec_validate(info: FileInfoView) -> Seq<IssueView> {
    let issues = Seq::<IssueView>::empty();
    let issues = if !spec_signature_ok(info) {
        issues.push(spec_signature_issue(info))
    } else {
        issues
    };
    let issues = if !spec_checksum_ok(info) {
        issues.push(spec_checksum_issue(info))
    } else {
        issues
    };
    let issues = if !spec_hive_bins_size_ok(info) {
        issues.push(spec_hive_bins_issue(info))
    } else {
        issues
    };
    let issues = if !spec_sequence_numbers_ok(info) {
        issues.push(spec_sequence_issue(info))
    } else {
        issues
    };
    let issues = if !spec_root_cell_ok(info) {
        issues.push(spec_root_cell_issue(info))
    } else {
        issues
    };
    let issues = if !spec_version_ok(info) {
        issues.push(spec_version_issue(info))
    } else {
        issues
    };
    let issues = if !spec_file_type_ok(info) {
        issues.push(spec_file_type_issue(info))
    } else {
        issues
    };
    let issues = if !spec_file_format_ok(info) {
        issues.push(spec_file_format_issue(info))
    } else {
        issues
    };
    issues
}

/// The name of a file-type value.
pub open spec fn spec_file_type_label(file_type: u32) -> Seq<char> {
    if file_type == 0 {
        "Primary File"@
    } else if file_type == 1 {
        "Log/Backup File"@
    } else if file_type == 2 {
        "Volatile (Memory-based)"@
    } else {
        "Unknown Type"@
    }
}

/// The name of a file-format value.
pub open spec fn spec_file_format_label(file_format: u32) -> Seq<char> {
    if file_format == 1 {
        "Direct Memory Load"@
    } else {
        "Unknown Format"@
    }
}

/// Renders a file-type value as text.
pub fn file_type_to_string(file_type: u32) -> (r: &'static str)
    ensures
        r@ == spec_file_type_label(file_type),
{
    match file_type {
        0 => "Primary File",
        1 => "Log/Backup File",
        2 => "Volatile (Memory-based)",
        _ => "Unknown Type",
    }
}

/// Renders a file-format value as text.
pub fn file_format_to_string(file_format: u32) -> (r: &'static str)
    ensures
        r@ == spec_file_format_label(file_format),
{
    match file_format {
        1 => "Direct Memory Load",
        _ => "Unknown Format",
    }
}

/// The message of the signature issue, embedding the signature found.
fn signature_message(signature: &String) -> (m: String)
    ensures
        m@ == "Invalid signature: expected 'regf', found '"@ + signature@ + "'"@,
{
    let mut m = String::from_str("Invalid signature: expected 'regf', found '");
    m.append(signature.as_str());
    m.append("'");
    proof {
        assert(m@ =~= "Invalid signature: expected 'regf', found '"@ + signature@ + "'"@);
    }
    m
}

/// The details of the checksum issue: both values in hexadecimal.
fn checksum_details(stored: u32, calculated: u32) -> (d: String)
    ensures
        d@ == "Stored: 0x"@ + spec_hex8(stored) + ", Calculated: 0x"@ + spec_hex8(calculated),
{
    let mut d = String::from_str("Stored: 0x");
    d.append(u32_to_hex8_string(stored).as_str());
    d.append(", Calculated: 0x");
    d.append(u32_to_hex8_string(calculated).as_str());
    proof {
        assert(d@ =~= "Stored: 0x"@ + spec_hex8(stored) + ", Calculated: 0x"@ + spec_hex8(
            calculated,
        ));
    }
    d
}

/// The details of the hive-bins size issue: both sizes in bytes.
fn hive_bins_details(stored: u32, measured: u32) -> (d: String)
    ensures
        d@ == "Stored: "@ + spec_dec(stored as int) + " bytes, Measured: "@ + spec_dec(
            measured as int,
        ) + " bytes"@,
{
    let mut d = String::from_str("Stored: ");
    d.append(u32_to_dec_string(stored).as_str());
    d.append(" bytes, Measured: ");
    d.append(u32_to_dec_string(measured).as_str());
    d.append(" bytes");
    proof {
        assert(d@ =~= "Stored: "@ + spec_dec(stored as int) + " bytes, Measured: "@ + spec_dec(
            measured as int,
        ) + " bytes"@);
    }
    d
}

/// The details of the sequence-number issue: both counters.
fn sequence_details(primary: u32, secondary: u32) -> (d: String)
    ensures
        d@ == "Primary: "@ + spec_dec(primary as int) + ", Secondary: "@ + spec_dec(
            secondary as int,
        ) + ". This may indicate an incomplete write operation."@,
{
    let mut d = String::from_str("Primary: ");
    d.append(u32_to_dec_string(primary).as_str());
    d.append(", Secondary: ");
    d.append(u32_to_dec_string(secondary).as_str());
    d.append(". This may indicate an incomplete write operation.");
    proof {
        assert(d@ =~= "Primary: "@ + spec_dec(primary as int) + ", Secondary: "@ + spec_dec(
            secondary as int,
        ) + ". This may indicate an incomplete write operation."@);
    }
    d
}

/// The details of the root-cell issue: the offset and the file size.
fn root_cell_details(root_cell_offset: u32, size: u32) -> (d: String)
    ensures
        d@ == "Offset: "@ + spec_dec(root_cell_offset as int) + ", File size: "@ + spec_dec(
            size as int,
        ) + " bytes"@,
{
    let mut d = String::from_str("Offset: ");
    d.append(u32_to_dec_string(root_cell_offset).as_str());
    d.append(", File size: ");
    d.append(u32_to_dec_string(size).as_str());
    d.append(" bytes");
    proof {
        assert(d@ =~= "Offset: "@ + spec_dec(root_cell_offset as int) + ", File size: "@
            + spec_dec(size as int) + " bytes"@);
    }
    d
}

/// The details of the version issue: the version found and the supported
/// range.
fn version_details(major: u32, minor: u32) -> (d: String)
    ensures
        d@ == "Version: "@ + spec_dec(major as int) + "."@ + spec_dec(minor as int)
            + ", expected 1.3 through 1.6"@,
{
    let mut d = String::from_str("Version: ");
    d.append(u32_to_dec_string(major).as_str());
    d.append(".");
    d.append(u32_to_dec_string(minor).as_str());
    d.append(", expected 1.3 through 1.6");
    proof {
        assert(d@ =~= "Version: "@ + spec_dec(major as int) + "."@ + spec_dec(minor as int)
            + ", expected 1.3 through 1.6"@);
    }
    d
}

/// The details of the file-type issue: the value and its name.
fn file_type_details(file_type: u32) -> (d: String)
    ensures
        d@ == "Type "@ + spec_dec(file_type as int) + ": "@ + spec_file_type_label(file_type),
{
    let mut d = String::from_str("Type ");
    d.append(u32_to_dec_string(file_type).as_str());
    d.append(": ");
    d.append(file_type_to_string(file_type));
    proof {
        assert(d@ =~= "Type "@ + spec_dec(file_type as int) + ": "@ + spec_file_type_label(
            file_type,
        ));
    }
    d
}

/// The details of the file-format issue: the value and its name.
fn file_format_details(file_format: u32) -> (d: String)
    ensures
        d@ == "Format "@ + spec_dec(file_format as int) + ": "@ + spec_file_format_label(
            file_format,
        ),
{
    let mut d = String::from_str("Format ");
    d.append(u32_to_dec_string(file_format).as_str());
    d.append(": ");
    d.append(file_format_to_string(file_format));
    proof {
        assert(d@ =~= "Format "@ + spec_dec(file_format as int) + ": "@ + spec_file_format_label(
            file_format,
        ));
    }
    d
}

/// Runs the eight rules over the parsed fields, in their fixed order, and
/// returns exactly the issues whose checks fail.
#[verifier::rlimit(60)]
pub fn validate(info: &FileInfo) -> (issues: Vec<ValidationIssue>)
    ensures
        issues_view(issues@) == spec_validate(info@),
{
    let ghost v = info@;
    let mut issues: Vec<ValidationIssue> = Vec::new();
    let ghost mut expected: Seq<IssueView> = Seq::empty();

    let expected_signature = String::from_str("regf");
    if !(info.signature == expected_signature) {
        issues.push(
            ValidationIssue {
                severity: IssueSeverity::Critical,
                message: signature_message(&info.signature),
                details: Some(
                    String::from_str(
                        "The registry file signature is invalid, indicating severe corruption",
                    ),
                ),
                fix_type: None,
                fix_data: None,
            },
        );
    }
    proof {
        if !spec_signature_ok(v) {
            expected = expected.push(spec_signature_issue(v));
        }
    }
    assert(issues_view(issues@) =~= expected);

    if info.stored_checksum != info.calculated_checksum {
        issues.push(
            ValidationIssue {
                severity: IssueSeverity::Critical,
                message: String::from_str("Header checksum mismatch"),
                details: Some(checksum_details(info.stored_checksum, info.calculated_checksum)),
                fix_type: Some(FixType::Checksum),
                fix_data: Some(FixData::Checksum(info.calculated_checksum)),
            },
        );
    }
    proof {
        if !spec_checksum_ok(v) {
            expected = expected.push(spec_checksum_issue(v));
        }
    }
    assert(issues_view(issues@) =~= expected);

    if info.hive_bins_size != info.measured_hive_bins_size {
        issues.push(
            ValidationIssue {
                severity: IssueSeverity::Warning,
                message: String::from_str("Hive bins size mismatch"),
                details: Some(
                    hive_bins_details(info.hive_bins_size, info.measured_hive_bins_size),
                ),
                fix_type: Some(FixType::HiveBinsSize),
                fix_data: Some(FixData::HiveBinsSize(info.measured_hive_bins_size)),
            },
        );
    }
    proof {
        if !spec_hive_bins_size_ok(v) {
            expected = expected.push(spec_hive_bins_issue(v));
        }
    }
    assert(issues_view(issues@) =~= expected);

    if info.primary_seq_num != info.secondary_seq_num {
        issues.push(
            ValidationIssue {
                severity: IssueSeverity::Warning,
                message: String::from_str("Sequence numbers do not match"),
                details: Some(sequence_details(info.primary_seq_num, info.secondary_seq_num)),
                fix_type: Some(FixType::SequenceNumbers),
                fix_data: Some(
                    FixData::SequenceNumbers(info.primary_seq_num, info.primary_seq_num),
                ),
            },
        );
    }
    proof {
        if !spec_sequence_numbers_ok(v) {
            expected = expected.push(spec_sequence_issue(v));
        }
    }
    assert(issues_view(issues@) =~= expected);

    if (BASE_OFFSET as u64) + (info.root_cell_offset as u64) >= (info.size as u64) {
        issues.push(
            ValidationIssue {
                severity: IssueSeverity::Critical,
                message: String::from_str("Root cell offset out of bounds"),
                details: Some(root_cell_details(info.root_cell_offset, info.size)),
                fix_type: None,
                fix_data: None,
            },
        );
    }
    proof {
        if !spec_root_cell_ok(v) {
            expected = expected.push(spec_root_cell_issue(v));
        }
    }
    assert(issues_view(issues@) =~= expected);

    if info.major_version != 1 || info.minor_version < 3 || info.minor_version > 6 {
        issues.push(
            ValidationIssue {
                severity: IssueSeverity::Warning,
                message: String::from_str("Unsupported version"),
                details: Some(version_details(info.major_version, info.minor_version)),
                fix_type: None,
                fix_data: None,
            },
        );
    }
    proof {
        if !spec_version_ok(v) {
            expected = expected.push(spec_version_issue(v));
        }
    }
    assert(issues_view(issues@) =~= expected);

    if info.file_type != 0 {
        issues.push(
            ValidationIssue {
                severity: IssueSeverity::Warning,
                message: String::from_str("Unexpected file type"),
                details: Some(file_type_details(info.file_type)),
                fix_type: None,
                fix_data: None,
            },
        );
    }
    proof {
        if !spec_file_type_ok(v) {
            expected = expected.push(spec_file_type_issue(v));
        }
    }
    assert(issues_view(issues@) =~= expected);

    if info.file_format != 1 {
        issues.push(
            ValidationIssue {
                severity: IssueSeverity::Warning,
                message: String::from_str("Unexpected file format"),
                details: Some(file_format_details(info.file_format)),
                fix_type: None,
                fix_data: None,
            },
        );
    }
    proof {
        if !spec_file_format_ok(v) {
            expected = expected.push(spec_file_format_issue(v));
        }
    }
    assert(issues_view(issues@) =~= expected);
    assert(expected == spec_validate(v));

    issues
}

/// What the fix workflow finds in a fresh report, for each remediable fix
/// type: exactly the issue of the corresponding rule, present exactly when
/// that rule fired, and carrying the matching replacement value.
pub proof fn lemma_validate_fix_lookup(info: FileInfoView)
    ensures
        spec_find_fix_issue(spec_validate(info), FixType::Checksum) == (if !spec_checksum_ok(info) {
            Some(spec_checksum_issue(info))
        } else {
            None::<IssueView>
        }),
        spec_find_fix_issue(spec_validate(info), FixType::HiveBinsSize) == (if !spec_hive_bins_size_ok(info) {
            Some(spec_hive_bins_issue(info))
        } else {
            None::<IssueView>
        }),
        spec_find_fix_issue(spec_validate(info), FixType::SequenceNumbers) == (if !spec_sequence_numbers_ok(info) {
            Some(spec_sequence_issue(info))
        } else {
            None::<IssueView>
        }),
{
    let s0 = Seq::<IssueView>::empty();
    let s1 = if !spec_signature_ok(info) {
        s0.push(spec_signature_issue(info))
    } else {
        s0
    };
    let s2 = if !spec_checksum_ok(info) {
        s1.push(spec_checksum_issue(info))
    } else {
        s1
    };
    let s3 = if !spec_hive_bins_size_ok(info) {
        s2.push(spec_hive_bins_issue(info))
    } else {
        s2
    };
    let s4 = if !spec_sequence_numbers_ok(info) {
        s3.push(spec_sequence_issue(info))
    } else {
        s3
    };
    let s5 = if !spec_root_cell_ok(info) {
        s4.push(spec_root_cell_issue(info))
    } else {
        s4
    };
    let s6 = if !spec_version_ok(info) {
        s5.push(spec_version_issue(info))
    } else {
        s5
    };
    let s7 = if !spec_file_type_ok(info) {
        s6.push(spec_file_type_issue(info))
    } else {
        s6
    };
    let s8 = if !spec_file_format_ok(info) {
        s7.push(spec_file_format_issue(info))
    } else {
        s7
    };
    assert(spec_validate(info) == s8);
    if !spec_signature_ok(info) {
        lemma_find_fix_issue_push(s0, spec_signature_issue(info), FixType::Checksum);
        lemma_find_fix_issue_push(s0, spec_signature_issue(info), FixType::HiveBinsSize);
        lemma_find_fix_issue_push(s0, spec_signature_issue(info), FixType::SequenceNumbers);
    }
    if !spec_checksum_ok(info) {
        lemma_find_fix_issue_push(s1, spec_checksum_issue(info), FixType::Checksum);
        lemma_find_fix_issue_push(s1, spec_checksum_issue(info), FixType::HiveBinsSize);
        lemma_find_fix_issue_push(s1, spec_checksum_issue(info), FixType::SequenceNumbers);
    }
    if !spec_hive_bins_size_ok(info) {
        lemma_find_fix_issue_push(s2, spec_hive_bins_issue(info), FixType::Checksum);
        lemma_find_fix_issue_push(s2, spec_hive_bins_issue(info), FixType::HiveBinsSize);
        lemma_find_fix_issue_push(s2, spec_hive_bins_issue(info), FixType::SequenceNumbers);
    }
    if !spec_sequence_numbers_ok(info) {
        lemma_find_fix_issue_push(s3, spec_sequence_issue(info), FixType::Checksum);
        lemma_find_fix_issue_push(s3, spec_sequence_issue(info), FixType::HiveBinsSize);
        lemma_find_fix_issue_push(s3, spec_sequence_issue(info), FixType::SequenceNumbers);
    }
    if !spec_root_cell_ok(info) {
        lemma_find_fix_issue_push(s4, spec_root_cell_issue(info), FixType::Checksum);
        lemma_find_fix_issue_push(s4, spec_root_cell_issue(info), FixType::HiveBinsSize);
        lemma_find_fix_issue_push(s4, spec_root_cell_issue(info), FixType::SequenceNumbers);
    }
    if !spec_version_ok(info) {
        lemma_find_fix_issue_push(s5, spec_version_issue(info), FixType::Checksum);
        lemma_find_fix_issue_push(s5, spec_version_issue(info), FixType::HiveBinsSize);
        lemma_find_fix_issue_push(s5, spec_version_issue(info), FixType::SequenceNumbers);
    }
    if !spec_file_type_ok(info) {
        lemma_find_fix_issue_push(s6, spec_file_type_issue(info), FixType::Checksum);
        lemma_find_fix_issue_push(s6, spec_file_type_issue(info), FixType::HiveBinsSize);
        lemma_find_fix_issue_push(s6, spec_file_type_issue(info), FixType::SequenceNumbers);
    }
    if !spec_file_format_ok(info) {
        lemma_find_fix_issue_push(s7, spec_file_format_issue(info), FixType::Checksum);
        lemma_find_fix_issue_push(s7, spec_file_format_issue(info), FixType::HiveBinsSize);
        lemma_find_fix_issue_push(s7, spec_file_format_issue(info), FixType::SequenceNumbers);
    }
}

/// A root cell offset that lands exactly on the end of the file is already
/// out of bounds: equality counts, and the issue it raises is critical and
/// not fixable.
pub proof fn lemma_root_cell_boundary_flagged(info: FileInfoView)
    requires
        BASE_OFFSET + info.root_cell_offset == info.size,
    ensures
        spec_validate(info).contains(spec_root_cell_issue(info)),
        spec_root_cell_issue(info).severity is Critical,
        spec_root_cell_issue(info).fix_type is None,
{
    let s0 = Seq::<IssueView>::empty();
    let s1 = if !spec_signature_ok(info) {
        s0.push(spec_signature_issue(info))
    } else {
        s0
    };
    let s2 = if !spec_checksum_ok(info) {
        s1.push(spec_checksum_issue(info))
    } else {
        s1
    };
    let s3 = if !spec_hive_bins_size_ok(info) {
        s2.push(spec_hive_bins_issue(info))
    } else {
        s2
    };
    let s4 = if !spec_sequence_numbers_ok(info) {
        s3.push(spec_sequence_issue(info))
    } else {
        s3
    };
    let s5 = s4.push(spec_root_cell_issue(info));
    let s6 = if !spec_version_ok(info) {
        s5.push(spec_version_issue(info))
    } else {
        s5
    };
    let s7 = if !spec_file_type_ok(info) {
        s6.push(spec_file_type_issue(info))
    } else {
        s6
    };
    let s8 = if !spec_file_format_ok(info) {
        s7.push(spec_file_format_issue(info))
    } else {
        s7
    };
    assert(!spec_root_cell_ok(info));
    assert(spec_validate(info) == s8);
    let at = s4.len() as int;
    assert(s5[at] == spec_root_cell_issue(info));
    assert(s8[at] == spec_root_cell_issue(info));
    assert(spec_validate(info).contains(spec_root_cell_issue(info)));
}

} // verus!
