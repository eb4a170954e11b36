use regfix::{analyze, calculate_header_checksum, parse_header, FixData, FixType, IssueSeverity,
    ParseError};

fn put32(data: &mut [u8], off: usize, v: u32) {
    data[off..off + 4].copy_from_slice(&v.to_le_bytes());
}

fn put64(data: &mut [u8], off: usize, v: u64) {
    data[off..off + 8].copy_from_slice(&v.to_le_bytes());
}

/// A hive image of `4096 + hive_bins` bytes whose header passes every rule
/// once the checksum is stamped.
fn valid_hive(hive_bins: u32) -> Vec<u8> {
    let mut data = vec![0u8; 4096 + hive_bins as usize];
    data[0..4].copy_from_slice(b"regf");
    put32(&mut data, 4, 2); // primary sequence number
    put32(&mut data, 8, 2); // secondary sequence number
    put64(&mut data, 12, 0x01D9_8765_4321_0000); // last written
    put32(&mut data, 20, 1); // major version
    put32(&mut data, 24, 3); // minor version
    put32(&mut data, 28, 0); // file type: primary
    put32(&mut data, 32, 1); // file format: direct memory load
    put32(&mut data, 36, 32); // root cell offset
    put32(&mut data, 40, hive_bins); // hive bins size
    put32(&mut data, 44, 1); // clustering factor
    data
}

fn stamp_checksum(data: &mut [u8]) {
    let sum = calculate_header_checksum(data);
    put32(data, 508, sum);
}

#[test]
fn short_buffer_is_a_parse_error() {
    let data = vec![0u8; 511];
    assert!(matches!(analyze("hive", &data), Err(ParseError::BufferTooShort)));
    assert!(matches!(parse_header("hive", &data), Err(ParseError::BufferTooShort)));
}

#[test]
fn invalid_utf8_signature_is_a_parse_error() {
    // 0xFF can begin no UTF-8 sequence.
    let mut data = valid_hive(4096);
    stamp_checksum(&mut data);
    data[0] = 0xFF;
    assert!(matches!(analyze("hive", &data), Err(ParseError::InvalidSignature)));
    // A stray continuation byte is not valid UTF-8 either.
    let mut data = valid_hive(4096);
    stamp_checksum(&mut data);
    data[2] = 0x80;
    assert!(matches!(analyze("hive", &data), Err(ParseError::InvalidSignature)));
}

#[test]
fn non_ascii_utf8_signature_parses_and_reports_mismatch() {
    // C3 A9 61 61 decodes to "\u{e9}aa": valid text, so the buffer parses
    // and the wrong signature is reported as an issue, not a parse error.
    let mut data = valid_hive(4096);
    data[0] = 0xC3;
    data[1] = 0xA9;
    data[2] = 0x61;
    data[3] = 0x61;
    stamp_checksum(&mut data);
    let analysis = analyze("hive", &data).unwrap();
    assert_eq!(analysis.file_info.signature, "\u{e9}aa");
    assert_eq!(analysis.issues.len(), 1);
    let issue = &analysis.issues[0];
    assert_eq!(issue.severity, IssueSeverity::Critical);
    assert_eq!(
        issue.message,
        format!("Invalid signature: expected 'regf', found '{}'", "\u{e9}aa")
    );
    assert!(issue.fix_type.is_none());
    assert!(issue.fix_data.is_none());
}

#[test]
fn parse_extracts_every_field() {
    let mut data = valid_hive(4096);
    stamp_checksum(&mut data);
    let info = parse_header("some/hive", &data).unwrap();
    assert_eq!(info.path, "some/hive");
    assert_eq!(info.size, 8192);
    assert_eq!(info.signature, "regf");
    assert_eq!(info.primary_seq_num, 2);
    assert_eq!(info.secondary_seq_num, 2);
    assert_eq!(info.last_written, 0x01D9_8765_4321_0000);
    assert_eq!(info.major_version, 1);
    assert_eq!(info.minor_version, 3);
    assert_eq!(info.file_type, 0);
    assert_eq!(info.file_format, 1);
    assert_eq!(info.root_cell_offset, 32);
    assert_eq!(info.hive_bins_size, 4096);
    assert_eq!(info.measured_hive_bins_size, 4096);
    assert_eq!(info.clustering_factor, 1);
    assert_eq!(info.stored_checksum, calculate_header_checksum(&data));
    assert_eq!(info.calculated_checksum, info.stored_checksum);
}

#[test]
fn clean_file_reports_no_issues() {
    let mut data = valid_hive(8192);
    stamp_checksum(&mut data);
    let analysis = analyze("hive", &data).unwrap();
    assert_eq!(analysis.issues.len(), 0);
}

#[test]
fn wrong_signature_text_is_a_critical_issue() {
    let mut data = valid_hive(4096);
    data[0..4].copy_from_slice(b"xxxx");
    stamp_checksum(&mut data);
    let analysis = analyze("hive", &data).unwrap();
    assert_eq!(analysis.issues.len(), 1);
    let issue = &analysis.issues[0];
    assert_eq!(issue.severity, IssueSeverity::Critical);
    assert_eq!(issue.message, "Invalid signature: expected 'regf', found 'xxxx'");
    assert_eq!(
        issue.details.as_deref(),
        Some("The registry file signature is invalid, indicating severe corruption")
    );
    assert!(issue.fix_type.is_none());
    assert!(issue.fix_data.is_none());
}

#[test]
fn checksum_mismatch_is_critical_and_fixable() {
    let mut data = valid_hive(4096);
    stamp_checksum(&mut data);
    let expected = calculate_header_checksum(&data);
    put32(&mut data, 508, expected ^ 0x1); // corrupt the stored value
    let analysis = analyze("hive", &data).unwrap();
    assert_eq!(analysis.issues.len(), 1);
    let issue = &analysis.issues[0];
    assert_eq!(issue.severity, IssueSeverity::Critical);
    assert_eq!(issue.message, "Header checksum mismatch");
    assert_eq!(
        issue.details.as_deref(),
        Some(format!("Stored: 0x{:08X}, Calculated: 0x{:08X}", expected ^ 0x1, expected).as_str())
    );
    assert_eq!(issue.fix_type, Some(FixType::Checksum));
    assert_eq!(issue.fix_data, Some(FixData::Checksum(expected)));
}

#[test]
fn hive_bins_size_boundary_exact_reports_no_issue() {
    // A file of exactly 4096 + hive_bins_size bytes: no hive-bins issue.
    let mut data = valid_hive(8192);
    stamp_checksum(&mut data);
    let analysis = analyze("hive", &data).unwrap();
    assert!(analysis.issues.iter().all(|i| i.fix_type != Some(FixType::HiveBinsSize)));
}

#[test]
fn hive_bins_size_one_byte_short_reports_issue() {
    let mut data = valid_hive(8192);
    data.truncate(4096 + 8191);
    stamp_checksum(&mut data);
    let analysis = analyze("hive", &data).unwrap();
    assert_eq!(analysis.issues.len(), 1);
    let issue = &analysis.issues[0];
    assert_eq!(issue.severity, IssueSeverity::Warning);
    assert_eq!(issue.message, "Hive bins size mismatch");
    assert_eq!(
        issue.details.as_deref(),
        Some("Stored: 8192 bytes, Measured: 8191 bytes")
    );
    assert_eq!(issue.fix_type, Some(FixType::HiveBinsSize));
    assert_eq!(issue.fix_data, Some(FixData::HiveBinsSize(8191)));
}

#[test]
fn hive_bins_size_one_byte_long_reports_issue() {
    let mut data = valid_hive(8192);
    data.push(0);
    stamp_checksum(&mut data);
    let analysis = analyze("hive", &data).unwrap();
    assert_eq!(analysis.issues.len(), 1);
    let issue = &analysis.issues[0];
    assert_eq!(issue.fix_type, Some(FixType::HiveBinsSize));
    assert_eq!(issue.fix_data, Some(FixData::HiveBinsSize(8193)));
}

#[test]
fn sequence_number_mismatch_proposes_primary_for_both() {
    let mut data = valid_hive(4096);
    put32(&mut data, 4, 7);
    put32(&mut data, 8, 6);
    stamp_checksum(&mut data);
    let analysis = analyze("hive", &data).unwrap();
    assert_eq!(analysis.issues.len(), 1);
    let issue = &analysis.issues[0];
    assert_eq!(issue.severity, IssueSeverity::Warning);
    assert_eq!(issue.message, "Sequence numbers do not match");
    assert_eq!(
        issue.details.as_deref(),
        Some("Primary: 7, Secondary: 6. This may indicate an incomplete write operation.")
    );
    assert_eq!(issue.fix_type, Some(FixType::SequenceNumbers));
    assert_eq!(issue.fix_data, Some(FixData::SequenceNumbers(7, 7)));
}

#[test]
fn root_cell_offset_at_end_of_file_is_out_of_bounds() {
    // 4096 + root_cell_offset == file_size counts as out of bounds.
    let mut data = valid_hive(8192);
    put32(&mut data, 36, 8192);
    stamp_checksum(&mut data);
    let analysis = analyze("hive", &data).unwrap();
    assert_eq!(analysis.issues.len(), 1);
    let issue = &analysis.issues[0];
    assert_eq!(issue.severity, IssueSeverity::Critical);
    assert_eq!(issue.message, "Root cell offset out of bounds");
    assert_eq!(issue.details.as_deref(), Some("Offset: 8192, File size: 12288 bytes"));
    assert!(issue.fix_type.is_none());
    assert!(issue.fix_data.is_none());
}

#[test]
fn root_cell_offset_just_inside_is_accepted() {
    let mut data = valid_hive(8192);
    put32(&mut data, 36, 8191);
    stamp_checksum(&mut data);
    let analysis = analyze("hive", &data).unwrap();
    assert_eq!(analysis.issues.len(), 0);
}

#[test]
fn unsupported_version_is_a_warning() {
    let mut data = valid_hive(4096);
    put32(&mut data, 20, 2);
    put32(&mut data, 24, 7);
    stamp_checksum(&mut data);
    let analysis = analyze("hive", &data).unwrap();
    assert_eq!(analysis.issues.len(), 1);
    let issue = &analysis.issues[0];
    assert_eq!(issue.severity, IssueSeverity::Warning);
    assert_eq!(issue.message, "Unsupported version");
    assert_eq!(issue.details.as_deref(), Some("Version: 2.7, expected 1.3 through 1.6"));
    assert!(issue.fix_type.is_none());
}

#[test]
fn minor_version_bounds_are_inclusive() {
    for minor in [3u32, 4, 5, 6] {
        let mut data = valid_hive(4096);
        put32(&mut data, 24, minor);
        stamp_checksum(&mut data);
        assert_eq!(analyze("hive", &data).unwrap().issues.len(), 0);
    }
    for minor in [2u32, 7] {
        let mut data = valid_hive(4096);
        put32(&mut data, 24, minor);
        stamp_checksum(&mut data);
        assert_eq!(analyze("hive", &data).unwrap().issues.len(), 1);
    }
}

#[test]
fn unexpected_file_type_is_a_warning() {
    let mut data = valid_hive(4096);
    put32(&mut data, 28, 1);
    stamp_checksum(&mut data);
    let analysis = analyze("hive", &data).unwrap();
    assert_eq!(analysis.issues.len(), 1);
    let issue = &analysis.issues[0];
    assert_eq!(issue.severity, IssueSeverity::Warning);
    assert_eq!(issue.message, "Unexpected file type");
    assert_eq!(issue.details.as_deref(), Some("Type 1: Log/Backup File"));
    assert!(issue.fix_type.is_none());
}

#[test]
fn unexpected_file_format_is_a_warning() {
    let mut data = valid_hive(4096);
    put32(&mut data, 32, 0);
    stamp_checksum(&mut data);
    let analysis = analyze("hive", &data).unwrap();
    assert_eq!(analysis.issues.len(), 1);
    let issue = &analysis.issues[0];
    assert_eq!(issue.severity, IssueSeverity::Warning);
    assert_eq!(issue.message, "Unexpected file format");
    assert_eq!(issue.details.as_deref(), Some("Format 0: Unknown Format"));
    assert!(issue.fix_type.is_none());
}

#[test]
fn all_rules_run_independently() {
    // A file that trips every rule at once reports all eight, in order.
    let mut data = valid_hive(4096);
    data[0..4].copy_from_slice(b"QQQQ");
    put32(&mut data, 4, 9); // primary != secondary
    put32(&mut data, 8, 1);
    put32(&mut data, 20, 0); // bad major version
    put32(&mut data, 28, 2); // volatile file type
    put32(&mut data, 32, 5); // unknown file format
    put32(&mut data, 36, 4096); // root cell past end
    put32(&mut data, 40, 1); // wrong hive bins size
    put32(&mut data, 508, 0); // wrong checksum: the engine never yields 0
    let analysis = analyze("hive", &data).unwrap();
    let messages: Vec<&str> = analysis.issues.iter().map(|i| i.message.as_str()).collect();
    assert_eq!(
        messages,
        vec![
            "Invalid signature: expected 'regf', found 'QQQQ'",
            "Header checksum mismatch",
            "Hive bins size mismatch",
            "Sequence numbers do not match",
            "Root cell offset out of bounds",
            "Unsupported version",
            "Unexpected file type",
            "Unexpected file format",
        ]
    );
}
