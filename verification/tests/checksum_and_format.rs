use regfix::calculate_header_checksum;
use regfix::format::{u32_to_dec_string, u32_to_hex8_string};
use regfix::{file_format_to_string, file_type_to_string, IssueSeverity};

#[test]
fn checksum_of_all_zero_header_is_substituted_to_one() {
    // Every word XORs to zero, and the reserved raw value 0 becomes 1.
    let data = vec![0u8; 512];
    assert_eq!(calculate_header_checksum(&data), 1);
}

#[test]
fn checksum_raw_all_ones_is_substituted() {
    // One word of 0xFFFFFFFF and the rest zero: the raw XOR is 0xFFFFFFFF,
    // which must calculate to 0xFFFFFFFE.
    let mut data = vec![0u8; 512];
    data[0] = 0xFF;
    data[1] = 0xFF;
    data[2] = 0xFF;
    data[3] = 0xFF;
    assert_eq!(calculate_header_checksum(&data), 0xFFFF_FFFE);
}

#[test]
fn checksum_is_plain_xor_when_not_reserved() {
    let mut data = vec![0u8; 512];
    data[0] = 0x12;
    data[5] = 0x34;
    // Words: 0x00000012 at offset 0 and 0x00003400 at offset 4.
    assert_eq!(calculate_header_checksum(&data), 0x12 ^ 0x3400);
}

#[test]
fn checksum_ignores_bytes_past_the_checksummed_range() {
    let mut a = vec![0u8; 512];
    a[0] = 7;
    let mut b = a.clone();
    b[508] = 0xAA;
    b[511] = 0x55;
    assert_eq!(calculate_header_checksum(&a), calculate_header_checksum(&b));
}

#[test]
fn checksum_is_deterministic() {
    let mut data = vec![0u8; 600];
    for (i, byte) in data.iter_mut().enumerate() {
        *byte = (i % 251) as u8;
    }
    let first = calculate_header_checksum(&data);
    let second = calculate_header_checksum(&data);
    assert_eq!(first, second);
}

#[test]
fn decimal_rendering_matches_display() {
    let values: Vec<u32> = vec![0, 1, 9, 10, 42, 8192, 4294967295];
    for v in values {
        assert_eq!(u32_to_dec_string(v), format!("{}", v));
    }
}

#[test]
fn hex_rendering_is_eight_upper_case_digits() {
    let values: Vec<u32> = vec![0, 1, 0xDEADBEEF, 0xFFFF_FFFF, 0x0BAD_F00D];
    for v in values {
        assert_eq!(u32_to_hex8_string(v), format!("{:08X}", v));
    }
}

#[test]
fn file_type_names() {
    assert_eq!(file_type_to_string(0), "Primary File");
    assert_eq!(file_type_to_string(1), "Log/Backup File");
    assert_eq!(file_type_to_string(2), "Volatile (Memory-based)");
    assert_eq!(file_type_to_string(3), "Unknown Type");
    assert_eq!(file_type_to_string(999), "Unknown Type");
}

#[test]
fn file_format_names() {
    assert_eq!(file_format_to_string(1), "Direct Memory Load");
    assert_eq!(file_format_to_string(0), "Unknown Format");
    assert_eq!(file_format_to_string(2), "Unknown Format");
}

#[test]
fn severity_labels() {
    assert_eq!(IssueSeverity::Critical.label(), "CRITICAL");
    assert_eq!(IssueSeverity::Warning.label(), "WARNING");
}
