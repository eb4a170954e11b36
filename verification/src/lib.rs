//! Analysis and repair of the fixed-size header of a Windows registry hive
//! file.
//!
//! A hive file starts with a 4096-byte header region whose first 512 bytes
//! carry the fields this crate inspects: a four-byte signature, a pair of
//! sequence numbers, version numbers, size bookkeeping and an XOR checksum.
//! The crate parses those fields, classifies deviations from the expected
//! format as issues, and applies the in-place binary patches that repair the
//! remediable ones. It works on in-memory byte buffers only; reading and
//! writing files is left to the caller.

pub mod checksum;
pub mod fixes;
pub mod format;
pub mod parse;
pub mod pipeline;
pub mod types;
pub mod validate;

pub use checksum::calculate_header_checksum;
pub use fixes::apply_fixes;
pub use parse::parse_header;
pub use pipeline::analyze;
pub use types::{AnalysisResult, FileInfo, FixData, FixType, IssueSeverity, Message, ParseError,
    ValidationIssue};
pub use validate::{file_format_to_string, file_type_to_string, validate};
