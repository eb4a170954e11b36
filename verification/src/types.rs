//! The data produced by one analysis of a hive file: the parsed header
//! fields, the detected issues, and the closed set of remediable fix kinds.
//!
//! All of these are created fresh per analysis and read-only thereafter; a
//! new analysis supersedes them rather than mutating them.

use vstd::prelude::*;

verus! {

/// How serious a detected deviation is: `Critical` means the file should not
/// be used as it stands, `Warning` means it should be reviewed.
#[derive(Debug, Clone, Copy, PartialEq, Eq, Structural)]
pub enum IssueSeverity {
    Critical,
    Warning,
}

impl IssueSeverity {
    /// A fixed upper-case label for rendering the severity.
    pub fn label(&self) -> (r: &'static str)
        ensures
            *self is Critical ==> r@ == "CRITICAL"@,
            *self is Warning ==> r@ == "WARNING"@,
    {
        match self {
            IssueSeverity::Critical => "CRITICAL",
            IssueSeverity::Warning => "WARNING",
        }
    }
}

/// The closed set of remediable header field classes.
#[derive(Debug, Clone, Copy, PartialEq, Eq, Structural)]
pub enum FixType {
    HiveBinsSize,
    Checksum,
    SequenceNumbers,
}

/// The concrete replacement value(s) carried by a proposed fix. Each
/// `FixType` has exactly one matching `FixData` shape; a pairing that does
/// not match is skipped at the point of application.
#[derive(Debug, Clone, Copy, PartialEq, Eq, Structural)]
pub enum FixData {
    HiveBinsSize(u32),
    Checksum(u32),
    SequenceNumbers(u32, u32),
}

/// One detected deviation from the expected header format, optionally
/// carrying the fix that would repair it.
#[derive(Debug, Clone)]
pub struct ValidationIssue {
    pub severity: IssueSeverity,
    pub message: String,
    pub details: Option<String>,
    pub fix_type: Option<FixType>,
    pub fix_data: Option<FixData>,
}

/// The mathematical value of a [`ValidationIssue`]: the same fields with the
/// strings abstracted to character sequences.
#[verifier::ext_equal]
pub ghost struct IssueView {
    pub severity: IssueSeverity,
    pub message: Seq<char>,
    pub details: Option<Seq<char>>,
    pub fix_type: Option<FixType>,
    pub fix_data: Option<FixData>,
}

impl View for ValidationIssue {
    type V = IssueView;

    open spec fn view(&self) -> IssueView {
        IssueView {
            severity: self.severity,
            message: self.message@,
            details: match self.details {
                Some(d) => Some(d@),
                None => None,
            },
            fix_type: self.fix_type,
            fix_data: self.fix_data,
        }
    }
}

/// Snapshot of all parsed and derived header fields of one file. Immutable
/// once produced; a new `FileInfo` is built on every (re-)analysis.
#[derive(Debug, Clone)]
pub struct FileInfo {
    pub path: String,
    pub size: u32,
    pub signature: String,
    pub primary_seq_num: u32,
    pub secondary_seq_num: u32,
    pub last_written: u64,
    pub major_version: u32,
    pub minor_version: u32,
    pub file_type: u32,
    pub file_format: u32,
    pub root_cell_offset: u32,
    pub hive_bins_size: u32,
    pub measured_hive_bins_size: u32,
    pub clustering_factor: u32,
    pub stored_checksum: u32,
    pub calculated_checksum: u32,
}

/// The mathematical value of a [`FileInfo`].
#[verifier::ext_equal]
pub ghost struct FileInfoView {
    pub path: Seq<char>,
    pub size: u32,
    pub signature: Seq<char>,
    pub primary_seq_num: u32,
    pub secondary_seq_num: u32,
    pub last_written: u64,
    pub major_version: u32,
    pub minor_version: u32,
    pub file_type: u32,
    pub file_format: u32,
    pub root_cell_offset: u32,
    pub hive_bins_size: u32,
    pub measured_hive_bins_size: u32,
    pub clustering_factor: u32,
    pub stored_checksum: u32,
    pub calculated_checksum: u32,
}

impl View for FileInfo {
    type V = FileInfoView;

    open spec fn view(&self) -> FileInfoView {
        FileInfoView {
            path: self.path@,
            size: self.size,
            signature: self.signature@,
            primary_seq_num: self.primary_seq_num,
            secondary_seq_num: self.secondary_seq_num,
            last_written: self.last_written,
            major_version: self.major_version,
            minor_version: self.minor_version,
            file_type: self.file_type,
            file_format: self.file_format,
            root_cell_offset: self.root_cell_offset,
            hive_bins_size: self.hive_bins_size,
            measured_hive_bins_size: self.measured_hive_bins_size,
            clustering_factor: self.clustering_factor,
            stored_checksum: self.stored_checksum,
            calculated_checksum: self.calculated_checksum,
        }
    }
}

/// The sole artifact returned by analysis: the parsed fields plus the
/// ordered list of detected issues.
#[derive(Debug, Clone)]
pub struct AnalysisResult {
    pub issues: Vec<ValidationIssue>,
    pub file_info: FileInfo,
}

/// The issue views of a sequence of issues, in order.
pub open spec fn issues_view(issues: Seq<ValidationIssue>) -> Seq<IssueView> {
    issues.map_values(|issue: ValidationIssue| issue@)
}

/// The mathematical value of an [`AnalysisResult`].
#[verifier::ext_equal]
pub ghost struct AnalysisResultView {
    pub issues: Seq<IssueView>,
    pub file_info: FileInfoView,
}

impl View for AnalysisResult {
    type V = AnalysisResultView;

    open spec fn view(&self) -> AnalysisResultView {
        AnalysisResultView {
            issues: issues_view(self.issues@),
            file_info: self.file_info@,
        }
    }
}

/// Why a buffer could not be parsed as a hive header: it is shorter than the
/// 512-byte fixed header, or its signature bytes are not valid UTF-8 text.
#[derive(Debug, Clone, Copy, PartialEq, Eq, Structural)]
pub enum ParseError {
    BufferTooShort,
    InvalidSignature,
}

/// Events exchanged between the engine and an interactive front end running
/// analyses on worker threads.
#[derive(Debug)]
pub enum Message {
    FileSelected(String),
    AnalysisComplete(AnalysisResult),
    FixSelected(Vec<FixType>),
    FixComplete(String),
}

} // verus!
