use vstd::prelude::*;
use crate::text::str_eq;

verus! {

/// Ordinal compliance-impact tag of a check.
#[derive(Clone, Copy, Debug, PartialEq, Eq, Structural)]
pub enum SeverityLevel {
    Info,
    Low,
    Medium,
    High,
    Critical,
}

/// Language a check is authored in.
#[derive(Clone, Copy, Debug, PartialEq, Eq, Structural)]
pub enum CheckType {
    Lua,
}

/// Outcome dimension of one check within one scan. `Fail` means the check ran
/// and asserted non-compliance; `Error` means it could not be evaluated.
#[derive(Clone, Copy, Debug, PartialEq, Eq, Structural)]
pub enum CheckStatus {
    Pass,
    Fail,
    Error,
}

/// Lifecycle state of one device scan; transitions are forward-only and
/// `Completed`/`Failed` are terminal.
#[derive(Clone, Copy, Debug, PartialEq, Eq, Structural)]
pub enum ScanStatus {
    Pending,
    Running,
    Completed,
    Failed,
}

/// A device of the fleet. The stored password is kept encrypted; the decrypted
/// form is handed in only transiently for session establishment.
#[derive(Clone, Debug)]
pub struct Device {
    pub id: i64,
    pub address: String,
    pub username: String,
    pub password: String,
}

/// One catalog entry: a named compliance assertion with severity metadata and
/// a script body.
#[derive(Debug)]
pub struct Rule {
    pub id: String,
    pub name: String,
    pub description: Option<String>,
    pub severity: SeverityLevel,
    pub check_type: CheckType,
    pub script_body: String,
}

/// One execution attempt binding a device to a point in time.
#[derive(Debug)]
pub struct Scan {
    pub id: i64,
    pub device_id: i64,
    pub status: ScanStatus,
}

/// One outcome of one rule within one scan.
#[derive(Debug)]
pub struct ScanResult {
    pub id: i64,
    pub scan_id: i64,
    pub rule_id: String,
    pub status: CheckStatus,
    pub details: Option<String>,
}

/// The severity denoted by a lowercase label, or `None` for anything else.
pub open spec fn severity_from_label(s: Seq<char>) -> Option<SeverityLevel> {
    if s == "info"@ {
        Some(SeverityLevel::Info)
    } else if s == "low"@ {
        Some(SeverityLevel::Low)
    } else if s == "medium"@ {
        Some(SeverityLevel::Medium)
    } else if s == "high"@ {
        Some(SeverityLevel::High)
    } else if s == "critical"@ {
        Some(SeverityLevel::Critical)
    } else {
        None
    }
}

/// The canonical lowercase label of a severity.
pub open spec fn severity_label(s: SeverityLevel) -> Seq<char> {
    match s {
        SeverityLevel::Info => "info"@,
        SeverityLevel::Low => "low"@,
        SeverityLevel::Medium => "medium"@,
        SeverityLevel::High => "high"@,
        SeverityLevel::Critical => "critical"@,
    }
}

impl SeverityLevel {
    /// Parse a lowercase severity label; registration rejects anything else.
    pub fn parse(s: &str) -> (r: Option<SeverityLevel>)
        ensures
            r == severity_from_label(s@),
    {
        if str_eq(s, "info") {
            Some(SeverityLevel::Info)
        } else if str_eq(s, "low") {
            Some(SeverityLevel::Low)
        } else if str_eq(s, "medium") {
            Some(SeverityLevel::Medium)
        } else if str_eq(s, "high") {
            Some(SeverityLevel::High)
        } else if str_eq(s, "critical") {
            Some(SeverityLevel::Critical)
        } else {
            None
        }
    }

    /// The canonical lowercase label of this severity.
    pub fn label(&self) -> (r: &'static str)
        ensures
            r@ == severity_label(*self),
    {
        match self {
            SeverityLevel::Info => "info",
            SeverityLevel::Low => "low",
            SeverityLevel::Medium => "medium",
            SeverityLevel::High => "high",
            SeverityLevel::Critical => "critical",
        }
    }
}

} // verus!
