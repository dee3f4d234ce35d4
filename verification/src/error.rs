//! Error taxonomy and the mapping from internal errors to stable wire codes.

use crate::textutil::{dec_chars, dec_chars_i64, i32_to_string, u64_to_string};
use vstd::prelude::*;

verus! {

/// Top-level error of the sandboxing engine.
#[derive(Debug)]
pub enum CapsuleError {
    Config(String),
    SandboxSetup(SandboxError),
    Execution(ExecutionError),
    ResourceLimit(String),
    Security(String),
    Io(String),
    Json(String),
    Syscall(String),
}

/// Failure during isolation-context construction.
#[derive(Debug)]
pub enum SandboxError {
    NamespaceCreation { namespace: String },
    CgroupSetup(String),
    SeccompSetup(String),
    FilesystemSetup(String),
    CapabilityDrop(String),
    UserMapping(String),
}

/// Failure while supervising the child process.
#[derive(Debug)]
pub enum ExecutionError {
    Timeout { timeout_ms: u64 },
    Signal { signal: i32 },
    SpawnFailed(String),
    IoCaptureError(String),
    MonitoringError(String),
    OutputSizeLimit { limit: usize },
}

pub type CapsuleResult<T> = Result<T, CapsuleError>;

/// A stable error code, its human-readable message, and its category.
#[derive(Debug)]
pub struct ErrorCode {
    pub code: &'static str,
    pub message: String,
    pub category: ErrorCategory,
}

#[derive(Clone, Copy, Debug, PartialEq, Eq, Structural)]
pub enum ErrorCategory {
    Configuration,
    Security,
    Resource,
    Execution,
    System,
}

/// The stable wire code assigned to each error.
pub open spec fn code_str_of(e: CapsuleError) -> Seq<char> {
    match e {
        CapsuleError::Config(_) => "E1001"@,
        CapsuleError::SandboxSetup(s) => match s {
            SandboxError::NamespaceCreation { .. } => "E2001"@,
            SandboxError::CgroupSetup(_) => "E2002"@,
            SandboxError::SeccompSetup(_) => "E2003"@,
            SandboxError::FilesystemSetup(_) => "E2004"@,
            SandboxError::CapabilityDrop(_) => "E2005"@,
            SandboxError::UserMapping(_) => "E2006"@,
        },
        CapsuleError::Execution(x) => match x {
            ExecutionError::Timeout { .. } => "E3001"@,
            ExecutionError::Signal { .. } => "E3002"@,
            ExecutionError::SpawnFailed(_) => "E3003"@,
            ExecutionError::IoCaptureError(_) => "E3004"@,
            ExecutionError::MonitoringError(_) => "E3005"@,
            ExecutionError::OutputSizeLimit { .. } => "E3006"@,
        },
        CapsuleError::ResourceLimit(_) => "E4001"@,
        CapsuleError::Security(_) => "E5001"@,
        CapsuleError::Io(_) => "E6001"@,
        CapsuleError::Json(_) => "E6002"@,
        CapsuleError::Syscall(_) => "E6003"@,
    }
}

/// The category assigned to each error.
pub open spec fn category_of(e: CapsuleError) -> ErrorCategory {
    match e {
        CapsuleError::Config(_) => ErrorCategory::Configuration,
        CapsuleError::SandboxSetup(s) => match s {
            SandboxError::CgroupSetup(_) => ErrorCategory::Resource,
            _ => ErrorCategory::Security,
        },
        CapsuleError::Execution(x) => match x {
            ExecutionError::Timeout { .. } => ErrorCategory::Execution,
            ExecutionError::Signal { .. } => ErrorCategory::Execution,
            ExecutionError::SpawnFailed(_) => ErrorCategory::Execution,
            ExecutionError::IoCaptureError(_) => ErrorCategory::System,
            ExecutionError::MonitoringError(_) => ErrorCategory::System,
            ExecutionError::OutputSizeLimit { .. } => ErrorCategory::Resource,
        },
        CapsuleError::ResourceLimit(_) => ErrorCategory::Resource,
        CapsuleError::Security(_) => ErrorCategory::Security,
        CapsuleError::Io(_) => ErrorCategory::System,
        CapsuleError::Json(_) => ErrorCategory::Configuration,
        CapsuleError::Syscall(_) => ErrorCategory::System,
    }
}

/// The message text carried beside each code.
pub open spec fn message_of(e: CapsuleError) -> Seq<char> {
    match e {
        CapsuleError::Config(m) => m@,
        CapsuleError::SandboxSetup(s) => match s {
            SandboxError::NamespaceCreation { namespace } => "Failed to create "@ + namespace@
                + " namespace"@,
            SandboxError::CgroupSetup(m) => m@,
            SandboxError::SeccompSetup(m) => m@,
            SandboxError::FilesystemSetup(m) => m@,
            SandboxError::CapabilityDrop(m) => m@,
            SandboxError::UserMapping(m) => m@,
        },
        CapsuleError::Execution(x) => match x {
            ExecutionError::Timeout { timeout_ms } => "Command exceeded timeout limit of "@
                + dec_chars(timeout_ms as nat) + "ms"@,
            ExecutionError::Signal { signal } => "Command killed by signal "@ + dec_chars_i64(
                signal as int,
            ),
            ExecutionError::SpawnFailed(m) => m@,
            ExecutionError::IoCaptureError(m) => m@,
            ExecutionError::MonitoringError(m) => m@,
            ExecutionError::OutputSizeLimit { limit } => "Output exceeded size limit of "@
                + dec_chars(limit as nat) + " bytes"@,
        },
        CapsuleError::ResourceLimit(m) => m@,
        CapsuleError::Security(m) => m@,
        CapsuleError::Io(m) => "I/O operation failed: "@ + m@,
        CapsuleError::Json(m) => "JSON parsing failed: "@ + m@,
        CapsuleError::Syscall(m) => m@,
    }
}

impl ErrorCode {
    pub fn new(code: &'static str, message: String, category: ErrorCategory) -> (r: Self)
        ensures
            r.code@ == code@,
            r.message == message,
            r.category == category,
    {
        Self { code, message, category }
    }

    /// Maps an error to its stable code, message, and category.
    pub fn from_error(error: CapsuleError) -> (r: Self)
        ensures
            r.code@ == code_str_of(error),
            r.message@ == message_of(error),
            r.category == category_of(error),
    {
        match error {
            CapsuleError::Config(m) => Self::new("E1001", m, ErrorCategory::Configuration),
            CapsuleError::SandboxSetup(s) => match s {
                SandboxError::NamespaceCreation { namespace } => {
                    let m = String::from_str("Failed to create ").concat(namespace.as_str()).concat(
                        " namespace",
                    );
                    Self::new("E2001", m, ErrorCategory::Security)
                },
                SandboxError::CgroupSetup(m) => Self::new("E2002", m, ErrorCategory::Resource),
                SandboxError::SeccompSetup(m) => Self::new("E2003", m, ErrorCategory::Security),
                SandboxError::FilesystemSetup(m) => Self::new("E2004", m, ErrorCategory::Security),
                SandboxError::CapabilityDrop(m) => Self::new("E2005", m, ErrorCategory::Security),
                SandboxError::UserMapping(m) => Self::new("E2006", m, ErrorCategory::Security),
            },
            CapsuleError::Execution(x) => match x {
                ExecutionError::Timeout { timeout_ms } => {
                    let t = u64_to_string(timeout_ms);
                    let m = String::from_str("Command exceeded timeout limit of ").concat(
                        t.as_str(),
                    ).concat("ms");
                    Self::new("E3001", m, ErrorCategory::Execution)
                },
                ExecutionError::Signal { signal } => {
                    let s = i32_to_string(signal);
                    let m = String::from_str("Command killed by signal ").concat(s.as_str());
                    Self::new("E3002", m, ErrorCategory::Execution)
                },
                ExecutionError::SpawnFailed(m) => Self::new("E3003", m, ErrorCategory::Execution),
                ExecutionError::IoCaptureError(m) => Self::new("E3004", m, ErrorCategory::System),
                ExecutionError::MonitoringError(m) => Self::new("E3005", m, ErrorCategory::System),
                ExecutionError::OutputSizeLimit { limit } => {
                    let l = u64_to_string(limit as u64);
                    let m = String::from_str("Output exceeded size limit of ").concat(
                        l.as_str(),
                    ).concat(" bytes");
                    proof {
                        assert(dec_chars(limit as nat) == dec_chars(limit as u64 as nat));
                    }
                    Self::new("E3006", m, ErrorCategory::Resource)
                },
            },
            CapsuleError::ResourceLimit(m) => Self::new("E4001", m, ErrorCategory::Resource),
            CapsuleError::Security(m) => Self::new("E5001", m, ErrorCategory::Security),
            CapsuleError::Io(m) => {
                let full = String::from_str("I/O operation failed: ").concat(m.as_str());
                Self::new("E6001", full, ErrorCategory::System)
            },
            CapsuleError::Json(m) => {
                let full = String::from_str("JSON parsing failed: ").concat(m.as_str());
                Self::new("E6002", full, ErrorCategory::Configuration)
            },
            CapsuleError::Syscall(m) => Self::new("E6003", m, ErrorCategory::System),
        }
    }
}

} // verus!
