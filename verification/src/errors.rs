//! Error types shared across the library.

use vstd::prelude::*;

use crate::strutil::str_eq;

verus! {

/// Classification of errors reported by the engine subprocess.
#[derive(Debug, Clone, PartialEq, Eq, Structural)]
pub enum CodexErrorType {
    ContextWindowExceeded,
    UsageLimitExceeded,
    HttpConnectionFailed,
    InternalServerError,
    Unauthorized,
    BadRequest,
    SandboxError,
    Other,
}

/// The wire word for each error type.
pub open spec fn error_type_str(t: CodexErrorType) -> Seq<char> {
    match t {
        CodexErrorType::ContextWindowExceeded => "context_window_exceeded"@,
        CodexErrorType::UsageLimitExceeded => "usage_limit_exceeded"@,
        CodexErrorType::HttpConnectionFailed => "http_connection_failed"@,
        CodexErrorType::InternalServerError => "internal_server_error"@,
        CodexErrorType::Unauthorized => "unauthorized"@,
        CodexErrorType::BadRequest => "bad_request"@,
        CodexErrorType::SandboxError => "sandbox_error"@,
        CodexErrorType::Other => "other"@,
    }
}

/// The error type a wire word names; anything unknown is `Other`.
pub open spec fn error_type_of_str(t: Seq<char>) -> CodexErrorType {
    if t == "context_window_exceeded"@ { CodexErrorType::ContextWindowExceeded }
    else if t == "usage_limit_exceeded"@ { CodexErrorType::UsageLimitExceeded }
    else if t == "http_connection_failed"@ { CodexErrorType::HttpConnectionFailed }
    else if t == "internal_server_error"@ { CodexErrorType::InternalServerError }
    else if t == "unauthorized"@ { CodexErrorType::Unauthorized }
    else if t == "bad_request"@ { CodexErrorType::BadRequest }
    else if t == "sandbox_error"@ { CodexErrorType::SandboxError }
    else { CodexErrorType::Other }
}

impl CodexErrorType {
    /// The error type as its wire word.
    pub fn as_str(&self) -> (r: &'static str)
        ensures
            r@ == error_type_str(*self),
    {
        match self {
            CodexErrorType::ContextWindowExceeded => "context_window_exceeded",
            CodexErrorType::UsageLimitExceeded => "usage_limit_exceeded",
            CodexErrorType::HttpConnectionFailed => "http_connection_failed",
            CodexErrorType::InternalServerError => "internal_server_error",
            CodexErrorType::Unauthorized => "unauthorized",
            CodexErrorType::BadRequest => "bad_request",
            CodexErrorType::SandboxError => "sandbox_error",
            CodexErrorType::Other => "other",
        }
    }
}

/// Structured error information from the engine subprocess.
#[derive(Debug, Clone)]
pub struct CodexErrorInfo {
    pub error_type: CodexErrorType,
    pub http_status_code: Option<u16>,
}

impl CodexErrorInfo {
    pub fn new(error_type: CodexErrorType) -> (r: Self)
        ensures
            r.error_type == error_type,
            r.http_status_code is None,
    {
        Self { error_type, http_status_code: None }
    }

    pub fn with_status(error_type: CodexErrorType, status: u16) -> (r: Self)
        ensures
            r.error_type == error_type,
            r.http_status_code == Some(status),
    {
        Self { error_type, http_status_code: Some(status) }
    }

    /// Parse the error type from its wire word; unknown words mean `Other`.
    pub fn from_type_string(type_str: &str, http_status: Option<u16>) -> (r: Self)
        ensures
            r.error_type == error_type_of_str(type_str@),
            r.http_status_code == http_status,
    {
        let error_type = if str_eq(type_str, "context_window_exceeded") {
            CodexErrorType::ContextWindowExceeded
        } else if str_eq(type_str, "usage_limit_exceeded") {
            CodexErrorType::UsageLimitExceeded
        } else if str_eq(type_str, "http_connection_failed") {
            CodexErrorType::HttpConnectionFailed
        } else if str_eq(type_str, "internal_server_error") {
            CodexErrorType::InternalServerError
        } else if str_eq(type_str, "unauthorized") {
            CodexErrorType::Unauthorized
        } else if str_eq(type_str, "bad_request") {
            CodexErrorType::BadRequest
        } else if str_eq(type_str, "sandbox_error") {
            CodexErrorType::SandboxError
        } else {
            CodexErrorType::Other
        };
        Self { error_type, http_status_code: http_status }
    }
}

/// Application-wide error type.
#[derive(Debug)]
pub enum Error {
    AppServer(String),
    Codex { message: String, info: Option<CodexErrorInfo> },
    ProjectNotFound(String),
    SessionNotFound(String),
    SnapshotNotFound(String),
    InvalidPath(String),
    Git(String),
    Other(String),
}

impl Error {
    /// An engine error with structured info.
    pub fn codex(message: String, info: Option<CodexErrorInfo>) -> (r: Self)
        ensures
            r matches Error::Codex { message: m, info: i } && m == message && i == info,
    {
        Error::Codex { message, info }
    }

    /// An engine error whose type comes as a wire word.
    pub fn codex_from_type(message: String, type_str: &str, http_status: Option<u16>) -> (r: Self)
        ensures
            r matches Error::Codex { message: m, info } && m == message && (info matches Some(ci)
                && ci.error_type == error_type_of_str(type_str@) && ci.http_status_code
                == http_status),
    {
        Error::Codex {
            message,
            info: Some(CodexErrorInfo::from_type_string(type_str, http_status)),
        }
    }
}

} // verus!
