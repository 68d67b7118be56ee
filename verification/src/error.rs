//! The crate's error type.

use vstd::prelude::*;

use crate::text::{concat2, concat3, copy_str, push_str};

verus! {

/// Errors of every stage.  Errors that come from I/O, HTTP, JSON or the
/// clock carry the message of the underlying error.
#[derive(Debug, Clone)]
pub enum CfProbeError {
    /// HTTP request error.
    Http(String),
    /// File system / low-level I/O error.
    Io(String),
    /// JSON (de)serialisation error.
    Json(String),
    /// DNS resolution failure.
    Dns { message: String },
    /// The target was refused by the security policy.
    TargetRejected { reason: String },
    /// Cancelled through a cancellation token.
    Cancelled,
    /// A remote answer or an argument did not have the expected form.
    InvalidResponse(String),
    /// A CIDR string could not be parsed.
    InvalidCidr { value: String, reason: String },
    /// The local cache file is corrupted.
    CacheCorrupted { path: String, reason: String },
    /// Timed out waiting for the cross-process cache lock.
    CacheLockTimeout,
    /// No platform cache directory could be determined.
    CacheDirectoryUnavailable,
    /// The system clock is before the UNIX epoch.
    SystemClock(String),
}

/// The value of an error, with its texts as character sequences.
pub enum ErrorView {
    Http(Seq<char>),
    Io(Seq<char>),
    Json(Seq<char>),
    Dns { message: Seq<char> },
    TargetRejected { reason: Seq<char> },
    Cancelled,
    InvalidResponse(Seq<char>),
    InvalidCidr { value: Seq<char>, reason: Seq<char> },
    CacheCorrupted { path: Seq<char>, reason: Seq<char> },
    CacheLockTimeout,
    CacheDirectoryUnavailable,
    SystemClock(Seq<char>),
}

impl View for CfProbeError {
    type V = ErrorView;

    open spec fn view(&self) -> ErrorView {
        match self {
            CfProbeError::Http(m) => ErrorView::Http(m@),
            CfProbeError::Io(m) => ErrorView::Io(m@),
            CfProbeError::Json(m) => ErrorView::Json(m@),
            CfProbeError::Dns { message } => ErrorView::Dns { message: message@ },
            CfProbeError::TargetRejected { reason } => ErrorView::TargetRejected { reason: reason@ },
            CfProbeError::Cancelled => ErrorView::Cancelled,
            CfProbeError::InvalidResponse(m) => ErrorView::InvalidResponse(m@),
            CfProbeError::InvalidCidr { value, reason } => ErrorView::InvalidCidr {
                value: value@,
                reason: reason@,
            },
            CfProbeError::CacheCorrupted { path, reason } => ErrorView::CacheCorrupted {
                path: path@,
                reason: reason@,
            },
            CfProbeError::CacheLockTimeout => ErrorView::CacheLockTimeout,
            CfProbeError::CacheDirectoryUnavailable => ErrorView::CacheDirectoryUnavailable,
            CfProbeError::SystemClock(m) => ErrorView::SystemClock(m@),
        }
    }
}

impl ErrorView {
    /// The human-readable message of the error.
    pub open spec fn text(self) -> Seq<char> {
        match self {
            ErrorView::Http(m) => "HTTP request failed: "@ + m,
            ErrorView::Io(m) => "I/O error: "@ + m,
            ErrorView::Json(m) => "JSON error: "@ + m,
            ErrorView::Dns { message } => "DNS resolution failed: "@ + message,
            ErrorView::TargetRejected { reason } => "Target rejected by security policy: "@
                + reason,
            ErrorView::Cancelled => "Probe cancelled"@,
            ErrorView::InvalidResponse(m) => "Invalid response: "@ + m,
            ErrorView::InvalidCidr { value, reason } => "Invalid CIDR `"@ + value + "`: "@
                + reason,
            ErrorView::CacheCorrupted { path, reason } => "Cache file `"@ + path
                + "` is corrupted: "@ + reason,
            ErrorView::CacheLockTimeout => "Timed out waiting for Cloudflare cache lock"@,
            ErrorView::CacheDirectoryUnavailable => "Unable to determine a platform cache directory"@,
            ErrorView::SystemClock(m) => "System clock error: "@ + m,
        }
    }
}

impl CfProbeError {
    /// The human-readable message of the error.
    pub fn to_string(&self) -> (r: String)
        ensures
            r@ == self@.text(),
    {
        match self {
            CfProbeError::Http(m) => concat2("HTTP request failed: ", m.as_str()),
            CfProbeError::Io(m) => concat2("I/O error: ", m.as_str()),
            CfProbeError::Json(m) => concat2("JSON error: ", m.as_str()),
            CfProbeError::Dns { message } => concat2("DNS resolution failed: ", message.as_str()),
            CfProbeError::TargetRejected { reason } => concat2("Target rejected by security policy: ", reason.as_str()),
            CfProbeError::Cancelled => copy_str("Probe cancelled"),
            CfProbeError::InvalidResponse(m) => concat2("Invalid response: ", m.as_str()),
            CfProbeError::InvalidCidr { value, reason } => {
                let mut r = concat3("Invalid CIDR `", value.as_str(), "`: ");
                push_str(&mut r, reason.as_str());
                r
            },
            CfProbeError::CacheCorrupted { path, reason } => {
                let mut r = concat3("Cache file `", path.as_str(), "` is corrupted: ");
                push_str(&mut r, reason.as_str());
                r
            },
            CfProbeError::CacheLockTimeout => copy_str("Timed out waiting for Cloudflare cache lock"),
            CfProbeError::CacheDirectoryUnavailable => copy_str(
                "Unable to determine a platform cache directory",
            ),
            CfProbeError::SystemClock(m) => concat2("System clock error: ", m.as_str()),
        }
    }

    /// A `TargetRejected` error with the given reason.
    pub fn rejected(reason: String) -> (e: CfProbeError)
        ensures
            e@ == (ErrorView::TargetRejected { reason: reason@ }),
    {
        CfProbeError::TargetRejected { reason }
    }

    /// An `InvalidResponse` error with the given message.
    pub fn invalid(message: String) -> (e: CfProbeError)
        ensures
            e@ == ErrorView::InvalidResponse(message@),
    {
        CfProbeError::InvalidResponse(message)
    }
}

} // verus!
