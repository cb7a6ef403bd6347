//! The backtrace snapshot: a possibly-absent capture of the raw execution
//! stack, taken once at the moment an error is wrapped.
//!
//! Whether a capture is attempted at all is decided outside this library, by
//! the platform and by an environment toggle read at capture time; the
//! snapshot therefore carries a tri-state status, and only a successful
//! capture is ever rendered.

use vstd::prelude::*;

verus! {

/// Whether a backtrace was actually captured.
#[derive(Debug, Clone, Copy, PartialEq, Eq, Structural)]
pub enum BacktraceStatus {
    /// The platform captured a backtrace; its rendering is in the snapshot.
    Captured,
    /// Capture was switched off by the environment toggle.
    Disabled,
    /// The platform cannot capture backtraces.
    Unsupported,
}

/// An immutable snapshot of the raw execution stack, with the status of its
/// capture. The text is the platform's own rendering; it takes part in an
/// error's full rendering only when the status is `Captured`.
#[derive(Debug, Clone)]
pub struct BacktraceSnapshot {
    pub status: BacktraceStatus,
    pub text: String,
}

#[verifier::external_type_specification]
#[verifier::external_body]
pub struct ExBacktrace(std::backtrace::Backtrace);

/// Relies on `std::backtrace::Backtrace::capture`: attempts to capture the
/// current execution stack, reading the environment toggle the first time it
/// is called. Whether anything is captured depends on the platform and the
/// environment, so nothing is promised of the result.
#[verifier::external_body]
fn capture_raw_backtrace() -> std::backtrace::Backtrace {
    std::backtrace::Backtrace::capture()
}

/// Relies on `std::backtrace::Backtrace::status`: reports whether this
/// backtrace was captured, or capture was disabled or unsupported. Each
/// variant is converted, one for one, into the library's own status.
#[verifier::external_body]
fn raw_backtrace_status(raw: &std::backtrace::Backtrace) -> BacktraceStatus {
    match raw.status() {
        std::backtrace::BacktraceStatus::Captured => BacktraceStatus::Captured,
        std::backtrace::BacktraceStatus::Disabled => BacktraceStatus::Disabled,
        _ => BacktraceStatus::Unsupported,
    }
}

/// Relies on the std `Display` rendering of `std::backtrace::Backtrace`: the
/// platform's text form of the captured stack.
#[verifier::external_body]
fn raw_backtrace_text(raw: &std::backtrace::Backtrace) -> String {
    raw.to_string()
}

impl BacktraceSnapshot {
    /// Captures the current execution stack, if the platform and the
    /// environment toggle allow it, as an immutable snapshot. What is
    /// captured depends on ambient state; rendering is specified for every
    /// value the snapshot may take.
    pub fn capture() -> BacktraceSnapshot {
        let raw = capture_raw_backtrace();
        let status = raw_backtrace_status(&raw);
        let text = raw_backtrace_text(&raw);
        BacktraceSnapshot { status, text }
    }
}

} // verus!
