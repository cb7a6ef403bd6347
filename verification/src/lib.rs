//! A contextual-error capture and reporting library.
//!
//! A single, non-generic [`Error`] value wraps any native error together with
//! two immutable snapshots taken at the moment of wrapping: the active
//! instrumented call frames (the call history) and, when enabled, a platform
//! backtrace. The value travels unchanged up the call stack — converting an
//! `Error` into an `Error` is the identity, so nothing is ever re-wrapped or
//! re-captured — and is rendered once at the top, either as the bare message
//! or as a full diagnostic with the captured call history.

pub mod adhoc;
mod backtrace;
mod result_ext;
mod span_trace;
mod text;

pub use adhoc::{format_err, not, Bool};
pub use backtrace::{BacktraceSnapshot, BacktraceStatus};
pub use result_ext::ResultExt;
pub use span_trace::{CallHistory, Frame, history_text};

use vstd::prelude::*;
use vstd::string::StringExecFns;

verus! {

/// The main error value: the wrapped source error's short-form message, and
/// the two snapshots captured once, when the source was wrapped.
#[derive(Debug, Clone)]
pub struct Error {
    /// The wrapped error's own short-form message, rendered at wrap time.
    pub source: String,
    /// The instrumented call frames active at wrap time, most recent first.
    pub span_trace: CallHistory,
    /// The raw execution stack at wrap time, when its capture was enabled.
    pub backtrace: BacktraceSnapshot,
}

/// The short rendering of an error: the wrapped source's own message, with
/// neither snapshot. This is the form fit to stand inside another error's
/// message.
pub open spec fn short_text(e: Error) -> Seq<char> {
    e.source@
}

/// The message and call-history part of the full rendering: the source's
/// message, the section header, then every captured frame. This part is
/// always present, whatever the backtrace status.
pub open spec fn history_section_text(e: Error) -> Seq<char> {
    e.source@ + "\n\nCall history (recent first):\n"@ + history_text(e.span_trace)
}

/// The backtrace part of the full rendering: present exactly when a
/// backtrace was captured, and absent — not rendered as an empty section —
/// when capture was disabled or unsupported.
pub open spec fn backtrace_section_text(e: Error) -> Seq<char> {
    if e.backtrace.status is Captured {
        "\n\nBacktrace:\n"@ + e.backtrace.text@
    } else {
        Seq::<char>::empty()
    }
}

/// The full diagnostic rendering: message, call history, and the backtrace
/// section when one was captured.
pub open spec fn full_text(e: Error) -> Seq<char> {
    history_section_text(e) + backtrace_section_text(e)
}

impl Error {
    /// Wraps an already-rendered source message, capturing the call-history
    /// and backtrace snapshots now. This is the single point where a native
    /// error becomes an `Error`; the snapshots are never re-captured on
    /// later propagation.
    pub fn from_message(message: String) -> (r: Error)
        ensures
            r.source@ == message@,
    {
        Error {
            source: message,
            span_trace: CallHistory::capture(),
            backtrace: BacktraceSnapshot::capture(),
        }
    }

    /// Wraps a native error, capturing both snapshots now. The stored message
    /// is the error's own short-form rendering.
    pub fn new<E: std::error::Error + Send + Sync + 'static>(source: E) -> (r: Error) {
        Error::from_message(display_text_of_error(&source))
    }

    /// Wraps a message value as if it were a native error, capturing both
    /// snapshots now. The stored message is the value's own rendering.
    #[must_use]
    pub fn msg<M: core::fmt::Display + core::fmt::Debug + Send + Sync + 'static>(
        message: M,
    ) -> (r: Error) {
        Error::from_message(display_text_of_message(&message))
    }

    /// Wraps a literal message verbatim, capturing both snapshots now; no
    /// formatting engine is involved.
    #[must_use]
    pub fn msg_str(message: &str) -> (r: Error)
        ensures
            r.source@ == message@,
    {
        Error::from_message(String::from_str(message))
    }

    /// The short rendering: exactly the wrapped source's message.
    pub fn render_short(&self) -> (r: String)
        ensures
            r@ == short_text(*self),
    {
        self.source.clone()
    }

    /// The full diagnostic rendering: the source's message, then the call
    /// history (possibly with zero frames), then — only when one was
    /// captured — the backtrace.
    pub fn render_full(&self) -> (r: String)
        ensures
            r@ == full_text(*self),
    {
        let mut out = self.source.clone();
        out.append("\n\nCall history (recent first):\n");
        let history = self.span_trace.render();
        out.append(history.as_str());
        if self.backtrace.status == BacktraceStatus::Captured {
            out.append("\n\nBacktrace:\n");
            out.append(self.backtrace.text.as_str());
        }
        proof {
            assert(out@ =~= full_text(*self));
        }
        out
    }
}

/// The outcome of any operation inside this library's boundary: a success
/// value, or the single erasure-typed [`Error`].
pub type Result<T = ()> = core::result::Result<T, Error>;

/// Conversion into the erasure-typed [`Error`].
///
/// A value that is already an `Error` names itself as `already_wrapped`, and
/// its conversion is then required to be the identity: no second wrap, no
/// re-captured snapshots. A native error has nothing already wrapped, and its
/// conversion performs the one and only capture.
pub trait IntoError: Sized {
    /// The `Error` this value already is, if it is one.
    spec fn already_wrapped(self) -> Option<Error>;

    /// Converts this value into an `Error`.
    fn into_error(self) -> (r: Error)
        ensures
            self.already_wrapped() is Some ==> r == self.already_wrapped().unwrap(),
    ;
}

impl IntoError for Error {
    open spec fn already_wrapped(self) -> Option<Error> {
        Some(self)
    }

    /// Wrapping an `Error` is the identity: the original capture travels on
    /// unchanged.
    fn into_error(self) -> (r: Error) {
        self
    }
}

/// An extension that upgrades any `success-or-native-error` outcome to a
/// `success-or-Error` outcome by converting the failure branch.
pub trait Traced: Sized {
    type Output;

    fn traced(self) -> Self::Output;
}

impl<T, E: IntoError> Traced for core::result::Result<T, E> {
    type Output = core::result::Result<T, Error>;

    /// Maps only the failure branch through [`IntoError`]; a success value is
    /// handed back untouched, and a failure that is already an `Error` comes
    /// back unchanged.
    fn traced(self) -> (r: core::result::Result<T, Error>)
        ensures
            self is Ok <==> r is Ok,
            self is Ok ==> r->Ok_0 == self->Ok_0,
            self is Err ==> call_ensures(E::into_error, (self->Err_0,), r->Err_0),
    {
        match self {
            Ok(value) => Ok(value),
            Err(error) => Err(error.into_error()),
        }
    }
}

/// A return type for a program's entry point that, reported at process exit,
/// defers to the success value or renders the `Error` in full.
pub enum MainResult<T = (), E = Error> {
    Success(T),
    Failure(E),
}

impl<T, E> From<core::result::Result<T, E>> for MainResult<T, E> {
    fn from(value: core::result::Result<T, E>) -> (r: Self) {
        match value {
            Ok(value) => MainResult::Success(value),
            Err(error) => MainResult::Failure(error),
        }
    }
}

impl<T, E> vstd::std_specs::convert::FromSpecImpl<core::result::Result<T, E>> for MainResult<T, E> {
    open spec fn obeys_from_spec() -> bool {
        true
    }

    open spec fn from_spec(value: core::result::Result<T, E>) -> Self {
        match value {
            Ok(value) => MainResult::Success(value),
            Err(error) => MainResult::Failure(error),
        }
    }
}

/// What a process must do at exit for a reported [`MainResult`]: finish with
/// the success value's own termination, or write the given text to the error
/// stream and exit with the single fixed failure code.
pub enum Report<T> {
    Succeed(T),
    Fail(String),
}

/// The text a failing report writes: the full diagnostic rendering,
/// terminated by a line break.
pub open spec fn report_text(e: Error) -> Seq<char> {
    full_text(e) + "\n"@
}

impl<T> MainResult<T, Error> {
    /// The decision made exactly once at process exit: a success defers to
    /// its own value's termination; a failure carries the full diagnostic
    /// rendering, terminated by a line break, to be written to the error
    /// stream before exiting with the fixed failure code.
    pub fn report(self) -> (r: Report<T>)
        ensures
            self is Success ==> (r is Succeed && r->Succeed_0 == self->Success_0),
            self is Failure ==> (r is Fail && r->Fail_0@ == report_text(self->Failure_0)),
    {
        match self {
            MainResult::Success(value) => Report::Succeed(value),
            MainResult::Failure(error) => {
                let mut out = error.render_full();
                out.append("\n");
                Report::Fail(out)
            },
        }
    }
}

/// Law: wrapping is idempotent. Converting a value that is already an
/// `Error` into an `Error` hands back the very same value — nothing is
/// double-wrapped, no snapshot is re-captured — so both renderings of the
/// outcome are textually identical to those of the original.
pub proof fn lemma_idempotent_wrapping(e: Error, r: Error)
    requires
        call_ensures(<Error as IntoError>::into_error, (e,), r),
    ensures
        r == e,
        full_text(r) == full_text(e),
        short_text(r) == short_text(e),
{
}

/// Law: propagation never re-wraps. Upgrading an outcome whose failure is
/// already an `Error` through [`Traced::traced`] hands the whole outcome back
/// unchanged: the original capture travels to the top as it is.
pub proof fn lemma_traced_identity<T>(
    outcome: core::result::Result<T, Error>,
    r: core::result::Result<T, Error>,
)
    requires
        call_ensures(<core::result::Result<T, Error> as Traced>::traced, (outcome,), r),
    ensures
        r == outcome,
{
}

/// Law: the message survives wrapping identically. An `Error` built by
/// [`Error::from_message`] renders in short form as exactly the message it
/// was built from.
pub proof fn lemma_message_identity(message: String, e: Error)
    requires
        call_ensures(Error::from_message, (message,), e),
    ensures
        short_text(e) == message@,
{
}

/// Law: an error wrapped outside any instrumented call renders a call-history
/// section with zero frame entries — the section header is followed by
/// nothing, which is a valid, non-error state.
pub proof fn lemma_empty_history(e: Error)
    requires
        e.span_trace.frames@.len() == 0,
    ensures
        history_section_text(e) == e.source@ + "\n\nCall history (recent first):\n"@,
{
    assert(e.source@ + "\n\nCall history (recent first):\n"@ + Seq::<char>::empty() =~= e.source@
        + "\n\nCall history (recent first):\n"@);
}

/// Law: the backtrace section is gated on the capture status. When a
/// backtrace was captured the full rendering ends with the backtrace header
/// and text; when capture was disabled or unsupported the full rendering is
/// the message and call history alone — the section is absent, not rendered
/// as empty.
pub proof fn lemma_backtrace_gating(e: Error)
    ensures
        e.backtrace.status is Captured ==> full_text(e) == history_section_text(e)
            + "\n\nBacktrace:\n"@ + e.backtrace.text@,
        !(e.backtrace.status is Captured) ==> full_text(e) == history_section_text(e),
{
    if !(e.backtrace.status is Captured) {
        assert(full_text(e) =~= history_section_text(e));
    }
}

/// Relies on the std `Display` rendering of the source error: its own
/// short-form message.
#[verifier::external_body]
fn display_text_of_error<E: std::error::Error + Send + Sync + 'static>(source: &E) -> String {
    format!("{}", source)
}

/// Relies on the std `Display` rendering of the message value.
#[verifier::external_body]
fn display_text_of_message<M: core::fmt::Display + core::fmt::Debug + Send + Sync + 'static>(
    message: &M,
) -> String {
    format!("{}", message)
}

} // verus!

