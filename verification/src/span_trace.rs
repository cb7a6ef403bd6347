//! The call-history snapshot: the instrumented call frames that were active
//! at the moment an error was wrapped, and their text rendering.
//!
//! A [`CallHistory`] is an immutable value: it is captured once, when the error
//! is wrapped, and never appended to afterwards. Its frames are ordered most
//! recent first.

use vstd::prelude::*;
use vstd::string::StringExecFns;

use crate::text::{decimal, push_decimal};

verus! {

/// One captured call frame: the instrumented function's name, its captured
/// field values pre-rendered as `name=value` text (empty when the frame
/// recorded no fields), and its source location, when known.
#[derive(Debug, Clone)]
pub struct Frame {
    pub name: String,
    pub fields: String,
    pub file: Option<String>,
    pub line: Option<u64>,
}

/// The captured call history: zero or more frames, most recent first.
///
/// An empty trace is a valid state: the error was wrapped outside any
/// instrumented call.
#[derive(Debug, Clone)]
pub struct CallHistory {
    pub frames: Vec<Frame>,
}

/// The `with` line of a frame's rendering; empty when the frame has no fields.
pub open spec fn fields_text(f: Frame) -> Seq<char> {
    if f.fields@.len() == 0 {
        Seq::<char>::empty()
    } else {
        "        with "@ + f.fields@ + "\n"@
    }
}

/// The `at` line of a frame's rendering; empty when the source location is
/// not known in full.
pub open spec fn location_text(f: Frame) -> Seq<char> {
    if f.file is Some && f.line is Some {
        "          at "@ + f.file.unwrap()@ + ":"@ + decimal(f.line.unwrap() as nat) + "\n"@
    } else {
        Seq::<char>::empty()
    }
}

/// The rendering of one frame under index `i`: the index and name line, then
/// the field line if any fields were captured, then the location line if the
/// source location is known.
pub open spec fn frame_text(i: int, f: Frame) -> Seq<char> {
    decimal(i as nat) + ": "@ + f.name@ + "\n"@ + fields_text(f) + location_text(f)
}

/// The rendering of the first `n` frames, in order, indexed from 0.
pub open spec fn frames_text_prefix(frames: Seq<Frame>, n: int) -> Seq<char>
    decreases n,
{
    if n <= 0 {
        Seq::<char>::empty()
    } else {
        frames_text_prefix(frames, n - 1) + frame_text(n - 1, frames[n - 1])
    }
}

/// The rendering of a whole call history: every frame in order, most recent
/// first, indexed from 0.
pub open spec fn history_text(t: CallHistory) -> Seq<char> {
    frames_text_prefix(t.frames@, t.frames@.len() as int)
}

/// Appends the rendering of `frame` under index `index` to `out`.
fn push_frame_text(out: &mut String, index: usize, frame: &Frame)
    ensures
        final(out)@ == old(out)@ + frame_text(index as int, *frame),
{
    push_decimal(out, index as u64);
    out.append(": ");
    out.append(frame.name.as_str());
    out.append("\n");
    if !frame.fields.as_str().is_empty() {
        out.append("        with ");
        out.append(frame.fields.as_str());
        out.append("\n");
    }
    if frame.file.is_some() && frame.line.is_some() {
        out.append("          at ");
        out.append(frame.file.as_ref().unwrap().as_str());
        out.append(":");
        push_decimal(out, *frame.line.as_ref().unwrap());
        out.append("\n");
    }
    proof {
        assert(out@ =~= old(out)@ + frame_text(index as int, *frame));
    }
}

impl CallHistory {
    /// Renders the whole call history, one block of lines per frame, most
    /// recent first.
    pub fn render(&self) -> (r: String)
        ensures
            r@ == history_text(*self),
    {
        let mut out = String::new();
        let mut i: usize = 0;
        while i < self.frames.len()
            invariant
                i <= self.frames@.len(),
                out@ == frames_text_prefix(self.frames@, i as int),
            decreases self.frames@.len() - i,
        {
            push_frame_text(&mut out, i, &self.frames[i]);
            i += 1;
        }
        out
    }
}

#[verifier::external_type_specification]
#[verifier::external_body]
pub struct ExSpanTrace(tracing_error::SpanTrace);

/// Relies on `tracing_error::SpanTrace::capture`: takes an immutable snapshot
/// of the instrumented spans active on the current thread. Which spans those
/// are depends on ambient subscriber state, so nothing is promised of the
/// result.
#[verifier::external_body]
fn capture_raw_span_trace() -> tracing_error::SpanTrace {
    tracing_error::SpanTrace::capture()
}

/// Relies on `tracing_error::SpanTrace::with_spans`: visits each captured
/// span, most recent first, handing over its metadata and its fields
/// pre-rendered as `name=value` text. Each visit is converted, one for one,
/// into a [`Frame`].
#[verifier::external_body]
fn frames_of_raw_span_trace(trace: &tracing_error::SpanTrace) -> Vec<Frame> {
    let mut frames: Vec<Frame> = Vec::new();
    trace.with_spans(|metadata, fields| {
        frames.push(Frame {
            name: format!("{}::{}", metadata.target(), metadata.name()),
            fields: fields.to_string(),
            file: metadata.file().map(|f| f.to_string()),
            line: metadata.line().map(|l| l as u64),
        });
        true
    });
    frames
}

impl CallHistory {
    /// Captures the instrumented call frames active on the current thread as
    /// an immutable snapshot. The snapshot depends on ambient subscriber
    /// state; rendering is specified for every value it may take.
    pub fn capture() -> CallHistory {
        let raw = capture_raw_span_trace();
        CallHistory { frames: frames_of_raw_span_trace(&raw) }
    }
}

} // verus!
