//! Per-request trace spans: parenting decision, protocol-version text,
//! and response-status classification.

use vstd::prelude::*;

verus! {

/// The closed set of HTTP protocol versions a request span records.
#[derive(Clone, Copy, Debug, PartialEq, Eq, Structural)]
pub enum HttpVersion {
    V09,
    V10,
    V11,
    V2,
    V3,
    Other,
}

/// The canonical textual form of each protocol version, with the empty
/// string as the explicit fallback for unrecognized versions.
pub open spec fn flavor_spec(v: HttpVersion) -> Seq<char> {
    match v {
        HttpVersion::V09 => "0.9"@,
        HttpVersion::V10 => "1.0"@,
        HttpVersion::V11 => "1.1"@,
        HttpVersion::V2 => "2.0"@,
        HttpVersion::V3 => "3.0"@,
        HttpVersion::Other => ""@,
    }
}

/// Maps a protocol version to its canonical textual form.
pub fn http_flavor(v: HttpVersion) -> (r: &'static str)
    ensures
        r@ == flavor_spec(v),
{
    match v {
        HttpVersion::V09 => "0.9",
        HttpVersion::V10 => "1.0",
        HttpVersion::V11 => "1.1",
        HttpVersion::V2 => "2.0",
        HttpVersion::V3 => "3.0",
        HttpVersion::Other => "",
    }
}

/// Coarse outcome classification recorded on a span at response time.
#[derive(Clone, Copy, Debug, PartialEq, Eq, Structural)]
pub enum StatusClass {
    Success,
    Failure,
    Unset,
}

/// Classification of a numeric response status: successful responses
/// (2xx and 3xx) are `Success`, client and server errors (4xx and 5xx)
/// are `Failure`, anything else (e.g. informational) stays `Unset`.
pub open spec fn classify_spec(code: u16) -> StatusClass {
    if 200 <= code && code < 400 {
        StatusClass::Success
    } else if 400 <= code && code < 600 {
        StatusClass::Failure
    } else {
        StatusClass::Unset
    }
}

/// Classifies a response status code.
pub fn classify_status(code: u16) -> (c: StatusClass)
    ensures
        c == classify_spec(code),
{
    if 200 <= code && code < 400 {
        StatusClass::Success
    } else if 400 <= code && code < 600 {
        StatusClass::Failure
    } else {
        StatusClass::Unset
    }
}

/// The textual label recorded for each classification.
pub open spec fn label_spec(c: StatusClass) -> Seq<char> {
    match c {
        StatusClass::Success => "ok"@,
        StatusClass::Failure => "error"@,
        StatusClass::Unset => "unset"@,
    }
}

impl StatusClass {
    /// The label written onto the span for this classification.
    pub fn label(self) -> (r: &'static str)
        ensures
            r@ == label_spec(self),
    {
        match self {
            StatusClass::Success => "ok",
            StatusClass::Failure => "error",
            StatusClass::Unset => "unset",
        }
    }
}

/// What the pluggable propagator's header extraction yields, reduced to
/// the fields the parenting decision reads: the trace and span
/// identifiers and whether the context came from a remote caller.
#[derive(Clone, Copy, Debug, PartialEq, Eq, Structural)]
pub struct TraceContext {
    pub trace_id: u128,
    pub span_id: u64,
    pub remote: bool,
}

/// How a request span is parented.
#[derive(Clone, Copy, Debug, PartialEq, Eq, Structural)]
pub enum SpanParent {
    /// The extracted context is a genuine remote parent.
    Remote(TraceContext),
    /// No usable remote context: the span starts a fresh root trace.
    LocalRoot,
}

/// The parenting decision: a context extracted from a remote caller
/// parents the span; an empty or locally originated context does not,
/// lest every request look like the child of a degenerate empty trace.
pub open spec fn parent_spec(cx: TraceContext) -> SpanParent {
    if cx.remote {
        SpanParent::Remote(cx)
    } else {
        SpanParent::LocalRoot
    }
}

/// The kind marking of a request span. Every span this core opens is a
/// server span; the marking is fixed at creation, so the type has no
/// other value.
#[derive(Clone, Copy, Debug, PartialEq, Eq, Structural)]
pub enum SpanKind {
    Server,
}

/// The outcome fields recorded at response completion: the literal
/// numeric status code and its coarse classification.
#[derive(Clone, Copy, Debug, PartialEq, Eq, Structural)]
pub struct SpanOutcome {
    pub code: u16,
    pub class: StatusClass,
}

/// A per-request record carrying trace parentage, HTTP method, target
/// and protocol version, and a deferred status outcome; created at
/// request entry, finalized once at response completion.
pub struct RequestSpan {
    pub parent: SpanParent,
    pub kind: SpanKind,
    pub method: String,
    pub target: String,
    pub flavor: &'static str,
    pub user_agent: Option<String>,
    pub outcome: Option<SpanOutcome>,
}

impl RequestSpan {
    /// Opens the span for one inbound request. Purely observational:
    /// the request itself is left untouched, the span only copies what
    /// it records.
    pub fn open_span(
        cx: TraceContext,
        method: String,
        target: String,
        version: HttpVersion,
        user_agent: Option<String>,
    ) -> (s: RequestSpan)
        ensures
            s.parent == parent_spec(cx),
            s.kind == SpanKind::Server,
            s.method == method,
            s.target == target,
            s.flavor@ == flavor_spec(version),
            s.user_agent == user_agent,
            s.outcome is None,
    {
        let parent = if cx.remote {
            SpanParent::Remote(cx)
        } else {
            SpanParent::LocalRoot
        };
        RequestSpan {
            parent,
            kind: SpanKind::Server,
            method,
            target,
            flavor: http_flavor(version),
            user_agent,
            outcome: None,
        }
    }

    /// Records the response outcome: the classification and the literal
    /// numeric status code, verbatim. Everything recorded at creation
    /// stays as it was.
    pub fn finalize(&mut self, code: u16)
        requires
            old(self).outcome is None,
        ensures
            final(self).outcome == Some(SpanOutcome { code, class: classify_spec(code) }),
            final(self).parent == old(self).parent,
            final(self).kind == old(self).kind,
            final(self).method == old(self).method,
            final(self).target == old(self).target,
            final(self).flavor == old(self).flavor,
            final(self).user_agent == old(self).user_agent,
    {
        let class = classify_status(code);
        self.outcome = Some(SpanOutcome { code, class });
    }
}

} // verus!
