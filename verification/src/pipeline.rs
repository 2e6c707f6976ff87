//! The middleware pipeline the server layers around every request: an
//! ordered set of request/response transformers. Their inner workings
//! (span recording, timing out a request, compressing a body, keeping
//! credential headers out of logs) belong to the HTTP stack; the
//! pipeline's composition and order are this core's decision.

use vstd::prelude::*;

verus! {

/// The capabilities layered around the request handler.
#[derive(Clone, Copy, Debug, PartialEq, Eq, Structural)]
pub enum LayerKind {
    /// Opens the request span and records the response outcome.
    Observe,
    /// Bounds how long one request may run.
    TimeBound,
    /// Compresses response bodies.
    Compress,
    /// Marks credential-carrying headers sensitive so they never show
    /// in logs or spans.
    RedactSensitiveHeaders,
}

/// The fixed order of the pipeline, outermost first: observation wraps
/// everything, then the time bound, then compression, and header
/// redaction sits innermost.
pub open spec fn pipeline_spec() -> Seq<LayerKind> {
    seq![
        LayerKind::Observe,
        LayerKind::TimeBound,
        LayerKind::Compress,
        LayerKind::RedactSensitiveHeaders,
    ]
}

/// Builds the pipeline in its fixed order.
pub fn middleware_pipeline() -> (v: Vec<LayerKind>)
    ensures
        v@ == pipeline_spec(),
{
    let mut v: Vec<LayerKind> = Vec::new();
    v.push(LayerKind::Observe);
    v.push(LayerKind::TimeBound);
    v.push(LayerKind::Compress);
    v.push(LayerKind::RedactSensitiveHeaders);
    proof {
        assert(v@ =~= pipeline_spec());
    }
    v
}

/// The header names the redaction layer marks sensitive.
pub open spec fn sensitive_names_spec() -> Seq<Seq<char>> {
    seq!["authorization"@, "cookie"@]
}

/// The headers whose values must never reach logs or spans.
pub fn sensitive_header_names() -> (v: Vec<&'static str>)
    ensures
        v@.len() == sensitive_names_spec().len(),
        forall|i: int| 0 <= i < v@.len() ==> v@[i]@ == sensitive_names_spec()[i],
{
    let mut v: Vec<&'static str> = Vec::new();
    v.push("authorization");
    v.push("cookie");
    v
}

} // verus!
