use lifecycle_core::span::{
    classify_status, http_flavor, HttpVersion, RequestSpan, SpanKind, SpanParent, StatusClass,
    TraceContext,
};

#[test]
fn flavor_of_each_version() {
    assert_eq!(http_flavor(HttpVersion::V09), "0.9");
    assert_eq!(http_flavor(HttpVersion::V10), "1.0");
    assert_eq!(http_flavor(HttpVersion::V11), "1.1");
    assert_eq!(http_flavor(HttpVersion::V2), "2.0");
    assert_eq!(http_flavor(HttpVersion::V3), "3.0");
    assert_eq!(http_flavor(HttpVersion::Other), "");
}

#[test]
fn status_200_is_ok() {
    let c = classify_status(200);
    assert_eq!(c, StatusClass::Success);
    assert_eq!(c.label(), "ok");
}

#[test]
fn status_404_and_500_are_error() {
    assert_eq!(classify_status(404), StatusClass::Failure);
    assert_eq!(classify_status(404).label(), "error");
    assert_eq!(classify_status(500), StatusClass::Failure);
    assert_eq!(classify_status(500).label(), "error");
}

#[test]
fn status_101_is_unset() {
    assert_eq!(classify_status(101), StatusClass::Unset);
    assert_eq!(classify_status(101).label(), "unset");
}

#[test]
fn status_redirect_is_ok() {
    assert_eq!(classify_status(301), StatusClass::Success);
    assert_eq!(classify_status(399), StatusClass::Success);
    assert_eq!(classify_status(400), StatusClass::Failure);
    assert_eq!(classify_status(599), StatusClass::Failure);
    assert_eq!(classify_status(600), StatusClass::Unset);
    assert_eq!(classify_status(0), StatusClass::Unset);
}

#[test]
fn status_classification_boundaries() {
    assert_eq!(classify_status(199), StatusClass::Unset);
    assert_eq!(classify_status(200), StatusClass::Success);
    assert_eq!(classify_status(299), StatusClass::Success);
    assert_eq!(classify_status(300), StatusClass::Success);
}

#[test]
fn remote_context_parents_the_span() {
    let cx = TraceContext { trace_id: 7, span_id: 11, remote: true };
    let s = RequestSpan::open_span(
        cx,
        String::from("GET"),
        String::from("/health"),
        HttpVersion::V11,
        None,
    );
    assert_eq!(s.parent, SpanParent::Remote(cx));
    assert_eq!(s.kind, SpanKind::Server);
    assert_eq!(s.method, "GET");
    assert_eq!(s.target, "/health");
    assert_eq!(s.flavor, "1.1");
    assert!(s.outcome.is_none());
}

#[test]
fn local_context_starts_a_fresh_root() {
    let cx = TraceContext { trace_id: 0, span_id: 0, remote: false };
    let s = RequestSpan::open_span(
        cx,
        String::from("POST"),
        String::from("/login"),
        HttpVersion::V2,
        Some(String::from("curl/8.0")),
    );
    assert_eq!(s.parent, SpanParent::LocalRoot);
    assert_eq!(s.user_agent, Some(String::from("curl/8.0")));
}

#[test]
fn finalize_records_code_verbatim() {
    let cx = TraceContext { trace_id: 1, span_id: 2, remote: true };
    let mut s = RequestSpan::open_span(
        cx,
        String::from("GET"),
        String::from("/"),
        HttpVersion::V11,
        None,
    );
    s.finalize(404);
    let outcome = s.outcome.expect("finalized span has an outcome");
    assert_eq!(outcome.code, 404);
    assert_eq!(outcome.class, StatusClass::Failure);
    assert_eq!(s.parent, SpanParent::Remote(cx));
    assert_eq!(s.method, "GET");
}
