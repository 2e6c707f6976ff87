use lifecycle_core::pipeline::{middleware_pipeline, sensitive_header_names, LayerKind};

#[test]
fn pipeline_order_is_fixed() {
    let stack = middleware_pipeline();
    assert_eq!(
        stack,
        vec![
            LayerKind::Observe,
            LayerKind::TimeBound,
            LayerKind::Compress,
            LayerKind::RedactSensitiveHeaders,
        ]
    );
}

#[test]
fn credential_headers_are_redacted() {
    assert_eq!(sensitive_header_names(), vec!["authorization", "cookie"]);
}
