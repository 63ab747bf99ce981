use deribit_mcp::error::{classify_request_failure, AdapterError, McpErrorCategory, UpstreamErrorKind};
use deribit_mcp::number::F64Bits;

#[test]
fn api_error_keeps_code_and_message() {
    assert_eq!(
        classify_request_failure("API error: 11044 - not_open_order"),
        UpstreamErrorKind::Api { code: Some(11044), message: "not_open_order".to_string() }
    );
    assert_eq!(
        classify_request_failure("API error: -32602 - Invalid params - detail"),
        UpstreamErrorKind::Api { code: Some(-32602), message: "Invalid params - detail".to_string() }
    );
    assert_eq!(
        classify_request_failure("API error: 10009 - "),
        UpstreamErrorKind::Api { code: Some(10009), message: String::new() }
    );
}

#[test]
fn other_failures_stay_http() {
    for msg in [
        "HTTP 502 Bad Gateway",
        "API error: abc - x",
        "API error: +5 - x",
        "API error: 12",
        "API error: 12 x",
        "API error:  - x",
        "API error: 9223372036854775808 - too big",
        "",
    ] {
        assert_eq!(
            classify_request_failure(msg),
            UpstreamErrorKind::Http { message: msg.to_string() },
            "{msg:?}"
        );
    }
    assert_eq!(
        classify_request_failure("API error: 9223372036854775807 - max"),
        UpstreamErrorKind::Api { code: Some(i64::MAX), message: "max".to_string() }
    );
}

#[test]
fn validation_class_errors_are_invalid_params() {
    let v = AdapterError::validation("name", "unknown tool: `x`".to_string());
    assert_eq!(v.category(), McpErrorCategory::InvalidParams);
    assert_eq!(v.validation_field().as_deref(), Some("name"));
    let n = AdapterError::InvalidNumber { field: "amount".to_string(), value: F64Bits::from_bits(0) };
    assert_eq!(n.category(), McpErrorCategory::InvalidParams);
    assert_eq!(n.validation_field().as_deref(), Some("amount"));
    let e = AdapterError::not_enabled("place_order", "--allow-trading");
    assert_eq!(e.category(), McpErrorCategory::InternalError);
    assert_eq!(e.validation_field(), None);
    assert_eq!(AdapterError::internal("x").category(), McpErrorCategory::InternalError);
}
