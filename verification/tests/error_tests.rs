use earningsfeed::Error;

fn assert_send_sync<T: Send + Sync>() {}

#[test]
fn test_authentication_error_display() {
    let err = Error::Authentication;
    assert_eq!(err.describe(), "authentication failed: invalid or missing API key");
}

#[test]
fn test_rate_limit_error_with_reset_at() {
    let err = Error::RateLimit { reset_at: Some(1703520000) };
    assert_eq!(err.describe(), "rate limit exceeded (resets at: Some(1703520000))");
}

#[test]
fn test_rate_limit_error_without_reset_at() {
    let err = Error::RateLimit { reset_at: None };
    assert_eq!(err.describe(), "rate limit exceeded (resets at: None)");
}

#[test]
fn test_not_found_error_display() {
    let err = Error::NotFound { path: "/api/v1/filings/invalid".to_string() };
    assert_eq!(err.describe(), "resource not found: /api/v1/filings/invalid");
}

#[test]
fn test_validation_error_display() {
    let err = Error::Validation { message: "limit must be between 1 and 100".to_string() };
    assert_eq!(err.describe(), "validation error: limit must be between 1 and 100");
}

#[test]
fn test_api_error_display() {
    let err = Error::Api {
        status: 500,
        message: "Internal server error".to_string(),
        code: Some("INTERNAL_ERROR".to_string()),
    };
    assert_eq!(err.describe(), "API error (500): Internal server error");
}

#[test]
fn test_api_error_without_code() {
    let err = Error::Api { status: 503, message: "Service unavailable".to_string(), code: None };
    assert_eq!(err.describe(), "API error (503): Service unavailable");
}

#[test]
fn test_timeout_error_display() {
    let err = Error::Timeout { seconds: 30 };
    assert_eq!(err.describe(), "request timeout after 30s");
}

#[test]
fn test_config_error_display() {
    let err = Error::Config("invalid API key format".to_string());
    assert_eq!(err.describe(), "configuration error: invalid API key format");
}

#[test]
fn test_transport_error_display() {
    let err = Error::Transport { message: "connection refused".to_string() };
    assert_eq!(err.describe(), "HTTP error: connection refused");
}

#[test]
fn test_serialization_error_display() {
    let err = Error::Serialization { message: "unexpected end of input".to_string() };
    assert_eq!(err.describe(), "JSON error: unexpected end of input");
}

#[test]
fn test_error_is_send_sync() {
    assert_send_sync::<Error>();
}
