use earningsfeed::{build_url, company_path, evaluate_response, filing_path, Error,
    ListFilingsParams, COMPANY_SEARCH_PATH, FILINGS_PATH, INSIDER_TRANSACTIONS_PATH,
    INSTITUTIONAL_HOLDINGS_PATH};

#[test]
fn test_success_statuses_yield_ok() {
    assert!(evaluate_response(FILINGS_PATH, 200, None, b"{}").is_ok());
    assert!(evaluate_response(FILINGS_PATH, 204, None, b"").is_ok());
    assert!(evaluate_response(FILINGS_PATH, 299, None, b"ignored").is_ok());
}

#[test]
fn test_401_yields_authentication() {
    let err = evaluate_response(FILINGS_PATH, 401, None, b"").unwrap_err();
    assert!(matches!(err, Error::Authentication));
}

#[test]
fn test_404_yields_not_found_with_path() {
    let err = evaluate_response("/api/v1/filings/invalid", 404, None, b"{\"error\":\"Filing not found\"}")
        .unwrap_err();
    match err {
        Error::NotFound { path } => assert_eq!(path, "/api/v1/filings/invalid"),
        _ => panic!("wrong kind"),
    }
}

#[test]
fn test_429_reads_rate_limit_reset_header() {
    let err = evaluate_response(FILINGS_PATH, 429, Some("1703520000"), b"").unwrap_err();
    match err {
        Error::RateLimit { reset_at } => assert_eq!(reset_at, Some(1703520000)),
        _ => panic!("wrong kind"),
    }
}

#[test]
fn test_429_without_header_has_no_reset() {
    let err = evaluate_response(FILINGS_PATH, 429, None, b"").unwrap_err();
    match err {
        Error::RateLimit { reset_at } => assert_eq!(reset_at, None),
        _ => panic!("wrong kind"),
    }
}

#[test]
fn test_429_with_unparseable_header_has_no_reset() {
    let err = evaluate_response(FILINGS_PATH, 429, Some("soon"), b"").unwrap_err();
    match err {
        Error::RateLimit { reset_at } => assert_eq!(reset_at, None),
        _ => panic!("wrong kind"),
    }
}

#[test]
fn test_400_carries_server_message() {
    let body = b"{\"error\":\"limit must be between 1 and 100\"}";
    let err = evaluate_response(FILINGS_PATH, 400, None, body).unwrap_err();
    match err {
        Error::Validation { message } => assert_eq!(message, "limit must be between 1 and 100"),
        _ => panic!("wrong kind"),
    }
}

#[test]
fn test_400_with_malformed_body_falls_back() {
    let err = evaluate_response(FILINGS_PATH, 400, None, b"not json at all").unwrap_err();
    match err {
        Error::Validation { message } => assert_eq!(message, "Invalid request"),
        _ => panic!("wrong kind"),
    }
}

#[test]
fn test_500_carries_message_and_code() {
    let body = b"{\"error\":\"Internal server error\",\"code\":\"INTERNAL_ERROR\"}";
    let err = evaluate_response(FILINGS_PATH, 500, None, body).unwrap_err();
    match err {
        Error::Api { status, message, code } => {
            assert_eq!(status, 500);
            assert_eq!(message, "Internal server error");
            assert_eq!(code, Some("INTERNAL_ERROR".to_string()));
        },
        _ => panic!("wrong kind"),
    }
}

#[test]
fn test_503_with_empty_body_falls_back() {
    let err = evaluate_response(FILINGS_PATH, 503, None, b"").unwrap_err();
    match err {
        Error::Api { status, message, code } => {
            assert_eq!(status, 503);
            assert_eq!(message, "Unknown error");
            assert_eq!(code, None);
        },
        _ => panic!("wrong kind"),
    }
}

#[test]
fn test_error_body_with_non_string_members_falls_back() {
    let body = b"{\"error\":42,\"code\":true}";
    let err = evaluate_response(FILINGS_PATH, 500, None, body).unwrap_err();
    match err {
        Error::Api { message, code, .. } => {
            assert_eq!(message, "Unknown error");
            assert_eq!(code, None);
        },
        _ => panic!("wrong kind"),
    }
}

#[test]
fn test_endpoint_paths() {
    assert_eq!(FILINGS_PATH, "/api/v1/filings");
    assert_eq!(INSIDER_TRANSACTIONS_PATH, "/api/v1/insider/transactions");
    assert_eq!(INSTITUTIONAL_HOLDINGS_PATH, "/api/v1/institutional/holdings");
    assert_eq!(COMPANY_SEARCH_PATH, "/api/v1/companies/search");
}

#[test]
fn test_detail_paths() {
    assert_eq!(filing_path("0000950170-24-000001"), "/api/v1/filings/0000950170-24-000001");
    assert_eq!(company_path(320193), "/api/v1/companies/320193");
}

#[test]
fn test_build_url_concatenates() {
    assert_eq!(build_url("https://earningsfeed.com", "/api/v1/filings"),
        "https://earningsfeed.com/api/v1/filings");
}

#[test]
fn test_identical_list_calls_yield_identical_results() {
    // The whole verified pipeline of a list call is a function of its
    // inputs alone: serializing the same parameters and classifying the
    // same response twice yields the same outcome both times.
    let params = ListFilingsParams::builder().ticker("AAPL").limit(10).build();
    let first_query = params.to_query_pairs();
    let second_query = params.to_query_pairs();
    assert_eq!(first_query, second_query);

    let body = b"{\"error\":\"Internal server error\"}";
    let first = evaluate_response(FILINGS_PATH, 500, None, body).unwrap_err();
    let second = evaluate_response(FILINGS_PATH, 500, None, body).unwrap_err();
    assert_eq!(first.describe(), second.describe());
}
