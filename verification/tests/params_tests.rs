use earningsfeed::{FilingStatus, ListFilingsParams, ListInsiderParams, ListInstitutionalParams,
    PutCallFilter, SearchCompaniesParams, TransactionDirection};

#[test]
fn test_list_filings_params_builder() {
    let params = ListFilingsParams::builder()
        .ticker("AAPL")
        .forms(&vec!["10-K", "10-Q"])
        .limit(10)
        .build();

    assert_eq!(params.ticker, Some("AAPL".to_string()));
    assert_eq!(params.forms, Some("10-K,10-Q".to_string()));
    assert_eq!(params.limit, Some(10));
}

#[test]
fn test_list_filings_params_default() {
    let params = ListFilingsParams::default();
    assert!(params.ticker.is_none());
    assert!(params.forms.is_none());
    assert!(params.limit.is_none());
}

#[test]
fn test_list_filings_params_serialize() {
    let params = ListFilingsParams::builder()
        .ticker("AAPL")
        .status(FilingStatus::Final)
        .limit(20)
        .build();

    let pairs = params.to_query_pairs();
    assert_eq!(
        pairs,
        vec![
            ("ticker".to_string(), "AAPL".to_string()),
            ("status".to_string(), "final".to_string()),
            ("limit".to_string(), "20".to_string()),
        ]
    );
    // None fields are not serialized.
    assert!(pairs.iter().all(|(k, _)| k != "cik"));
}

#[test]
fn test_list_filings_params_with_dates() {
    let params = ListFilingsParams::builder()
        .start_date("2024-01-01")
        .end_date("2024-12-31")
        .build();

    assert_eq!(params.start_date, Some("2024-01-01".to_string()));
    assert_eq!(params.end_date, Some("2024-12-31".to_string()));
}

#[test]
fn test_list_insider_params_builder() {
    let params = ListInsiderParams::builder()
        .ticker("AAPL")
        .direction(TransactionDirection::Buy)
        .min_value(100000)
        .build();

    assert_eq!(params.ticker, Some("AAPL".to_string()));
    assert_eq!(params.direction, Some(TransactionDirection::Buy));
    assert_eq!(params.min_value, Some(100000));
}

#[test]
fn test_list_insider_params_with_codes() {
    let params = ListInsiderParams::builder().codes(&vec!["P", "S", "M"]).build();

    assert_eq!(params.codes, Some("P,S,M".to_string()));
}

#[test]
fn test_list_insider_params_serialize() {
    let params = ListInsiderParams::builder()
        .direction(TransactionDirection::Sell)
        .derivative(true)
        .build();

    let pairs = params.to_query_pairs();
    assert_eq!(
        pairs,
        vec![
            ("direction".to_string(), "sell".to_string()),
            ("derivative".to_string(), "true".to_string()),
        ]
    );
}

#[test]
fn test_list_institutional_params_builder() {
    let params = ListInstitutionalParams::builder()
        .ticker("AAPL")
        .manager_cik(102909)
        .put_call(PutCallFilter::Equity)
        .build();

    assert_eq!(params.ticker, Some("AAPL".to_string()));
    assert_eq!(params.manager_cik, Some(102909));
    assert_eq!(params.put_call, Some(PutCallFilter::Equity));
}

#[test]
fn test_list_institutional_params_serialize() {
    let params = ListInstitutionalParams::builder()
        .cusip("037833100")
        .report_period("2024-09-30")
        .build();

    let pairs = params.to_query_pairs();
    assert_eq!(
        pairs,
        vec![
            ("cusip".to_string(), "037833100".to_string()),
            ("reportPeriod".to_string(), "2024-09-30".to_string()),
        ]
    );
}

#[test]
fn test_search_companies_params_builder() {
    let params = SearchCompaniesParams::builder().q("Apple").state("CA").limit(25).build();

    assert_eq!(params.q, Some("Apple".to_string()));
    assert_eq!(params.state, Some("CA".to_string()));
    assert_eq!(params.limit, Some(25));
}

#[test]
fn test_search_companies_params_serialize() {
    let params = SearchCompaniesParams::builder().sic_code(3571).build();

    let pairs = params.to_query_pairs();
    assert_eq!(pairs, vec![("sicCode".to_string(), "3571".to_string())]);
}

#[test]
fn test_filing_status_serialize() {
    assert_eq!(FilingStatus::All.query_value(), "all");
    assert_eq!(FilingStatus::Provisional.query_value(), "provisional");
    assert_eq!(FilingStatus::Final.query_value(), "final");
}

#[test]
fn test_transaction_direction_serialize() {
    assert_eq!(TransactionDirection::Buy.query_value(), "buy");
    assert_eq!(TransactionDirection::Sell.query_value(), "sell");
}

#[test]
fn test_put_call_filter_serialize() {
    assert_eq!(PutCallFilter::Put.query_value(), "put");
    assert_eq!(PutCallFilter::Call.query_value(), "call");
    assert_eq!(PutCallFilter::Equity.query_value(), "equity");
}

#[test]
fn test_empty_params_serialize_to_no_pairs() {
    let params = ListFilingsParams::default();
    assert!(params.to_query_pairs().is_empty());

    let params = ListInsiderParams::default();
    assert!(params.to_query_pairs().is_empty());

    let params = ListInstitutionalParams::default();
    assert!(params.to_query_pairs().is_empty());

    let params = SearchCompaniesParams::default();
    assert!(params.to_query_pairs().is_empty());
}

#[test]
fn test_full_filings_params_round_trip_values() {
    let params = ListFilingsParams::builder()
        .forms(&vec!["10-K", "10-Q"])
        .ticker("AAPL")
        .cik(320193)
        .status(FilingStatus::All)
        .start_date("2024-01-01")
        .end_date("2024-12-31")
        .q("annual report")
        .limit(100)
        .cursor("abc123")
        .build();

    let pairs = params.to_query_pairs();
    assert_eq!(
        pairs,
        vec![
            ("forms".to_string(), "10-K,10-Q".to_string()),
            ("ticker".to_string(), "AAPL".to_string()),
            ("cik".to_string(), "320193".to_string()),
            ("status".to_string(), "all".to_string()),
            ("startDate".to_string(), "2024-01-01".to_string()),
            ("endDate".to_string(), "2024-12-31".to_string()),
            ("q".to_string(), "annual report".to_string()),
            ("limit".to_string(), "100".to_string()),
            ("cursor".to_string(), "abc123".to_string()),
        ]
    );
}
