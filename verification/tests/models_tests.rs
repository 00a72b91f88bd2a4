use earningsfeed::{AcquiredDisposed, Company, DirectIndirect, Filing, InsiderTransaction,
    InstitutionalHolding, InvestmentDiscretion, SharesType};

#[test]
fn test_company_is_clone() {
    let company = Company {
        cik: 320193,
        name: "Apple Inc.".to_string(),
        entity_type: None,
        category: None,
        description: None,
        tickers: vec![],
        primary_ticker: None,
        sic_codes: vec![],
        ein: None,
        fiscal_year_end: None,
        state_of_incorporation: None,
        state_of_incorporation_description: None,
        phone: None,
        website: None,
        investor_website: None,
        addresses: vec![],
        logo_url: None,
        has_insider_transactions: true,
        is_insider: false,
        updated_at: "2024-01-15T12:00:00Z".to_string(),
    };

    let cloned = company.clone();
    assert_eq!(cloned.cik, company.cik);
    assert_eq!(cloned.name, company.name);
}

#[test]
fn test_filing_is_clone() {
    let filing = Filing {
        accession_number: "0000950170-24-000001".to_string(),
        accession_no_dashes: None,
        cik: 320193,
        company_name: None,
        form_type: "10-K".to_string(),
        filed_at: "2024-01-15T16:30:00Z".to_string(),
        accept_ts: None,
        provisional: false,
        feed_day: None,
        size_bytes: 1000,
        url: "https://www.sec.gov/...".to_string(),
        title: "Form 10-K".to_string(),
        status: "final".to_string(),
        updated_at: "2024-01-15T17:00:00Z".to_string(),
        primary_ticker: None,
        primary_exchange: None,
        company: None,
        sorted_at: "2024-01-15T16:30:00Z".to_string(),
        logo_url: None,
        entity_class: None,
    };

    let cloned = filing.clone();
    assert_eq!(cloned.accession_number, filing.accession_number);
}

#[test]
fn test_insider_transaction_is_clone() {
    let txn = InsiderTransaction {
        accession_number: "0001127602-24-000001".to_string(),
        filed_at: "2024-01-15T18:30:00Z".to_string(),
        form_type: "4".to_string(),
        person_cik: 1234567,
        person_name: "Test Person".to_string(),
        company_cik: 320193,
        company_name: None,
        ticker: None,
        is_director: false,
        is_officer: false,
        is_ten_percent_owner: true,
        is_other: false,
        officer_title: None,
        security_title: "Common Stock".to_string(),
        is_derivative: false,
        transaction_date: "2024-01-12".to_string(),
        transaction_code: "P".to_string(),
        equity_swap_involved: false,
        shares: None,
        price_per_share: None,
        acquired_disposed: AcquiredDisposed::A,
        shares_after: None,
        direct_indirect: DirectIndirect::D,
        ownership_nature: None,
        conversion_or_exercise_price: None,
        exercise_date: None,
        expiration_date: None,
        underlying_security_title: None,
        underlying_shares: None,
        transaction_value: None,
    };

    let cloned = txn.clone();
    assert_eq!(cloned.accession_number, txn.accession_number);
    assert_eq!(cloned.person_name, txn.person_name);
}

#[test]
fn test_institutional_holding_is_clone() {
    let holding = InstitutionalHolding {
        cusip: "037833100".to_string(),
        issuer_name: "APPLE INC".to_string(),
        class_title: "COM".to_string(),
        company_cik: None,
        ticker: None,
        value: "5000000".to_string(),
        shares: "25000".to_string(),
        shares_type: SharesType::SH,
        put_call: None,
        investment_discretion: InvestmentDiscretion::Sole,
        other_manager: None,
        voting_sole: None,
        voting_shared: None,
        voting_none: None,
        manager_cik: 102909,
        manager_name: "TEST MANAGER".to_string(),
        report_period_date: "2024-09-30".to_string(),
        filed_at: "2024-11-14T16:30:00Z".to_string(),
        accession_number: "0000950123-24-012345".to_string(),
    };

    let cloned = holding.clone();
    assert_eq!(cloned.cusip, holding.cusip);
    assert_eq!(cloned.manager_cik, holding.manager_cik);
}
