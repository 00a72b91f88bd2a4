//! Company-related types.
//!
//! This module contains types for company profiles and search results.
//! Timestamps are carried as RFC 3339 text, exactly as the wire format
//! delivers them.

use vstd::prelude::*;

verus! {

/// Stock ticker information.
#[derive(Debug, Clone)]
pub struct Ticker {
    /// Ticker symbol.
    pub symbol: String,
    /// Exchange name.
    pub exchange: String,
    /// Whether this is the primary ticker.
    pub is_primary: bool,
}

/// Standard Industrial Classification code.
#[derive(Debug, Clone)]
pub struct SicCode {
    /// SIC code number.
    pub code: u32,
    /// SIC description.
    pub description: String,
}

/// Company address.
#[derive(Debug, Clone)]
pub struct Address {
    /// Address type (mailing, business).
    pub address_type: String,
    /// Street line 1.
    pub street1: Option<String>,
    /// Street line 2.
    pub street2: Option<String>,
    /// City.
    pub city: Option<String>,
    /// State or country code.
    pub state_or_country: Option<String>,
    /// State or country name.
    pub state_or_country_description: Option<String>,
    /// ZIP/postal code.
    pub zip_code: Option<String>,
}

/// Company profile.
///
/// Full company information returned from the company detail endpoint.
#[derive(Debug, Clone)]
pub struct Company {
    /// SEC Central Index Key.
    pub cik: u64,
    /// Company name.
    pub name: String,
    /// Entity type.
    pub entity_type: Option<String>,
    /// Category.
    pub category: Option<String>,
    /// Company description.
    pub description: Option<String>,
    /// Stock tickers.
    pub tickers: Vec<Ticker>,
    /// Primary ticker symbol.
    pub primary_ticker: Option<String>,
    /// SIC codes.
    pub sic_codes: Vec<SicCode>,
    /// Employer Identification Number.
    pub ein: Option<String>,
    /// Fiscal year end (MMDD format).
    pub fiscal_year_end: Option<String>,
    /// State of incorporation code.
    pub state_of_incorporation: Option<String>,
    /// State of incorporation name.
    pub state_of_incorporation_description: Option<String>,
    /// Phone number.
    pub phone: Option<String>,
    /// Company website.
    pub website: Option<String>,
    /// Investor relations website.
    pub investor_website: Option<String>,
    /// Company addresses.
    pub addresses: Vec<Address>,
    /// Company logo URL.
    pub logo_url: Option<String>,
    /// Whether company has insider transactions.
    pub has_insider_transactions: bool,
    /// Whether entity is an insider.
    pub is_insider: bool,
    /// Last updated timestamp (RFC 3339).
    pub updated_at: String,
}

/// Company search result.
///
/// Simplified company information returned from the search endpoint.
#[derive(Debug, Clone)]
pub struct CompanySearchResult {
    /// SEC Central Index Key.
    pub cik: u64,
    /// Company name.
    pub name: String,
    /// Primary ticker symbol.
    pub ticker: Option<String>,
    /// Primary exchange.
    pub exchange: Option<String>,
    /// Entity type.
    pub entity_type: Option<String>,
    /// Category.
    pub category: Option<String>,
    /// SIC code.
    pub sic_code: Option<u32>,
    /// SIC description.
    pub sic_description: Option<String>,
    /// Company logo URL.
    pub logo_url: Option<String>,
}

} // verus!
