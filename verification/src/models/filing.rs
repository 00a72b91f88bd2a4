//! Filing-related types.
//!
//! This module contains types for SEC filings including 10-K, 10-Q, 8-K,
//! and other form types.  Timestamps are carried as RFC 3339 text, exactly
//! as the wire format delivers them.

use vstd::prelude::*;

verus! {

/// Company details attached to a filing.
#[derive(Debug, Clone)]
pub struct FilingCompany {
    /// SEC Central Index Key.
    pub cik: u64,
    /// Company name.
    pub name: String,
    /// State/country code.
    pub state_of_incorporation: Option<String>,
    /// Full state/country name.
    pub state_of_incorporation_description: Option<String>,
    /// Fiscal year end (MMDD format).
    pub fiscal_year_end: Option<String>,
}

/// Entity type classification.
#[derive(Debug, Clone, Copy, PartialEq, Eq, Structural)]
pub enum EntityClass {
    /// Company entity.
    Company,
    /// Person entity.
    Person,
}

/// SEC filing from the filings feed.
///
/// Represents a filing in the list endpoint response.
#[derive(Debug, Clone)]
pub struct Filing {
    /// SEC accession number (e.g., "0000950170-24-000001").
    pub accession_number: String,
    /// Accession number without dashes.
    pub accession_no_dashes: Option<String>,
    /// Filer CIK.
    pub cik: u64,
    /// Company name.
    pub company_name: Option<String>,
    /// SEC form type (10-K, 8-K, etc.).
    pub form_type: String,
    /// Filing submission time (RFC 3339).
    pub filed_at: String,
    /// SEC acceptance time (RFC 3339).
    pub accept_ts: Option<String>,
    /// Whether filing is provisional.
    pub provisional: bool,
    /// Feed day (YYYY-MM-DD).
    pub feed_day: Option<String>,
    /// Primary document size in bytes.
    pub size_bytes: u64,
    /// SEC EDGAR URL.
    pub url: String,
    /// Filing title.
    pub title: String,
    /// Filing status.
    pub status: String,
    /// Last updated timestamp (RFC 3339).
    pub updated_at: String,
    /// Primary stock ticker.
    pub primary_ticker: Option<String>,
    /// Primary exchange.
    pub primary_exchange: Option<String>,
    /// Company details.
    pub company: Option<FilingCompany>,
    /// Sort timestamp (RFC 3339).
    pub sorted_at: String,
    /// Company logo URL.
    pub logo_url: Option<String>,
    /// Entity class.
    pub entity_class: Option<EntityClass>,
}

/// Document within a filing.
#[derive(Debug, Clone)]
pub struct FilingDocument {
    /// Document sequence number.
    pub seq: u32,
    /// Filename on SEC EDGAR.
    pub filename: String,
    /// Document type.
    pub doc_type: String,
    /// Document description.
    pub description: Option<String>,
    /// Whether this is the primary document.
    pub is_primary: bool,
}

/// Entity role in a filing.
#[derive(Debug, Clone)]
pub struct FilingRole {
    /// Entity CIK.
    pub cik: u64,
    /// Role type (filer, issuer, reporting-owner, etc.).
    pub role: String,
}

/// Detailed filing information.
///
/// Returned from the single filing endpoint with full details
/// including documents and roles.
#[derive(Debug, Clone)]
pub struct FilingDetail {
    /// SEC accession number.
    pub accession_number: String,
    /// Accession number without dashes.
    pub accession_no_dashes: Option<String>,
    /// Filer CIK.
    pub cik: u64,
    /// SEC form type.
    pub form_type: String,
    /// Filing submission time (RFC 3339).
    pub filed_at: String,
    /// SEC acceptance time (RFC 3339).
    pub accept_ts: Option<String>,
    /// Whether filing is provisional.
    pub provisional: bool,
    /// Feed day (YYYY-MM-DD).
    pub feed_day: Option<String>,
    /// Filing title.
    pub title: String,
    /// SEC EDGAR URL.
    pub url: String,
    /// Primary document size in bytes.
    pub size_bytes: u64,
    /// SEC relative directory.
    pub sec_relative_dir: Option<String>,
    /// Company name.
    pub company_name: Option<String>,
    /// Primary stock ticker.
    pub primary_ticker: Option<String>,
    /// Company details.
    pub company: Option<FilingCompany>,
    /// Filing documents.
    pub documents: Vec<FilingDocument>,
    /// Entity roles.
    pub roles: Vec<FilingRole>,
}

} // verus!
