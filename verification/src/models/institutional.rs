//! Institutional holdings types.
//!
//! This module contains types for 13F institutional holdings data.
//! Timestamps and dates are carried as RFC 3339 / YYYY-MM-DD text, and
//! decimal amounts as their decimal text, exactly as the wire format
//! delivers them.

use vstd::prelude::*;

verus! {

/// Shares type indicator.
#[derive(Debug, Clone, Copy, PartialEq, Eq, Structural)]
pub enum SharesType {
    /// Shares (stock).
    SH,
    /// Principal amount (bonds/notes).
    PRN,
}

/// Put/Call indicator for options.
#[derive(Debug, Clone, Copy, PartialEq, Eq, Structural)]
pub enum PutCall {
    /// Put option.
    Put,
    /// Call option.
    Call,
}

/// Investment discretion type.
#[derive(Debug, Clone, Copy, PartialEq, Eq, Structural)]
pub enum InvestmentDiscretion {
    /// Sole discretion.
    Sole,
    /// Defined discretion.
    Dfnd,
    /// Other discretion.
    Other,
}

/// Institutional holding from 13F filing.
///
/// Represents a single holding position from an institutional manager's
/// 13F-HR filing.
#[derive(Debug, Clone)]
pub struct InstitutionalHolding {
    /// 9-character CUSIP identifier.
    pub cusip: String,
    /// Issuer name.
    pub issuer_name: String,
    /// Share class title.
    pub class_title: String,
    /// Company CIK.
    pub company_cik: Option<u64>,
    /// Stock ticker.
    pub ticker: Option<String>,
    /// Market value in USD, as decimal text.
    pub value: String,
    /// Number of shares, as decimal text.
    pub shares: String,
    /// Shares type: SH (shares) or PRN (principal amount).
    pub shares_type: SharesType,
    /// Put or Call option indicator.
    pub put_call: Option<PutCall>,
    /// Investment discretion type.
    pub investment_discretion: InvestmentDiscretion,
    /// Other manager identifier.
    pub other_manager: Option<String>,
    /// Sole voting authority shares, as decimal text.
    pub voting_sole: Option<String>,
    /// Shared voting authority shares, as decimal text.
    pub voting_shared: Option<String>,
    /// No voting authority shares, as decimal text.
    pub voting_none: Option<String>,
    /// Manager CIK.
    pub manager_cik: u64,
    /// Manager name.
    pub manager_name: String,
    /// Quarter end date (YYYY-MM-DD).
    pub report_period_date: String,
    /// Filing submission time (RFC 3339).
    pub filed_at: String,
    /// SEC accession number.
    pub accession_number: String,
}

} // verus!
