//! Insider transaction types.
//!
//! This module contains types for Form 3/4/5 insider trading data.
//! Timestamps and dates are carried as RFC 3339 / YYYY-MM-DD text, and
//! decimal amounts as their decimal text, exactly as the wire format
//! delivers them.

use vstd::prelude::*;

verus! {

/// Direction of transaction (acquired or disposed).
#[derive(Debug, Clone, Copy, PartialEq, Eq, Structural)]
pub enum AcquiredDisposed {
    /// Shares were acquired.
    A,
    /// Shares were disposed.
    D,
}

/// Ownership type (direct or indirect).
#[derive(Debug, Clone, Copy, PartialEq, Eq, Structural)]
pub enum DirectIndirect {
    /// Direct ownership.
    D,
    /// Indirect ownership.
    I,
}

/// Insider transaction from Form 3/4/5.
///
/// Represents a single transaction from an insider trading filing.
#[derive(Debug, Clone)]
pub struct InsiderTransaction {
    /// SEC accession number.
    pub accession_number: String,
    /// Filing submission time (RFC 3339).
    pub filed_at: String,
    /// Form type (3, 4, or 5).
    pub form_type: String,
    /// Insider's CIK.
    pub person_cik: u64,
    /// Insider's name.
    pub person_name: String,
    /// Company CIK.
    pub company_cik: u64,
    /// Company name.
    pub company_name: Option<String>,
    /// Stock ticker.
    pub ticker: Option<String>,
    /// Whether insider is a director.
    pub is_director: bool,
    /// Whether insider is an officer.
    pub is_officer: bool,
    /// Whether insider is a 10% owner.
    pub is_ten_percent_owner: bool,
    /// Whether insider has other relationship.
    pub is_other: bool,
    /// Officer title.
    pub officer_title: Option<String>,
    /// Security title.
    pub security_title: String,
    /// Whether this is a derivative transaction.
    pub is_derivative: bool,
    /// Transaction date (YYYY-MM-DD).
    pub transaction_date: String,
    /// Transaction code (P, S, A, M, G, etc.).
    pub transaction_code: String,
    /// Whether equity swap was involved.
    pub equity_swap_involved: bool,
    /// Number of shares, as decimal text.
    pub shares: Option<String>,
    /// Price per share, as decimal text.
    pub price_per_share: Option<String>,
    /// Acquired (A) or Disposed (D).
    pub acquired_disposed: AcquiredDisposed,
    /// Shares owned after transaction, as decimal text.
    pub shares_after: Option<String>,
    /// Direct (D) or Indirect (I) ownership.
    pub direct_indirect: DirectIndirect,
    /// Nature of indirect ownership.
    pub ownership_nature: Option<String>,
    /// Derivative conversion/exercise price, as decimal text.
    pub conversion_or_exercise_price: Option<String>,
    /// Derivative exercise date (YYYY-MM-DD).
    pub exercise_date: Option<String>,
    /// Derivative expiration date (YYYY-MM-DD).
    pub expiration_date: Option<String>,
    /// Underlying security title.
    pub underlying_security_title: Option<String>,
    /// Underlying shares, as decimal text.
    pub underlying_shares: Option<String>,
    /// Total transaction value, as decimal text.
    pub transaction_value: Option<String>,
}

} // verus!
