//! Request parameter types.
//!
//! This module contains builder-style parameter types for API requests,
//! and their serialization to query pairs.  Every field is optional and
//! absent fields are omitted from the query entirely.

use vstd::prelude::*;

verus! {

use crate::query::{clone_opt_string, exec_fields_view, opt_bool, opt_bool_string, opt_num,
    opt_num32, opt_num32_string, opt_num_string, pairs_view, render, render_pairs};
use crate::text::{comma_join, join_comma, strs_view};

/// Filing status filter.
#[derive(Debug, Clone, Copy, PartialEq, Eq, Structural)]
pub enum FilingStatus {
    /// All filings.
    All,
    /// Provisional filings only.
    Provisional,
    /// Final filings only.
    Final,
}

/// The query text of a filing status.
pub open spec fn status_text(s: FilingStatus) -> Seq<char> {
    match s {
        FilingStatus::All => "all"@,
        FilingStatus::Provisional => "provisional"@,
        FilingStatus::Final => "final"@,
    }
}

/// An optional filing status, rendered as its query text.
pub open spec fn opt_status(v: Option<FilingStatus>) -> Option<Seq<char>> {
    match v {
        Some(s) => Some(status_text(s)),
        None => None,
    }
}

impl FilingStatus {
    /// The value this filter takes in a query string.
    pub fn query_value(&self) -> (r: &'static str)
        ensures
            r@ == status_text(*self),
    {
        match self {
            FilingStatus::All => "all",
            FilingStatus::Provisional => "provisional",
            FilingStatus::Final => "final",
        }
    }
}

/// Transaction direction filter.
#[derive(Debug, Clone, Copy, PartialEq, Eq, Structural)]
pub enum TransactionDirection {
    /// Buy transactions.
    Buy,
    /// Sell transactions.
    Sell,
}

/// The query text of a transaction direction.
pub open spec fn direction_text(d: TransactionDirection) -> Seq<char> {
    match d {
        TransactionDirection::Buy => "buy"@,
        TransactionDirection::Sell => "sell"@,
    }
}

/// An optional direction, rendered as its query text.
pub open spec fn opt_direction(v: Option<TransactionDirection>) -> Option<Seq<char>> {
    match v {
        Some(d) => Some(direction_text(d)),
        None => None,
    }
}

impl TransactionDirection {
    /// The value this filter takes in a query string.
    pub fn query_value(&self) -> (r: &'static str)
        ensures
            r@ == direction_text(*self),
    {
        match self {
            TransactionDirection::Buy => "buy",
            TransactionDirection::Sell => "sell",
        }
    }
}

/// Put/call filter for institutional holdings.
#[derive(Debug, Clone, Copy, PartialEq, Eq, Structural)]
pub enum PutCallFilter {
    /// Put options only.
    Put,
    /// Call options only.
    Call,
    /// Equity (non-option) positions only.
    Equity,
}

/// The query text of a put/call filter.
pub open spec fn put_call_text(p: PutCallFilter) -> Seq<char> {
    match p {
        PutCallFilter::Put => "put"@,
        PutCallFilter::Call => "call"@,
        PutCallFilter::Equity => "equity"@,
    }
}

/// An optional put/call filter, rendered as its query text.
pub open spec fn opt_put_call(v: Option<PutCallFilter>) -> Option<Seq<char>> {
    match v {
        Some(p) => Some(put_call_text(p)),
        None => None,
    }
}

impl PutCallFilter {
    /// The value this filter takes in a query string.
    pub fn query_value(&self) -> (r: &'static str)
        ensures
            r@ == put_call_text(*self),
    {
        match self {
            PutCallFilter::Put => "put",
            PutCallFilter::Call => "call",
            PutCallFilter::Equity => "equity",
        }
    }
}

/// Renders an optional status filter for a field list.
fn opt_status_string(v: &Option<FilingStatus>) -> (r: Option<String>)
    ensures
        r.deep_view() == opt_status(*v),
{
    match v {
        Some(s) => Some(s.query_value().to_owned()),
        None => None,
    }
}

/// Renders an optional direction filter for a field list.
fn opt_direction_string(v: &Option<TransactionDirection>) -> (r: Option<String>)
    ensures
        r.deep_view() == opt_direction(*v),
{
    match v {
        Some(d) => Some(d.query_value().to_owned()),
        None => None,
    }
}

/// Renders an optional put/call filter for a field list.
fn opt_put_call_string(v: &Option<PutCallFilter>) -> (r: Option<String>)
    ensures
        r.deep_view() == opt_put_call(*v),
{
    match v {
        Some(pc) => Some(pc.query_value().to_owned()),
        None => None,
    }
}

/// Parameters for listing filings.
///
/// Use the builder to construct parameters; every field is optional.
#[derive(Debug, Clone)]
pub struct ListFilingsParams {
    /// Filter by form types, pre-joined with commas.
    pub forms: Option<String>,
    /// Filter by ticker symbol.
    pub ticker: Option<String>,
    /// Filter by CIK.
    pub cik: Option<u64>,
    /// Filter by filing status.
    pub status: Option<FilingStatus>,
    /// Start date (YYYY-MM-DD).
    pub start_date: Option<String>,
    /// End date (YYYY-MM-DD).
    pub end_date: Option<String>,
    /// Search query.
    pub q: Option<String>,
    /// Results per page (1-100).
    pub limit: Option<u32>,
    /// Pagination cursor.
    pub cursor: Option<String>,
}

/// Whether every field of the filing parameters is absent.
pub open spec fn filings_params_empty(p: ListFilingsParams) -> bool {
    &&& p.forms is None
    &&& p.ticker is None
    &&& p.cik is None
    &&& p.status is None
    &&& p.start_date is None
    &&& p.end_date is None
    &&& p.q is None
    &&& p.limit is None
    &&& p.cursor is None
}

/// The filing parameters as a field list, in declaration order.
pub open spec fn filings_fields(p: ListFilingsParams) -> Seq<(Seq<char>, Option<Seq<char>>)> {
    seq![
        ("forms"@, p.forms.deep_view()),
        ("ticker"@, p.ticker.deep_view()),
        ("cik"@, opt_num(p.cik)),
        ("status"@, opt_status(p.status)),
        ("startDate"@, p.start_date.deep_view()),
        ("endDate"@, p.end_date.deep_view()),
        ("q"@, p.q.deep_view()),
        ("limit"@, opt_num32(p.limit)),
        ("cursor"@, p.cursor.deep_view()),
    ]
}

/// The query pairs of filing parameters: each present field, in
/// declaration order, absent fields omitted.
pub open spec fn filings_query(p: ListFilingsParams) -> Seq<(Seq<char>, Seq<char>)> {
    render(filings_fields(p))
}

impl core::default::Default for ListFilingsParams {
    /// Parameters with every filter absent.
    fn default() -> (r: Self)
        ensures
            filings_params_empty(r),
    {
        ListFilingsParams {
            forms: None,
            ticker: None,
            cik: None,
            status: None,
            start_date: None,
            end_date: None,
            q: None,
            limit: None,
            cursor: None,
        }
    }
}

impl ListFilingsParams {
    /// Create a new builder for filing parameters.
    pub fn builder() -> (r: ListFilingsParamsBuilder)
        ensures
            filings_params_empty(r.params),
    {
        ListFilingsParamsBuilder {
            params: ListFilingsParams {
                forms: None,
                ticker: None,
                cik: None,
                status: None,
                start_date: None,
                end_date: None,
                q: None,
                limit: None,
                cursor: None,
            },
        }
    }

    /// Serialize the present fields as query pairs, in declaration order;
    /// absent fields contribute nothing.
    pub fn to_query_pairs(&self) -> (r: Vec<(String, String)>)
        ensures
            pairs_view(r@) == filings_query(*self),
    {
        let mut fields: Vec<(&'static str, Option<String>)> = Vec::new();
        fields.push(("forms", clone_opt_string(&self.forms)));
        fields.push(("ticker", clone_opt_string(&self.ticker)));
        fields.push(("cik", opt_num_string(&self.cik)));
        fields.push(("status", opt_status_string(&self.status)));
        fields.push(("startDate", clone_opt_string(&self.start_date)));
        fields.push(("endDate", clone_opt_string(&self.end_date)));
        fields.push(("q", clone_opt_string(&self.q)));
        fields.push(("limit", opt_num32_string(&self.limit)));
        fields.push(("cursor", clone_opt_string(&self.cursor)));
        proof {
            assert(exec_fields_view(fields@) =~= filings_fields(*self));
        }
        render_pairs(&fields)
    }
}

/// Builder for `ListFilingsParams`.
#[derive(Debug)]
pub struct ListFilingsParamsBuilder {
    pub params: ListFilingsParams,
}

impl ListFilingsParamsBuilder {
    /// Filter by form types; the given forms are joined with commas.
    pub fn forms(self, forms: &[&str]) -> (r: Self)
        ensures
            r.params.forms matches Some(s) && s@ == comma_join(strs_view(forms@)),
            r.params == (ListFilingsParams { forms: r.params.forms, ..self.params }),
    {
        ListFilingsParamsBuilder {
            params: ListFilingsParams { forms: Some(join_comma(forms)), ..self.params },
        }
    }

    /// Filter by ticker symbol.
    pub fn ticker(self, ticker: &str) -> (r: Self)
        ensures
            r.params.ticker matches Some(t) && t@ == ticker@,
            r.params == (ListFilingsParams { ticker: r.params.ticker, ..self.params }),
    {
        ListFilingsParamsBuilder {
            params: ListFilingsParams { ticker: Some(ticker.to_owned()), ..self.params },
        }
    }

    /// Filter by CIK.
    pub fn cik(self, cik: u64) -> (r: Self)
        ensures
            r.params == (ListFilingsParams { cik: Some(cik), ..self.params }),
    {
        ListFilingsParamsBuilder {
            params: ListFilingsParams { cik: Some(cik), ..self.params },
        }
    }

    /// Filter by filing status.
    pub fn status(self, status: FilingStatus) -> (r: Self)
        ensures
            r.params == (ListFilingsParams { status: Some(status), ..self.params }),
    {
        ListFilingsParamsBuilder {
            params: ListFilingsParams { status: Some(status), ..self.params },
        }
    }

    /// Filter by start date (YYYY-MM-DD).
    pub fn start_date(self, date: &str) -> (r: Self)
        ensures
            r.params.start_date matches Some(d) && d@ == date@,
            r.params == (ListFilingsParams { start_date: r.params.start_date, ..self.params }),
    {
        ListFilingsParamsBuilder {
            params: ListFilingsParams { start_date: Some(date.to_owned()), ..self.params },
        }
    }

    /// Filter by end date (YYYY-MM-DD).
    pub fn end_date(self, date: &str) -> (r: Self)
        ensures
            r.params.end_date matches Some(d) && d@ == date@,
            r.params == (ListFilingsParams { end_date: r.params.end_date, ..self.params }),
    {
        ListFilingsParamsBuilder {
            params: ListFilingsParams { end_date: Some(date.to_owned()), ..self.params },
        }
    }

    /// Search query.
    pub fn q(self, query: &str) -> (r: Self)
        ensures
            r.params.q matches Some(s) && s@ == query@,
            r.params == (ListFilingsParams { q: r.params.q, ..self.params }),
    {
        ListFilingsParamsBuilder {
            params: ListFilingsParams { q: Some(query.to_owned()), ..self.params },
        }
    }

    /// Results per page (1-100).
    pub fn limit(self, limit: u32) -> (r: Self)
        ensures
            r.params == (ListFilingsParams { limit: Some(limit), ..self.params }),
    {
        ListFilingsParamsBuilder {
            params: ListFilingsParams { limit: Some(limit), ..self.params },
        }
    }

    /// Pagination cursor.
    pub fn cursor(self, cursor: &str) -> (r: Self)
        ensures
            r.params.cursor matches Some(c) && c@ == cursor@,
            r.params == (ListFilingsParams { cursor: r.params.cursor, ..self.params }),
    {
        ListFilingsParamsBuilder {
            params: ListFilingsParams { cursor: Some(cursor.to_owned()), ..self.params },
        }
    }

    /// Build the parameters.
    pub fn build(self) -> (r: ListFilingsParams)
        ensures
            r == self.params,
    {
        self.params
    }
}

/// Parameters for listing insider transactions.
#[derive(Debug, Clone)]
pub struct ListInsiderParams {
    /// Filter by ticker symbol.
    pub ticker: Option<String>,
    /// Filter by company CIK.
    pub cik: Option<u64>,
    /// Filter by person CIK.
    pub person_cik: Option<u64>,
    /// Filter by direction.
    pub direction: Option<TransactionDirection>,
    /// Filter by transaction codes, pre-joined with commas.
    pub codes: Option<String>,
    /// Filter derivatives only.
    pub derivative: Option<bool>,
    /// Minimum transaction value.
    pub min_value: Option<u64>,
    /// Start date (YYYY-MM-DD).
    pub start_date: Option<String>,
    /// End date (YYYY-MM-DD).
    pub end_date: Option<String>,
    /// Results per page (1-100).
    pub limit: Option<u32>,
    /// Pagination cursor.
    pub cursor: Option<String>,
}

/// Whether every field of the insider parameters is absent.
pub open spec fn insider_params_empty(p: ListInsiderParams) -> bool {
    &&& p.ticker is None
    &&& p.cik is None
    &&& p.person_cik is None
    &&& p.direction is None
    &&& p.codes is None
    &&& p.derivative is None
    &&& p.min_value is None
    &&& p.start_date is None
    &&& p.end_date is None
    &&& p.limit is None
    &&& p.cursor is None
}

/// The insider parameters as a field list, in declaration order.
pub open spec fn insider_fields(p: ListInsiderParams) -> Seq<(Seq<char>, Option<Seq<char>>)> {
    seq![
        ("ticker"@, p.ticker.deep_view()),
        ("cik"@, opt_num(p.cik)),
        ("personCik"@, opt_num(p.person_cik)),
        ("direction"@, opt_direction(p.direction)),
        ("codes"@, p.codes.deep_view()),
        ("derivative"@, opt_bool(p.derivative)),
        ("minValue"@, opt_num(p.min_value)),
        ("startDate"@, p.start_date.deep_view()),
        ("endDate"@, p.end_date.deep_view()),
        ("limit"@, opt_num32(p.limit)),
        ("cursor"@, p.cursor.deep_view()),
    ]
}

/// The query pairs of insider parameters: each present field, in
/// declaration order, absent fields omitted.
pub open spec fn insider_query(p: ListInsiderParams) -> Seq<(Seq<char>, Seq<char>)> {
    render(insider_fields(p))
}

impl core::default::Default for ListInsiderParams {
    /// Parameters with every filter absent.
    fn default() -> (r: Self)
        ensures
            insider_params_empty(r),
    {
        ListInsiderParams {
            ticker: None,
            cik: None,
            person_cik: None,
            direction: None,
            codes: None,
            derivative: None,
            min_value: None,
            start_date: None,
            end_date: None,
            limit: None,
            cursor: None,
        }
    }
}

impl ListInsiderParams {
    /// Create a new builder for insider parameters.
    pub fn builder() -> (r: ListInsiderParamsBuilder)
        ensures
            insider_params_empty(r.params),
    {
        ListInsiderParamsBuilder {
            params: ListInsiderParams {
                ticker: None,
                cik: None,
                person_cik: None,
                direction: None,
                codes: None,
                derivative: None,
                min_value: None,
                start_date: None,
                end_date: None,
                limit: None,
                cursor: None,
            },
        }
    }

    /// Serialize the present fields as query pairs, in declaration order;
    /// absent fields contribute nothing.
    pub fn to_query_pairs(&self) -> (r: Vec<(String, String)>)
        ensures
            pairs_view(r@) == insider_query(*self),
    {
        let mut fields: Vec<(&'static str, Option<String>)> = Vec::new();
        fields.push(("ticker", clone_opt_string(&self.ticker)));
        fields.push(("cik", opt_num_string(&self.cik)));
        fields.push(("personCik", opt_num_string(&self.person_cik)));
        fields.push(("direction", opt_direction_string(&self.direction)));
        fields.push(("codes", clone_opt_string(&self.codes)));
        fields.push(("derivative", opt_bool_string(&self.derivative)));
        fields.push(("minValue", opt_num_string(&self.min_value)));
        fields.push(("startDate", clone_opt_string(&self.start_date)));
        fields.push(("endDate", clone_opt_string(&self.end_date)));
        fields.push(("limit", opt_num32_string(&self.limit)));
        fields.push(("cursor", clone_opt_string(&self.cursor)));
        proof {
            assert(exec_fields_view(fields@) =~= insider_fields(*self));
        }
        render_pairs(&fields)
    }
}

/// Builder for `ListInsiderParams`.
#[derive(Debug)]
pub struct ListInsiderParamsBuilder {
    pub params: ListInsiderParams,
}

impl ListInsiderParamsBuilder {
    /// Filter by ticker symbol.
    pub fn ticker(self, ticker: &str) -> (r: Self)
        ensures
            r.params.ticker matches Some(t) && t@ == ticker@,
            r.params == (ListInsiderParams { ticker: r.params.ticker, ..self.params }),
    {
        ListInsiderParamsBuilder {
            params: ListInsiderParams { ticker: Some(ticker.to_owned()), ..self.params },
        }
    }

    /// Filter by company CIK.
    pub fn cik(self, cik: u64) -> (r: Self)
        ensures
            r.params == (ListInsiderParams { cik: Some(cik), ..self.params }),
    {
        ListInsiderParamsBuilder {
            params: ListInsiderParams { cik: Some(cik), ..self.params },
        }
    }

    /// Filter by person CIK.
    pub fn person_cik(self, cik: u64) -> (r: Self)
        ensures
            r.params == (ListInsiderParams { person_cik: Some(cik), ..self.params }),
    {
        ListInsiderParamsBuilder {
            params: ListInsiderParams { person_cik: Some(cik), ..self.params },
        }
    }

    /// Filter by direction (buy/sell).
    pub fn direction(self, direction: TransactionDirection) -> (r: Self)
        ensures
            r.params == (ListInsiderParams { direction: Some(direction), ..self.params }),
    {
        ListInsiderParamsBuilder {
            params: ListInsiderParams { direction: Some(direction), ..self.params },
        }
    }

    /// Filter by transaction codes; the given codes are joined with commas.
    pub fn codes(self, codes: &[&str]) -> (r: Self)
        ensures
            r.params.codes matches Some(s) && s@ == comma_join(strs_view(codes@)),
            r.params == (ListInsiderParams { codes: r.params.codes, ..self.params }),
    {
        ListInsiderParamsBuilder {
            params: ListInsiderParams { codes: Some(join_comma(codes)), ..self.params },
        }
    }

    /// Filter derivatives only.
    pub fn derivative(self, derivative: bool) -> (r: Self)
        ensures
            r.params == (ListInsiderParams { derivative: Some(derivative), ..self.params }),
    {
        ListInsiderParamsBuilder {
            params: ListInsiderParams { derivative: Some(derivative), ..self.params },
        }
    }

    /// Minimum transaction value.
    pub fn min_value(self, value: u64) -> (r: Self)
        ensures
            r.params == (ListInsiderParams { min_value: Some(value), ..self.params }),
    {
        ListInsiderParamsBuilder {
            params: ListInsiderParams { min_value: Some(value), ..self.params },
        }
    }

    /// Filter by start date (YYYY-MM-DD).
    pub fn start_date(self, date: &str) -> (r: Self)
        ensures
            r.params.start_date matches Some(d) && d@ == date@,
            r.params == (ListInsiderParams { start_date: r.params.start_date, ..self.params }),
    {
        ListInsiderParamsBuilder {
            params: ListInsiderParams { start_date: Some(date.to_owned()), ..self.params },
        }
    }

    /// Filter by end date (YYYY-MM-DD).
    pub fn end_date(self, date: &str) -> (r: Self)
        ensures
            r.params.end_date matches Some(d) && d@ == date@,
            r.params == (ListInsiderParams { end_date: r.params.end_date, ..self.params }),
    {
        ListInsiderParamsBuilder {
            params: ListInsiderParams { end_date: Some(date.to_owned()), ..self.params },
        }
    }

    /// Results per page (1-100).
    pub fn limit(self, limit: u32) -> (r: Self)
        ensures
            r.params == (ListInsiderParams { limit: Some(limit), ..self.params }),
    {
        ListInsiderParamsBuilder {
            params: ListInsiderParams { limit: Some(limit), ..self.params },
        }
    }

    /// Pagination cursor.
    pub fn cursor(self, cursor: &str) -> (r: Self)
        ensures
            r.params.cursor matches Some(c) && c@ == cursor@,
            r.params == (ListInsiderParams { cursor: r.params.cursor, ..self.params }),
    {
        ListInsiderParamsBuilder {
            params: ListInsiderParams { cursor: Some(cursor.to_owned()), ..self.params },
        }
    }

    /// Build the parameters.
    pub fn build(self) -> (r: ListInsiderParams)
        ensures
            r == self.params,
    {
        self.params
    }
}

/// Parameters for listing institutional holdings.
#[derive(Debug, Clone)]
pub struct ListInstitutionalParams {
    /// Filter by company CIK.
    pub cik: Option<u64>,
    /// Filter by ticker symbol.
    pub ticker: Option<String>,
    /// Filter by CUSIP.
    pub cusip: Option<String>,
    /// Filter by manager CIK.
    pub manager_cik: Option<u64>,
    /// Filter by minimum value.
    pub min_value: Option<u64>,
    /// Filter by put/call/equity.
    pub put_call: Option<PutCallFilter>,
    /// Filter by report period (YYYY-MM-DD).
    pub report_period: Option<String>,
    /// Results per page (1-100).
    pub limit: Option<u32>,
    /// Pagination cursor.
    pub cursor: Option<String>,
}

/// Whether every field of the institutional parameters is absent.
pub open spec fn institutional_params_empty(p: ListInstitutionalParams) -> bool {
    &&& p.cik is None
    &&& p.ticker is None
    &&& p.cusip is None
    &&& p.manager_cik is None
    &&& p.min_value is None
    &&& p.put_call is None
    &&& p.report_period is None
    &&& p.limit is None
    &&& p.cursor is None
}

/// The institutional parameters as a field list, in declaration order.
pub open spec fn institutional_fields(p: ListInstitutionalParams) -> Seq<
    (Seq<char>, Option<Seq<char>>),
> {
    seq![
        ("cik"@, opt_num(p.cik)),
        ("ticker"@, p.ticker.deep_view()),
        ("cusip"@, p.cusip.deep_view()),
        ("managerCik"@, opt_num(p.manager_cik)),
        ("minValue"@, opt_num(p.min_value)),
        ("putCall"@, opt_put_call(p.put_call)),
        ("reportPeriod"@, p.report_period.deep_view()),
        ("limit"@, opt_num32(p.limit)),
        ("cursor"@, p.cursor.deep_view()),
    ]
}

/// The query pairs of institutional parameters: each present field, in
/// declaration order, absent fields omitted.
pub open spec fn institutional_query(p: ListInstitutionalParams) -> Seq<(Seq<char>, Seq<char>)> {
    render(institutional_fields(p))
}

impl core::default::Default for ListInstitutionalParams {
    /// Parameters with every filter absent.
    fn default() -> (r: Self)
        ensures
            institutional_params_empty(r),
    {
        ListInstitutionalParams {
            cik: None,
            ticker: None,
            cusip: None,
            manager_cik: None,
            min_value: None,
            put_call: None,
            report_period: None,
            limit: None,
            cursor: None,
        }
    }
}

impl ListInstitutionalParams {
    /// Create a new builder for institutional parameters.
    pub fn builder() -> (r: ListInstitutionalParamsBuilder)
        ensures
            institutional_params_empty(r.params),
    {
        ListInstitutionalParamsBuilder {
            params: ListInstitutionalParams {
                cik: None,
                ticker: None,
                cusip: None,
                manager_cik: None,
                min_value: None,
                put_call: None,
                report_period: None,
                limit: None,
                cursor: None,
            },
        }
    }

    /// Serialize the present fields as query pairs, in declaration order;
    /// absent fields contribute nothing.
    pub fn to_query_pairs(&self) -> (r: Vec<(String, String)>)
        ensures
            pairs_view(r@) == institutional_query(*self),
    {
        let mut fields: Vec<(&'static str, Option<String>)> = Vec::new();
        fields.push(("cik", opt_num_string(&self.cik)));
        fields.push(("ticker", clone_opt_string(&self.ticker)));
        fields.push(("cusip", clone_opt_string(&self.cusip)));
        fields.push(("managerCik", opt_num_string(&self.manager_cik)));
        fields.push(("minValue", opt_num_string(&self.min_value)));
        fields.push(("putCall", opt_put_call_string(&self.put_call)));
        fields.push(("reportPeriod", clone_opt_string(&self.report_period)));
        fields.push(("limit", opt_num32_string(&self.limit)));
        fields.push(("cursor", clone_opt_string(&self.cursor)));
        proof {
            assert(exec_fields_view(fields@) =~= institutional_fields(*self));
        }
        render_pairs(&fields)
    }
}

/// Builder for `ListInstitutionalParams`.
#[derive(Debug)]
pub struct ListInstitutionalParamsBuilder {
    pub params: ListInstitutionalParams,
}

impl ListInstitutionalParamsBuilder {
    /// Filter by company CIK.
    pub fn cik(self, cik: u64) -> (r: Self)
        ensures
            r.params == (ListInstitutionalParams { cik: Some(cik), ..self.params }),
    {
        ListInstitutionalParamsBuilder {
            params: ListInstitutionalParams { cik: Some(cik), ..self.params },
        }
    }

    /// Filter by ticker symbol.
    pub fn ticker(self, ticker: &str) -> (r: Self)
        ensures
            r.params.ticker matches Some(t) && t@ == ticker@,
            r.params == (ListInstitutionalParams { ticker: r.params.ticker, ..self.params }),
    {
        ListInstitutionalParamsBuilder {
            params: ListInstitutionalParams { ticker: Some(ticker.to_owned()), ..self.params },
        }
    }

    /// Filter by CUSIP.
    pub fn cusip(self, cusip: &str) -> (r: Self)
        ensures
            r.params.cusip matches Some(c) && c@ == cusip@,
            r.params == (ListInstitutionalParams { cusip: r.params.cusip, ..self.params }),
    {
        ListInstitutionalParamsBuilder {
            params: ListInstitutionalParams { cusip: Some(cusip.to_owned()), ..self.params },
        }
    }

    /// Filter by manager CIK.
    pub fn manager_cik(self, cik: u64) -> (r: Self)
        ensures
            r.params == (ListInstitutionalParams { manager_cik: Some(cik), ..self.params }),
    {
        ListInstitutionalParamsBuilder {
            params: ListInstitutionalParams { manager_cik: Some(cik), ..self.params },
        }
    }

    /// Filter by minimum value.
    pub fn min_value(self, value: u64) -> (r: Self)
        ensures
            r.params == (ListInstitutionalParams { min_value: Some(value), ..self.params }),
    {
        ListInstitutionalParamsBuilder {
            params: ListInstitutionalParams { min_value: Some(value), ..self.params },
        }
    }

    /// Filter by put/call/equity.
    pub fn put_call(self, put_call: PutCallFilter) -> (r: Self)
        ensures
            r.params == (ListInstitutionalParams { put_call: Some(put_call), ..self.params }),
    {
        ListInstitutionalParamsBuilder {
            params: ListInstitutionalParams { put_call: Some(put_call), ..self.params },
        }
    }

    /// Filter by report period (YYYY-MM-DD).
    pub fn report_period(self, date: &str) -> (r: Self)
        ensures
            r.params.report_period matches Some(d) && d@ == date@,
            r.params == (ListInstitutionalParams {
                report_period: r.params.report_period,
                ..self.params
            }),
    {
        ListInstitutionalParamsBuilder {
            params: ListInstitutionalParams {
                report_period: Some(date.to_owned()),
                ..self.params
            },
        }
    }

    /// Results per page (1-100).
    pub fn limit(self, limit: u32) -> (r: Self)
        ensures
            r.params == (ListInstitutionalParams { limit: Some(limit), ..self.params }),
    {
        ListInstitutionalParamsBuilder {
            params: ListInstitutionalParams { limit: Some(limit), ..self.params },
        }
    }

    /// Pagination cursor.
    pub fn cursor(self, cursor: &str) -> (r: Self)
        ensures
            r.params.cursor matches Some(c) && c@ == cursor@,
            r.params == (ListInstitutionalParams { cursor: r.params.cursor, ..self.params }),
    {
        ListInstitutionalParamsBuilder {
            params: ListInstitutionalParams { cursor: Some(cursor.to_owned()), ..self.params },
        }
    }

    /// Build the parameters.
    pub fn build(self) -> (r: ListInstitutionalParams)
        ensures
            r == self.params,
    {
        self.params
    }
}

/// Parameters for searching companies.
#[derive(Debug, Clone)]
pub struct SearchCompaniesParams {
    /// Search query.
    pub q: Option<String>,
    /// Filter by ticker.
    pub ticker: Option<String>,
    /// Filter by SIC code.
    pub sic_code: Option<u32>,
    /// Filter by state.
    pub state: Option<String>,
    /// Results per page (1-100).
    pub limit: Option<u32>,
    /// Pagination cursor.
    pub cursor: Option<String>,
}

/// Whether every field of the search parameters is absent.
pub open spec fn search_params_empty(p: SearchCompaniesParams) -> bool {
    &&& p.q is None
    &&& p.ticker is None
    &&& p.sic_code is None
    &&& p.state is None
    &&& p.limit is None
    &&& p.cursor is None
}

/// The company-search parameters as a field list, in declaration order.
pub open spec fn search_fields(p: SearchCompaniesParams) -> Seq<(Seq<char>, Option<Seq<char>>)> {
    seq![
        ("q"@, p.q.deep_view()),
        ("ticker"@, p.ticker.deep_view()),
        ("sicCode"@, opt_num32(p.sic_code)),
        ("state"@, p.state.deep_view()),
        ("limit"@, opt_num32(p.limit)),
        ("cursor"@, p.cursor.deep_view()),
    ]
}

/// The query pairs of company-search parameters: each present field, in
/// declaration order, absent fields omitted.
pub open spec fn search_query(p: SearchCompaniesParams) -> Seq<(Seq<char>, Seq<char>)> {
    render(search_fields(p))
}

impl core::default::Default for SearchCompaniesParams {
    /// Parameters with every filter absent.
    fn default() -> (r: Self)
        ensures
            search_params_empty(r),
    {
        SearchCompaniesParams {
            q: None,
            ticker: None,
            sic_code: None,
            state: None,
            limit: None,
            cursor: None,
        }
    }
}

impl SearchCompaniesParams {
    /// Create a new builder for company search parameters.
    pub fn builder() -> (r: SearchCompaniesParamsBuilder)
        ensures
            search_params_empty(r.params),
    {
        SearchCompaniesParamsBuilder {
            params: SearchCompaniesParams {
                q: None,
                ticker: None,
                sic_code: None,
                state: None,
                limit: None,
                cursor: None,
            },
        }
    }

    /// Serialize the present fields as query pairs, in declaration order;
    /// absent fields contribute nothing.
    pub fn to_query_pairs(&self) -> (r: Vec<(String, String)>)
        ensures
            pairs_view(r@) == search_query(*self),
    {
        let mut fields: Vec<(&'static str, Option<String>)> = Vec::new();
        fields.push(("q", clone_opt_string(&self.q)));
        fields.push(("ticker", clone_opt_string(&self.ticker)));
        fields.push(("sicCode", opt_num32_string(&self.sic_code)));
        fields.push(("state", clone_opt_string(&self.state)));
        fields.push(("limit", opt_num32_string(&self.limit)));
        fields.push(("cursor", clone_opt_string(&self.cursor)));
        proof {
            assert(exec_fields_view(fields@) =~= search_fields(*self));
        }
        render_pairs(&fields)
    }
}

/// Builder for `SearchCompaniesParams`.
#[derive(Debug)]
pub struct SearchCompaniesParamsBuilder {
    pub params: SearchCompaniesParams,
}

impl SearchCompaniesParamsBuilder {
    /// Search query.
    pub fn q(self, query: &str) -> (r: Self)
        ensures
            r.params.q matches Some(s) && s@ == query@,
            r.params == (SearchCompaniesParams { q: r.params.q, ..self.params }),
    {
        SearchCompaniesParamsBuilder {
            params: SearchCompaniesParams { q: Some(query.to_owned()), ..self.params },
        }
    }

    /// Filter by ticker.
    pub fn ticker(self, ticker: &str) -> (r: Self)
        ensures
            r.params.ticker matches Some(t) && t@ == ticker@,
            r.params == (SearchCompaniesParams { ticker: r.params.ticker, ..self.params }),
    {
        SearchCompaniesParamsBuilder {
            params: SearchCompaniesParams { ticker: Some(ticker.to_owned()), ..self.params },
        }
    }

    /// Filter by SIC code.
    pub fn sic_code(self, code: u32) -> (r: Self)
        ensures
            r.params == (SearchCompaniesParams { sic_code: Some(code), ..self.params }),
    {
        SearchCompaniesParamsBuilder {
            params: SearchCompaniesParams { sic_code: Some(code), ..self.params },
        }
    }

    /// Filter by state.
    pub fn state(self, state: &str) -> (r: Self)
        ensures
            r.params.state matches Some(s) && s@ == state@,
            r.params == (SearchCompaniesParams { state: r.params.state, ..self.params }),
    {
        SearchCompaniesParamsBuilder {
            params: SearchCompaniesParams { state: Some(state.to_owned()), ..self.params },
        }
    }

    /// Results per page (1-100).
    pub fn limit(self, limit: u32) -> (r: Self)
        ensures
            r.params == (SearchCompaniesParams { limit: Some(limit), ..self.params }),
    {
        SearchCompaniesParamsBuilder {
            params: SearchCompaniesParams { limit: Some(limit), ..self.params },
        }
    }

    /// Pagination cursor.
    pub fn cursor(self, cursor: &str) -> (r: Self)
        ensures
            r.params.cursor matches Some(c) && c@ == cursor@,
            r.params == (SearchCompaniesParams { cursor: r.params.cursor, ..self.params }),
    {
        SearchCompaniesParamsBuilder {
            params: SearchCompaniesParams { cursor: Some(cursor.to_owned()), ..self.params },
        }
    }

    /// Build the parameters.
    pub fn build(self) -> (r: SearchCompaniesParams)
        ensures
            r == self.params,
    {
        self.params
    }
}

} // verus!
