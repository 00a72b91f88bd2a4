//! Response classification and request-path construction.
//!
//! The transport core issues one kind of request: an authenticated GET.
//! What the library verifies is everything around the network call: how
//! the URL and paths are formed, and how a response's status, rate-limit
//! header and body map onto the error taxonomy.  Classification happens
//! before any decoding of a success body, so a malformed error body still
//! yields the correct kind with a fallback message.

use vstd::prelude::*;

verus! {

use vstd::string::StringExecFns;
use crate::error::Error;
use crate::text::dec_digits;
use crate::text::parse_u64;
use crate::text::parse_u64_spec;
use crate::text::u64_to_string;

/// Path of the filings list endpoint.
pub const FILINGS_PATH: &'static str = "/api/v1/filings";

/// Path of the insider transactions list endpoint.
pub const INSIDER_TRANSACTIONS_PATH: &'static str = "/api/v1/insider/transactions";

/// Path of the institutional holdings list endpoint.
pub const INSTITUTIONAL_HOLDINGS_PATH: &'static str = "/api/v1/institutional/holdings";

/// Path of the company search endpoint.
pub const COMPANY_SEARCH_PATH: &'static str = "/api/v1/companies/search";

/// The full request URL: the base URL followed by the path.
pub fn build_url(base: &str, path: &str) -> (r: String)
    ensures
        r@ == base@ + path@,
{
    base.to_owned().concat(path)
}

/// The path of a single filing, by accession number.
pub fn filing_path(accession_number: &str) -> (r: String)
    ensures
        r@ == "/api/v1/filings/"@ + accession_number@,
{
    "/api/v1/filings/".to_owned().concat(accession_number)
}

/// The path of a single company, by CIK.
pub fn company_path(cik: u64) -> (r: String)
    ensures
        r@ == "/api/v1/companies/"@ + dec_digits(cik as nat),
{
    let digits = u64_to_string(cik);
    "/api/v1/companies/".to_owned().concat(digits.as_str())
}

/// What reading the optional string members `error` and `code` out of an
/// error-response body yields.  The result depends on the bytes alone.
pub uninterp spec fn error_body_fields(body: Seq<u8>) -> (Option<Seq<char>>, Option<Seq<char>>);

/// Relies on `serde_json::from_slice` and `serde_json::Value::as_str`:
/// parses the body as JSON and reads the optional string members `error`
/// and `code`.  A body that does not parse, or whose members are absent
/// or not strings, yields nothing for them.
#[verifier::external_body]
fn parse_error_body(body: &[u8]) -> (r: (Option<String>, Option<String>))
    ensures
        r.deep_view() == error_body_fields(body@),
{
    match serde_json::from_slice::<serde_json::Value>(body) {
        Ok(v) => (
            v.get("error").and_then(|m| m.as_str()).map(String::from),
            v.get("code").and_then(|c| c.as_str()).map(String::from),
        ),
        Err(_) => (None, None),
    }
}

/// The server's message where the body supplied one, else the fallback.
pub open spec fn message_or(m: Option<Seq<char>>, fallback: Seq<char>) -> Seq<char> {
    match m {
        Some(s) => s,
        None => fallback,
    }
}

/// The rate-limit reset timestamp carried by the header, where the header
/// is present and parses as a decimal number.
pub open spec fn reset_of(h: Option<Seq<char>>) -> Option<u64> {
    match h {
        Some(s) => parse_u64_spec(s),
        None => None,
    }
}

/// Classifies a response by its HTTP status, total and fixed: a 2xx
/// status succeeds and every other status yields exactly the taxonomy
/// kind of its row, with the server's message where the error body
/// supplied one and the kind's fallback where it did not.
pub fn evaluate_response(path: &str, status: u16, rate_limit_reset: Option<&str>, body: &[u8]) -> (r:
    Result<(), Error>)
    ensures
        200 <= status < 300 ==> r is Ok,
        !(200 <= status < 300) ==> r is Err,
        status == 401 ==> r == Err::<(), Error>(Error::Authentication),
        status == 404 ==> (r matches Err(Error::NotFound { path: p }) && p@ == path@),
        status == 429 ==> (r matches Err(Error::RateLimit { reset_at }) && reset_at == reset_of(
            rate_limit_reset.deep_view(),
        )),
        status == 400 ==> (r matches Err(Error::Validation { message }) && message@ == message_or(
            error_body_fields(body@).0,
            "Invalid request"@,
        )),
        !(200 <= status < 300) && status != 400 && status != 401 && status != 404 && status != 429
            ==> (r matches Err(Error::Api { status: s, message, code }) && s == status && message@
            == message_or(error_body_fields(body@).0, "Unknown error"@) && code.deep_view()
            == error_body_fields(body@).1),
{
    if 200 <= status && status < 300 {
        return Ok(());
    }
    match status {
        401 => Err(Error::Authentication),
        404 => Err(Error::NotFound { path: path.to_owned() }),
        429 => {
            let reset_at = match rate_limit_reset {
                Some(h) => parse_u64(h),
                None => None,
            };
            Err(Error::RateLimit { reset_at })
        },
        400 => {
            let fields = parse_error_body(body);
            let message = match fields.0 {
                Some(m) => m,
                None => "Invalid request".to_owned(),
            };
            Err(Error::Validation { message })
        },
        _ => {
            let fields = parse_error_body(body);
            let message = match fields.0 {
                Some(m) => m,
                None => "Unknown error".to_owned(),
            };
            Err(Error::Api { status, message, code: fields.1 })
        },
    }
}

} // verus!
