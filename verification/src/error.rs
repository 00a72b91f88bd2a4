//! The closed error taxonomy of the client.
//!
//! Every failed call surfaces exactly one of these kinds.  The kinds that
//! an HTTP status determines are produced by the response classifier; the
//! transport-level kinds are filled in by the unverified shell around the
//! library when the network itself fails.

use vstd::prelude::*;

verus! {

use vstd::string::StringExecFns;
use crate::text::dec_digits;
use crate::text::u64_to_string;

/// Error kinds of the client.
#[derive(Debug)]
pub enum Error {
    /// Authentication failed: the API answered with HTTP 401.
    Authentication,
    /// Rate limit exceeded: the API answered with HTTP 429.  `reset_at`
    /// holds the Unix timestamp from the `X-RateLimit-Reset` header, or
    /// nothing when the header is missing or unparseable.
    RateLimit { reset_at: Option<u64> },
    /// The requested path was not found: HTTP 404.
    NotFound { path: String },
    /// The request failed validation: HTTP 400, with the server's message
    /// or a fixed fallback.
    Validation { message: String },
    /// Any other non-2xx status, with the server's message and error code
    /// where the body supplied them.
    Api { status: u16, message: String, code: Option<String> },
    /// The request exceeded the configured timeout, in seconds.
    Timeout { seconds: u64 },
    /// A connection or other transport-level failure.
    Transport { message: String },
    /// A 2xx response whose body failed to decode as the expected shape.
    Serialization { message: String },
    /// Invalid client configuration.
    Config(String),
}

/// The one-line description of an error.
pub open spec fn describe_spec(e: Error) -> Seq<char> {
    match e {
        Error::Authentication => "authentication failed: invalid or missing API key"@,
        Error::RateLimit { reset_at } => match reset_at {
            Some(ts) => "rate limit exceeded (resets at: Some("@ + dec_digits(ts as nat) + "))"@,
            None => "rate limit exceeded (resets at: None)"@,
        },
        Error::NotFound { path } => "resource not found: "@ + path@,
        Error::Validation { message } => "validation error: "@ + message@,
        Error::Api { status, message, .. } => "API error ("@ + dec_digits(status as nat)
            + "): "@ + message@,
        Error::Timeout { seconds } => "request timeout after "@ + dec_digits(seconds as nat)
            + "s"@,
        Error::Transport { message } => "HTTP error: "@ + message@,
        Error::Serialization { message } => "JSON error: "@ + message@,
        Error::Config(m) => "configuration error: "@ + m@,
    }
}

impl Error {
    /// Renders the error as its one-line description.
    pub fn describe(&self) -> (r: String)
        ensures
            r@ == describe_spec(*self),
    {
        match self {
            Error::Authentication => "authentication failed: invalid or missing API key"
                .to_owned(),
            Error::RateLimit { reset_at } => match reset_at {
                Some(ts) => "rate limit exceeded (resets at: Some(".to_owned().concat(
                    u64_to_string(*ts).as_str(),
                ).concat("))"),
                None => "rate limit exceeded (resets at: None)".to_owned(),
            },
            Error::NotFound { path } => "resource not found: ".to_owned().concat(path.as_str()),
            Error::Validation { message } => "validation error: ".to_owned().concat(
                message.as_str(),
            ),
            Error::Api { status, message, .. } => "API error (".to_owned().concat(
                u64_to_string(*status as u64).as_str(),
            ).concat("): ").concat(message.as_str()),
            Error::Timeout { seconds } => "request timeout after ".to_owned().concat(
                u64_to_string(*seconds).as_str(),
            ).concat("s"),
            Error::Transport { message } => "HTTP error: ".to_owned().concat(message.as_str()),
            Error::Serialization { message } => "JSON error: ".to_owned().concat(
                message.as_str(),
            ),
            Error::Config(m) => "configuration error: ".to_owned().concat(m.as_str()),
        }
    }
}

} // verus!
