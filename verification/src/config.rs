//! Client configuration and its builder.
//!
//! A configuration holds the API key, an optional base URL and an optional
//! request timeout in seconds.  Building fails exactly when the API key is
//! absent or empty.  Resolving a configuration produces the concrete header
//! values and defaults that a transport needs, and fails exactly when the
//! API key cannot be carried in an HTTP header.

use vstd::prelude::*;

verus! {

use vstd::string::StrSliceExecFns;
use vstd::string::StringExecFns;
use crate::error::Error;

/// Default base URL for API requests.
pub const DEFAULT_BASE_URL: &'static str = "https://earningsfeed.com";

/// Default request timeout, in seconds.
pub const DEFAULT_TIMEOUT: u64 = 30;

/// Configuration for the client.
#[derive(Debug, Clone)]
pub struct ClientConfig {
    /// API key for authentication.
    pub api_key: String,
    /// Base URL for API requests; the default is used when absent.
    pub base_url: Option<String>,
    /// Request timeout in seconds; the default is used when absent.
    pub timeout: Option<u64>,
}

impl ClientConfig {
    /// Create a new configuration builder with every field unset.
    pub fn builder() -> (r: ClientConfigBuilder)
        ensures
            r.api_key is None,
            r.base_url is None,
            r.timeout is None,
    {
        ClientConfigBuilder { api_key: None, base_url: None, timeout: None }
    }
}

/// Builder for `ClientConfig`.
#[derive(Debug)]
pub struct ClientConfigBuilder {
    pub api_key: Option<String>,
    pub base_url: Option<String>,
    pub timeout: Option<u64>,
}

impl ClientConfigBuilder {
    /// Set the API key.  Required for authentication.
    pub fn api_key(self, api_key: &str) -> (r: Self)
        ensures
            r.api_key matches Some(k) && k@ == api_key@,
            r.base_url == self.base_url,
            r.timeout == self.timeout,
    {
        ClientConfigBuilder { api_key: Some(api_key.to_owned()), ..self }
    }

    /// Set the base URL for API requests.
    pub fn base_url(self, base_url: &str) -> (r: Self)
        ensures
            r.base_url matches Some(u) && u@ == base_url@,
            r.api_key == self.api_key,
            r.timeout == self.timeout,
    {
        ClientConfigBuilder { base_url: Some(base_url.to_owned()), ..self }
    }

    /// Set the request timeout, in seconds.
    pub fn timeout(self, timeout: u64) -> (r: Self)
        ensures
            r.timeout == Some(timeout),
            r.api_key == self.api_key,
            r.base_url == self.base_url,
    {
        ClientConfigBuilder { timeout: Some(timeout), ..self }
    }

    /// Build the configuration.  Fails exactly when the API key is absent
    /// or empty.
    pub fn build(self) -> (r: Result<ClientConfig, Error>)
        ensures
            self.api_key is None ==> (r matches Err(Error::Config(m)) && m@
                == "API key is required"@),
            self.api_key matches Some(k) ==> k@.len() == 0 ==> (r matches Err(Error::Config(m))
                && m@ == "API key cannot be empty"@),
            self.api_key matches Some(k) ==> k@.len() > 0 ==> (r matches Ok(c) && c.api_key == k
                && c.base_url == self.base_url && c.timeout == self.timeout),
    {
        match self.api_key {
            None => Err(Error::Config("API key is required".to_owned())),
            Some(k) => {
                if k.as_str().is_empty() {
                    Err(Error::Config("API key cannot be empty".to_owned()))
                } else {
                    Ok(ClientConfig { api_key: k, base_url: self.base_url, timeout: self.timeout })
                }
            },
        }
    }
}

/// Whether a character may appear in an HTTP header value: every byte of
/// its UTF-8 form is a visible byte, a space, or a tab.
pub open spec fn header_char_ok(c: char) -> bool {
    c as u32 >= 128 || c as u32 == 9 || (c as u32 >= 32 && c as u32 != 127)
}

pub open spec fn header_text_ok(s: Seq<char>) -> bool {
    forall|i: int| 0 <= i < s.len() ==> header_char_ok(#[trigger] s[i])
}

/// Checks that the text can be carried in an HTTP header value.
pub fn check_header_text(s: &str) -> (r: bool)
    ensures
        r == header_text_ok(s@),
{
    let len = s.unicode_len();
    let mut i: usize = 0;
    while i < len
        invariant
            0 <= i <= len,
            len == s@.len(),
            forall|k: int| 0 <= k < i ==> header_char_ok(#[trigger] s@[k]),
        decreases len - i,
    {
        let c = s.get_char(i);
        let cu: u32 = c as u32;
        if !(cu >= 128 || cu == 9 || (cu >= 32 && cu != 127)) {
            return false;
        }
        i = i + 1;
    }
    true
}

/// The concrete values a transport is built from: resolved once from a
/// configuration.
#[derive(Debug, Clone)]
pub struct ResolvedConfig {
    /// The `Authorization` header value: the bearer token.
    pub auth_header: String,
    /// The `User-Agent` header value.
    pub user_agent: String,
    /// The resolved base URL.
    pub base_url: String,
    /// The resolved timeout, in seconds.
    pub timeout: u64,
}

impl ClientConfig {
    /// Resolve the configuration into the concrete header values and
    /// defaults.  Fails exactly when the API key cannot stand in an HTTP
    /// header value.
    pub fn resolve(self) -> (r: Result<ResolvedConfig, Error>)
        ensures
            !header_text_ok(self.api_key@) ==> (r matches Err(Error::Config(m)) && m@
                == "invalid API key format"@),
            header_text_ok(self.api_key@) ==> (r matches Ok(rc) && rc.auth_header@ == "Bearer "@
                + self.api_key@ && rc.user_agent@ == "earningsfeed-rust/0.1.0"@ && rc.base_url@
                == (match self.base_url {
                Some(u) => u@,
                None => DEFAULT_BASE_URL@,
            }) && rc.timeout == (match self.timeout {
                Some(t) => t,
                None => DEFAULT_TIMEOUT,
            })),
    {
        if !check_header_text(self.api_key.as_str()) {
            return Err(Error::Config("invalid API key format".to_owned()));
        }
        let auth_header = "Bearer ".to_owned().concat(self.api_key.as_str());
        let user_agent = "earningsfeed-rust/0.1.0".to_owned();
        let base_url = match self.base_url {
            Some(u) => u,
            None => DEFAULT_BASE_URL.to_owned(),
        };
        let timeout = match self.timeout {
            Some(t) => t,
            None => DEFAULT_TIMEOUT,
        };
        Ok(ResolvedConfig { auth_header, user_agent, base_url, timeout })
    }
}

} // verus!
