//! Endpoint configuration: the base URL that every networked operation
//! targets. The URL is kept normalized — it always ends with `/` — so an
//! endpoint path appended to it forms the request target directly.

use vstd::prelude::*;

use crate::envelope::{sanitized, Envelope, Status};
use crate::strutil::push_char;

verus! {

/// The production endpoint used until the host overrides it.
pub const DEFAULT_BASE_URL: &'static str = "https://xbdev.store/api/";

/// Endpoint paths, appended to the base URL by each operation.
pub const CLOUD_SAVES_ENDPOINT: &'static str = "cloud-saves/";

pub const VERSION_ENDPOINT: &'static str = "version-hex/";

pub const STATUS_ENDPOINT: &'static str = "status-check";

pub const USERNAME_ENDPOINT: &'static str = "get-username-by-secret/";

pub const NOTIFICATION_ENDPOINT: &'static str = "get-latest-notification-for-app/";

pub const PATCH_ENDPOINT: &'static str = "get-latest-patch/";

pub const VERIFY_ENDPOINT: &'static str = "verify-download/";

/// This library's version, reported by the version query operation.
pub fn sdk_version() -> (s: String)
    ensures
        s@ == "0.1.0"@,
{
    String::from_str("0.1.0")
}

/// A URL with `/` appended when it does not already end with one.
pub open spec fn normalized(url: Seq<char>) -> Seq<char> {
    if url.len() > 0 && url.last() == '/' {
        url
    } else {
        url.push('/')
    }
}

/// Law: normalization appends the trailing slash exactly once — applying
/// it to an already-normalized URL changes nothing.
pub proof fn lemma_normalized_idempotent(url: Seq<char>)
    ensures
        normalized(normalized(url)) == normalized(url),
{
    if !(url.len() > 0 && url.last() == '/') {
        assert(normalized(url).last() == '/');
    }
}

/// Holds the base URL all networked operations read. The host owns one
/// of these and threads it through each call; a write replaces the URL
/// for calls made afterwards.
pub struct ApiConfig {
    pub base_url: String,
}

impl ApiConfig {
    /// The base URL is never empty and always ends with `/`.
    pub open spec fn wf(&self) -> bool {
        self.base_url@.len() > 0 && self.base_url@.last() == '/'
    }

    pub open spec fn base(&self) -> Seq<char> {
        self.base_url@
    }

    /// Starts at the fixed production endpoint.
    pub fn new() -> (c: ApiConfig)
        ensures
            c.wf(),
            c.base() == DEFAULT_BASE_URL@,
    {
        proof {
            reveal_strlit("https://xbdev.store/api/");
        }
        ApiConfig { base_url: String::from_str(DEFAULT_BASE_URL) }
    }

    /// Read the current base URL.
    pub fn base_url(&self) -> (u: &String)
        ensures
            u@ == self.base(),
    {
        &self.base_url
    }

    /// Store `url`, appending `/` when absent, and echo the stored value
    /// in a `Success` envelope. The argument must already have passed
    /// foreign-argument validation, so it is non-empty.
    pub fn set_base_url(&mut self, url: &str) -> (e: Envelope)
        requires
            url@.len() > 0,
        ensures
            final(self).wf(),
            final(self).base() == normalized(url@),
            e.status == Status::Success,
            e.code == 0,
            e.message@ == sanitized(normalized(url@)),
    {
        let n = url.unicode_len();
        let mut stored = String::from_str(url);
        if url.get_char(n - 1) != '/' {
            push_char(&mut stored, '/');
        }
        let e = Envelope::success(stored.as_str());
        self.base_url = stored;
        e
    }

    /// The full request target for one endpoint path: the base URL with
    /// the path appended verbatim.
    pub fn endpoint_url(&self, endpoint: &str) -> (u: String)
        ensures
            u@ == self.base() + endpoint@,
    {
        let mut u = self.base_url.clone();
        u.append(endpoint);
        u
    }

    /// The request target for an endpoint with one query parameter,
    /// appended verbatim.
    pub fn query_url(&self, endpoint: &str, key: &str, value: &str) -> (u: String)
        ensures
            u@ == self.base() + endpoint@ + "?"@ + key@ + "="@ + value@,
    {
        let mut u = self.base_url.clone();
        u.append(endpoint);
        u.append("?");
        u.append(key);
        u.append("=");
        u.append(value);
        u
    }
}

impl Default for ApiConfig {
    /// Same as `ApiConfig::new`: the fixed production endpoint.
    fn default() -> (c: ApiConfig)
        ensures
            c.wf(),
            c.base() == DEFAULT_BASE_URL@,
    {
        ApiConfig::new()
    }
}

} // verus!
