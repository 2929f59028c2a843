//! Domain record: the single persisted configuration of the application.

use vstd::prelude::*;

verus! {

/// The configuration record. The access token is secret: it is held in
/// plaintext only in memory, never in the persisted row.
#[derive(Debug, Clone, PartialEq)]
pub struct Settings {
    pub id: i32,
    pub url: String,
    pub access_token: String,
    pub use_proxies: bool,
    pub proxy_url: String,
}

impl Settings {
    /// Builds a record under the fixed singleton id: exactly one logical
    /// record exists, and every write targets it.
    pub fn new(url: String, access_token: String, use_proxies: bool, proxy_url: String) -> (s:
        Settings)
        ensures
            s.id == 1,
            s.url == url,
            s.access_token == access_token,
            s.use_proxies == use_proxies,
            s.proxy_url == proxy_url,
    {
        Settings { id: 1, url, access_token, use_proxies, proxy_url }
    }
}

} // verus!
