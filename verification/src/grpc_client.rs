//! Connection manager: validates a settings record into a connection
//! plan, and keeps the one shared connection slot.
//!
//! Everything that can be decided before any network I/O is decided here:
//! the endpoint URL must parse, its host must be usable as a TLS
//! server-name-indication value, the proxy address must parse when the
//! proxy is enabled, and the bearer credential must be a legal HTTP
//! header value. The caller dials with the resulting plan and hands the
//! outcome to [`ConnectionSlot::apply_connect`], so a failed connect
//! never disturbs the handle already in the slot.

use vstd::prelude::*;

use crate::settings::Settings;
use vstd::string::StringExecFns;
use vstd::utf8::encode_utf8;

verus! {

#[derive(Debug, Clone, PartialEq)]
pub enum GrpcClientError {
    /// The endpoint URL does not parse.
    InvalidUrl,
    /// The proxy address does not parse as a URI.
    InvalidUri,
    /// The endpoint host cannot serve as a TLS server name.
    InvalidTlsDomain,
    /// The transport failed while dialing; the payload is its diagnostic
    /// text.
    Transport(String),
    /// The access token cannot be carried in an HTTP header.
    InvalidAuthToken,
}

/// What url::Url::parse returns: the URL's serialized form and its host
/// (empty when the URL has none), or nothing when the input does not
/// parse.
pub uninterp spec fn url_parse_of(s: Seq<char>) -> Option<(Seq<char>, Seq<char>)>;

/// Whether rustls' server-name parsing accepts the host as a TLS
/// server-name-indication value.
pub uninterp spec fn dns_name_ok_of(s: Seq<char>) -> bool;

/// Whether the string parses as an http URI.
pub uninterp spec fn uri_parse_ok_of(s: Seq<char>) -> bool;

/// A byte http admits in a header value: visible ASCII, space, or
/// horizontal tab.
pub open spec fn valid_header_byte(b: u8) -> bool {
    b == 9 || (32 <= b && b != 127)
}

/// A string http admits as a header value: every byte of its UTF-8 form
/// is a valid header-value byte.
pub open spec fn valid_header_value(s: Seq<char>) -> bool {
    forall|i: int|
        0 <= i < encode_utf8(s).len() ==> valid_header_byte(#[trigger] encode_utf8(s)[i])
}

/// Relies on url::Url::parse (WHATWG URL parsing): on success the
/// serialized form and the host are functions of the input alone.
#[verifier::external_body]
fn parse_endpoint_url(s: &str) -> (r: Option<(String, String)>)
    ensures
        r matches Some(p) ==> url_parse_of(s@) == Some((p.0@, p.1@)),
        r is None ==> url_parse_of(s@) is None,
{
    match url::Url::parse(s) {
        Ok(u) => {
            let host = match u.host_str() {
                Some(h) => h.to_string(),
                None => String::new(),
            };
            Some((u.to_string(), host))
        },
        Err(_) => None,
    }
}

/// Relies on rustls_pki_types::ServerName::try_from: whether the host can
/// be used as a TLS server-name-indication value.
#[verifier::external_body]
fn check_tls_domain(host: &str) -> (r: bool)
    ensures
        r == dns_name_ok_of(host@),
{
    rustls_pki_types::ServerName::try_from(host).is_ok()
}

/// Relies on http::Uri's FromStr: whether the proxy address parses.
#[verifier::external_body]
fn check_proxy_uri(s: &str) -> (r: bool)
    ensures
        r == uri_parse_ok_of(s@),
{
    s.parse::<http::Uri>().is_ok()
}

/// Relies on http::HeaderValue::from_str, which tonic's metadata values
/// delegate to: accepts exactly the strings whose UTF-8 bytes are valid
/// header-value bytes.
#[verifier::external_body]
fn check_header_value(s: &str) -> (r: bool)
    ensures
        r == valid_header_value(s@),
{
    http::HeaderValue::from_str(s).is_ok()
}

/// Everything a dial needs once validation has passed, before any
/// network I/O: the serialized endpoint, the TLS server name, the proxy
/// address when enabled, and the ready-made authorization header value.
#[derive(Debug, Clone, PartialEq)]
pub struct ConnectionPlan {
    pub endpoint: String,
    pub tls_domain: String,
    pub proxy: Option<String>,
    pub bearer_token: String,
}

/// The first validation failure `prepare_connection` reports for a
/// record, or nothing when the record passes: URL, TLS domain, proxy
/// address (only with the proxy enabled), then the bearer credential.
pub open spec fn connect_validation_error(s: Settings) -> Option<GrpcClientError> {
    match url_parse_of(s.url@) {
        None => Some(GrpcClientError::InvalidUrl),
        Some(parsed) => if !dns_name_ok_of(parsed.1) {
            Some(GrpcClientError::InvalidTlsDomain)
        } else if s.use_proxies && !uri_parse_ok_of(s.proxy_url@) {
            Some(GrpcClientError::InvalidUri)
        } else if !valid_header_value("Bearer "@ + s.access_token@) {
            Some(GrpcClientError::InvalidAuthToken)
        } else {
            None
        },
    }
}

/// Validates a settings record into a connection plan; no network I/O is
/// attempted. Fails with the first error of
/// [`connect_validation_error`], and on success returns the plan built
/// from exactly this record.
pub fn prepare_connection(settings: &Settings) -> (r: Result<ConnectionPlan, GrpcClientError>)
    ensures
        match connect_validation_error(*settings) {
            Some(err) => r == Err::<ConnectionPlan, GrpcClientError>(err),
            None => r matches Ok(plan) && {
                &&& url_parse_of(settings.url@) == Some((plan.endpoint@, plan.tls_domain@))
                &&& plan.bearer_token@ == "Bearer "@ + settings.access_token@
                &&& (settings.use_proxies ==> (plan.proxy matches Some(p) && p@
                    == settings.proxy_url@))
                &&& (!settings.use_proxies ==> plan.proxy is None)
            },
        },
{
    let (endpoint, tls_domain) = match parse_endpoint_url(settings.url.as_str()) {
        Some(p) => p,
        None => {
            return Err(GrpcClientError::InvalidUrl);
        },
    };
    if !check_tls_domain(tls_domain.as_str()) {
        return Err(GrpcClientError::InvalidTlsDomain);
    }
    let proxy: Option<String> = if settings.use_proxies {
        if !check_proxy_uri(settings.proxy_url.as_str()) {
            return Err(GrpcClientError::InvalidUri);
        }
        Some(settings.proxy_url.clone())
    } else {
        None
    };
    let bearer_token = String::from_str("Bearer ").concat(settings.access_token.as_str());
    if !check_header_value(bearer_token.as_str()) {
        return Err(GrpcClientError::InvalidAuthToken);
    }
    Ok(ConnectionPlan { endpoint, tls_domain, proxy, bearer_token })
}

/// The shared connection slot: holds the plan of the one active
/// connection, or nothing while disconnected.
pub struct ConnectionSlot {
    current: Option<ConnectionPlan>,
}

impl ConnectionSlot {
    /// The plan of the active connection, if any.
    pub closed spec fn spec_current(&self) -> Option<ConnectionPlan> {
        self.current
    }

    /// A fresh slot, disconnected.
    pub fn new() -> (r: ConnectionSlot)
        ensures
            r.spec_current() is None,
    {
        ConnectionSlot { current: None }
    }

    /// The plan currently in the slot.
    pub fn current(&self) -> (r: &Option<ConnectionPlan>)
        ensures
            *r == self.spec_current(),
    {
        &self.current
    }

    /// Applies a connect outcome to the slot: a success replaces the
    /// handle (dropping the previous one), a failure leaves the slot
    /// exactly as it was.
    pub fn apply_connect(&mut self, outcome: Result<ConnectionPlan, GrpcClientError>) -> (r:
        Result<(), GrpcClientError>)
        ensures
            outcome matches Ok(plan) ==> final(self).spec_current() == Some(plan) && r is Ok,
            outcome matches Err(err) ==> final(self).spec_current() == old(self).spec_current()
                && r == Err::<(), GrpcClientError>(err),
    {
        match outcome {
            Ok(plan) => {
                self.current = Some(plan);
                Ok(())
            },
            Err(err) => Err(err),
        }
    }
}

} // verus!
