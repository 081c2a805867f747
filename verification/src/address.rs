//! Deciding how to reach the remote authority.
//!
//! The protocol is chosen from the server address alone: an address that
//! begins with `http://` or `https://` is queried over HTTP, anything else
//! is treated as an NTP host, and an explicit flag can force NTP regardless.
//! This module also builds the query URL that carries the local send time,
//! and substitutes the default NTP authority for an address that still names
//! the default HTTP endpoint.

use vstd::prelude::*;

use crate::digits::dec_chars;
use crate::digits::dec_string;
use crate::errors::TimeError;

verus! {

/// Whether `url::Url::parse` accepts the string as an absolute URL.  The
/// outcome depends on the string alone.
pub uninterp spec fn url_parse_ok(s: Seq<char>) -> bool;

/// Relies on `url::Url::parse`: it returns `Ok` exactly when the string
/// parses as an absolute URL, and the outcome is a function of the string
/// alone.  On failure the parse error's display text is handed back, with no
/// claim about its contents.
#[verifier::external_body]
fn url_parse_error(s: &str) -> (r: Option<String>)
    ensures
        r is None <==> url_parse_ok(s@),
{
    match url::Url::parse(s) {
        Ok(_) => None,
        Err(e) => Some(format!("{}", e)),
    }
}

/// How the remote authority is reached.
#[derive(Clone, Copy, PartialEq, Eq, Structural, Debug)]
pub enum Protocol {
    Http,
    Ntp,
}

/// Whether `p` is a prefix of `s`.
pub open spec fn spec_has_prefix(s: Seq<char>, p: Seq<char>) -> bool {
    p.len() <= s.len() && (forall|i: int| 0 <= i < p.len() ==> s[i] == p[i])
}

/// Whether the address names an HTTP endpoint: it begins with `http://` or
/// `https://`.
pub open spec fn spec_is_http_address(s: Seq<char>) -> bool {
    spec_has_prefix(s, "http://"@) || spec_has_prefix(s, "https://"@)
}

/// The chosen protocol: NTP when forced or when the address is not an HTTP
/// URL, HTTP otherwise.
pub open spec fn spec_choose_protocol(server: Seq<char>, force_ntp: bool) -> Protocol {
    if force_ntp || !spec_is_http_address(server) {
        Protocol::Ntp
    } else {
        Protocol::Http
    }
}

/// The NTP authority for an address: the default `time.cloudflare.com:123`
/// when the address is empty or still the default HTTP endpoint, the address
/// itself otherwise.
pub open spec fn spec_ntp_host(server: Seq<char>) -> Seq<char> {
    if server == "http://localhost:8000/time"@ || server.len() == 0 {
        "time.cloudflare.com:123"@
    } else {
        server
    }
}

/// The URL one exchange requests: the server address, with `?ts=<T1>`
/// carrying the local send time unless bare mode asked for the raw time
/// only.
pub open spec fn spec_request_url(server: Seq<char>, ts_ms: nat, bare: bool) -> Seq<char> {
    if bare {
        server
    } else {
        server + "?ts="@ + dec_chars(ts_ms)
    }
}

/// Whether `p` is a prefix of `s`, comparing characters.
pub fn str_has_prefix(s: &str, p: &str) -> (r: bool)
    ensures
        r == spec_has_prefix(s@, p@),
{
    let s_len = s.unicode_len();
    let p_len = p.unicode_len();
    if p_len > s_len {
        return false;
    }
    let mut i: usize = 0;
    while i < p_len
        invariant
            i <= p_len,
            p_len <= s_len,
            s_len == s@.len(),
            p_len == p@.len(),
            forall|j: int| 0 <= j < i ==> s@[j] == p@[j],
        decreases p_len - i,
    {
        if s.get_char(i) != p.get_char(i) {
            return false;
        }
        i += 1;
    }
    true
}

/// Whether two string slices hold the same characters.
pub fn str_eq(a: &str, b: &str) -> (r: bool)
    ensures
        r == (a@ == b@),
{
    let equal = a.unicode_len() == b.unicode_len() && str_has_prefix(a, b);
    proof {
        if equal {
            assert(a@ =~= b@);
        }
    }
    equal
}

/// Whether the address begins with `http://` or `https://`.
pub fn is_http_address(s: &str) -> (r: bool)
    ensures
        r == spec_is_http_address(s@),
{
    str_has_prefix(s, "http://") || str_has_prefix(s, "https://")
}

/// Chooses the protocol for an address, as `spec_choose_protocol` says: the
/// address's scheme decides, and the explicit flag forces NTP.
pub fn choose_protocol(server: &str, force_ntp: bool) -> (p: Protocol)
    ensures
        p == spec_choose_protocol(server@, force_ntp),
{
    if force_ntp || !is_http_address(server) {
        Protocol::Ntp
    } else {
        Protocol::Http
    }
}

/// The NTP authority to query for an address, per `spec_ntp_host`.
pub fn ntp_host(server: &str) -> (h: String)
    ensures
        h@ == spec_ntp_host(server@),
{
    if str_eq(server, "http://localhost:8000/time") || server.unicode_len() == 0 {
        String::from_str("time.cloudflare.com:123")
    } else {
        String::from_str(server)
    }
}

/// Checks a server address for the HTTP exchange: it is accepted exactly
/// when it begins with `http://` or `https://` and parses as an absolute
/// URL; anything else is rejected as `InvalidServerAddress` before a request
/// is sent.
pub fn validate_server_address(server: &str) -> (r: Result<(), TimeError>)
    ensures
        r is Ok <==> spec_is_http_address(server@) && url_parse_ok(server@),
        r is Err ==> r->Err_0 is InvalidServerAddress,
{
    if !is_http_address(server) {
        return Err(
            TimeError::InvalidServerAddress {
                detail: String::from_str("the scheme is not http or https"),
            },
        );
    }
    match url_parse_error(server) {
        None => Ok(()),
        Some(detail) => Err(TimeError::InvalidServerAddress { detail }),
    }
}

/// Builds the request URL, per `spec_request_url`.
pub fn request_url(server: &str, ts_ms: u64, bare: bool) -> (u: String)
    ensures
        u@ == spec_request_url(server@, ts_ms as nat, bare),
{
    if bare {
        String::from_str(server)
    } else {
        let mut u = String::from_str(server);
        u.append("?ts=");
        let digits = dec_string(ts_ms as u128);
        u.append(digits.as_str());
        u
    }
}

} // verus!
