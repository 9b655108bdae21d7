//! The boundary to the external host parser: an authority string
//! `host[:port]` is handed to a URL parser, which yields a normalized host
//! and a port or fails.

use vstd::prelude::*;

use crate::chars::dec_digits;
use crate::grammar::DEFAULT_PORT;

verus! {

/// What the external host parser yields for an authority string: a
/// normalized host rendering and a port (the default 443 when no explicit
/// non-default port is present), or nothing when the string is not a valid
/// authority.
pub uninterp spec fn authority_result(s: Seq<char>) -> Option<(Seq<char>, u16)>;

/// The canonical authority rendering for a host and a port: the host alone
/// when the port is the default, otherwise the host followed by a colon and
/// the decimal port.
pub open spec fn authority_str(host: Seq<char>, port: u16) -> Seq<char> {
    if port == DEFAULT_PORT {
        host
    } else {
        host + seq![':'] + dec_digits(port as int)
    }
}

/// Relies on `url::Url::parse` (with the string put after an `https://`
/// scheme prefix), `url::Url::host_str` and `url::Url::port`:
/// - the host and port obtained for an authority string are a function of
///   that string alone;
/// - `port` reports `None` both when no port is written and when the
///   explicit port equals 443, the default for the scheme, so the default
///   is never reported explicitly;
/// - the host rendering is normalized (lowercased, punycode-encoded domain,
///   canonical IPv4 dotted decimal, or canonical bracketed IPv6), contains
///   none of the characters the parser forbids in a host, and therefore
///   re-parsing it — with `:port` appended when the port is not the
///   default — yields the same host and the same port.
#[verifier::external_body]
pub(crate) fn parse_authority(s: &str) -> (r: Option<(String, u16)>)
    ensures
        match r {
            Some(hp) => {
                &&& authority_result(s@) == Some((hp.0@, hp.1))
                &&& authority_result(authority_str(hp.0@, hp.1)) == Some((hp.0@, hp.1))
            },
            None => authority_result(s@) is None,
        },
{
    let url_string = format!("https://{}", s);
    match url::Url::parse(&url_string) {
        Ok(url) => match url.host_str() {
            Some(host) => {
                let port = url.port().unwrap_or(DEFAULT_PORT);
                Some((host.to_string(), port))
            },
            None => None,
        },
        Err(_) => None,
    }
}

} // verus!
