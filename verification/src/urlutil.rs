//! Splitting the API endpoint URL into a host and a port. The URL
//! grammar belongs to the url crate; whether a string parses, which
//! host it names and which explicit port it carries are functions of
//! the string alone, so each gets a name that the trusted wrapper's
//! contract applies, and everything downstream is exact over those
//! names.

use vstd::prelude::*;

verus! {

/// Whether the string parses as an absolute URL.
pub uninterp spec fn url_parses(s: Seq<char>) -> bool;

/// The host component of the URL the string parses to; `None` when the
/// string does not parse or the URL has no host.
pub uninterp spec fn url_host_of(s: Seq<char>) -> Option<Seq<char>>;

/// The port the URL names explicitly; `None` when it names none. The
/// url crate reports `None` for a scheme-default port even when it is
/// written out.
pub uninterp spec fn url_port_of(s: Seq<char>) -> Option<u16>;

/// How an endpoint string splits: it is no URL at all, a URL without a
/// host, or a host with an optional explicit port.
pub enum EndpointParse {
    NoUrl,
    NoHost,
    HostPort(String, Option<u16>),
}

/// Relies on url::Url::parse, Url::host_str and Url::port: whether the
/// endpoint parses, its host, and its explicit port. All three depend
/// on the string alone.
#[verifier::external_body]
pub fn parse_endpoint(s: &str) -> (r: EndpointParse)
    ensures
        match r {
            EndpointParse::NoUrl => !url_parses(s@) && url_host_of(s@) is None,
            EndpointParse::NoHost => url_parses(s@) && url_host_of(s@) is None,
            EndpointParse::HostPort(h, p) => url_parses(s@) && url_host_of(s@) == Some(h@)
                && url_port_of(s@) == p,
        },
{
    match url::Url::parse(s) {
        Ok(u) => match u.host_str() {
            Some(h) => EndpointParse::HostPort(h.to_owned(), u.port()),
            None => EndpointParse::NoHost,
        },
        Err(_) => EndpointParse::NoUrl,
    }
}

} // verus!
