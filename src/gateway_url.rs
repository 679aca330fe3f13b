//! The part of a gateway URL that connection setup reads: its host.

use vstd::prelude::*;
use vstd::string::*;

verus! {

/// The host that the `url` crate reads from the text `s`, or `None` where `s`
/// is no URL or names no host.
pub uninterp spec fn url_host(s: Seq<char>) -> Option<Seq<char>>;

/// Relies on `url::Url::parse` and `url::Url::host_str`: parses `s` and hands
/// back the text of its host (a domain or an IP address). A text that does not
/// parse yields `None`, as does a URL without a host.
#[verifier::external_body]
fn parse_url_host(s: &str) -> (r: Option<String>)
    ensures
        r matches Some(h) ==> url_host(s@) == Some(h@),
        r is None ==> url_host(s@) is None,
{
    match url::Url::parse(s) {
        Ok(url) => url.host_str().map(|h| h.to_string()),
        Err(_) => None,
    }
}

/// A gateway URL, reduced to its host component.
#[derive(Debug, Clone)]
pub struct GatewayUrl {
    host: Option<String>,
}

impl View for GatewayUrl {
    type V = Option<Seq<char>>;

    /// The host, where the URL has one.
    closed spec fn view(&self) -> Option<Seq<char>> {
        match self.host {
            Some(h) => Some(h@),
            None => None,
        }
    }
}

impl GatewayUrl {
    /// Parses `s` as a URL and keeps its host.
    pub fn parse(s: &str) -> (r: GatewayUrl)
        ensures
            r@ == url_host(s@),
    {
        GatewayUrl { host: parse_url_host(s) }
    }

    /// A URL with the given host, or with none.
    pub fn from_host(host: Option<String>) -> (r: GatewayUrl)
        ensures
            r@ == (match host {
                Some(h) => Some(h@),
                None => None::<Seq<char>>,
            }),
    {
        GatewayUrl { host }
    }

    /// The host of the URL, where it has one.
    pub fn host(&self) -> (r: Option<&str>)
        ensures
            r matches Some(h) ==> self@ == Some(h@),
            r is None ==> self@ is None,
    {
        match &self.host {
            Some(h) => Some(h.as_str()),
            None => None,
        }
    }
}

/// The address dialled for a host: the host on the standard TLS port.
pub open spec fn tls_address(host: Seq<char>) -> Seq<char> {
    host + ":443"@
}

/// Builds `"{host}:443"`.
pub fn address_for(host: &str) -> (r: String)
    ensures
        r@ == tls_address(host@),
{
    let mut address = String::from_str(host);
    address.append(":443");
    address
}

} // verus!
