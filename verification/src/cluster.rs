//! The networks a wallet can talk to, and their addresses.

use vstd::prelude::*;
use crate::text::{ascii_lowercase, has_prefix, lowercase_eq, starts_with, str_eq};
use crate::weburl::{
    as_str, describe, error_text, fits, host_str, lemma_scheme_before_colon, parse, parsed, port,
    scheme, set_port, set_scheme, text_host, text_port, text_scheme, text_with_port,
    text_with_scheme, url_text, URL_TEXT_LIMIT,
};

verus! {

/// A network: one of the two public ones, or one of the user's own, given
/// by the address of its RPC endpoint and the address of its websocket
/// endpoint.
#[derive(Debug, PartialEq, Eq, PartialOrd, Ord)]
pub enum Cluster {
    Testnet,
    Mainnet,
    Custom(String, String),
}

/// The mathematical value of a [`Cluster`].
pub enum ClusterView {
    Testnet,
    Mainnet,
    Custom(Seq<char>, Seq<char>),
}

impl View for Cluster {
    type V = ClusterView;

    open spec fn view(&self) -> ClusterView {
        match self {
            Cluster::Testnet => ClusterView::Testnet,
            Cluster::Mainnet => ClusterView::Mainnet,
            Cluster::Custom(url, ws_url) => ClusterView::Custom(url@, ws_url@),
        }
    }
}

impl Clone for Cluster {
    fn clone(&self) -> (r: Self)
        ensures
            r@ == self@,
    {
        match self {
            Cluster::Testnet => Cluster::Testnet,
            Cluster::Mainnet => Cluster::Mainnet,
            Cluster::Custom(url, ws_url) => Cluster::Custom(url.clone(), ws_url.clone()),
        }
    }
}

/// Why a string names no cluster.
#[derive(Debug)]
pub enum ClusterError {
    /// The string is neither a known name nor an address.
    InvalidCluster,
    /// The string looks like an address but is no URL.
    UrlParseError(url::ParseError),
    /// The port of the websocket endpoint could not be set.
    SetPortError,
    /// The scheme of the websocket endpoint could not be set.
    SetSchemeError,
}

/// The mathematical value of a [`ClusterError`]; a parse error is taken by
/// its description.
pub enum ClusterFailure {
    InvalidCluster,
    UrlParseError(Seq<char>),
    SetPortError,
    SetSchemeError,
}

impl View for ClusterError {
    type V = ClusterFailure;

    open spec fn view(&self) -> ClusterFailure {
        match self {
            ClusterError::InvalidCluster => ClusterFailure::InvalidCluster,
            ClusterError::UrlParseError(e) => ClusterFailure::UrlParseError(error_text(*e)),
            ClusterError::SetPortError => ClusterFailure::SetPortError,
            ClusterError::SetSchemeError => ClusterFailure::SetSchemeError,
        }
    }
}

impl ClusterFailure {
    /// The words that tell of this failure.
    pub open spec fn text(self) -> Seq<char> {
        match self {
            ClusterFailure::InvalidCluster => "Invalid cluster"@,
            ClusterFailure::UrlParseError(description) => "URL parse error: "@ + description,
            ClusterFailure::SetPortError => "Unable to set port"@,
            ClusterFailure::SetSchemeError => "Unable to set scheme"@,
        }
    }
}

impl From<url::ParseError> for ClusterError {
    fn from(e: url::ParseError) -> (r: ClusterError) {
        ClusterError::UrlParseError(e)
    }
}

impl vstd::std_specs::convert::FromSpecImpl<url::ParseError> for ClusterError {
    open spec fn obeys_from_spec() -> bool {
        true
    }

    open spec fn from_spec(e: url::ParseError) -> ClusterError {
        ClusterError::UrlParseError(e)
    }
}

impl ClusterError {
    /// What went wrong, in words. For a string that is no URL the words
    /// end with the parser's own description.
    pub fn to_string(&self) -> (r: String)
        ensures
            r@ == self@.text(),
    {
        match self {
            ClusterError::InvalidCluster => "Invalid cluster".to_owned(),
            ClusterError::UrlParseError(e) => {
                let head = "URL parse error: ".to_owned();
                head.concat(describe(e).as_str())
            },
            ClusterError::SetPortError => "Unable to set port".to_owned(),
            ClusterError::SetSchemeError => "Unable to set scheme".to_owned(),
        }
    }

    /// The parser's error behind this one, if there is one.
    pub fn source(&self) -> (r: Option<&url::ParseError>)
        ensures
            match self {
                ClusterError::UrlParseError(e) => r == Some(e),
                _ => r is None,
            },
    {
        match self {
            ClusterError::UrlParseError(e) => Some(e),
            _ => None,
        }
    }
}

/// The port of the websocket endpoint that belongs to an RPC endpoint on
/// `port`: the next one. The last port has none.
pub open spec fn websocket_port_of(port: u16) -> Option<u16> {
    if port < u16::MAX {
        Some((port + 1) as u16)
    } else {
        None
    }
}

/// The scheme of the websocket endpoint that belongs to an RPC endpoint
/// with `scheme`: secure for `https`, plain for everything else.
pub open spec fn websocket_scheme_of(scheme: Seq<char>) -> Seq<char> {
    if scheme == "https"@ {
        "wss"@
    } else {
        "ws"@
    }
}

/// The text of the websocket endpoint that belongs to the RPC endpoint with
/// the URL text `text`: an explicit port is replaced by the next one, then
/// the scheme by its websocket counterpart.
pub open spec fn websocket_text(text: Seq<char>) -> Result<Seq<char>, ClusterFailure> {
    let moved: Option<Seq<char>> = match text_port(text) {
        None => Some(text),
        Some(p) => match websocket_port_of(p) {
            None => None,
            Some(q) => if fits(text) {
                text_with_port(text, Some(q))
            } else {
                None
            },
        },
    };
    match moved {
        None => Err(ClusterFailure::SetPortError),
        Some(t) => if fits(t) {
            match text_with_scheme(t, websocket_scheme_of(text_scheme(t))) {
                Some(ws) => Ok(ws),
                None => Err(ClusterFailure::SetSchemeError),
            }
        } else {
            Err(ClusterFailure::SetSchemeError)
        },
    }
}

/// The cluster that a string names: `t` or `testnet` and `m` or `mainnet`,
/// in any mix of upper and lower case, name the public networks; a string
/// that begins with `http` is taken as the address of an RPC endpoint.
pub open spec fn cluster_of(s: Seq<char>) -> Result<ClusterView, ClusterFailure> {
    let lower = ascii_lowercase(s);
    if lower == "t"@ || lower == "testnet"@ {
        Ok(ClusterView::Testnet)
    } else if lower == "m"@ || lower == "mainnet"@ {
        Ok(ClusterView::Mainnet)
    } else if has_prefix(s, "http"@) {
        match parsed(s) {
            Err(description) => Err(ClusterFailure::UrlParseError(description)),
            Ok(text) => match websocket_text(text) {
                Ok(ws) => Ok(ClusterView::Custom(s, ws)),
                Err(e) => Err(e),
            },
        }
    } else {
        Err(ClusterFailure::InvalidCluster)
    }
}

/// An RPC endpoint whose URL text begins with `https:` has a secure
/// websocket endpoint, one whose text begins with `http:` a plain one.
pub proof fn lemma_websocket_scheme_of_web_urls(rest: Seq<char>)
    ensures
        websocket_scheme_of(text_scheme("https"@ + seq![':'] + rest)) == "wss"@,
        websocket_scheme_of(text_scheme("http"@ + seq![':'] + rest)) == "ws"@,
{
    reveal_strlit("https");
    reveal_strlit("http");
    assert(!"https"@.contains(':'));
    assert(!"http"@.contains(':'));
    lemma_scheme_before_colon("https"@, rest);
    lemma_scheme_before_colon("http"@, rest);
    assert("http"@.len() != "https"@.len());
}

/// The host in an address: the host of the URL it parses to, and none for
/// an address that is no URL.
pub open spec fn host_of(address: Seq<char>) -> Option<Seq<char>> {
    match parsed(address) {
        Ok(text) => text_host(text),
        Err(_) => None,
    }
}

impl ClusterView {
    /// The address of the RPC endpoint.
    pub open spec fn url(self) -> Seq<char> {
        match self {
            ClusterView::Testnet => "https://neutron-testnet-rpc.polkachu.com"@,
            ClusterView::Mainnet => "https://neutron-rpc.polkachu.com/"@,
            ClusterView::Custom(url, _) => url,
        }
    }

    /// The address of the websocket endpoint.
    pub open spec fn ws_url(self) -> Seq<char> {
        match self {
            ClusterView::Testnet => "https://neutron-testnet-rpc.polkachu.com"@,
            ClusterView::Mainnet => "https://neutron-rpc.polkachu.com/"@,
            ClusterView::Custom(_, ws_url) => ws_url,
        }
    }

    /// The name of a public network, the RPC address of any other.
    pub open spec fn name(self) -> Seq<char> {
        match self {
            ClusterView::Testnet => "testnet"@,
            ClusterView::Mainnet => "mainnet"@,
            ClusterView::Custom(url, _) => url,
        }
    }
}

/// The port next to `port`, or `None` for the last port.
pub fn websocket_port(port: u16) -> (r: Option<u16>)
    ensures
        r == websocket_port_of(port),
{
    if port < u16::MAX {
        Some(port + 1)
    } else {
        None
    }
}

/// The websocket scheme that goes with `scheme`.
pub fn websocket_scheme(scheme: &str) -> (r: &'static str)
    ensures
        r@ == websocket_scheme_of(scheme@),
        r@.len() <= 3,
{
    proof {
        reveal_strlit("wss");
        reveal_strlit("ws");
    }
    if str_eq(scheme, "https") {
        "wss"
    } else {
        "ws"
    }
}

fn websocket_url(rpc: url::Url) -> (r: Result<String, ClusterError>)
    ensures
        match r {
            Ok(ws) => websocket_text(url_text(rpc)) == Ok::<Seq<char>, ClusterFailure>(ws@),
            Err(e) => websocket_text(url_text(rpc)) == Err::<Seq<char>, ClusterFailure>(e@),
        },
{
    let mut ws_url = rpc;
    if let Some(p) = port(&ws_url) {
        match websocket_port(p) {
            None => {
                return Err(ClusterError::SetPortError);
            },
            Some(q) => {
                if as_str(&ws_url).as_bytes().len() > URL_TEXT_LIMIT {
                    return Err(ClusterError::SetPortError);
                }
                if set_port(&mut ws_url, Some(q)).is_err() {
                    return Err(ClusterError::SetPortError);
                }
            },
        }
    }
    if as_str(&ws_url).as_bytes().len() > URL_TEXT_LIMIT {
        return Err(ClusterError::SetSchemeError);
    }
    let target = websocket_scheme(scheme(&ws_url));
    if set_scheme(&mut ws_url, target).is_err() {
        return Err(ClusterError::SetSchemeError);
    }
    Ok(as_str(&ws_url).to_owned())
}

impl Cluster {
    /// The cluster that `s` names.
    pub fn from_str(s: &str) -> (r: Result<Cluster, ClusterError>)
        ensures
            match r {
                Ok(c) => cluster_of(s@) == Ok::<ClusterView, ClusterFailure>(c@),
                Err(e) => cluster_of(s@) == Err::<ClusterView, ClusterFailure>(e@),
            },
    {
        if lowercase_eq(s, "t") || lowercase_eq(s, "testnet") {
            Ok(Cluster::Testnet)
        } else if lowercase_eq(s, "m") || lowercase_eq(s, "mainnet") {
            Ok(Cluster::Mainnet)
        } else if starts_with(s, "http") {
            match parse(s) {
                Err(e) => Err(ClusterError::from(e)),
                Ok(rpc) => match websocket_url(rpc) {
                    Ok(ws_url) => Ok(Cluster::Custom(s.to_owned(), ws_url)),
                    Err(e) => Err(e),
                },
            }
        } else {
            Err(ClusterError::InvalidCluster)
        }
    }

    /// The address of the RPC endpoint.
    pub fn url(&self) -> (r: &str)
        ensures
            r@ == self@.url(),
    {
        match self {
            Cluster::Testnet => "https://neutron-testnet-rpc.polkachu.com",
            Cluster::Mainnet => "https://neutron-rpc.polkachu.com/",
            Cluster::Custom(url, _ws_url) => url.as_str(),
        }
    }

    /// The address of the websocket endpoint.
    pub fn ws_url(&self) -> (r: &str)
        ensures
            r@ == self@.ws_url(),
    {
        match self {
            Cluster::Testnet => "https://neutron-testnet-rpc.polkachu.com",
            Cluster::Mainnet => "https://neutron-rpc.polkachu.com/",
            Cluster::Custom(_url, ws_url) => ws_url.as_str(),
        }
    }

    /// The host in the address of the RPC endpoint, if that address is a
    /// URL with a host.
    pub fn host_str(&self) -> (r: Option<String>)
        ensures
            match r {
                Some(h) => host_of(self@.url()) == Some(h@),
                None => host_of(self@.url()) is None,
            },
    {
        match parse(self.url()) {
            Ok(url) => match host_str(&url) {
                Some(h) => Some(h.to_owned()),
                None => None,
            },
            Err(_) => None,
        }
    }

    /// The name of a public network, the RPC address of any other.
    pub fn to_string(&self) -> (r: String)
        ensures
            r@ == self@.name(),
    {
        match self {
            Cluster::Testnet => "testnet".to_owned(),
            Cluster::Mainnet => "mainnet".to_owned(),
            Cluster::Custom(url, _ws_url) => url.clone(),
        }
    }
}

} // verus!
