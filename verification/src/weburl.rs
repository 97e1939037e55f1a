//! Interface to URL parsing.
//!
//! The engine never inspects a parsed URL itself: one trusted call breaks an
//! absolute-URL string into plain components, and everything downstream is
//! specified over names for what the parser returns on a given input.  Each
//! name is a pure function of the input string alone, which is sound because
//! the parser is deterministic: it reads nothing but its argument.

use vstd::prelude::*;

verus! {

/// Whether the string parses as an absolute URL (`url::Url::parse` succeeds).
pub uninterp spec fn url_parses(s: Seq<char>) -> bool;

/// The scheme of the parsed URL (`url::Url::scheme`).
pub uninterp spec fn url_scheme(s: Seq<char>) -> Seq<char>;

/// The host of the parsed URL, if it has one (`url::Url::host_str`).
pub uninterp spec fn url_host(s: Seq<char>) -> Option<Seq<char>>;

/// The explicit or scheme-default port of the parsed URL
/// (`url::Url::port_or_known_default`).
pub uninterp spec fn url_port(s: Seq<char>) -> Option<u16>;

/// The path of the parsed URL (`url::Url::path`).
pub uninterp spec fn url_path(s: Seq<char>) -> Seq<char>;

/// The query of the parsed URL, if present (`url::Url::query`).
pub uninterp spec fn url_query(s: Seq<char>) -> Option<Seq<char>>;

/// The fragment of the parsed URL, if present (`url::Url::fragment`).
pub uninterp spec fn url_fragment(s: Seq<char>) -> Option<Seq<char>>;

/// The components of a parsed absolute URL that the origin engine reads,
/// as plain values.
pub struct UrlParts {
    pub scheme: String,
    pub host: Option<String>,
    pub port: Option<u16>,
    pub path: String,
    pub query: Option<String>,
    pub fragment: Option<String>,
}

/// The view of an optional string.
pub open spec fn opt_view(o: Option<String>) -> Option<Seq<char>> {
    match o {
        Some(s) => Some(s@),
        None => None,
    }
}

/// Relies on `url::Url::parse` and the accessors `scheme`, `host_str`,
/// `port_or_known_default`, `path`, `query` and `fragment`: parses `s` as an
/// absolute URL and hands its components back as plain values.
#[verifier::external_body]
pub(crate) fn parse_url_parts(s: &str) -> (r: Option<UrlParts>)
    ensures
        r is Some <==> url_parses(s@),
        r matches Some(p) ==> {
            &&& p.scheme@ == url_scheme(s@)
            &&& opt_view(p.host) == url_host(s@)
            &&& p.port == url_port(s@)
            &&& p.path@ == url_path(s@)
            &&& opt_view(p.query) == url_query(s@)
            &&& opt_view(p.fragment) == url_fragment(s@)
        },
{
    match url::Url::parse(s) {
        Ok(u) => Some(UrlParts {
            scheme: u.scheme().to_string(),
            host: u.host_str().map(|h| h.to_string()),
            port: u.port_or_known_default(),
            path: u.path().to_string(),
            query: u.query().map(|q| q.to_string()),
            fragment: u.fragment().map(|f| f.to_string()),
        }),
        Err(_) => None,
    }
}

} // verus!
