//! The origin-authorization engine.
//!
//! Configuration strings are compiled by [`compile_allowed_origin`] into
//! canonical [`AllowedOrigin`] patterns; per request, [`authorized`] decides
//! whether an `Origin` header value is allowed by the compiled set.
//!
//! The whole engine is specified against [`spec_compile`] and
//! [`pattern_matches`], which are stated over the views of the inputs and
//! the named results of the URL parser.

use vstd::prelude::*;
use vstd::string::*;

use crate::text::{
    contains_char, contains_char_str, ends_with_str, eq_ignore_case, find_scheme_sep, find_sep,
    lemma_lower_idempotent, lower, lower_str, spec_ends_with, spec_trim_slash, str_eq_str,
    trim_one_trailing_slash,
};
use crate::weburl::{
    parse_url_parts, url_fragment, url_host, url_parses, url_path, url_port, url_query,
    url_scheme,
};

verus! {

/// The scheme of an allowed origin; only these two are supported.
#[derive(Clone, Copy, Debug, PartialEq, Eq, Structural)]
pub enum Scheme {
    Http,
    Https,
}

/// The well-known default port of a scheme.
pub open spec fn spec_default_port(scheme: Scheme) -> u16 {
    match scheme {
        Scheme::Http => 80,
        Scheme::Https => 443,
    }
}

/// The scheme denoted by a string: exactly `http` or `https`, case-sensitively.
pub open spec fn spec_scheme_of(s: Seq<char>) -> Option<Scheme> {
    if s == "http"@ {
        Some(Scheme::Http)
    } else if s == "https"@ {
        Some(Scheme::Https)
    } else {
        None
    }
}

/// The port an origin is taken to use: the explicit one if present, the
/// scheme's default otherwise.
pub open spec fn spec_effective_port(explicit: Option<u16>, scheme: Scheme) -> u16 {
    match explicit {
        Some(p) => p,
        None => spec_default_port(scheme),
    }
}

impl Scheme {
    /// Parses `http` or `https`, case-sensitively; anything else is invalid.
    pub fn try_from_str(value: &str) -> (r: Option<Scheme>)
        ensures
            r == spec_scheme_of(value@),
    {
        if str_eq_str(value, "http") {
            Some(Scheme::Http)
        } else if str_eq_str(value, "https") {
            Some(Scheme::Https)
        } else {
            None
        }
    }

    /// The scheme's well-known default port.
    pub fn port(self) -> (r: u16)
        ensures
            r == spec_default_port(self),
    {
        match self {
            Scheme::Http => 80,
            Scheme::Https => 443,
        }
    }
}

/// Why a configured origin string was rejected.
#[derive(Clone, Copy, Debug, PartialEq, Eq, Structural)]
pub enum InvalidOriginError {
    /// The string is not a valid absolute URL.
    UnparsableUrl,
    /// The scheme is neither `http` nor `https`.
    UnsupportedScheme,
    /// The URL has no host.
    MissingHost,
    /// An exact pattern carries a path beyond `/`.
    NonRootPath,
    /// An exact pattern carries a query string or fragment.
    HasQueryOrFragment,
    /// A wildcard entry misses the scheme or the `*.` prefix, or embeds a
    /// path or port.
    MalformedWildcard,
    /// A wildcard base domain is empty, lacks a dot, or holds another `*`.
    InvalidWildcardBase,
}

/// The human-readable reason for each rejection.
pub open spec fn spec_reason(e: InvalidOriginError) -> Seq<char> {
    match e {
        InvalidOriginError::UnparsableUrl => "must be a valid URL"@,
        InvalidOriginError::UnsupportedScheme => "only http/https schemes are supported"@,
        InvalidOriginError::MissingHost => "must contain a host"@,
        InvalidOriginError::NonRootPath => "must not contain path, query, or fragment"@,
        InvalidOriginError::HasQueryOrFragment => "must not contain path, query, or fragment"@,
        InvalidOriginError::MalformedWildcard => "wildcard origins must use the *.example.com format"@,
        InvalidOriginError::InvalidWildcardBase => "wildcard base must be a valid domain like example.com"@,
    }
}

impl InvalidOriginError {
    /// The reason, as an operator-facing message.
    pub fn describe(&self) -> (r: &'static str)
        ensures
            r@ == spec_reason(*self),
    {
        match self {
            InvalidOriginError::UnparsableUrl => "must be a valid URL",
            InvalidOriginError::UnsupportedScheme => "only http/https schemes are supported",
            InvalidOriginError::MissingHost => "must contain a host",
            InvalidOriginError::NonRootPath => "must not contain path, query, or fragment",
            InvalidOriginError::HasQueryOrFragment => "must not contain path, query, or fragment",
            InvalidOriginError::MalformedWildcard => "wildcard origins must use the *.example.com format",
            InvalidOriginError::InvalidWildcardBase => "wildcard base must be a valid domain like example.com",
        }
    }
}

/// The compiled predicate of a wildcard pattern: accepts every host that
/// ends, up to ASCII case, with `.` followed by the base domain.
#[derive(Debug, Clone)]
pub struct SubdomainMatcher {
    pub suffix: String,
}

impl SubdomainMatcher {
    /// Whether the matcher accepts the host, case-insensitively.
    pub fn is_match(&self, host: &str) -> (r: bool)
        ensures
            r == spec_ends_with(lower(host@), self.suffix@),
    {
        let lowered = lower_str(host);
        ends_with_str(lowered.as_str(), self.suffix.as_str())
    }
}

/// The canonical form of one configured origin pattern.
#[derive(Debug, Clone)]
pub enum AllowedOrigin {
    /// One scheme, host and resolved port.
    Exact { scheme: Scheme, host: String, port: u16 },
    /// `localhost` under the given scheme, whatever the port.
    Localhost { scheme: Scheme },
    /// Every strict subdomain of a base domain under the given scheme.
    Wildcard { scheme: Scheme, matcher: SubdomainMatcher, base_host: String },
}

/// The mathematical shape of a compiled pattern.
pub enum OriginPattern {
    Exact { scheme: Scheme, host: Seq<char>, port: u16 },
    Localhost { scheme: Scheme },
    Wildcard { scheme: Scheme, base_host: Seq<char> },
}

impl View for AllowedOrigin {
    type V = OriginPattern;

    open spec fn view(&self) -> OriginPattern {
        match self {
            AllowedOrigin::Exact { scheme, host, port } => OriginPattern::Exact {
                scheme: *scheme,
                host: host@,
                port: *port,
            },
            AllowedOrigin::Localhost { scheme } => OriginPattern::Localhost { scheme: *scheme },
            AllowedOrigin::Wildcard { scheme, base_host, .. } => OriginPattern::Wildcard {
                scheme: *scheme,
                base_host: base_host@,
            },
        }
    }
}

impl AllowedOrigin {
    /// The invariant every compiled pattern satisfies: hosts are stored
    /// lowercased, and a wildcard's matcher is compiled from its base domain.
    pub open spec fn wf(&self) -> bool {
        match self {
            AllowedOrigin::Exact { host, .. } => host@ == lower(host@),
            AllowedOrigin::Localhost { .. } => true,
            AllowedOrigin::Wildcard { matcher, base_host, .. } => {
                &&& base_host@ == lower(base_host@)
                &&& matcher.suffix@ == seq!['.'] + base_host@
            },
        }
    }
}

impl PartialEq for SubdomainMatcher {
    fn eq(&self, other: &Self) -> bool {
        self.suffix == other.suffix
    }
}

impl vstd::std_specs::cmp::PartialEqSpecImpl for SubdomainMatcher {
    open spec fn obeys_eq_spec() -> bool {
        true
    }

    open spec fn eq_spec(&self, other: &Self) -> bool {
        self.suffix@ == other.suffix@
    }
}

impl PartialEq for AllowedOrigin {
    fn eq(&self, other: &Self) -> bool {
        match (self, other) {
            (
                AllowedOrigin::Exact { scheme: s1, host: h1, port: p1 },
                AllowedOrigin::Exact { scheme: s2, host: h2, port: p2 },
            ) => *s1 == *s2 && *h1 == *h2 && *p1 == *p2,
            (
                AllowedOrigin::Localhost { scheme: s1 },
                AllowedOrigin::Localhost { scheme: s2 },
            ) => *s1 == *s2,
            (
                AllowedOrigin::Wildcard { scheme: s1, matcher: m1, base_host: b1 },
                AllowedOrigin::Wildcard { scheme: s2, matcher: m2, base_host: b2 },
            ) => *s1 == *s2 && m1.suffix == m2.suffix && *b1 == *b2,
            _ => false,
        }
    }
}

impl vstd::std_specs::cmp::PartialEqSpecImpl for AllowedOrigin {
    open spec fn obeys_eq_spec() -> bool {
        true
    }

    open spec fn eq_spec(&self, other: &Self) -> bool {
        match (self, other) {
            (
                AllowedOrigin::Exact { scheme: s1, host: h1, port: p1 },
                AllowedOrigin::Exact { scheme: s2, host: h2, port: p2 },
            ) => s1 == s2 && h1@ == h2@ && p1 == p2,
            (
                AllowedOrigin::Localhost { scheme: s1 },
                AllowedOrigin::Localhost { scheme: s2 },
            ) => s1 == s2,
            (
                AllowedOrigin::Wildcard { scheme: s1, matcher: m1, base_host: b1 },
                AllowedOrigin::Wildcard { scheme: s2, matcher: m2, base_host: b2 },
            ) => s1 == s2 && m1.suffix@ == m2.suffix@ && b1@ == b2@,
            _ => false,
        }
    }
}

/// What one configured string compiles to: a pattern, or the reason it is
/// rejected.  The algorithm first trims one trailing `/`, then takes the
/// `localhost` shortcut, then treats every remaining string with a `*` as a
/// wildcard and everything else as an exact origin.
pub open spec fn spec_compile(raw: Seq<char>) -> Result<OriginPattern, InvalidOriginError> {
    let t = spec_trim_slash(raw);
    if lower(t) == lower("http://localhost"@) {
        Ok(OriginPattern::Localhost { scheme: Scheme::Http })
    } else if lower(t) == lower("https://localhost"@) {
        Ok(OriginPattern::Localhost { scheme: Scheme::Https })
    } else if contains_char(t, '*') {
        spec_compile_wildcard(t)
    } else {
        spec_compile_exact(t)
    }
}

/// Exact compilation: the trimmed string must parse as an absolute URL of a
/// supported scheme, with a host, and denote nothing beyond an origin.
pub open spec fn spec_compile_exact(t: Seq<char>) -> Result<OriginPattern, InvalidOriginError> {
    if !url_parses(t) {
        Err(InvalidOriginError::UnparsableUrl)
    } else {
        match spec_scheme_of(url_scheme(t)) {
            None => Err(InvalidOriginError::UnsupportedScheme),
            Some(scheme) => match url_host(t) {
                None => Err(InvalidOriginError::MissingHost),
                Some(h) => {
                    if url_path(t) != "/"@ {
                        Err(InvalidOriginError::NonRootPath)
                    } else if url_query(t) is Some || url_fragment(t) is Some {
                        Err(InvalidOriginError::HasQueryOrFragment)
                    } else {
                        Ok(OriginPattern::Exact {
                            scheme,
                            host: lower(h),
                            port: spec_effective_port(url_port(t), scheme),
                        })
                    }
                },
            },
        }
    }
}

/// Wildcard compilation: `scheme://*.base`, where the base domain is
/// lowercased, non-empty, holds a dot and no further `*`.
pub open spec fn spec_compile_wildcard(t: Seq<char>) -> Result<
    OriginPattern,
    InvalidOriginError,
> {
    match find_sep(t) {
        None => Err(InvalidOriginError::MalformedWildcard),
        Some(i) => {
            let scheme_part = t.take(i);
            let host_part = t.skip(i + 3);
            match spec_scheme_of(scheme_part) {
                None => Err(InvalidOriginError::UnsupportedScheme),
                Some(scheme) => {
                    if !(host_part.len() >= 2 && host_part[0] == '*' && host_part[1] == '.') {
                        Err(InvalidOriginError::MalformedWildcard)
                    } else if contains_char(host_part, '/') {
                        Err(InvalidOriginError::MalformedWildcard)
                    } else if contains_char(host_part, ':') {
                        Err(InvalidOriginError::MalformedWildcard)
                    } else {
                        let base_host = lower(host_part.skip(2));
                        if base_host.len() == 0 || !contains_char(base_host, '.') {
                            Err(InvalidOriginError::InvalidWildcardBase)
                        } else if contains_char(base_host, '*') {
                            Err(InvalidOriginError::InvalidWildcardBase)
                        } else {
                            Ok(OriginPattern::Wildcard { scheme, base_host })
                        }
                    }
                },
            }
        },
    }
}

/// The model of a compilation result.
pub open spec fn compile_view(r: Result<AllowedOrigin, InvalidOriginError>) -> Result<
    OriginPattern,
    InvalidOriginError,
> {
    match r {
        Ok(p) => Ok(p@),
        Err(e) => Err(e),
    }
}

/// Compiles one configured origin string, or says precisely why it is
/// rejected.
pub fn compile_allowed_origin(origin: &str) -> (r: Result<AllowedOrigin, InvalidOriginError>)
    ensures
        compile_view(r) == spec_compile(origin@),
        r matches Ok(p) ==> p.wf(),
{
    let trimmed = trim_one_trailing_slash(origin);
    if eq_ignore_case(trimmed, "http://localhost") {
        return Ok(AllowedOrigin::Localhost { scheme: Scheme::Http });
    }
    if eq_ignore_case(trimmed, "https://localhost") {
        return Ok(AllowedOrigin::Localhost { scheme: Scheme::Https });
    }
    if contains_char_str(trimmed, '*') {
        compile_wildcard_origin(trimmed)
    } else {
        compile_exact_origin(trimmed)
    }
}

fn compile_exact_origin(t: &str) -> (r: Result<AllowedOrigin, InvalidOriginError>)
    ensures
        compile_view(r) == spec_compile_exact(t@),
        r matches Ok(p) ==> p.wf(),
{
    let parts = match parse_url_parts(t) {
        Some(p) => p,
        None => {
            return Err(InvalidOriginError::UnparsableUrl);
        },
    };
    let scheme = match Scheme::try_from_str(parts.scheme.as_str()) {
        Some(s) => s,
        None => {
            return Err(InvalidOriginError::UnsupportedScheme);
        },
    };
    let host = match parts.host {
        Some(h) => h,
        None => {
            return Err(InvalidOriginError::MissingHost);
        },
    };
    let port = match parts.port {
        Some(p) => p,
        None => scheme.port(),
    };
    if !str_eq_str(parts.path.as_str(), "/") {
        return Err(InvalidOriginError::NonRootPath);
    }
    if parts.query.is_some() || parts.fragment.is_some() {
        return Err(InvalidOriginError::HasQueryOrFragment);
    }
    let lowered = lower_str(host.as_str());
    proof {
        lemma_lower_idempotent(host@);
    }
    Ok(AllowedOrigin::Exact { scheme, host: lowered, port })
}

fn compile_wildcard_origin(t: &str) -> (r: Result<AllowedOrigin, InvalidOriginError>)
    ensures
        compile_view(r) == spec_compile_wildcard(t@),
        r matches Ok(p) ==> p.wf(),
{
    let sep = match find_scheme_sep(t) {
        Some(i) => i,
        None => {
            return Err(InvalidOriginError::MalformedWildcard);
        },
    };
    let len = t.unicode_len();
    let scheme_part = t.substring_char(0, sep);
    let host_part = t.substring_char(sep + 3, len);
    proof {
        assert(scheme_part@ =~= t@.take(sep as int));
        assert(host_part@ =~= t@.skip(sep + 3));
    }
    let scheme = match Scheme::try_from_str(scheme_part) {
        Some(s) => s,
        None => {
            return Err(InvalidOriginError::UnsupportedScheme);
        },
    };
    let hp_len = host_part.unicode_len();
    if !(hp_len >= 2 && host_part.get_char(0) == '*' && host_part.get_char(1) == '.') {
        return Err(InvalidOriginError::MalformedWildcard);
    }
    if contains_char_str(host_part, '/') {
        return Err(InvalidOriginError::MalformedWildcard);
    }
    if contains_char_str(host_part, ':') {
        return Err(InvalidOriginError::MalformedWildcard);
    }
    let base_raw = host_part.substring_char(2, hp_len);
    proof {
        assert(base_raw@ =~= host_part@.skip(2));
    }
    let base_host = lower_str(base_raw);
    if base_host.unicode_len() == 0 || !contains_char_str(base_host.as_str(), '.') {
        return Err(InvalidOriginError::InvalidWildcardBase);
    }
    if contains_char_str(base_host.as_str(), '*') {
        return Err(InvalidOriginError::InvalidWildcardBase);
    }
    let mut suffix = String::from_str(".");
    suffix.append(base_host.as_str());
    proof {
        reveal_strlit(".");
        assert("."@ =~= seq!['.']);
        assert(suffix@ == seq!['.'] + base_host@);
        lemma_lower_idempotent(base_raw@);
    }
    Ok(AllowedOrigin::Wildcard { scheme, matcher: SubdomainMatcher { suffix }, base_host })
}

/// Whether a compiled pattern accepts the given `Origin` header value:
/// after one trailing `/` is trimmed, the value must parse as a URL with a
/// host and supported scheme, and its scheme, lowercased host and effective
/// port must satisfy the pattern's case.
pub open spec fn pattern_matches(p: OriginPattern, origin: Seq<char>) -> bool {
    let t = spec_trim_slash(origin);
    if !url_parses(t) {
        false
    } else {
        match url_host(t) {
            None => false,
            Some(h) => match spec_scheme_of(url_scheme(t)) {
                None => false,
                Some(sch) => {
                    let host = lower(h);
                    let port = spec_effective_port(url_port(t), sch);
                    match p {
                        OriginPattern::Exact { scheme, host: ph, port: pp } => {
                            &&& sch == scheme
                            &&& host == ph
                            &&& port == pp
                        },
                        OriginPattern::Localhost { scheme } => {
                            &&& sch == scheme
                            &&& host == "localhost"@
                        },
                        OriginPattern::Wildcard { scheme, base_host } => {
                            &&& sch == scheme
                            &&& spec_ends_with(host, seq!['.'] + base_host)
                            &&& host != base_host
                        },
                    }
                },
            },
        }
    }
}

impl AllowedOrigin {
    /// Whether this pattern accepts the given `Origin` header value.
    pub fn matches(&self, origin: &str) -> (r: bool)
        requires
            self.wf(),
        ensures
            r == pattern_matches(self@, origin@),
    {
        let trimmed = trim_one_trailing_slash(origin);
        let parts = match parse_url_parts(trimmed) {
            Some(p) => p,
            None => {
                return false;
            },
        };
        let host = match parts.host {
            Some(h) => h,
            None => {
                return false;
            },
        };
        let request_scheme = match Scheme::try_from_str(parts.scheme.as_str()) {
            Some(s) => s,
            None => {
                return false;
            },
        };
        let request_host = lower_str(host.as_str());
        let request_port = match parts.port {
            Some(p) => p,
            None => request_scheme.port(),
        };
        match self {
            AllowedOrigin::Exact { scheme, host: own_host, port } => {
                request_scheme == *scheme && str_eq_str(request_host.as_str(), own_host.as_str())
                    && request_port == *port
            },
            AllowedOrigin::Localhost { scheme } => {
                request_scheme == *scheme && str_eq_str(request_host.as_str(), "localhost")
            },
            AllowedOrigin::Wildcard { scheme, matcher, base_host } => {
                proof {
                    lemma_lower_idempotent(host@);
                }
                request_scheme == *scheme && matcher.is_match(request_host.as_str()) && !str_eq_str(
                    request_host.as_str(),
                    base_host.as_str(),
                )
            },
        }
    }
}

/// The views of a sequence of compiled patterns.
pub open spec fn seq_views(ps: Seq<AllowedOrigin>) -> Seq<OriginPattern> {
    ps.map_values(|p: AllowedOrigin| p@)
}

/// Whether some pattern in the set accepts the origin.
pub open spec fn spec_authorized(origin: Seq<char>, ps: Seq<OriginPattern>) -> bool {
    exists|i: int| 0 <= i < ps.len() && pattern_matches(ps[i], origin)
}

/// Whether the `Origin` header value is authorized by the compiled set.
/// Patterns are tried in configured order and the first match wins; an
/// unparsable value is never authorized.
pub fn authorized(origin: &str, patterns: &Vec<AllowedOrigin>) -> (r: bool)
    requires
        forall|i: int| 0 <= i < patterns@.len() ==> (#[trigger] patterns@[i]).wf(),
    ensures
        r == spec_authorized(origin@, seq_views(patterns@)),
{
    let n = patterns.len();
    let mut idx: usize = 0;
    while idx < n
        invariant
            idx <= n,
            n == patterns@.len(),
            forall|i: int| 0 <= i < n ==> (#[trigger] patterns@[i]).wf(),
            forall|j: int| 0 <= j < idx ==> !pattern_matches(seq_views(patterns@)[j], origin@),
        decreases n - idx,
    {
        if patterns[idx].matches(origin) {
            proof {
                assert(pattern_matches(seq_views(patterns@)[idx as int], origin@));
            }
            return true;
        }
        idx += 1;
    }
    proof {
        assert(forall|j: int|
            0 <= j < seq_views(patterns@).len() ==> !pattern_matches(
                seq_views(patterns@)[j],
                origin@,
            ));
    }
    false
}

/// Checks one configured origin string, reporting the precise reason when
/// it does not compile.
pub fn validate_allow_origin_entry(origin: &str) -> (r: Result<(), InvalidOriginError>)
    ensures
        r is Ok <==> spec_compile(origin@) is Ok,
        r matches Err(e) ==> spec_compile(origin@) == Err::<OriginPattern, _>(e),
{
    match compile_allowed_origin(origin) {
        Ok(_) => Ok(()),
        Err(e) => Err(e),
    }
}

/// Compiles the whole configured allow-list.  Succeeds only when every entry
/// compiles; the first failure is reported and nothing is silently dropped.
pub fn parse_allowed_origins(origins: &Vec<String>) -> (r: Result<
    Vec<AllowedOrigin>,
    InvalidOriginError,
>)
    ensures
        r matches Ok(ps) ==> {
            &&& ps@.len() == origins@.len()
            &&& forall|i: int|
                0 <= i < origins@.len() ==> #[trigger] spec_compile(origins@[i]@) == Ok::<
                    _,
                    InvalidOriginError,
                >(ps@[i]@)
            &&& forall|i: int| 0 <= i < ps@.len() ==> (#[trigger] ps@[i]).wf()
        },
        r matches Err(e) ==> exists|i: int|
            {
                &&& 0 <= i < origins@.len()
                &&& #[trigger] spec_compile(origins@[i]@) == Err::<OriginPattern, _>(e)
                &&& forall|j: int| 0 <= j < i ==> spec_compile(origins@[j]@) is Ok
            },
{
    let n = origins.len();
    let mut compiled: Vec<AllowedOrigin> = Vec::new();
    let mut idx: usize = 0;
    while idx < n
        invariant
            idx <= n,
            n == origins@.len(),
            compiled@.len() == idx,
            forall|i: int|
                0 <= i < idx ==> #[trigger] spec_compile(origins@[i]@) == Ok::<
                    _,
                    InvalidOriginError,
                >(compiled@[i]@),
            forall|i: int| 0 <= i < idx ==> (#[trigger] compiled@[i]).wf(),
        decreases n - idx,
    {
        match compile_allowed_origin(origins[idx].as_str()) {
            Ok(p) => {
                compiled.push(p);
            },
            Err(e) => {
                proof {
                    assert(spec_compile(origins@[idx as int]@) == Err::<OriginPattern, _>(e));
                }
                return Err(e);
            },
        }
        idx += 1;
    }
    Ok(compiled)
}

} // verus!
