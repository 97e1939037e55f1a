//! The general laws of the origin engine, proved once and for all inputs:
//! determinism of compilation, trailing-slash invariance, case-insensitivity,
//! the localhost port exemption, the wildcard base-domain exclusion, and
//! order-independence of matching.

use vstd::prelude::*;

use crate::cors::{
    pattern_matches, spec_authorized, spec_compile, OriginPattern, Scheme,
};
use crate::text::{lower, spec_trim_slash};
use crate::weburl::{url_host, url_parses, url_port, url_scheme};

verus! {

/// Compilation is a pure function of the configured string: compiling the
/// same string twice, at validation time and at matcher construction, yields
/// value-equal patterns.
pub proof fn lemma_compile_deterministic(a: Seq<char>, b: Seq<char>)
    requires
        a == b,
    ensures
        spec_compile(a) == spec_compile(b),
{
}

/// An `Origin` value that does not parse as a URL is never authorized,
/// whatever the configured patterns.
pub proof fn lemma_unparsable_not_authorized(origin: Seq<char>, ps: Seq<OriginPattern>)
    requires
        !url_parses(spec_trim_slash(origin)),
    ensures
        !spec_authorized(origin, ps),
{
    assert forall|i: int| 0 <= i < ps.len() implies !pattern_matches(ps[i], origin) by {}
}

/// Trailing-slash invariance: appending one `/` to an `Origin` value that
/// does not already end in `/` never changes the decision.
pub proof fn lemma_trailing_slash_invariant(origin: Seq<char>, ps: Seq<OriginPattern>)
    requires
        origin.len() == 0 || origin.last() != '/',
    ensures
        spec_authorized(origin.push('/'), ps) == spec_authorized(origin, ps),
{
    assert(spec_trim_slash(origin.push('/')) =~= origin);
    assert(spec_trim_slash(origin) == origin);
    assert forall|i: int| 0 <= i < ps.len() implies pattern_matches(ps[i], origin.push('/'))
        == pattern_matches(ps[i], origin) by {}
}

/// Whether two parsed hosts are equal up to ASCII case (or both absent).
pub open spec fn hosts_case_equal(a: Option<Seq<char>>, b: Option<Seq<char>>) -> bool {
    match (a, b) {
        (Some(x), Some(y)) => lower(x) == lower(y),
        (None, None) => true,
        _ => false,
    }
}

/// Case-insensitivity: the decision depends on the parsed host only up to
/// ASCII case.  Two `Origin` values whose trimmed forms parse to the same
/// scheme and port and to case-equal hosts get the same decision.
pub proof fn lemma_case_insensitive_host(o1: Seq<char>, o2: Seq<char>, ps: Seq<OriginPattern>)
    requires
        url_parses(spec_trim_slash(o1)),
        url_parses(spec_trim_slash(o2)),
        url_scheme(spec_trim_slash(o1)) == url_scheme(spec_trim_slash(o2)),
        url_port(spec_trim_slash(o1)) == url_port(spec_trim_slash(o2)),
        hosts_case_equal(url_host(spec_trim_slash(o1)), url_host(spec_trim_slash(o2))),
    ensures
        spec_authorized(o1, ps) == spec_authorized(o2, ps),
{
    assert forall|i: int| 0 <= i < ps.len() implies pattern_matches(ps[i], o1) == pattern_matches(
        ps[i],
        o2,
    ) by {}
}

/// The localhost exemption: a `Localhost` pattern reads only the scheme and
/// host of the origin, never its port.  Two origins with the same scheme and
/// case-equal hosts get the same decision from it, whatever their ports.
pub proof fn lemma_localhost_ignores_port(scheme: Scheme, o1: Seq<char>, o2: Seq<char>)
    requires
        url_parses(spec_trim_slash(o1)),
        url_parses(spec_trim_slash(o2)),
        url_scheme(spec_trim_slash(o1)) == url_scheme(spec_trim_slash(o2)),
        hosts_case_equal(url_host(spec_trim_slash(o1)), url_host(spec_trim_slash(o2))),
    ensures
        pattern_matches(OriginPattern::Localhost { scheme }, o1) == pattern_matches(
            OriginPattern::Localhost { scheme },
            o2,
        ),
{
}

/// A wildcard pattern never authorizes the bare base domain itself: an
/// origin whose lowercased host equals the base domain is rejected by it.
pub proof fn lemma_wildcard_excludes_base(
    scheme: Scheme,
    base_host: Seq<char>,
    origin: Seq<char>,
)
    requires
        url_host(spec_trim_slash(origin)) matches Some(h) && lower(h) == base_host,
    ensures
        !pattern_matches(OriginPattern::Wildcard { scheme, base_host }, origin),
{
}

/// Matching is order-independent: two configurations holding the same
/// patterns, in whatever order and however often, authorize exactly the
/// same origins.  First-match evaluation is therefore only an optimization.
pub proof fn lemma_authorized_order_independent(
    origin: Seq<char>,
    ps1: Seq<OriginPattern>,
    ps2: Seq<OriginPattern>,
)
    requires
        ps1.to_multiset() == ps2.to_multiset(),
    ensures
        spec_authorized(origin, ps1) == spec_authorized(origin, ps2),
{
    broadcast use vstd::seq_lib::group_to_multiset_ensures;

    if spec_authorized(origin, ps1) {
        let i = choose|i: int| 0 <= i < ps1.len() && pattern_matches(ps1[i], origin);
        assert(ps1.contains(ps1[i]));
        assert(ps2.to_multiset().count(ps1[i]) > 0);
        assert(ps2.contains(ps1[i]));
        let j = choose|j: int| 0 <= j < ps2.len() && ps2[j] == ps1[i];
        assert(pattern_matches(ps2[j], origin));
    }
    if spec_authorized(origin, ps2) {
        let i = choose|i: int| 0 <= i < ps2.len() && pattern_matches(ps2[i], origin);
        assert(ps2.contains(ps2[i]));
        assert(ps1.to_multiset().count(ps2[i]) > 0);
        assert(ps1.contains(ps2[i]));
        let j = choose|j: int| 0 <= j < ps1.len() && ps1[j] == ps2[i];
        assert(pattern_matches(ps1[j], origin));
    }
}

} // verus!
