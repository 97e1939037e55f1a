//! Character-level string helpers shared by the origin engine: ASCII case
//! folding, trimming, scanning and suffix tests, each specified over the
//! `Seq<char>` view of the string it works on.

use vstd::prelude::*;
use vstd::string::*;

verus! {

/// ASCII lowercasing of a single character; everything outside `A`..`Z`
/// is left untouched.
pub open spec fn lower_char(c: char) -> char {
    if 65 <= c as u32 && c as u32 <= 90 {
        (((c as u32) + 32) as u8) as char
    } else {
        c
    }
}

/// ASCII lowercasing of a whole character sequence.
pub open spec fn lower(s: Seq<char>) -> Seq<char> {
    s.map_values(|c: char| lower_char(c))
}

/// Whether `c` occurs anywhere in `s`.
pub open spec fn contains_char(s: Seq<char>, c: char) -> bool {
    exists|i: int| 0 <= i < s.len() && s[i] == c
}

/// Whether `s` ends with `suffix`.
pub open spec fn spec_ends_with(s: Seq<char>, suffix: Seq<char>) -> bool {
    suffix.len() <= s.len() && s.skip(s.len() - suffix.len()) == suffix
}

/// One trailing `/` removed, if present; the input otherwise.
pub open spec fn spec_trim_slash(s: Seq<char>) -> Seq<char> {
    if s.len() > 0 && s.last() == '/' {
        s.drop_last()
    } else {
        s
    }
}

/// Whether the three characters `://` stand at position `i` of `s`.
pub open spec fn sep_at(s: Seq<char>, i: int) -> bool {
    &&& 0 <= i
    &&& i + 3 <= s.len()
    &&& s[i] == ':'
    &&& s[i + 1] == '/'
    &&& s[i + 2] == '/'
}

/// Position of the first `://` in `s`, if any.
pub open spec fn find_sep(s: Seq<char>) -> Option<int>
    decreases s.len(),
{
    if s.len() < 3 {
        None
    } else if s[0] == ':' && s[1] == '/' && s[2] == '/' {
        Some(0)
    } else {
        match find_sep(s.drop_first()) {
            None => None,
            Some(i) => Some(i + 1),
        }
    }
}

/// Lowercasing twice is the same as lowercasing once.
pub proof fn lemma_lower_idempotent(s: Seq<char>)
    ensures
        lower(lower(s)) == lower(s),
{
    assert forall|i: int| 0 <= i < s.len() implies lower(lower(s))[i] == lower(s)[i] by {
        assert(lower(s)[i] == lower_char(s[i]));
        assert(lower(lower(s))[i] == lower_char(lower_char(s[i])));
    }
    assert(lower(lower(s)) =~= lower(s));
}

proof fn lemma_find_sep_at(s: Seq<char>, i: int)
    requires
        sep_at(s, i),
        forall|j: int| 0 <= j < i ==> !sep_at(s, j),
    ensures
        find_sep(s) == Some(i),
    decreases i,
{
    if i == 0 {
        assert(s.len() >= 3);
        assert(find_sep(s) == Some(0int));
    } else {
        let t = s.drop_first();
        assert forall|j: int| 0 <= j < i - 1 implies !sep_at(t, j) by {
            if j + 3 <= t.len() {
                assert(t[j] == s[j + 1]);
                assert(t[j + 1] == s[j + 2]);
                assert(t[j + 2] == s[j + 3]);
                assert(!sep_at(s, j + 1));
            }
        }
        assert(sep_at(t, i - 1)) by {
            assert(t[i - 1] == s[i]);
            assert(t[i] == s[i + 1]);
            assert(t[i + 1] == s[i + 2]);
        }
        lemma_find_sep_at(t, i - 1);
        assert(find_sep(t) == Some(i - 1));
        assert(!sep_at(s, 0));
        assert(s.len() >= 3);
        assert(!(s[0] == ':' && s[1] == '/' && s[2] == '/'));
        assert(find_sep(s) == Some(i));
    }
}

proof fn lemma_find_sep_none(s: Seq<char>)
    requires
        forall|j: int| 0 <= j ==> !sep_at(s, j),
    ensures
        find_sep(s) is None,
    decreases s.len(),
{
    if s.len() >= 3 {
        assert(!sep_at(s, 0));
        let t = s.drop_first();
        assert forall|j: int| 0 <= j implies !sep_at(t, j) by {
            if j + 3 <= t.len() {
                assert(t[j] == s[j + 1]);
                assert(t[j + 1] == s[j + 2]);
                assert(t[j + 2] == s[j + 3]);
                assert(!sep_at(s, j + 1));
            }
        }
        lemma_find_sep_none(t);
    }
}

fn lower_char_x(c: char) -> (r: char)
    ensures
        r == lower_char(c),
{
    let u = c as u32;
    if 65 <= u && u <= 90 {
        ((u + 32) as u8) as char
    } else {
        c
    }
}

/// Relies on std's `String::push`: appends the character to the end of the
/// string.
#[verifier::external_body]
pub(crate) fn push_char(s: &mut String, c: char)
    ensures
        final(s)@ == old(s)@.push(c),
{
    s.push(c);
}

/// ASCII-lowercased copy of `s`.
pub(crate) fn lower_str(s: &str) -> (r: String)
    ensures
        r@ == lower(s@),
{
    let len = s.unicode_len();
    let mut r = String::new();
    let mut i: usize = 0;
    while i < len
        invariant
            i <= len,
            len == s@.len(),
            r@.len() == i,
            forall|j: int| 0 <= j < i ==> r@[j] == lower_char(s@[j]),
        decreases len - i,
    {
        let c = lower_char_x(s.get_char(i));
        push_char(&mut r, c);
        i += 1;
    }
    proof {
        assert(r@ =~= lower(s@));
    }
    r
}

/// Character-for-character equality of two string slices.
pub(crate) fn str_eq_str(a: &str, b: &str) -> (r: bool)
    ensures
        r == (a@ == b@),
{
    let alen = a.unicode_len();
    let blen = b.unicode_len();
    if alen != blen {
        return false;
    }
    let mut i: usize = 0;
    while i < alen
        invariant
            i <= alen,
            alen == a@.len(),
            alen == b@.len(),
            forall|j: int| 0 <= j < i ==> a@[j] == b@[j],
        decreases alen - i,
    {
        if a.get_char(i) != b.get_char(i) {
            return false;
        }
        i += 1;
    }
    proof {
        assert(a@ =~= b@);
    }
    true
}

/// Equality of two string slices up to ASCII case.
pub(crate) fn eq_ignore_case(a: &str, b: &str) -> (r: bool)
    ensures
        r == (lower(a@) == lower(b@)),
{
    let alen = a.unicode_len();
    let blen = b.unicode_len();
    if alen != blen {
        proof {
            assert(lower(a@).len() != lower(b@).len());
        }
        return false;
    }
    let mut i: usize = 0;
    while i < alen
        invariant
            i <= alen,
            alen == a@.len(),
            alen == b@.len(),
            forall|j: int| 0 <= j < i ==> lower_char(a@[j]) == lower_char(b@[j]),
        decreases alen - i,
    {
        let ca = lower_char_x(a.get_char(i));
        let cb = lower_char_x(b.get_char(i));
        if ca != cb {
            proof {
                assert(lower(a@)[i as int] != lower(b@)[i as int]);
            }
            return false;
        }
        i += 1;
    }
    proof {
        assert forall|j: int| 0 <= j < a@.len() implies lower(a@)[j] == lower(b@)[j] by {
            assert(lower_char(a@[j]) == lower_char(b@[j]));
        }
        assert(lower(a@) =~= lower(b@));
    }
    true
}

/// Whether the character `c` occurs in `s`.
pub(crate) fn contains_char_str(s: &str, c: char) -> (r: bool)
    ensures
        r == contains_char(s@, c),
{
    let len = s.unicode_len();
    let mut i: usize = 0;
    while i < len
        invariant
            i <= len,
            len == s@.len(),
            forall|j: int| 0 <= j < i ==> s@[j] != c,
        decreases len - i,
    {
        if s.get_char(i) == c {
            return true;
        }
        i += 1;
    }
    false
}

/// `s` with one trailing `/` removed, if it has one.
pub(crate) fn trim_one_trailing_slash(s: &str) -> (t: &str)
    ensures
        t@ == spec_trim_slash(s@),
{
    let len = s.unicode_len();
    if len > 0 && s.get_char(len - 1) == '/' {
        let t = s.substring_char(0, len - 1);
        proof {
            assert(t@ =~= s@.drop_last());
        }
        t
    } else {
        s
    }
}

/// Position of the first `://` in `s`, if any.
pub(crate) fn find_scheme_sep(s: &str) -> (r: Option<usize>)
    ensures
        match r {
            Some(i) => find_sep(s@) == Some(i as int) && sep_at(s@, i as int),
            None => find_sep(s@) is None,
        },
{
    let len = s.unicode_len();
    if len < 3 {
        proof {
            lemma_find_sep_none(s@);
        }
        return None;
    }
    let mut i: usize = 0;
    while i + 2 < len
        invariant
            3 <= len,
            len == s@.len(),
            i <= len - 2,
            forall|j: int| 0 <= j < i ==> !sep_at(s@, j),
        decreases len - i,
    {
        if s.get_char(i) == ':' && s.get_char(i + 1) == '/' && s.get_char(i + 2) == '/' {
            proof {
                lemma_find_sep_at(s@, i as int);
            }
            return Some(i);
        }
        i += 1;
    }
    proof {
        lemma_find_sep_none(s@);
    }
    None
}

/// The character of a decimal digit.
pub open spec fn dec_digit(n: nat) -> char {
    ((48 + n) as u8) as char
}

/// The decimal rendering of a natural number, most significant digit first.
pub open spec fn dec_str(n: nat) -> Seq<char>
    decreases n,
{
    if n < 10 {
        seq![dec_digit(n)]
    } else {
        dec_str(n / 10) + seq![dec_digit(n % 10)]
    }
}

/// Appends the decimal rendering of `n` to `s`.
pub(crate) fn push_dec_u64(s: &mut String, n: u64)
    ensures
        final(s)@ == old(s)@ + dec_str(n as nat),
    decreases n,
{
    if n < 10 {
        push_char(s, (48 + (n as u8)) as char);
        proof {
            assert(old(s)@.push(dec_digit(n as nat)) =~= old(s)@ + dec_str(n as nat));
        }
    } else {
        push_dec_u64(s, n / 10);
        push_char(s, (48 + ((n % 10) as u8)) as char);
        proof {
            assert((old(s)@ + dec_str((n / 10) as nat)).push(dec_digit((n % 10) as nat)) =~= old(
                s,
            )@ + dec_str(n as nat));
        }
    }
}

/// Whether `pat` stands at position `i` of `s`.
pub open spec fn substr_at(s: Seq<char>, pat: Seq<char>, i: int) -> bool {
    &&& 0 <= i
    &&& i + pat.len() <= s.len()
    &&& s.subrange(i, i + pat.len()) == pat
}

/// Position of the first occurrence of `pat` in `s`, if any.
pub open spec fn find_substr(s: Seq<char>, pat: Seq<char>) -> Option<int>
    decreases s.len(),
{
    if pat.len() == 0 {
        Some(0)
    } else if s.len() < pat.len() {
        None
    } else if s.take(pat.len() as int) == pat {
        Some(0)
    } else {
        match find_substr(s.drop_first(), pat) {
            None => None,
            Some(i) => Some(i + 1),
        }
    }
}

proof fn lemma_find_substr_at(s: Seq<char>, pat: Seq<char>, i: int)
    requires
        substr_at(s, pat, i),
        forall|j: int| 0 <= j < i ==> !substr_at(s, pat, j),
    ensures
        find_substr(s, pat) == Some(i),
    decreases i,
{
    if pat.len() == 0 && i > 0 {
        assert(s.subrange(0, 0) =~= pat);
        assert(substr_at(s, pat, 0));
    }
    if i == 0 {
        if pat.len() > 0 {
            assert(s.take(pat.len() as int) =~= s.subrange(0, pat.len() as int));
        }
        assert(find_substr(s, pat) == Some(0int));
    } else {
        let t = s.drop_first();
        assert forall|j: int| 0 <= j < i - 1 implies !substr_at(t, pat, j) by {
            if j + pat.len() <= t.len() {
                assert(t.subrange(j, j + pat.len()) =~= s.subrange(j + 1, j + 1 + pat.len()));
                assert(!substr_at(s, pat, j + 1));
            }
        }
        assert(substr_at(t, pat, i - 1)) by {
            assert(t.subrange(i - 1, i - 1 + pat.len()) =~= s.subrange(i, i + pat.len()));
        }
        lemma_find_substr_at(t, pat, i - 1);
        assert(!substr_at(s, pat, 0));
        assert(s.len() >= pat.len());
        assert(s.take(pat.len() as int) =~= s.subrange(0, pat.len() as int));
        assert(s.take(pat.len() as int) != pat);
        assert(find_substr(s, pat) == Some(i));
    }
}

proof fn lemma_find_substr_none(s: Seq<char>, pat: Seq<char>)
    requires
        forall|j: int| 0 <= j ==> !substr_at(s, pat, j),
    ensures
        find_substr(s, pat) is None,
    decreases s.len(),
{
    if pat.len() == 0 {
        assert(s.subrange(0, 0) =~= pat);
        assert(substr_at(s, pat, 0));
    }
    if s.len() >= pat.len() {
        assert(!substr_at(s, pat, 0));
        assert(s.take(pat.len() as int) =~= s.subrange(0, pat.len() as int));
        let t = s.drop_first();
        assert forall|j: int| 0 <= j implies !substr_at(t, pat, j) by {
            if j + pat.len() <= t.len() {
                assert(t.subrange(j, j + pat.len()) =~= s.subrange(j + 1, j + 1 + pat.len()));
                assert(!substr_at(s, pat, j + 1));
            }
        }
        lemma_find_substr_none(t, pat);
    }
}

/// Whether `pat` stands at position `i` of `s`; `i + pat` must lie within
/// `s`.
fn substr_check_at(s: &str, pat: &str, i: usize) -> (r: bool)
    requires
        i + pat@.len() <= s@.len(),
    ensures
        r == substr_at(s@, pat@, i as int),
{
    let slen = s.unicode_len();
    let plen = pat.unicode_len();
    let mut k: usize = 0;
    while k < plen
        invariant
            k <= plen,
            plen == pat@.len(),
            slen == s@.len(),
            i + plen <= slen,
            forall|j: int| 0 <= j < k ==> s@[i + j] == pat@[j],
        decreases plen - k,
    {
        if s.get_char(i + k) != pat.get_char(k) {
            proof {
                assert(s@.subrange(i as int, i + pat@.len())[k as int] == s@[i + k]);
            }
            return false;
        }
        k += 1;
    }
    proof {
        assert(s@.subrange(i as int, i + pat@.len()) =~= pat@);
    }
    true
}

/// Position of the first occurrence of `pat` in `s`, if any.
pub(crate) fn find_substr_str(s: &str, pat: &str) -> (r: Option<usize>)
    ensures
        match r {
            Some(i) => find_substr(s@, pat@) == Some(i as int) && substr_at(s@, pat@, i as int),
            None => find_substr(s@, pat@) is None,
        },
{
    let slen = s.unicode_len();
    let plen = pat.unicode_len();
    if plen > slen {
        proof {
            lemma_find_substr_none(s@, pat@);
        }
        return None;
    }
    if plen == 0 {
        proof {
            assert(s@.subrange(0, 0) =~= pat@);
            lemma_find_substr_at(s@, pat@, 0);
        }
        return Some(0);
    }
    let mut i: usize = 0;
    while i <= slen - plen
        invariant
            1 <= plen <= slen,
            slen == s@.len(),
            plen == pat@.len(),
            i <= slen - plen + 1,
            forall|j: int| 0 <= j < i ==> !substr_at(s@, pat@, j),
        decreases slen - i,
    {
        if substr_check_at(s, pat, i) {
            proof {
                lemma_find_substr_at(s@, pat@, i as int);
            }
            return Some(i);
        }
        i += 1;
    }
    proof {
        lemma_find_substr_none(s@, pat@);
    }
    None
}

/// Whether `s` ends with `suffix`.
pub(crate) fn ends_with_str(s: &str, suffix: &str) -> (r: bool)
    ensures
        r == spec_ends_with(s@, suffix@),
{
    let slen = s.unicode_len();
    let plen = suffix.unicode_len();
    if plen > slen {
        return false;
    }
    let mut i: usize = 0;
    while i < plen
        invariant
            i <= plen <= slen,
            slen == s@.len(),
            plen == suffix@.len(),
            forall|j: int| 0 <= j < i ==> s@[slen - plen + j] == suffix@[j],
        decreases plen - i,
    {
        if s.get_char(slen - plen + i) != suffix.get_char(i) {
            proof {
                assert(s@.skip(slen - plen as int)[i as int] == s@[slen - plen + i]);
            }
            return false;
        }
        i += 1;
    }
    proof {
        assert(s@.skip(slen - plen as int) =~= suffix@);
    }
    true
}

} // verus!
