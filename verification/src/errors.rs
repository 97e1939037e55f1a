//! Field-level error reports: the unit every validation failure is rendered
//! into before it reaches a client, and the helpers that shape its text.

use vstd::prelude::*;
use vstd::string::StringExecFns;
use vstd::string::StrSliceExecFns;

use crate::text::{find_substr, find_substr_str, substr_at};

verus! {

/// The Unicode uppercase mapping of a character (`char::to_uppercase`),
/// a function of the character alone.
pub uninterp spec fn upper_of(c: char) -> Seq<char>;

/// Relies on std's `char::to_uppercase`: the uppercase mapping of `c`,
/// rendered as a string.
#[verifier::external_body]
fn char_upper(c: char) -> (r: String)
    ensures
        r@ == upper_of(c),
{
    c.to_uppercase().to_string()
}

/// The text with its first character uppercased.
pub open spec fn spec_capitalize(s: Seq<char>) -> Seq<char> {
    if s.len() == 0 {
        Seq::empty()
    } else {
        upper_of(s[0]) + s.skip(1)
    }
}

/// Uppercases the first character of the text.
pub fn capitalize(text: &str) -> (r: String)
    ensures
        r@ == spec_capitalize(text@),
{
    let len = text.unicode_len();
    if len == 0 {
        return String::new();
    }
    let mut r = char_upper(text.get_char(0));
    let rest = text.substring_char(1, len);
    r.append(rest);
    proof {
        assert(rest@ =~= text@.skip(1));
    }
    r
}

/// The error source shown when a failure has no field of its own.
pub open spec fn spec_normalize_source(s: Seq<char>) -> Seq<char> {
    if s.len() == 0 {
        "$schema"@
    } else {
        s
    }
}

/// Replaces an empty error source with the schema-level marker.
pub fn normalize_source(source: &str) -> (r: String)
    ensures
        r@ == spec_normalize_source(source@),
{
    if source.is_empty() {
        String::from_str("$schema")
    } else {
        String::from_str(source)
    }
}

/// The text up to (and excluding) the first occurrence of `pat`; the whole
/// text when `pat` does not occur.
pub open spec fn spec_prefix_before(s: Seq<char>, pat: Seq<char>) -> Seq<char> {
    match find_substr(s, pat) {
        None => s,
        Some(i) => s.take(i),
    }
}

/// Cuts the text at the first occurrence of `pat`, keeping what stands
/// before it.
pub fn prefix_before(s: &str, pat: &str) -> (r: String)
    ensures
        r@ == spec_prefix_before(s@, pat@),
{
    match find_substr_str(s, pat) {
        None => String::from_str(s),
        Some(i) => {
            let len = s.unicode_len();
            proof {
                assert(substr_at(s@, pat@, i as int));
            }
            let prefix = s.substring_char(0, i);
            proof {
                assert(prefix@ =~= s@.take(i as int));
            }
            String::from_str(prefix)
        },
    }
}

/// One field's failure report: the field it belongs to and the reasons it
/// was rejected.
#[derive(Debug)]
#[must_use]
pub struct FieldError {
    pub source: String,
    pub description: Vec<String>,
}

/// The mathematical shape of a field error.
pub struct FieldErrorModel {
    pub source: Seq<char>,
    pub description: Seq<Seq<char>>,
}

impl View for FieldError {
    type V = FieldErrorModel;

    open spec fn view(&self) -> FieldErrorModel {
        FieldErrorModel { source: self.source@, description: self.description.deep_view() }
    }
}

/// The views of a sequence of field errors.
pub open spec fn field_errors_view(s: Seq<FieldError>) -> Seq<FieldErrorModel> {
    s.map_values(|e: FieldError| e@)
}

/// The source after a prefix is attached: unchanged for an empty prefix,
/// the prefix alone for an empty source, and `prefix.source` otherwise.
pub open spec fn spec_prepend_source(source: Seq<char>, prefix: Seq<char>) -> Seq<char> {
    if prefix.len() == 0 {
        source
    } else if source.len() == 0 {
        prefix
    } else {
        prefix + seq!['.'] + source
    }
}

impl FieldError {
    /// A report for `source`, rejected for the given reasons.
    pub fn new(source: &str, description: Vec<String>) -> (r: FieldError)
        ensures
            r.source@ == source@,
            r.description == description,
    {
        FieldError { source: String::from_str(source), description }
    }

    /// Attaches the enclosing field's name in front of the source.
    pub fn prepend_source(&mut self, prefix: &str)
        ensures
            final(self).source@ == spec_prepend_source(old(self).source@, prefix@),
            final(self).description == old(self).description,
    {
        if prefix.is_empty() {
            return;
        }
        if self.source.as_str().is_empty() {
            self.source = String::from_str(prefix);
        } else {
            let mut joined = String::from_str(prefix);
            joined.append(".");
            joined.append(self.source.as_str());
            proof {
                reveal_strlit(".");
                assert("."@ =~= seq!['.']);
            }
            self.source = joined;
        }
    }
}

} // verus!
