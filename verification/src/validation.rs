//! Flattening a tree of validation failures into field-level error reports.
//!
//! A rejected request's failures arrive as a tree: plain field failures,
//! failures of a nested struct, and failures of list items.  [`collect_field_errors`]
//! walks that tree and renders every leaf as one [`FieldError`], with the
//! path to the failing field joined by dots and list indices in brackets.

use vstd::prelude::*;
use vstd::string::StringExecFns;

use crate::errors::{
    field_errors_view, normalize_source, spec_normalize_source, spec_prepend_source, FieldError,
    FieldErrorModel,
};
use crate::text::{dec_str, push_char, push_dec_u64};

verus! {

/// One reason a field was rejected: an optional human-readable message and
/// the code of the failed check.
pub struct FieldIssue {
    pub message: Option<String>,
    pub code: String,
}

/// The failures below one key of a validation tree.
pub enum ValidationKind {
    /// The key's own failures.
    Field(Vec<FieldIssue>),
    /// The failures of a nested struct under the key.
    Nested(ValidationTree),
    /// The failures of the items of a list under the key, by index.
    List(Vec<(u64, ValidationTree)>),
}

/// A tree of validation failures, keyed by field name.
pub struct ValidationTree {
    pub entries: Vec<(String, ValidationKind)>,
}

/// The text reported for one issue: its message if it has one, its code
/// otherwise.
pub open spec fn spec_issue_text(i: FieldIssue) -> Seq<char> {
    match i.message {
        Some(m) => m@,
        None => i.code@,
    }
}

/// The source prefix for item `idx` of the list under `source`:
/// `source[idx]`, or `[idx]` when the source is empty.
pub open spec fn spec_index_prefix(source: Seq<char>, idx: u64) -> Seq<char> {
    if source.len() == 0 {
        seq!['['] + dec_str(idx as nat) + seq![']']
    } else {
        source + seq!['['] + dec_str(idx as nat) + seq![']']
    }
}

/// A field error with a path prefix attached to its source.
pub open spec fn spec_with_prefix(e: FieldErrorModel, prefix: Seq<char>) -> FieldErrorModel {
    FieldErrorModel {
        source: spec_prepend_source(e.source, prefix),
        description: e.description,
    }
}

/// A run of field errors with a path prefix attached to every source.
pub open spec fn spec_prefixed_all(
    errs: Seq<FieldErrorModel>,
    prefix: Seq<char>,
) -> Seq<FieldErrorModel> {
    errs.map_values(|e: FieldErrorModel| spec_with_prefix(e, prefix))
}

/// Every field error collected from the whole tree, in entry order.
pub open spec fn spec_collect(t: ValidationTree) -> Seq<FieldErrorModel>
    decreases t,
{
    spec_collect_entries(t.entries@)
}

/// The errors collected from a run of entries, in order.
pub open spec fn spec_collect_entries(es: Seq<(String, ValidationKind)>) -> Seq<FieldErrorModel>
    decreases es,
{
    if es.len() == 0 {
        Seq::empty()
    } else {
        spec_collect_entry(es[0].0@, es[0].1) + spec_collect_entries(es.drop_first())
    }
}

/// The errors collected below one key.  A leaf becomes one report; a nested
/// struct's reports get the key as a path prefix, or one `invalid value`
/// report if it yields none; a list's reports get the key and item index.
pub open spec fn spec_collect_entry(source: Seq<char>, kind: ValidationKind) -> Seq<
    FieldErrorModel,
>
    decreases kind,
{
    match kind {
        ValidationKind::Field(issues) => seq![
            FieldErrorModel {
                source: spec_normalize_source(source),
                description: issues@.map_values(|i: FieldIssue| spec_issue_text(i)),
            },
        ],
        ValidationKind::Nested(sub) => {
            let nested = spec_collect(sub);
            if nested.len() == 0 {
                seq![
                    FieldErrorModel {
                        source: spec_normalize_source(source),
                        description: seq!["invalid value"@],
                    },
                ]
            } else {
                spec_prefixed_all(nested, source)
            }
        },
        ValidationKind::List(items) => spec_collect_list(source, items@),
    }
}

/// The errors collected from the items of a list, in order.
pub open spec fn spec_collect_list(
    source: Seq<char>,
    items: Seq<(u64, ValidationTree)>,
) -> Seq<FieldErrorModel>
    decreases items,
{
    if items.len() == 0 {
        Seq::empty()
    } else {
        spec_prefixed_all(spec_collect(items[0].1), spec_index_prefix(source, items[0].0))
            + spec_collect_list(source, items.drop_first())
    }
}

/// Builds the source prefix for item `idx` of the list under `source`.
fn index_prefix(source: &str, idx: u64) -> (r: String)
    ensures
        r@ == spec_index_prefix(source@, idx),
{
    let mut r = if source.is_empty() {
        String::new()
    } else {
        String::from_str(source)
    };
    push_char(&mut r, '[');
    push_dec_u64(&mut r, idx);
    push_char(&mut r, ']');
    proof {
        assert(r@ =~= spec_index_prefix(source@, idx));
    }
    r
}

/// Drains `found`, attaches `prefix` to each report's source, and appends
/// them to `collected` in order.
fn append_with_prefix(collected: &mut Vec<FieldError>, found: Vec<FieldError>, prefix: &str)
    ensures
        field_errors_view(final(collected)@) == field_errors_view(old(collected)@)
            + spec_prefixed_all(field_errors_view(found@), prefix@),
{
    let ghost c0 = collected@;
    let ghost f0 = found@;
    let ghost target = spec_prefixed_all(field_errors_view(f0), prefix@);
    let mut found = found;
    let mut k: usize = 0;
    let total = found.len();
    while k < total
        invariant
            k <= total,
            total == f0.len(),
            found@ == f0.skip(k as int),
            target == spec_prefixed_all(field_errors_view(f0), prefix@),
            field_errors_view(collected@) == field_errors_view(c0) + target.take(k as int),
        decreases total - k,
    {
        let mut e = found.remove(0);
        proof {
            assert(f0.skip(k as int)[0] == f0[k as int]);
            assert(e == f0[k as int]);
            assert(found@ =~= f0.skip(k as int + 1));
        }
        let ghost before_push = collected@;
        e.prepend_source(prefix);
        collected.push(e);
        proof {
            assert(field_errors_view(f0)[k as int] == f0[k as int]@);
            assert(e@.source == spec_with_prefix(f0[k as int]@, prefix@).source);
            assert(e@.description == spec_with_prefix(f0[k as int]@, prefix@).description);
            assert(e@ == target[k as int]);
            assert(collected@ == before_push.push(e));
            assert(field_errors_view(collected@) =~= field_errors_view(before_push).push(e@));
            assert(target.take(k as int + 1) =~= target.take(k as int).push(target[k as int]));
            assert(field_errors_view(collected@) =~= field_errors_view(c0) + target.take(
                k as int + 1,
            ));
        }
        k += 1;
    }
    proof {
        assert(target.take(total as int) =~= target);
    }
}

/// Walks the tree and renders every failure as one field-level report, in
/// entry order.
pub fn collect_field_errors(errors: &ValidationTree) -> (r: Vec<FieldError>)
    ensures
        field_errors_view(r@) == spec_collect(*errors),
    decreases *errors,
{
    let ghost es = errors.entries@;
    let mut collected: Vec<FieldError> = Vec::new();
    let mut idx: usize = 0;
    let n = errors.entries.len();
    proof {
        assert(es.skip(0) =~= es);
        assert(field_errors_view(collected@) =~= Seq::<FieldErrorModel>::empty());
    }
    while idx < n
        invariant
            idx <= n,
            n == es.len(),
            es == errors.entries@,
            field_errors_view(collected@) + spec_collect_entries(es.skip(idx as int))
                == spec_collect_entries(es),
        decreases n - idx,
    {
        proof {
            assert(es.skip(idx as int)[0] == es[idx as int]);
            assert(es.skip(idx as int).drop_first() =~= es.skip(idx as int + 1));
        }
        let ghost c_pre = collected@;
        let entry = &errors.entries[idx];
        let source = entry.0.as_str();
        match &entry.1 {
            ValidationKind::Field(issues) => {
                let mut desc: Vec<String> = Vec::new();
                let mut k: usize = 0;
                let m = issues.len();
                while k < m
                    invariant
                        k <= m,
                        m == issues@.len(),
                        desc@.len() == k,
                        forall|j: int|
                            0 <= j < k ==> desc@[j]@ == spec_issue_text(issues@[j]),
                    decreases m - k,
                {
                    let text = match &issues[k].message {
                        Some(msg) => msg.clone(),
                        None => issues[k].code.clone(),
                    };
                    desc.push(text);
                    k += 1;
                }
                let src = normalize_source(source);
                let report = FieldError { source: src, description: desc };
                proof {
                    assert(report@.description =~= issues@.map_values(
                        |i: FieldIssue| spec_issue_text(i),
                    ));
                }
                collected.push(report);
                proof {
                    assert(es[idx as int].1 == ValidationKind::Field(*issues));
                    assert(field_errors_view(collected@) =~= field_errors_view(c_pre)
                        + spec_collect_entry(es[idx as int].0@, es[idx as int].1));
                }
            },
            ValidationKind::Nested(sub) => {
                proof {
                    assert(decreases_to!(*errors => errors.entries));
                    assert(decreases_to!(errors.entries => errors.entries@));
                    assert(decreases_to!(errors.entries@ => errors.entries@[idx as int]));
                    assert(decreases_to!(errors.entries@[idx as int] => errors.entries@[idx as int].1));
                    assert(decreases_to!(errors.entries@[idx as int].1 => *sub));
                }
                let nested = collect_field_errors(sub);
                if nested.len() == 0 {
                    let mut desc: Vec<String> = Vec::new();
                    desc.push(String::from_str("invalid value"));
                    let src = normalize_source(source);
                    let report = FieldError { source: src, description: desc };
                    proof {
                        assert(report@.description =~= seq!["invalid value"@]);
                    }
                    collected.push(report);
                    proof {
                        assert(es[idx as int].1 == ValidationKind::Nested(*sub));
                        assert(field_errors_view(collected@) =~= field_errors_view(c_pre)
                            + spec_collect_entry(es[idx as int].0@, es[idx as int].1));
                    }
                } else {
                    append_with_prefix(&mut collected, nested, source);
                    proof {
                        assert(es[idx as int].1 == ValidationKind::Nested(*sub));
                        assert(field_errors_view(collected@) =~= field_errors_view(c_pre)
                            + spec_collect_entry(es[idx as int].0@, es[idx as int].1));
                    }
                }
            },
            ValidationKind::List(items) => {
                let ghost its = items@;
                let mut k: usize = 0;
                let m = items.len();
                let ghost c1 = collected@;
                while k < m
                    invariant
                        k <= m,
                        m == its.len(),
                        its == items@,
                        es == errors.entries@,
                        0 <= idx < es.len(),
                        es[idx as int].1 == ValidationKind::List(*items),
                        source@ == es[idx as int].0@,
                        field_errors_view(collected@) == field_errors_view(c1)
                            + spec_collect_list(source@, its.take(k as int)),
                    decreases m - k,
                {
                    let item = &items[k];
                    proof {
                        assert(decreases_to!(*errors => errors.entries));
                        assert(decreases_to!(errors.entries => errors.entries@));
                        assert(decreases_to!(errors.entries@ => errors.entries@[idx as int]));
                        assert(decreases_to!(errors.entries@[idx as int] => errors.entries@[idx as int].1));
                        assert(errors.entries@[idx as int].1 == ValidationKind::List(*items));
                        assert(ValidationKind::List(*items)->List_0 == *items);
                        assert(decreases_to!(ValidationKind::List(*items) => *items));
                        assert(decreases_to!(*items => items@));
                        assert(decreases_to!(items@ => items@[k as int]));
                        assert(decreases_to!(items@[k as int] => items@[k as int].1));
                    }
                    let found = collect_field_errors(&item.1);
                    let prefix = index_prefix(source, item.0);
                    append_with_prefix(&mut collected, found, prefix.as_str());
                    proof {
                        lemma_collect_list_snoc(source@, its, k as int);
                    }
                    k += 1;
                }
                proof {
                    assert(its.take(m as int) =~= its);
                    assert(es[idx as int].1 == ValidationKind::List(*items));
                    assert(field_errors_view(collected@) =~= field_errors_view(c_pre)
                        + spec_collect_entry(es[idx as int].0@, es[idx as int].1));
                }
            },
        }
        proof {
            assert(field_errors_view(collected@) + spec_collect_entries(es.skip(idx as int + 1))
                =~= field_errors_view(c_pre) + spec_collect_entries(es.skip(idx as int)));
        }
        idx += 1;
    }
    proof {
        assert(es.skip(n as int) =~= Seq::<(String, ValidationKind)>::empty());
        assert(spec_collect_entries(es.skip(n as int)) =~= Seq::<FieldErrorModel>::empty());
        assert(field_errors_view(collected@) =~= spec_collect(*errors));
    }
    collected
}

proof fn lemma_collect_list_snoc(source: Seq<char>, items: Seq<(u64, ValidationTree)>, k: int)
    requires
        0 <= k < items.len(),
    ensures
        spec_collect_list(source, items.take(k + 1)) == spec_collect_list(source, items.take(k))
            + spec_prefixed_all(spec_collect(items[k].1), spec_index_prefix(source, items[k].0)),
    decreases k,
{
    let t1 = items.take(k + 1);
    let t0 = items.take(k);
    if k == 0 {
        assert(t1[0] == items[0]);
        assert(t1.drop_first() =~= Seq::<(u64, ValidationTree)>::empty());
        assert(t0 =~= Seq::<(u64, ValidationTree)>::empty());
        assert(spec_collect_list(source, t1.drop_first()) =~= Seq::<FieldErrorModel>::empty());
        assert(spec_collect_list(source, t0) =~= Seq::<FieldErrorModel>::empty());
        assert(spec_collect_list(source, t1) =~= spec_prefixed_all(
            spec_collect(items[0].1),
            spec_index_prefix(source, items[0].0),
        ));
    } else {
        let df = items.drop_first();
        lemma_collect_list_snoc(source, df, k - 1);
        assert(t1[0] == items[0]);
        assert(t0[0] == items[0]);
        assert(t1.drop_first() =~= df.take(k));
        assert(t0.drop_first() =~= df.take(k - 1));
        assert(df[k - 1] == items[k]);
        let head = spec_prefixed_all(
            spec_collect(items[0].1),
            spec_index_prefix(source, items[0].0),
        );
        let tail_k = spec_prefixed_all(
            spec_collect(items[k].1),
            spec_index_prefix(source, items[k].0),
        );
        assert(spec_collect_list(source, t1) == head + spec_collect_list(source, df.take(k)));
        assert(spec_collect_list(source, t0) == head + spec_collect_list(source, df.take(k - 1)));
        assert(head + (spec_collect_list(source, df.take(k - 1)) + tail_k) =~= (head
            + spec_collect_list(source, df.take(k - 1))) + tail_k);
    }
}

} // verus!
