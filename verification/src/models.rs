//! The contact form of the API and its validation rules.

use vstd::prelude::*;
use vstd::string::StringExecFns;
use vstd::string::StrSliceExecFns;

use crate::errors::{field_errors_view, FieldError, FieldErrorModel};

verus! {

/// Whether the text is a well-formed e-mail address, as the validation
/// library judges it (`validator::ValidateEmail` for `&str`), a function of
/// the text alone.
pub uninterp spec fn is_valid_email(s: Seq<char>) -> bool;

/// Relies on validator's `ValidateEmail` implementation for `&str`: whether
/// the text is a well-formed e-mail address.
#[verifier::external_body]
fn email_is_valid(s: &str) -> (r: bool)
    ensures
        r == is_valid_email(s@),
{
    validator::ValidateEmail::validate_email(&s)
}

/// The form a visitor submits to start a conversation.
#[must_use]
pub struct LetsStartForm {
    pub email: String,
    pub min_budget: u16,
    pub max_budget: u16,
    pub name: String,
    pub project_description: String,
}

/// One report with a single reason.
pub open spec fn one_error(source: Seq<char>, message: Seq<char>) -> FieldErrorModel {
    FieldErrorModel { source, description: seq![message] }
}

/// Whether the budget bounds are consistent: the ceiling is at least the
/// floor.
pub open spec fn spec_budget_bounds_ok(f: LetsStartForm) -> bool {
    f.max_budget >= f.min_budget
}

/// Whether every rule of the form holds.
pub open spec fn spec_form_valid(f: LetsStartForm) -> bool {
    &&& is_valid_email(f.email@)
    &&& 1000 <= f.min_budget < 50000
    &&& 1000 <= f.max_budget <= 50000
    &&& 2 <= f.name@.len() <= 32
    &&& 64 <= f.project_description@.len() <= 512
    &&& spec_budget_bounds_ok(f)
}

/// Every failure of the form's rules, one report per rule, in field order.
pub open spec fn spec_form_errors(f: LetsStartForm) -> Seq<FieldErrorModel> {
    (if is_valid_email(f.email@) {
        Seq::empty()
    } else {
        seq![one_error("email"@, "The @mail must be a valid email address"@)]
    }) + (if 1000 <= f.min_budget < 50000 {
        Seq::empty()
    } else {
        seq![one_error("min_budget"@, "The budget must range from 1,000 to 50,000 USD"@)]
    }) + (if 1000 <= f.max_budget <= 50000 {
        Seq::empty()
    } else {
        seq![one_error("max_budget"@, "The budget must range from 1,000 to 50,000 USD"@)]
    }) + (if 2 <= f.name@.len() <= 32 {
        Seq::empty()
    } else {
        seq![one_error("name"@, "The name must be between 2 and 32 chars"@)]
    }) + (if 64 <= f.project_description@.len() <= 512 {
        Seq::empty()
    } else {
        seq![
            one_error(
                "project_description"@,
                "The project description must be between 64 and 512 chars"@,
            ),
        ]
    }) + (if spec_budget_bounds_ok(f) {
        Seq::empty()
    } else {
        seq![one_error("__all__"@, "max_budget must be >= min_budget"@)]
    })
}

/// Checks the schema-level budget rule on its own.
pub fn validate_budget_bounds(form: &LetsStartForm) -> (r: Result<(), FieldError>)
    ensures
        r is Ok <==> spec_budget_bounds_ok(*form),
        r matches Err(e) ==> e@ == one_error("__all__"@, "max_budget must be >= min_budget"@),
{
    if form.max_budget < form.min_budget {
        let mut description: Vec<String> = Vec::new();
        description.push(String::from_str("max_budget must be >= min_budget"));
        let e = FieldError::new("__all__", description);
        proof {
            assert(e@.description =~= seq!["max_budget must be >= min_budget"@]);
        }
        Err(e)
    } else {
        Ok(())
    }
}

fn push_one_error(errs: &mut Vec<FieldError>, source: &str, message: &str)
    ensures
        field_errors_view(final(errs)@) =~= field_errors_view(old(errs)@) + seq![
            one_error(source@, message@),
        ],
{
    let mut description: Vec<String> = Vec::new();
    description.push(String::from_str(message));
    let e = FieldError::new(source, description);
    proof {
        assert(e@.description =~= seq![message@]);
    }
    errs.push(e);
    proof {
        assert(field_errors_view(errs@) =~= field_errors_view(old(errs)@) + seq![
            one_error(source@, message@),
        ]);
    }
}

impl LetsStartForm {
    /// Checks every rule of the form and reports each failure as one
    /// field-level error, in field order.  The form is valid exactly when
    /// the report is empty.
    pub fn validate(&self) -> (errs: Vec<FieldError>)
        ensures
            field_errors_view(errs@) == spec_form_errors(*self),
            errs@.len() == 0 <==> spec_form_valid(*self),
    {
        let mut errs: Vec<FieldError> = Vec::new();
        if !email_is_valid(self.email.as_str()) {
            push_one_error(&mut errs, "email", "The @mail must be a valid email address");
        }
        if !(1000 <= self.min_budget && self.min_budget < 50000) {
            push_one_error(&mut errs, "min_budget", "The budget must range from 1,000 to 50,000 USD");
        }
        if !(1000 <= self.max_budget && self.max_budget <= 50000) {
            push_one_error(&mut errs, "max_budget", "The budget must range from 1,000 to 50,000 USD");
        }
        let name_len = self.name.as_str().unicode_len();
        if !(2 <= name_len && name_len <= 32) {
            push_one_error(&mut errs, "name", "The name must be between 2 and 32 chars");
        }
        let desc_len = self.project_description.as_str().unicode_len();
        if !(64 <= desc_len && desc_len <= 512) {
            push_one_error(
                &mut errs,
                "project_description",
                "The project description must be between 64 and 512 chars",
            );
        }
        if self.max_budget < self.min_budget {
            push_one_error(&mut errs, "__all__", "max_budget must be >= min_budget");
        }
        proof {
            assert(field_errors_view(errs@) =~= spec_form_errors(*self));
        }
        errs
    }
}

} // verus!
