//! The text of the outbound message and of the SMTP transport URL.
//!
//! The letter is a fixed template with the form's fields substituted in;
//! building it is plain text assembly and is done here, so the surrounding
//! mail transport only ever sends a finished string.

use vstd::prelude::*;
use vstd::string::StringExecFns;

use crate::models::LetsStartForm;
use crate::text::{dec_str, push_dec_u64};

verus! {

/// The finished letter for a form: the fixed template with the sender's
/// name, project description, budget range and address filled in.
pub open spec fn spec_letter_text(
    name: Seq<char>,
    project_description: Seq<char>,
    min_budget: u16,
    max_budget: u16,
    email: Seq<char>,
) -> Seq<char> {
    "\nHey,\n\nI hope this message finds you well. My name is "@ + name
        + ".\nI would like to discuss a potential collaboration with you on an upcoming project.\n\nA brief overview of the project:\n\u{2022} "@
        + project_description + "\n\u{2022} Our budget ranges from "@ + dec_str(
        min_budget as nat,
    ) + " to "@ + dec_str(max_budget as nat)
        + " U.S. dollars\n\nIf you are interested in discussing this opportunity further, please, reach out to me\nat "@
        + email + " email address.\n\nLooking forward to your response.\n\nRegards.\n"@
}

/// Renders the letter for the given form.
pub fn build_letter_text(form: &LetsStartForm) -> (r: String)
    ensures
        r@ == spec_letter_text(
            form.name@,
            form.project_description@,
            form.min_budget,
            form.max_budget,
            form.email@,
        ),
{
    let mut r = String::from_str("\nHey,\n\nI hope this message finds you well. My name is ");
    r.append(form.name.as_str());
    r.append(
        ".\nI would like to discuss a potential collaboration with you on an upcoming project.\n\nA brief overview of the project:\n\u{2022} ",
    );
    r.append(form.project_description.as_str());
    r.append("\n\u{2022} Our budget ranges from ");
    push_dec_u64(&mut r, form.min_budget as u64);
    r.append(" to ");
    push_dec_u64(&mut r, form.max_budget as u64);
    r.append(
        " U.S. dollars\n\nIf you are interested in discussing this opportunity further, please, reach out to me\nat ",
    );
    r.append(form.email.as_str());
    r.append(" email address.\n\nLooking forward to your response.\n\nRegards.\n");
    r
}

/// The SMTP transport URL for the given credentials and address:
/// `smtps://auth@addr`.
pub open spec fn spec_smtp_url(auth: Seq<char>, addr: Seq<char>) -> Seq<char> {
    "smtps://"@ + auth + seq!['@'] + addr
}

/// Builds the SMTP transport URL for the given credentials and address.
pub fn smtp_transport_url(auth: &str, addr: &str) -> (r: String)
    ensures
        r@ == spec_smtp_url(auth@, addr@),
{
    let mut r = String::from_str("smtps://");
    r.append(auth);
    r.append("@");
    r.append(addr);
    proof {
        reveal_strlit("@");
        assert("@"@ =~= seq!['@']);
        assert(r@ =~= spec_smtp_url(auth@, addr@));
    }
    r
}

} // verus!
