//! Mapping a failed request to its HTTP status and JSON body.

use vstd::prelude::*;
use vstd::string::StringExecFns;

use crate::errors::{
    capitalize, field_errors_view, prefix_before, spec_capitalize, spec_prefix_before,
    FieldError, FieldErrorModel,
};
use crate::responses::{ApiJsonResponse, ApiMessage};
use crate::validation::{collect_field_errors, spec_collect, ValidationTree};

verus! {

/// A failed request: a malformed JSON body, a body that failed validation,
/// or a failure of the outbound mail transport.
pub enum ApiErrorResponse {
    /// The body was not valid JSON; `detail` is the parser's message.
    JsonErrors { detail: String },
    /// The body failed validation, with the collected failures.
    ValidationErrors { errors: ValidationTree },
    /// The message could not be sent.
    EmailErrors,
}

/// The HTTP status each failure is reported under.
pub open spec fn spec_error_status(e: ApiErrorResponse) -> u16 {
    match e {
        ApiErrorResponse::JsonErrors { .. } => 400,
        ApiErrorResponse::ValidationErrors { .. } => 422,
        ApiErrorResponse::EmailErrors => 500,
    }
}

/// The message of the response body for each failure.
pub open spec fn spec_error_message(e: ApiErrorResponse) -> Seq<char> {
    match e {
        ApiErrorResponse::JsonErrors { .. } => "Invalid JSON format"@,
        ApiErrorResponse::ValidationErrors { .. } => "Invalid JSON validation"@,
        ApiErrorResponse::EmailErrors => "Unable to send email"@,
    }
}

/// The field errors of the response body: the parser's message, cut at its
/// position note and capitalized, for bad JSON; the collected failures, or
/// one `invalid payload` report if there are none, for a validation
/// failure; nothing for a mail failure.
pub open spec fn spec_error_details(e: ApiErrorResponse) -> Option<Seq<FieldErrorModel>> {
    match e {
        ApiErrorResponse::JsonErrors { detail } => Some(
            seq![
                FieldErrorModel {
                    source: "$body"@,
                    description: seq![
                        spec_capitalize(spec_prefix_before(detail@, " at line"@)),
                    ],
                },
            ],
        ),
        ApiErrorResponse::ValidationErrors { errors } => Some(
            {
                let collected = spec_collect(errors);
                if collected.len() == 0 {
                    seq![
                        FieldErrorModel {
                            source: "$schema"@,
                            description: seq!["invalid payload"@],
                        },
                    ]
                } else {
                    collected
                }
            },
        ),
        ApiErrorResponse::EmailErrors => None,
    }
}

impl ApiErrorResponse {
    /// Renders the failure as an HTTP status code and a JSON response body.
    pub fn into_response_parts(self) -> (r: (u16, ApiJsonResponse<ApiMessage>))
        ensures
            r.0 == spec_error_status(self),
            r.1.data is None,
            r.1.meta matches Some(m) && m.message matches Some(t) && t@ == spec_error_message(
                self,
            ),
            match r.1.errors {
                Some(v) => spec_error_details(self) == Some(field_errors_view(v@)),
                None => spec_error_details(self) is None,
            },
    {
        match self {
            ApiErrorResponse::JsonErrors { detail } => {
                let cut = prefix_before(detail.as_str(), " at line");
                let text = capitalize(cut.as_str());
                let mut description: Vec<String> = Vec::new();
                description.push(text);
                let report = FieldError::new("$body", description);
                let mut errors: Vec<FieldError> = Vec::new();
                errors.push(report);
                proof {
                    assert(report@.description =~= seq![
                        spec_capitalize(spec_prefix_before(detail@, " at line"@)),
                    ]);
                    assert(field_errors_view(errors@) =~= spec_error_details(
                        ApiErrorResponse::JsonErrors { detail },
                    )->Some_0);
                }
                (400, ApiJsonResponse::error("Invalid JSON format", Some(errors)))
            },
            ApiErrorResponse::ValidationErrors { errors } => {
                let mut collected = collect_field_errors(&errors);
                if collected.len() == 0 {
                    let mut description: Vec<String> = Vec::new();
                    description.push(String::from_str("invalid payload"));
                    let report = FieldError::new("$schema", description);
                    proof {
                        assert(report@.description =~= seq!["invalid payload"@]);
                    }
                    collected.push(report);
                }
                proof {
                    assert(field_errors_view(collected@) =~= spec_error_details(
                        ApiErrorResponse::ValidationErrors { errors },
                    )->Some_0);
                }
                (422, ApiJsonResponse::error("Invalid JSON validation", Some(collected)))
            },
            ApiErrorResponse::EmailErrors => {
                (500, ApiJsonResponse::error("Unable to send email", None))
            },
        }
    }
}

} // verus!
