//! The JSON response envelope of the API: a data payload, optional metadata,
//! and field-level errors, only ever one of data or errors at a time.

use vstd::prelude::*;
use vstd::string::StringExecFns;

use crate::errors::FieldError;

verus! {

/// The envelope of every JSON response: a payload, optional metadata, and
/// the field errors of a rejected request.
#[must_use]
pub struct ApiJsonResponse<T = ApiMessage> {
    pub data: Option<T>,
    pub meta: Option<ApiMeta>,
    pub errors: Option<Vec<FieldError>>,
}

/// Metadata attached to a response, currently a human-readable message.
pub struct ApiMeta {
    pub message: Option<String>,
}

/// A plain message payload.
pub struct ApiMessage {
    pub message: String,
}

impl ApiMeta {
    /// Metadata holding the given message.
    pub fn with_message(message: &str) -> (r: ApiMeta)
        ensures
            r.message matches Some(m) && m@ == message@,
    {
        ApiMeta { message: Some(String::from_str(message)) }
    }
}

impl ApiMessage {
    /// A payload holding the given message.
    pub fn new(message: &str) -> (r: ApiMessage)
        ensures
            r.message@ == message@,
    {
        ApiMessage { message: String::from_str(message) }
    }
}

impl<T> ApiJsonResponse<T> {
    /// A successful response around the given payload, with no metadata and
    /// no errors.
    pub fn with_data(data: T) -> (r: ApiJsonResponse<T>)
        ensures
            r.data matches Some(d) && d == data,
            r.meta is None,
            r.errors is None,
    {
        ApiJsonResponse { data: Some(data), meta: None, errors: None }
    }
}

impl ApiJsonResponse<ApiMessage> {
    /// A successful response carrying only a message payload.
    pub fn message(message: &str) -> (r: ApiJsonResponse<ApiMessage>)
        ensures
            r.data matches Some(d) && d.message@ == message@,
            r.meta is None,
            r.errors is None,
    {
        ApiJsonResponse::with_data(ApiMessage::new(message))
    }

    /// A failure response: the message goes into the metadata, the field
    /// errors are attached as given, and no payload is carried.
    pub fn error(message: &str, errors: Option<Vec<FieldError>>) -> (r: ApiJsonResponse<
        ApiMessage,
    >)
        ensures
            r.data is None,
            r.meta matches Some(m) && m.message matches Some(t) && t@ == message@,
            r.errors == errors,
    {
        ApiJsonResponse { data: None, meta: Some(ApiMeta::with_message(message)), errors }
    }
}

} // verus!
