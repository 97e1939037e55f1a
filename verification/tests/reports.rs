use origin_guard::api::ApiErrorResponse;
use origin_guard::errors::{capitalize, normalize_source, prefix_before, FieldError};
use origin_guard::responses::{ApiJsonResponse, ApiMessage, ApiMeta};
use origin_guard::validation::{
    collect_field_errors, FieldIssue, ValidationKind, ValidationTree,
};

fn issue(message: Option<&str>, code: &str) -> FieldIssue {
    FieldIssue { message: message.map(|m| m.to_string()), code: code.to_string() }
}

fn entry(source: &str, kind: ValidationKind) -> (String, ValidationKind) {
    (source.to_string(), kind)
}

#[test]
fn capitalize_uppercases_the_first_character() {
    assert_eq!(capitalize("hello world"), "Hello world");
    assert_eq!(capitalize(""), "");
    assert_eq!(capitalize("Already"), "Already");
    assert_eq!(capitalize("ßeta"), "SSeta");
}

#[test]
fn normalize_source_fills_in_the_schema_marker() {
    assert_eq!(normalize_source(""), "$schema");
    assert_eq!(normalize_source("email"), "email");
}

#[test]
fn prefix_before_cuts_at_the_first_occurrence() {
    assert_eq!(prefix_before("expected value at line 1 column 2", " at line"), "expected value");
    assert_eq!(prefix_before("no position note", " at line"), "no position note");
    assert_eq!(prefix_before("", " at line"), "");
}

#[test]
fn prepend_source_joins_with_a_dot() {
    let mut e = FieldError::new("field", Vec::new());
    e.prepend_source("outer");
    assert_eq!(e.source, "outer.field");
}

#[test]
fn prepend_source_ignores_an_empty_prefix() {
    let mut e = FieldError::new("field", Vec::new());
    e.prepend_source("");
    assert_eq!(e.source, "field");
}

#[test]
fn prepend_source_replaces_an_empty_source() {
    let mut e = FieldError::new("", Vec::new());
    e.prepend_source("outer");
    assert_eq!(e.source, "outer");
}

#[test]
fn collect_renders_field_failures() {
    let tree = ValidationTree {
        entries: vec![entry(
            "email",
            ValidationKind::Field(vec![
                issue(Some("must be a valid email"), "email"),
                issue(None, "length"),
            ]),
        )],
    };
    let errs = collect_field_errors(&tree);
    assert_eq!(errs.len(), 1);
    assert_eq!(errs[0].source, "email");
    assert_eq!(errs[0].description, vec!["must be a valid email".to_string(), "length".to_string()]);
}

#[test]
fn collect_normalizes_an_empty_source() {
    let tree = ValidationTree {
        entries: vec![entry("", ValidationKind::Field(vec![issue(None, "schema")]))],
    };
    let errs = collect_field_errors(&tree);
    assert_eq!(errs.len(), 1);
    assert_eq!(errs[0].source, "$schema");
}

#[test]
fn collect_prefixes_nested_failures() {
    let inner = ValidationTree {
        entries: vec![entry("city", ValidationKind::Field(vec![issue(Some("too short"), "length")]))],
    };
    let tree = ValidationTree {
        entries: vec![entry("address", ValidationKind::Nested(inner))],
    };
    let errs = collect_field_errors(&tree);
    assert_eq!(errs.len(), 1);
    assert_eq!(errs[0].source, "address.city");
    assert_eq!(errs[0].description, vec!["too short".to_string()]);
}

#[test]
fn collect_reports_an_empty_nested_tree_as_invalid_value() {
    let inner = ValidationTree { entries: Vec::new() };
    let tree = ValidationTree {
        entries: vec![entry("address", ValidationKind::Nested(inner))],
    };
    let errs = collect_field_errors(&tree);
    assert_eq!(errs.len(), 1);
    assert_eq!(errs[0].source, "address");
    assert_eq!(errs[0].description, vec!["invalid value".to_string()]);
}

#[test]
fn collect_prefixes_list_failures_with_their_index() {
    let item = ValidationTree {
        entries: vec![entry("name", ValidationKind::Field(vec![issue(Some("bad"), "x")]))],
    };
    let tree = ValidationTree {
        entries: vec![entry("items", ValidationKind::List(vec![(2, item)]))],
    };
    let errs = collect_field_errors(&tree);
    assert_eq!(errs.len(), 1);
    assert_eq!(errs[0].source, "items[2].name");
}

#[test]
fn collect_uses_bare_brackets_for_an_unnamed_list() {
    let item = ValidationTree {
        entries: vec![entry("name", ValidationKind::Field(vec![issue(Some("bad"), "x")]))],
    };
    let tree = ValidationTree {
        entries: vec![entry("", ValidationKind::List(vec![(0, item)]))],
    };
    let errs = collect_field_errors(&tree);
    assert_eq!(errs.len(), 1);
    assert_eq!(errs[0].source, "[0].name");
}

#[test]
fn json_error_becomes_a_bad_request() {
    let e = ApiErrorResponse::JsonErrors {
        detail: "expected value at line 1 column 2".to_string(),
    };
    let (status, body) = e.into_response_parts();
    assert_eq!(status, 400);
    assert!(body.data.is_none());
    assert_eq!(body.meta.unwrap().message.unwrap(), "Invalid JSON format");
    let errors = body.errors.unwrap();
    assert_eq!(errors.len(), 1);
    assert_eq!(errors[0].source, "$body");
    assert_eq!(errors[0].description, vec!["Expected value".to_string()]);
}

#[test]
fn validation_error_becomes_unprocessable_entity() {
    let tree = ValidationTree {
        entries: vec![entry("email", ValidationKind::Field(vec![issue(Some("bad"), "email")]))],
    };
    let e = ApiErrorResponse::ValidationErrors { errors: tree };
    let (status, body) = e.into_response_parts();
    assert_eq!(status, 422);
    assert_eq!(body.meta.unwrap().message.unwrap(), "Invalid JSON validation");
    let errors = body.errors.unwrap();
    assert_eq!(errors.len(), 1);
    assert_eq!(errors[0].source, "email");
}

#[test]
fn empty_validation_tree_becomes_invalid_payload() {
    let e = ApiErrorResponse::ValidationErrors { errors: ValidationTree { entries: Vec::new() } };
    let (status, body) = e.into_response_parts();
    assert_eq!(status, 422);
    let errors = body.errors.unwrap();
    assert_eq!(errors.len(), 1);
    assert_eq!(errors[0].source, "$schema");
    assert_eq!(errors[0].description, vec!["invalid payload".to_string()]);
}

#[test]
fn email_error_becomes_an_internal_error_without_details() {
    let (status, body) = ApiErrorResponse::EmailErrors.into_response_parts();
    assert_eq!(status, 500);
    assert_eq!(body.meta.unwrap().message.unwrap(), "Unable to send email");
    assert!(body.errors.is_none());
}

#[test]
fn response_constructors_fill_the_envelope() {
    let r = ApiJsonResponse::message("The server is alive and well :)");
    assert_eq!(r.data.unwrap().message, "The server is alive and well :)");
    assert!(r.meta.is_none());
    assert!(r.errors.is_none());

    let r = ApiJsonResponse::error("went wrong", Some(vec![FieldError::new("f", Vec::new())]));
    assert!(r.data.is_none());
    assert_eq!(r.meta.unwrap().message.unwrap(), "went wrong");
    assert_eq!(r.errors.unwrap().len(), 1);

    let r: ApiJsonResponse<u32> = ApiJsonResponse::with_data(7);
    assert_eq!(r.data, Some(7));

    let meta = ApiMeta::with_message("note");
    assert_eq!(meta.message.unwrap(), "note");

    let msg = ApiMessage::new("hi");
    assert_eq!(msg.message, "hi");
}
