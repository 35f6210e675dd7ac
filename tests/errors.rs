use github::error::{
    check_status_code, error_body, error_contexts_from_json, error_contexts_to_json, ClientError,
    ErrorCode, ErrorContext, ErrorStatus, InternalError, RequestError,
};

fn ctx(resource: &str, field: &str, code: ErrorCode) -> ErrorContext {
    ErrorContext { resource: resource.to_string(), field: field.to_string(), code }
}

#[test]
fn status_classes() {
    assert_eq!(ErrorStatus::new(400), ErrorStatus::BadRequest);
    assert_eq!(ErrorStatus::new(403), ErrorStatus::Forbidden);
    assert_eq!(ErrorStatus::new(422), ErrorStatus::UnprocessableEntity);
    assert_eq!(ErrorStatus::new(404), ErrorStatus::Unknown(404));
    assert_eq!(ErrorStatus::new(500), ErrorStatus::Unknown(500));
    assert_eq!(ErrorStatus::new(999), ErrorStatus::Unknown(999));
    assert_eq!(ErrorStatus::new(200), ErrorStatus::Unknown(200));
    assert_eq!(ErrorStatus::Forbidden.code(), 403);
}

#[test]
fn status_display() {
    assert_eq!(ErrorStatus::BadRequest.display(), "status 400: Bad Request");
    assert_eq!(ErrorStatus::Forbidden.display(), "status 403: Forbidden Request");
    assert_eq!(ErrorStatus::UnprocessableEntity.display(), "status 422: Unprocessable Entity");
    assert_eq!(ErrorStatus::Unknown(404).display(), "status 404: Unknown");
    assert_eq!(ErrorStatus::Unknown(0).display(), "status 0: Unknown");
}

#[test]
fn only_200_is_positive() {
    assert!(check_status_code(200));
    assert!(!check_status_code(201));
    assert!(!check_status_code(404));
}

#[test]
fn error_codes_by_name() {
    assert_eq!(ErrorCode::from_name("missing"), ErrorCode::Missing);
    assert_eq!(ErrorCode::from_name("missing_field"), ErrorCode::MissingField);
    assert_eq!(ErrorCode::from_name("invalid"), ErrorCode::Invalid);
    assert_eq!(ErrorCode::from_name("already_exists"), ErrorCode::AlreadyExists);
    assert_eq!(ErrorCode::from_name("Missing"), ErrorCode::Unknown("Missing".to_string()));
    assert_eq!(ErrorCode::from_name(""), ErrorCode::Unknown(String::new()));
    assert_eq!(ErrorCode::AlreadyExists.name(), "already_exists");
    assert_eq!(ErrorCode::Missing.display(), "resource does not exist");
    assert_eq!(ErrorCode::Unknown("odd".to_string()).display(), "odd");
}

#[test]
fn context_display() {
    let c = ctx("Issue", "title", ErrorCode::Invalid);
    assert_eq!(c.display(), "Error found in Issue.title: the formatting of the field is invalid");
}

#[test]
fn contexts_round_trip_through_json() {
    let list = vec![
        ctx("Issue", "title", ErrorCode::MissingField),
        ctx("Label", "name", ErrorCode::AlreadyExists),
        ctx("Repo", "x", ErrorCode::Unknown("custom_reason".to_string())),
        ctx("", "", ErrorCode::Missing),
        ctx("a", "b", ErrorCode::Invalid),
    ];
    let json = error_contexts_to_json(&list);
    assert_eq!(error_contexts_from_json(&json), list);
    assert_eq!(error_contexts_from_json(&error_contexts_to_json(&Vec::new())), Vec::new());
}

#[test]
fn contexts_from_error_body_text() {
    let body = br#"[{"code":"missing","resource":"Issue","field":"milestone","extra":1}]"#;
    assert_eq!(error_body(body), vec![ctx("Issue", "milestone", ErrorCode::Missing)]);
    assert_eq!(error_body(b"[]"), Vec::new());
    assert_eq!(error_body(b"{\"errors\":[]}"), Vec::new());
    assert_eq!(error_body(&[0xff, 0xfe]), Vec::new());
    assert_eq!(error_body(br#"[{"resource":"Issue","field":"t"}]"#), Vec::new());
}

#[test]
fn request_error_is_http() {
    let r: Result<(), ClientError> = RequestError::new(403, b"[]");
    match r {
        Err(ClientError::Http(e)) => {
            assert_eq!(e.code, ErrorStatus::Forbidden);
            assert!(e.errors.is_empty());
        }
        _ => panic!("expected an HTTP error"),
    }
}

#[test]
fn internal_error_keeps_its_message() {
    let r: Result<u8, ClientError> = InternalError::new("broken");
    match r {
        Err(e @ ClientError::Internal(_)) => assert_eq!(e.display(), "Internal Error: broken"),
        _ => panic!("expected an internal error"),
    }
}
