use perroute_backoffice::api_error::{
    ApiError, CommandBusError, CreateBusinessUnitError, CreateConnectionError, DeleteConnectionError,
    QueryBusError, RequestRejection, UpdateBusinessUnitError, UpdateConnectionError,
};
use perroute_backoffice::error::{ErrorModel, RestError};
use perroute_backoffice::validation::{
    build_kind, decimal_string, join_strings, validation_errors_to_hashmap, ValidationErrors,
    ValidationErrorsKind,
};

fn s(text: &str) -> String {
    text.to_string()
}

fn pairs(items: &[(&str, &str)]) -> Vec<(String, String)> {
    items.iter().map(|(k, v)| (s(k), s(v))).collect()
}

fn field(name: &str, messages: &[&str]) -> (String, ValidationErrorsKind) {
    (s(name), ValidationErrorsKind::Field(messages.iter().map(|m| s(m)).collect()))
}

#[test]
fn status_codes_of_rest_errors() {
    assert_eq!(RestError::NotFound(s("x")).status_code(), 404);
    assert_eq!(RestError::InternalServer(None).status_code(), 500);
    assert_eq!(RestError::UnprocessableEntity(s("x")).status_code(), 422);
    assert_eq!(RestError::Unauthorized.status_code(), 401);
    assert_eq!(RestError::Forbidden.status_code(), 403);
    assert_eq!(RestError::BadRequest(None, None).status_code(), 400);
}

#[test]
fn messages_of_rest_errors() {
    assert_eq!(RestError::NotFound(s("Channel gone")).message(), "Channel gone");
    assert_eq!(RestError::InternalServer(Some(s("db down"))).message(), "Internal Server Error");
    assert_eq!(RestError::UnprocessableEntity(s("dup")).message(), "dup");
    assert_eq!(RestError::Unauthorized.message(), "Unauthorized");
    assert_eq!(RestError::Forbidden.message(), "Forbidden");
    assert_eq!(RestError::BadRequest(Some(s("Invalid params")), None).message(), "BadRequest");
}

#[test]
fn model_of_not_found() {
    let m = RestError::NotFound(s("Business unit not found")).model();
    assert_eq!(m.status, 404);
    assert_eq!(m.message, "Business unit not found");
    assert_eq!(m.detail, Some(s("Business unit not found")));
    assert_eq!(m.errors, None);
}

#[test]
fn model_of_internal_error_keeps_its_detail() {
    let m = RestError::InternalServer(Some(s("db down"))).model();
    assert_eq!(m.status, 500);
    assert_eq!(m.message, "Internal Server Error");
    assert_eq!(m.detail, Some(s("db down")));
    assert_eq!(m.errors, None);
    let m = RestError::InternalServer(None).model();
    assert_eq!(m.detail, None);
}

#[test]
fn model_of_unprocessable_unauthorized_forbidden() {
    let m = RestError::UnprocessableEntity(s("code taken")).model();
    assert_eq!((m.status, m.message.as_str(), m.detail.clone()), (422, "code taken", Some(s("code taken"))));
    let m = RestError::Unauthorized.model();
    assert_eq!((m.status, m.message.as_str(), m.detail.clone(), m.errors.clone()), (401, "Unauthorized", None, None));
    let m = RestError::Forbidden.model();
    assert_eq!((m.status, m.message.as_str(), m.detail.clone(), m.errors.clone()), (403, "Forbidden", None, None));
}

#[test]
fn model_of_bad_request_carries_field_errors() {
    let m = RestError::BadRequest(Some(s("Invalid params")), Some(pairs(&[("name", "too short")]))).model();
    assert_eq!(m.status, 400);
    assert_eq!(m.message, "BadRequest");
    assert_eq!(m.detail, Some(s("Invalid params")));
    assert_eq!(m.errors, Some(pairs(&[("name", "too short")])));
}

#[test]
fn error_model_new_keeps_its_fields() {
    let m = ErrorModel::new(418, s("teapot"), Some(s("short and stout")), None);
    assert_eq!(m.status, 418);
    assert_eq!(m.message, "teapot");
    assert_eq!(m.detail, Some(s("short and stout")));
    assert_eq!(m.errors, None);
}

#[test]
fn duplicate_keeps_the_error() {
    let e = RestError::BadRequest(Some(s("d")), Some(pairs(&[("a", "b")])));
    let d = e.duplicate();
    assert!(matches!(d, RestError::BadRequest(Some(ref x), Some(ref m)) if x == "d" && *m == pairs(&[("a", "b")])));
}

#[test]
fn decimal_strings() {
    assert_eq!(decimal_string(0), "0");
    assert_eq!(decimal_string(7), "7");
    assert_eq!(decimal_string(10), "10");
    assert_eq!(decimal_string(1234567), "1234567");
}

#[test]
fn joined_strings() {
    assert_eq!(join_strings(&vec![], ","), "");
    assert_eq!(join_strings(&vec![s("a")], ","), "a");
    assert_eq!(join_strings(&vec![s("a"), s("b"), s("c")], ", "), "a, b, c");
}

#[test]
fn field_messages_are_joined_by_commas() {
    let kind = ValidationErrorsKind::Field(vec![s("too short"), s("not ascii")]);
    assert_eq!(build_kind(s("name"), &kind), pairs(&[("name", "too short,not ascii")]));
}

#[test]
fn nested_failures_are_flattened_under_their_paths() {
    let item = ValidationErrors { errors: vec![field("code", &["required"])] };
    let address = ValidationErrors { errors: vec![field("city", &["empty"]), field("zip", &["bad", "short"])] };
    let errors = ValidationErrors {
        errors: vec![
            field("name", &["too short"]),
            (s("items"), ValidationErrorsKind::List(vec![(0, item), (12, ValidationErrors { errors: vec![field("qty", &["negative"])] })])),
            (s("address"), ValidationErrorsKind::Struct(Box::new(address))),
        ],
    };
    let flat = validation_errors_to_hashmap(&errors);
    assert_eq!(
        flat,
        Some(pairs(&[
            ("name", "too short"),
            ("items[0].code", "required"),
            ("items[12].qty", "negative"),
            ("address.city", "empty"),
            ("address.zip", "bad,short"),
        ]))
    );
}

#[test]
fn no_failure_gives_no_field_map() {
    assert_eq!(validation_errors_to_hashmap(&ValidationErrors { errors: vec![] }), None);
}

fn rest(e: ApiError) -> RestError {
    RestError::from_api_error(&e)
}

#[test]
fn validation_failure_is_a_bad_request_with_its_fields() {
    let errors = ValidationErrors { errors: vec![field("code", &["invalid code"])] };
    let r = rest(ApiError::ValidationError(RequestRejection::Validate(errors)));
    assert!(matches!(r, RestError::BadRequest(Some(ref d), Some(ref m)) if d == "Invalid params" && *m == pairs(&[("code", "invalid code")])));
    assert_eq!(r.status_code(), 400);
}

#[test]
fn unreadable_requests_are_bad_requests() {
    let cases = [
        (RequestRejection::Deserialize, "Deserialization error"),
        (RequestRejection::JsonPayloadError, "JsonPayloadError error"),
        (RequestRejection::UrlEncodedError, "UrlEncodedError error"),
        (RequestRejection::QsError, "QsError error"),
    ];
    for (rejection, text) in cases {
        let r = rest(ApiError::ValidationError(rejection));
        assert!(matches!(r, RestError::BadRequest(Some(ref d), None) if d == text));
    }
}

#[test]
fn refused_commands_answer_their_errors() {
    let r = rest(ApiError::CommandBus(CommandBusError::CreateBusinessUnit(CreateBusinessUnitError::CodeAlreadyExists(s("Code acme already exists")))));
    assert!(matches!(r, RestError::UnprocessableEntity(ref m) if m == "Code acme already exists"));
    let r = rest(ApiError::CommandBus(CommandBusError::UpdateBusinessUnit(UpdateBusinessUnitError::BusinessUnitNotFound)));
    assert!(matches!(r, RestError::NotFound(ref m) if m == "Business unit not found"));
    let r = rest(ApiError::CommandBus(CommandBusError::UpdateConnection(UpdateConnectionError::ConnectionNotFound)));
    assert!(matches!(r, RestError::NotFound(ref m) if m == "Business unit not found"));
    let r = rest(ApiError::CommandBus(CommandBusError::UpdateConnection(UpdateConnectionError::InvalidProperties(s("bad props")))));
    assert!(matches!(r, RestError::UnprocessableEntity(ref m) if m == "bad props"));
    let r = rest(ApiError::CommandBus(CommandBusError::CreateConnection(CreateConnectionError::PluginNotFound)));
    assert!(matches!(r, RestError::BadRequest(Some(ref d), None) if d == "Plugin do not exists"));
    let r = rest(ApiError::CommandBus(CommandBusError::CreateConnection(CreateConnectionError::InvalidProperties)));
    assert!(matches!(r, RestError::BadRequest(Some(ref d), None) if d == "Invalid properties"));
    let r = rest(ApiError::CommandBus(CommandBusError::DeleteConnection(DeleteConnectionError::ConnectionNotFound(s("no such connection")))));
    assert!(matches!(r, RestError::NotFound(ref m) if m == "no such connection"));
    let r = rest(ApiError::CommandBus(CommandBusError::DeleteConnection(DeleteConnectionError::DeleteError(s("in use")))));
    assert!(matches!(r, RestError::UnprocessableEntity(ref m) if m == "in use"));
    let r = rest(ApiError::CommandBus(CommandBusError::Other(s("bus down"))));
    assert!(matches!(r, RestError::InternalServer(Some(ref m)) if m == "bus down"));
}

#[test]
fn query_failures_and_others_answer_as_documented() {
    let r = rest(ApiError::QueryBus(QueryBusError::EntityNotFound(s("Template not found"))));
    assert!(matches!(r, RestError::NotFound(ref m) if m == "Template not found"));
    let r = rest(ApiError::QueryBus(QueryBusError::Other(s("timeout"))));
    assert!(matches!(r, RestError::InternalServer(Some(ref m)) if m == "timeout"));
    let r = rest(ApiError::InvalidSchema(s("not a schema")));
    assert!(matches!(r, RestError::InternalServer(Some(ref m)) if m == "not a schema"));
    let r = rest(ApiError::Unexpected(s("oops")));
    assert!(matches!(r, RestError::InternalServer(Some(ref m)) if m == "oops"));
    assert_eq!(r.status_code(), 500);
}

#[test]
fn a_rest_error_answers_as_itself() {
    let r = rest(ApiError::Rest(RestError::Forbidden));
    assert!(matches!(r, RestError::Forbidden));
    let r = rest(ApiError::Rest(RestError::NotFound(s("gone"))));
    assert!(matches!(r, RestError::NotFound(ref m) if m == "gone"));
}

#[test]
fn every_failure_answers_with_an_error_status() {
    let failures = vec![
        ApiError::ValidationError(RequestRejection::QsError),
        ApiError::CommandBus(CommandBusError::Other(s("x"))),
        ApiError::QueryBus(QueryBusError::EntityNotFound(s("x"))),
        ApiError::InvalidSchema(s("x")),
        ApiError::Unexpected(s("x")),
        ApiError::Rest(RestError::Unauthorized),
    ];
    for f in failures {
        let status = rest(f).status_code();
        assert!((400..600).contains(&status));
    }
}

#[test]
fn flattened_keys_occur_once() {
    let inner = ValidationErrors { errors: vec![field("a", &["x"]), field("ab", &["y"])] };
    let errors = ValidationErrors {
        errors: vec![
            field("a", &["top"]),
            (s("ab"), ValidationErrorsKind::Struct(Box::new(inner))),
            (s("l"), ValidationErrorsKind::List(vec![(1, ValidationErrors { errors: vec![field("a", &["z"])] }), (10, ValidationErrors { errors: vec![field("a", &["w"])] })])),
        ],
    };
    let flat = validation_errors_to_hashmap(&errors).expect("failures");
    let keys: Vec<&String> = flat.iter().map(|(k, _)| k).collect();
    assert_eq!(keys, vec!["a", "ab.a", "ab.ab", "l[1].a", "l[10].a"]);
    for i in 0..keys.len() {
        for j in (i + 1)..keys.len() {
            assert_ne!(keys[i], keys[j]);
        }
    }
}

#[test]
fn wrapping_a_rest_error_loses_nothing() {
    let e = RestError::BadRequest(Some(s("Invalid params")), Some(pairs(&[("f", "m")])));
    let r = rest(ApiError::Rest(e));
    assert!(matches!(r, RestError::BadRequest(Some(ref d), Some(ref m)) if d == "Invalid params" && *m == pairs(&[("f", "m")])));
    let r = rest(ApiError::Rest(RestError::InternalServer(None)));
    assert!(matches!(r, RestError::InternalServer(None)));
}
