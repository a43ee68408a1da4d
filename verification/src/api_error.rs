use vstd::prelude::*;
use crate::error::{RestError, RestErrorView, spec_status_code, STATUS_INTERNAL_SERVER_ERROR};
use crate::validation::{ValidationErrors, spec_field_messages, validation_errors_to_hashmap};

verus! {

/// Why the body, path or query of a request was rejected before it
/// reached a handler.
pub enum RequestRejection {
    /// The request was read but failed its validation checks.
    Validate(ValidationErrors),
    /// The request could not be deserialized.
    Deserialize,
    /// The JSON payload could not be read.
    JsonPayloadError,
    /// The url-encoded payload could not be read.
    UrlEncodedError,
    /// The query string could not be read.
    QsError,
}

/// A business unit could not be created.
pub enum CreateBusinessUnitError {
    /// Another business unit has the code; the text is what the error displays.
    CodeAlreadyExists(String),
}

/// A business unit could not be updated.
pub enum UpdateBusinessUnitError {
    BusinessUnitNotFound,
}

/// A connection could not be updated.
pub enum UpdateConnectionError {
    ConnectionNotFound,
    /// The properties were refused; the text is what the refusal displays.
    InvalidProperties(String),
}

/// A connection could not be created.
pub enum CreateConnectionError {
    PluginNotFound,
    InvalidProperties,
}

/// A connection could not be deleted; each text is what the error displays.
pub enum DeleteConnectionError {
    ConnectionNotFound(String),
    DeleteError(String),
}

/// A command that the command bus refused or failed.
pub enum CommandBusError {
    CreateBusinessUnit(CreateBusinessUnitError),
    UpdateBusinessUnit(UpdateBusinessUnitError),
    UpdateConnection(UpdateConnectionError),
    CreateConnection(CreateConnectionError),
    DeleteConnection(DeleteConnectionError),
    /// Any other failure, by the text that it displays.
    Other(String),
}

/// A query that the query bus failed.
pub enum QueryBusError {
    /// The entity was not found; the text is what the missing entity's
    /// error displays.
    EntityNotFound(String),
    /// Any other failure, by the text that it displays.
    Other(String),
}

/// Everything that can go wrong while the back office serves a request.
pub enum ApiError {
    ValidationError(RequestRejection),
    /// A JSON schema was refused, by the text that the refusal displays.
    InvalidSchema(String),
    CommandBus(CommandBusError),
    QueryBus(QueryBusError),
    /// An unexpected failure, by the text that it displays.
    Unexpected(String),
    Rest(RestError),
}

/// The REST error that answers a failure: a validation failure is a bad
/// request with its field map, a missing entity is "not found", a refused
/// change is "unprocessable", a REST error answers as itself, and anything
/// else is an internal error that carries the failure's text.
pub open spec fn spec_rest_error_of(e: ApiError) -> RestErrorView {
    match e {
        ApiError::ValidationError(r) => match r {
            RequestRejection::Validate(errs) => RestErrorView::BadRequest(
                Some("Invalid params"@),
                spec_field_messages(errs),
            ),
            RequestRejection::Deserialize => RestErrorView::BadRequest(Some("Deserialization error"@), None),
            RequestRejection::JsonPayloadError => RestErrorView::BadRequest(Some("JsonPayloadError error"@), None),
            RequestRejection::UrlEncodedError => RestErrorView::BadRequest(Some("UrlEncodedError error"@), None),
            RequestRejection::QsError => RestErrorView::BadRequest(Some("QsError error"@), None),
        },
        ApiError::CommandBus(c) => match c {
            CommandBusError::CreateBusinessUnit(CreateBusinessUnitError::CodeAlreadyExists(m)) =>
                RestErrorView::UnprocessableEntity(m@),
            CommandBusError::UpdateBusinessUnit(UpdateBusinessUnitError::BusinessUnitNotFound) =>
                RestErrorView::NotFound("Business unit not found"@),
            CommandBusError::UpdateConnection(UpdateConnectionError::ConnectionNotFound) =>
                RestErrorView::NotFound("Business unit not found"@),
            CommandBusError::UpdateConnection(UpdateConnectionError::InvalidProperties(m)) =>
                RestErrorView::UnprocessableEntity(m@),
            CommandBusError::CreateConnection(CreateConnectionError::PluginNotFound) =>
                RestErrorView::BadRequest(Some("Plugin do not exists"@), None),
            CommandBusError::CreateConnection(CreateConnectionError::InvalidProperties) =>
                RestErrorView::BadRequest(Some("Invalid properties"@), None),
            CommandBusError::DeleteConnection(DeleteConnectionError::ConnectionNotFound(m)) =>
                RestErrorView::NotFound(m@),
            CommandBusError::DeleteConnection(DeleteConnectionError::DeleteError(m)) =>
                RestErrorView::UnprocessableEntity(m@),
            CommandBusError::Other(m) => RestErrorView::InternalServer(Some(m@)),
        },
        ApiError::QueryBus(q) => match q {
            QueryBusError::EntityNotFound(m) => RestErrorView::NotFound(m@),
            QueryBusError::Other(m) => RestErrorView::InternalServer(Some(m@)),
        },
        ApiError::InvalidSchema(m) => RestErrorView::InternalServer(Some(m@)),
        ApiError::Unexpected(m) => RestErrorView::InternalServer(Some(m@)),
        ApiError::Rest(r) => r@,
    }
}

fn some_text(s: &str) -> (r: Option<String>)
    ensures
        r matches Some(t) && t@ == s@,
{
    Some(String::from_str(s))
}

impl RestError {
    /// The REST error that answers a failure of the back office.
    pub fn from_api_error(value: &ApiError) -> (r: RestError)
        ensures
            r@ == spec_rest_error_of(*value),
    {
        match value {
            ApiError::ValidationError(error) => match error {
                RequestRejection::Validate(e) => RestError::BadRequest(
                    some_text("Invalid params"),
                    validation_errors_to_hashmap(e),
                ),
                RequestRejection::Deserialize => RestError::BadRequest(some_text("Deserialization error"), None),
                RequestRejection::JsonPayloadError => RestError::BadRequest(some_text("JsonPayloadError error"), None),
                RequestRejection::UrlEncodedError => RestError::BadRequest(some_text("UrlEncodedError error"), None),
                RequestRejection::QsError => RestError::BadRequest(some_text("QsError error"), None),
            },
            ApiError::CommandBus(c) => match c {
                CommandBusError::CreateBusinessUnit(CreateBusinessUnitError::CodeAlreadyExists(m)) =>
                    RestError::UnprocessableEntity(m.clone()),
                CommandBusError::UpdateBusinessUnit(UpdateBusinessUnitError::BusinessUnitNotFound) =>
                    RestError::NotFound(String::from_str("Business unit not found")),
                CommandBusError::UpdateConnection(UpdateConnectionError::ConnectionNotFound) =>
                    RestError::NotFound(String::from_str("Business unit not found")),
                CommandBusError::UpdateConnection(UpdateConnectionError::InvalidProperties(m)) =>
                    RestError::UnprocessableEntity(m.clone()),
                CommandBusError::CreateConnection(CreateConnectionError::PluginNotFound) =>
                    RestError::BadRequest(some_text("Plugin do not exists"), None),
                CommandBusError::CreateConnection(CreateConnectionError::InvalidProperties) =>
                    RestError::BadRequest(some_text("Invalid properties"), None),
                CommandBusError::DeleteConnection(DeleteConnectionError::ConnectionNotFound(m)) =>
                    RestError::NotFound(m.clone()),
                CommandBusError::DeleteConnection(DeleteConnectionError::DeleteError(m)) =>
                    RestError::UnprocessableEntity(m.clone()),
                CommandBusError::Other(m) => RestError::InternalServer(Some(m.clone())),
            },
            ApiError::QueryBus(q) => match q {
                QueryBusError::EntityNotFound(m) => RestError::NotFound(m.clone()),
                QueryBusError::Other(m) => RestError::InternalServer(Some(m.clone())),
            },
            ApiError::InvalidSchema(m) => RestError::InternalServer(Some(m.clone())),
            ApiError::Unexpected(m) => RestError::InternalServer(Some(m.clone())),
            ApiError::Rest(e) => e.duplicate(),
        }
    }
}

/// A REST error that a handler raised answers as itself: wrapping it and
/// mapping it back with `RestError::from_api_error` loses nothing, whatever
/// its variant and payload.
pub proof fn lemma_rest_error_answers_as_itself(e: RestError)
    ensures
        spec_rest_error_of(ApiError::Rest(e)) == e@,
{
}

/// Every failure is answered with a client error (4xx) or a server error
/// (5xx), and it is a server error exactly when the failure is not one that
/// the mapping recognises as the client's, a REST error keeping its own.
pub proof fn lemma_failures_answer_with_error_status(e: ApiError)
    ensures
        400 <= spec_status_code(spec_rest_error_of(e)) < 600,
        (spec_status_code(spec_rest_error_of(e)) == STATUS_INTERNAL_SERVER_ERROR) <==> (match e {
            ApiError::CommandBus(CommandBusError::Other(_)) => true,
            ApiError::QueryBus(QueryBusError::Other(_)) => true,
            ApiError::InvalidSchema(_) => true,
            ApiError::Unexpected(_) => true,
            ApiError::Rest(r) => r is InternalServer,
            _ => false,
        }),
{
}

} // verus!
