use vstd::prelude::*;
use crate::error::{ErrorModelView, spec_model, spec_status_code};
use crate::api_error::{
    ApiError, RequestRejection, CommandBusError, QueryBusError, CreateBusinessUnitError,
    UpdateBusinessUnitError, UpdateConnectionError, CreateConnectionError, DeleteConnectionError,
    spec_rest_error_of,
};
use crate::validation::{
    spec_field_messages, join, kind_entries, strings_view, ValidationErrorsKind, ValidationErrors, errors_entries,
    list_entries, decimal, digit_char,
};
use crate::rest::{
    RestError as ChannelRestError, PerrouteBackofficeApiError, CreateChannelError, UpdateChannelError,
    DeleteChannelError, spec_command_text, spec_channel_not_found,
};
use crate::wrapper::W;
use crate::id::{Id, uuid_text};
use crate::guarded_routes::spec_message_type_not_found;
use crate::exit::{ExitOutcome, spec_exit_message};
use crate::datetime::spec_parse_failure;
use crate::message_type_router::{MessageTypeAnswer, spec_answer_status};
use crate::models::{ModelErrorView, spec_required, spec_required_id, spec_query_business_unit};
use crate::id::uuid_parse;
use vstd::std_specs::convert::FromSpec;
use crate::hypermedia::{Route, spec_link_route, spec_link_elements};
use crate::links::{ResourceName, spec_target_name, spec_target_elements};
use crate::routing::{RouteName, spec_registered_route};

verus! {

/// What a client reads of an error: the status, the message, the detail and
/// the field errors of the body that answers it.
pub open spec fn answered(
    e: crate::error::RestErrorView,
    status: u16,
    message: Seq<char>,
    detail: Option<Seq<char>>,
    errors: Option<Seq<(Seq<char>, Seq<char>)>>,
) -> bool {
    spec_model(e) == (ErrorModelView { status, message, detail, errors })
}

/// The body that answers an error: a missing resource is 404 and shows its
/// detail; an internal error is 500, titled "Internal Server Error", with
/// whatever detail it has; an unprocessable change is 422 and shows its
/// detail; an unauthorized or forbidden request is 401 or 403 with its
/// title alone; a bad request is 400, titled "BadRequest", with its detail
/// and its field errors.
pub proof fn lemma_error_bodies(e: crate::error::RestErrorView)
    ensures
        match e {
            crate::error::RestErrorView::NotFound(d) => answered(e, 404, d, Some(d), None),
            crate::error::RestErrorView::InternalServer(d) => answered(e, 500, "Internal Server Error"@, d, None),
            crate::error::RestErrorView::UnprocessableEntity(d) => answered(e, 422, d, Some(d), None),
            crate::error::RestErrorView::Unauthorized => answered(e, 401, "Unauthorized"@, None, None),
            crate::error::RestErrorView::Forbidden => answered(e, 403, "Forbidden"@, None, None),
            crate::error::RestErrorView::BadRequest(d, m) => answered(e, 400, "BadRequest"@, d, m),
        },
{
}

/// Two errors answer with the same status exactly when they are of the same
/// kind, whatever they carry.
pub proof fn lemma_statuses_tell_errors_apart(a: crate::error::RestErrorView, b: crate::error::RestErrorView)
    ensures
        (spec_status_code(a) == spec_status_code(b)) <==> (
            (a is NotFound && b is NotFound)
            || (a is InternalServer && b is InternalServer)
            || (a is UnprocessableEntity && b is UnprocessableEntity)
            || (a is Unauthorized && b is Unauthorized)
            || (a is Forbidden && b is Forbidden)
            || (a is BadRequest && b is BadRequest)
        ),
{
}

/// How each failure of the back office is answered. A validation failure is
/// 400 "Invalid params" with the field map of what failed; a request that
/// could not be read is 400 with the reason and no field map; a missing
/// entity is 404 with the entity's own text (a missing business unit or
/// connection that an update names, with "Business unit not found"); a
/// refused change is 422 with the refusal's text; an unknown plugin or
/// invalid properties of a new connection are 400; every failure that the
/// mapping does not foresee is 500 and carries the failure's text; and an
/// error that a handler raised answers as itself.
pub proof fn lemma_failures_are_answered(e: ApiError)
    ensures
        match e {
            ApiError::ValidationError(RequestRejection::Validate(errs)) =>
                spec_status_code(spec_rest_error_of(e)) == 400
                    && spec_model(spec_rest_error_of(e)).detail == Some("Invalid params"@)
                    && spec_model(spec_rest_error_of(e)).errors == spec_field_messages(errs),
            ApiError::ValidationError(RequestRejection::Deserialize) =>
                answered(spec_rest_error_of(e), 400, "BadRequest"@, Some("Deserialization error"@), None),
            ApiError::ValidationError(RequestRejection::JsonPayloadError) =>
                answered(spec_rest_error_of(e), 400, "BadRequest"@, Some("JsonPayloadError error"@), None),
            ApiError::ValidationError(RequestRejection::UrlEncodedError) =>
                answered(spec_rest_error_of(e), 400, "BadRequest"@, Some("UrlEncodedError error"@), None),
            ApiError::ValidationError(RequestRejection::QsError) =>
                answered(spec_rest_error_of(e), 400, "BadRequest"@, Some("QsError error"@), None),
            ApiError::CommandBus(CommandBusError::CreateBusinessUnit(CreateBusinessUnitError::CodeAlreadyExists(m))) =>
                answered(spec_rest_error_of(e), 422, m@, Some(m@), None),
            ApiError::CommandBus(CommandBusError::UpdateBusinessUnit(UpdateBusinessUnitError::BusinessUnitNotFound)) =>
                answered(spec_rest_error_of(e), 404, "Business unit not found"@, Some("Business unit not found"@), None),
            ApiError::CommandBus(CommandBusError::UpdateConnection(UpdateConnectionError::ConnectionNotFound)) =>
                answered(spec_rest_error_of(e), 404, "Business unit not found"@, Some("Business unit not found"@), None),
            ApiError::CommandBus(CommandBusError::UpdateConnection(UpdateConnectionError::InvalidProperties(m))) =>
                answered(spec_rest_error_of(e), 422, m@, Some(m@), None),
            ApiError::CommandBus(CommandBusError::CreateConnection(CreateConnectionError::PluginNotFound)) =>
                answered(spec_rest_error_of(e), 400, "BadRequest"@, Some("Plugin do not exists"@), None),
            ApiError::CommandBus(CommandBusError::CreateConnection(CreateConnectionError::InvalidProperties)) =>
                answered(spec_rest_error_of(e), 400, "BadRequest"@, Some("Invalid properties"@), None),
            ApiError::CommandBus(CommandBusError::DeleteConnection(DeleteConnectionError::ConnectionNotFound(m))) =>
                answered(spec_rest_error_of(e), 404, m@, Some(m@), None),
            ApiError::CommandBus(CommandBusError::DeleteConnection(DeleteConnectionError::DeleteError(m))) =>
                answered(spec_rest_error_of(e), 422, m@, Some(m@), None),
            ApiError::CommandBus(CommandBusError::Other(m)) =>
                answered(spec_rest_error_of(e), 500, "Internal Server Error"@, Some(m@), None),
            ApiError::QueryBus(QueryBusError::EntityNotFound(m)) =>
                answered(spec_rest_error_of(e), 404, m@, Some(m@), None),
            ApiError::QueryBus(QueryBusError::Other(m)) =>
                answered(spec_rest_error_of(e), 500, "Internal Server Error"@, Some(m@), None),
            ApiError::InvalidSchema(m) =>
                answered(spec_rest_error_of(e), 500, "Internal Server Error"@, Some(m@), None),
            ApiError::Unexpected(m) =>
                answered(spec_rest_error_of(e), 500, "Internal Server Error"@, Some(m@), None),
            ApiError::Rest(r) => spec_model(spec_rest_error_of(e)) == spec_model(r@),
        },
{
}

/// How the channel api answers a failure of its buses: an existing code is
/// unprocessable and a missing channel is not found, each with the text
/// that the refusal displays; any other failed command and every failed
/// query are internal errors. Wrapped alone, a failed command or query
/// answers the same.
pub proof fn lemma_channel_failures_are_answered(e: crate::rest::CommandBusError, q: crate::rest::QueryBusError)
    ensures
        ChannelRestError::from_spec(PerrouteBackofficeApiError::QueryBus(q))
            == ChannelRestError::InternalServer,
        ChannelRestError::from_spec(W(q)) == ChannelRestError::InternalServer,
        ChannelRestError::from_spec(W(e)) == ChannelRestError::from_spec(PerrouteBackofficeApiError::CommandBus(e)),
        match e {
            crate::rest::CommandBusError::CreateChannel(CreateChannelError::CodeAlreadyExists(m)) =>
                ChannelRestError::from_spec(PerrouteBackofficeApiError::CommandBus(e))@
                    == crate::rest::RestErrorView::UnprocessableEntity(m@) && spec_command_text(e) == m@,
            crate::rest::CommandBusError::UpdateChannel(UpdateChannelError::ChannelNotFound(m)) =>
                ChannelRestError::from_spec(PerrouteBackofficeApiError::CommandBus(e))@
                    == crate::rest::RestErrorView::NotFound(m@) && spec_command_text(e) == m@,
            crate::rest::CommandBusError::DeleteChannel(DeleteChannelError::ChannelNotFound(m)) =>
                ChannelRestError::from_spec(PerrouteBackofficeApiError::CommandBus(e))@
                    == crate::rest::RestErrorView::NotFound(m@) && spec_command_text(e) == m@,
            crate::rest::CommandBusError::Other(m) =>
                ChannelRestError::from_spec(PerrouteBackofficeApiError::CommandBus(e))@
                    == crate::rest::RestErrorView::InternalServer && spec_command_text(e) == m@,
        },
{
}

/// A missing channel or message type is reported by a message that names
/// its identifier: "Channel ", or "Message type ", then the identifier's
/// text, then " not found".
pub proof fn lemma_not_found_messages_name_the_id(id: Id)
    ensures
        spec_channel_not_found(id).len() == 54,
        spec_channel_not_found(id).subrange(0, 8) == "Channel "@,
        spec_channel_not_found(id).subrange(8, 44) == uuid_text(id.value),
        spec_channel_not_found(id).subrange(44, 54) == " not found"@,
        spec_message_type_not_found(id).len() == 59,
        spec_message_type_not_found(id).subrange(0, 13) == "Message type "@,
        spec_message_type_not_found(id).subrange(13, 49) == uuid_text(id.value),
        spec_message_type_not_found(id).subrange(49, 59) == " not found"@,
{
    reveal_strlit("Channel ");
    reveal_strlit("Message type ");
    reveal_strlit(" not found");
    assert(spec_channel_not_found(id).subrange(0, 8) =~= "Channel "@);
    assert(spec_channel_not_found(id).subrange(8, 44) =~= uuid_text(id.value));
    assert(spec_channel_not_found(id).subrange(44, 54) =~= " not found"@);
    assert(spec_message_type_not_found(id).subrange(0, 13) =~= "Message type "@);
    assert(spec_message_type_not_found(id).subrange(13, 49) =~= uuid_text(id.value));
    assert(spec_message_type_not_found(id).subrange(49, 59) =~= " not found"@);
}

/// The report of a task's end begins with the task's name and goes on with
/// " has exited" when it completed, " failed" when it failed, and "' task
/// failed to complete" when it could not be joined; the three reports
/// differ.
pub proof fn lemma_exit_reports(name: Seq<char>, display: String, debug: String)
    ensures
        spec_exit_message(name, ExitOutcome::Completed) == name + " has exited"@,
        spec_exit_message(name, ExitOutcome::Failed { display, debug }) == name + " failed"@,
        spec_exit_message(name, ExitOutcome::NotJoined { display, debug }) == name + "' task failed to complete"@,
        spec_exit_message(name, ExitOutcome::Completed) != spec_exit_message(name, ExitOutcome::Failed { display, debug }),
        spec_exit_message(name, ExitOutcome::Completed) != spec_exit_message(name, ExitOutcome::NotJoined { display, debug }),
        spec_exit_message(name, ExitOutcome::Failed { display, debug }) != spec_exit_message(name, ExitOutcome::NotJoined { display, debug }),
{
    reveal_strlit(" has exited");
    reveal_strlit(" failed");
    reveal_strlit("' task failed to complete");
    assert(spec_exit_message(name, ExitOutcome::Completed).len() == name.len() + 11);
    assert(spec_exit_message(name, ExitOutcome::Failed { display, debug }).len() == name.len() + 7);
    assert(spec_exit_message(name, ExitOutcome::NotJoined { display, debug }).len() == name.len() + 25);
}

/// A text that gives no date and time is refused with "Failed to parse
/// datetime: " followed by the parser's own message.
pub proof fn lemma_parse_failure_keeps_the_reason(error: Seq<char>)
    ensures
        spec_parse_failure(error).len() == 26 + error.len(),
        spec_parse_failure(error).subrange(0, 26) == "Failed to parse datetime: "@,
        spec_parse_failure(error).subrange(26, 26 + error.len() as int) == error,
{
    reveal_strlit("Failed to parse datetime: ");
    assert(spec_parse_failure(error).subrange(0, 26) =~= "Failed to parse datetime: "@);
    assert(spec_parse_failure(error).subrange(26, 26 + error.len() as int) =~= error);
}

/// An answer is 201 "Created" exactly when it points at a new resource, and
/// 200 "OK" otherwise.
pub proof fn lemma_created_answers_are_201<D>(
    a: MessageTypeAnswer,
    r: crate::channel_router::ApiResponse<D>,
    h: crate::hypermedia::ApiResponse<D>,
)
    ensures
        spec_answer_status(a) == (if a is Created { 201u16 } else { 200u16 }),
        crate::channel_router::spec_response_status(r)
            == (if r is CreatedEmpty || r is Created { 201u16 } else { 200u16 }),
        crate::hypermedia::spec_response_status(h)
            == (if h is CreatedEmpty || h is Created { 201u16 } else { 200u16 }),
{
}

/// A required field gives its text when present and the failure that names
/// it missing when absent; a required identifier also fails, with its own
/// message, when its text spells no identifier; a business unit in a query
/// is optional, and a text that spells no identifier is refused.
pub proof fn lemma_required_fields(field: Option<String>, missing: Seq<char>, invalid: Seq<char>)
    ensures
        spec_required(field, missing) == (match field {
            Some(s) => Ok::<Seq<char>, ModelErrorView>(s@),
            None => Err(ModelErrorView::Missing(missing)),
        }),
        field is None ==> spec_required_id(field, missing, invalid) == Err::<u128, ModelErrorView>(ModelErrorView::Missing(missing)),
        field matches Some(s) ==> spec_required_id(field, missing, invalid) == (match uuid_parse(s@) {
            Some(v) => Ok::<u128, ModelErrorView>(v),
            None => Err(ModelErrorView::Invalid(invalid)),
        }),
        field is None ==> spec_query_business_unit(field) == Ok::<Option<u128>, ModelErrorView>(None),
        field matches Some(s) ==> spec_query_business_unit(field) == (match uuid_parse(s@) {
            Some(v) => Ok::<Option<u128>, ModelErrorView>(Some(v)),
            None => Err(ModelErrorView::InvalidId),
        }),
{
}

/// Messages are joined by the separator between each two: one message
/// stands alone, two are `a`, the separator, `b`, and one more message goes
/// after a further separator.
pub proof fn lemma_join(a: Seq<char>, b: Seq<char>, parts: Seq<Seq<char>>, sep: Seq<char>)
    requires
        parts.len() >= 1,
    ensures
        join(seq![a], sep) == a,
        join(seq![a, b], sep) == a + sep + b,
        join(parts.push(b), sep) == join(parts, sep) + sep + b,
{
    assert(seq![a, b].drop_last() =~= seq![a]);
    assert(parts.push(b).drop_last() =~= parts);
}

/// A field's failed checks make one entry under the field's name, whose
/// message is the checks' messages joined by commas.
pub proof fn lemma_field_entry(key: Seq<char>, msgs: Vec<String>)
    ensures
        kind_entries(key, ValidationErrorsKind::Field(msgs)).len() == 1,
        kind_entries(key, ValidationErrorsKind::Field(msgs))[0].0 == key,
        msgs@.len() == 1 ==> kind_entries(key, ValidationErrorsKind::Field(msgs))[0].1 == msgs@[0]@,
        msgs@.len() == 2 ==> kind_entries(key, ValidationErrorsKind::Field(msgs))[0].1
            == msgs@[0]@ + ","@ + msgs@[1]@,
{
    if msgs@.len() == 2 {
        let parts = strings_view(msgs);
        assert(parts.drop_last() =~= seq![msgs@[0]@]);
        assert(join(parts.drop_last(), ","@) == msgs@[0]@);
        assert(parts.last() == msgs@[1]@);
        assert(join(parts, ","@) == join(parts.drop_last(), ","@) + ","@ + parts.last());
    }
}

/// A link of the channel api resolves against the resource that it names,
/// and fills that resource's path with the texts of the identifiers it
/// carries, the channel's first.
pub proof fn lemma_channel_links_point_at_their_ids(channel_id: Id, message_type_id: Id)
    ensures
        spec_link_route(crate::hypermedia::ResourceLink::Channels) == Route::Channels,
        spec_link_elements(crate::hypermedia::ResourceLink::Channels) == Seq::<Seq<char>>::empty(),
        spec_link_route(crate::hypermedia::ResourceLink::Channel(channel_id)) == Route::Channel,
        spec_link_elements(crate::hypermedia::ResourceLink::Channel(channel_id)) == seq![uuid_text(channel_id.value)],
        spec_link_route(crate::hypermedia::ResourceLink::MessageTypes(channel_id)) == Route::MessageTypes,
        spec_link_elements(crate::hypermedia::ResourceLink::MessageTypes(channel_id)) == seq![uuid_text(channel_id.value)],
        spec_link_route(crate::hypermedia::ResourceLink::MessageType(channel_id, message_type_id)) == Route::MessageType,
        spec_link_elements(crate::hypermedia::ResourceLink::MessageType(channel_id, message_type_id))
            == seq![uuid_text(channel_id.value), uuid_text(message_type_id.value)],
{
    assert(spec_link_elements(crate::hypermedia::ResourceLink::Channels) =~= Seq::<Seq<char>>::empty());
    assert(spec_link_elements(crate::hypermedia::ResourceLink::Channel(channel_id)) =~= seq![uuid_text(channel_id.value)]);
    assert(spec_link_elements(crate::hypermedia::ResourceLink::MessageTypes(channel_id)) =~= seq![uuid_text(channel_id.value)]);
    assert(spec_link_elements(crate::hypermedia::ResourceLink::MessageType(channel_id, message_type_id))
        =~= seq![uuid_text(channel_id.value), uuid_text(message_type_id.value)]);
}

/// A link of the back office names the route of the resource it points at,
/// which is registered under that same resource (but for schemas, which
/// are not registered), and fills its path with the texts of the
/// identifiers it carries, the message type's before the schema's.
pub proof fn lemma_back_office_links_point_at_their_ids(a: Id, b: Id)
    ensures
        spec_target_name(crate::links::ResourceLink::BusinessUnits) == ResourceName::BusinessUnits,
        spec_target_name(crate::links::ResourceLink::BusinessUnit(a)) == ResourceName::BusinessUnit,
        spec_target_name(crate::links::ResourceLink::MessageTypes) == ResourceName::MessageTypes,
        spec_target_name(crate::links::ResourceLink::MessageType(a)) == ResourceName::MessageType,
        spec_target_name(crate::links::ResourceLink::Schemas(a)) == ResourceName::Schemas,
        spec_target_name(crate::links::ResourceLink::Schema(a, b)) == ResourceName::Schema,
        spec_target_name(crate::links::ResourceLink::Templates) == ResourceName::Templates,
        spec_target_name(crate::links::ResourceLink::Template(a)) == ResourceName::Template,
        spec_target_name(crate::links::ResourceLink::Routes) == ResourceName::Routes,
        spec_target_name(crate::links::ResourceLink::Route(a)) == ResourceName::Route,
        spec_registered_route(ResourceName::BusinessUnits) == Some(RouteName::BusinessUnits),
        spec_registered_route(ResourceName::BusinessUnit) == Some(RouteName::BusinessUnit),
        spec_registered_route(ResourceName::MessageTypes) == Some(RouteName::MessageTypes),
        spec_registered_route(ResourceName::MessageType) == Some(RouteName::MessageType),
        spec_registered_route(ResourceName::Templates) == Some(RouteName::Templates),
        spec_registered_route(ResourceName::Template) == Some(RouteName::Template),
        spec_registered_route(ResourceName::Routes) == Some(RouteName::Routes),
        spec_registered_route(ResourceName::Route) == Some(RouteName::Route),
        spec_registered_route(ResourceName::Schemas) is None,
        spec_registered_route(ResourceName::Schema) is None,
        spec_target_elements(crate::links::ResourceLink::BusinessUnits) == Seq::<Seq<char>>::empty(),
        spec_target_elements(crate::links::ResourceLink::BusinessUnit(a)) == seq![uuid_text(a.value)],
        spec_target_elements(crate::links::ResourceLink::MessageTypes) == Seq::<Seq<char>>::empty(),
        spec_target_elements(crate::links::ResourceLink::MessageType(a)) == seq![uuid_text(a.value)],
        spec_target_elements(crate::links::ResourceLink::Schemas(a)) == seq![uuid_text(a.value)],
        spec_target_elements(crate::links::ResourceLink::Schema(a, b)) == seq![uuid_text(a.value), uuid_text(b.value)],
        spec_target_elements(crate::links::ResourceLink::Templates) == Seq::<Seq<char>>::empty(),
        spec_target_elements(crate::links::ResourceLink::Template(a)) == seq![uuid_text(a.value)],
        spec_target_elements(crate::links::ResourceLink::Routes) == Seq::<Seq<char>>::empty(),
        spec_target_elements(crate::links::ResourceLink::Route(a)) == seq![uuid_text(a.value)],
{
    assert(spec_target_elements(crate::links::ResourceLink::BusinessUnits) =~= Seq::<Seq<char>>::empty());
    assert(spec_target_elements(crate::links::ResourceLink::BusinessUnit(a)) =~= seq![uuid_text(a.value)]);
    assert(spec_target_elements(crate::links::ResourceLink::MessageTypes) =~= Seq::<Seq<char>>::empty());
    assert(spec_target_elements(crate::links::ResourceLink::MessageType(a)) =~= seq![uuid_text(a.value)]);
    assert(spec_target_elements(crate::links::ResourceLink::Schemas(a)) =~= seq![uuid_text(a.value)]);
    assert(spec_target_elements(crate::links::ResourceLink::Schema(a, b)) =~= seq![uuid_text(a.value), uuid_text(b.value)]);
    assert(spec_target_elements(crate::links::ResourceLink::Templates) =~= Seq::<Seq<char>>::empty());
    assert(spec_target_elements(crate::links::ResourceLink::Template(a)) =~= seq![uuid_text(a.value)]);
    assert(spec_target_elements(crate::links::ResourceLink::Routes) =~= Seq::<Seq<char>>::empty());
    assert(spec_target_elements(crate::links::ResourceLink::Route(a)) =~= seq![uuid_text(a.value)]);
}

/// The failures inside a nested structure are listed under the field's
/// name and a dot; those of a list's items under the field's name, the
/// item's index in brackets and a dot.
pub proof fn lemma_nested_entries(key: Seq<char>, inner: ValidationErrors, items: Vec<(usize, ValidationErrors)>, j: int)
    requires
        0 <= j < items@.len(),
    ensures
        kind_entries(key, ValidationErrorsKind::Struct(Box::new(inner))) == errors_entries(key + "."@, inner, 0),
        kind_entries(key, ValidationErrorsKind::List(items)) == list_entries(key, items, 0),
        list_entries(key, items, j) == errors_entries(key + "["@ + decimal(items@[j].0 as nat) + "]."@, items@[j].1, 0)
            + list_entries(key, items, j + 1),
        list_entries(key, items, items@.len() as int) == Seq::<(Seq<char>, Seq<char>)>::empty(),
{
}

/// An index is written in decimal: a digit's character is the digit's code
/// point above '0', one digit stands alone, and a larger number is written
/// as its tens followed by its last digit.
pub proof fn lemma_decimal(n: nat)
    ensures
        n < 10 ==> (digit_char(n) as int) == ('0' as int) + n,
        n < 10 ==> decimal(n) == seq![digit_char(n)],
        n >= 10 ==> decimal(n) == decimal(n / 10).push(digit_char(n % 10)),
{
}

/// A validation failure has a field map exactly when some field failed:
/// the entries of its fields in order, each field's entries under the
/// field's name.
pub proof fn lemma_field_map(errs: ValidationErrors, prefix: Seq<char>, i: int)
    requires
        0 <= i < errs.errors@.len(),
    ensures
        spec_field_messages(errs) is None <==> errs.errors@.len() == 0,
        spec_field_messages(errs) is Some ==> spec_field_messages(errs)->0 == errors_entries(Seq::empty(), errs, 0),
        errors_entries(prefix, errs, i)
            == kind_entries(prefix + errs.errors@[i].0@, errs.errors@[i].1) + errors_entries(prefix, errs, i + 1),
        errors_entries(prefix, errs, errs.errors@.len() as int) == Seq::<(Seq<char>, Seq<char>)>::empty(),
{
}

} // verus!
