use perroute_backoffice::channel_router::{
    self, ApiError as ActixError, ChannelHandler, ChannelQuery, ChannelRouter, ChannelStep,
};
use perroute_backoffice::flows::{
    create_channel, delete_channel, find_channel, query_channels, update_channel, Body, Command, Handler,
    HealthRouter, MessageTypeRouter, Query, Reply, SchemaRouter, Step,
};
use perroute_backoffice::hypermedia::ResourceLink as HyperLink;
use perroute_backoffice::id::Id;
use perroute_backoffice::message_type_router::{
    self, MessageTypeAnswer, MessageTypeHandler, MessageTypeQuery, MessageTypeStep,
};
use perroute_backoffice::rest::{
    fetch, channel_not_found_message, Channel, ChannelPath, CommandBusError, CreateChannelError,
    CreateChannelRequest, CreateMessageTypeRequest, CreateSchemaRequest, DeleteChannelError, MessageType,
    MessageTypePath, QueryBusError, RestError, Schema, SchemaPath, UpdateChannelError, UpdateChannelRequest,
    UpdateMessageTypeRequest,
};

const C: u128 = 0x67e5504410b1426f9247bb680e5fe0c8;
const M: u128 = 0x936da01f9abd4d9d80c702af85c822a8;
const S: u128 = 0x1111111122224333844455556666777;
const C_TEXT: &str = "67e55044-10b1-426f-9247-bb680e5fe0c8";

fn id(v: u128) -> Id {
    Id::from_u128(v)
}

fn channel() -> Channel {
    Channel { id: id(C), code: "sms".to_string(), name: "SMS".to_string() }
}

fn message_type() -> MessageType {
    MessageType {
        id: id(M),
        code: "welcome".to_string(),
        description: "Welcome".to_string(),
        enabled: true,
        channel_id: id(C),
    }
}

fn query_error() -> QueryBusError {
    QueryBusError { message: "timeout".to_string() }
}

#[test]
fn create_channel_creates_then_answers_the_stored_channel() {
    let (h, step) = create_channel(id(C), CreateChannelRequest { code: "sms".to_string(), name: "SMS".to_string() });
    assert!(matches!(step, Step::Command(Command::CreateChannel { channel_id, ref code, ref name })
        if channel_id == id(C) && code == "sms" && name == "SMS"));
    assert!(h.accepts(&Reply::Executed(Ok(()))));
    assert!(!h.accepts(&Reply::Channel(Ok(None))));
    let (h, step) = h.resume(Reply::Executed(Ok(())));
    assert!(matches!(step, Step::Query(Query::FindChannel(ref q)) if q.channel_id == id(C)));
    let (h, step) = h.resume(Reply::Channel(Ok(Some(channel()))));
    assert!(matches!(h, Handler::Finished));
    assert!(matches!(step, Step::Respond(Ok(Body::Channel(ref r))) if r.id == id(C) && r.code == "sms" && r.name == "SMS"));
    assert!(!h.accepts(&Reply::Executed(Ok(()))));
}

#[test]
fn an_existing_code_is_unprocessable() {
    let (h, _) = create_channel(id(C), CreateChannelRequest { code: "sms".to_string(), name: "SMS".to_string() });
    let refusal = CommandBusError::CreateChannel(CreateChannelError::CodeAlreadyExists("Code sms already exists".to_string()));
    let (h, step) = h.resume(Reply::Executed(Err(refusal)));
    assert!(matches!(h, Handler::Finished));
    assert!(matches!(step, Step::Respond(Err(RestError::UnprocessableEntity(ref m))) if m == "Code sms already exists"));
}

#[test]
fn a_missing_channel_is_not_found() {
    assert_eq!(channel_not_found_message(id(C)), format!("Channel {} not found", C_TEXT));
    let (h, step) = find_channel(id(C));
    assert!(matches!(step, Step::Query(Query::FindChannel(ref q)) if q.channel_id == id(C)));
    let (_, step) = h.resume(Reply::Channel(Ok(None)));
    assert!(matches!(step, Step::Respond(Err(RestError::NotFound(ref m))) if *m == format!("Channel {} not found", C_TEXT)));
}

#[test]
fn a_failed_query_is_an_internal_error() {
    let (h, _) = find_channel(id(C));
    let (_, step) = h.resume(Reply::Channel(Err(query_error())));
    assert!(matches!(step, Step::Respond(Err(RestError::InternalServer))));
    let (h, _) = query_channels();
    let (_, step) = h.resume(Reply::Channels(Err(query_error())));
    assert!(matches!(step, Step::Respond(Err(RestError::InternalServer))));
}

#[test]
fn update_and_delete_of_a_channel() {
    let (h, step) = update_channel(id(C), UpdateChannelRequest { name: "Texts".to_string() });
    assert!(matches!(step, Step::Command(Command::UpdateChannel { channel_id, ref name }) if channel_id == id(C) && name == "Texts"));
    let (h, step) = h.resume(Reply::Executed(Ok(())));
    assert!(matches!(step, Step::Query(Query::FindChannel(ref q)) if q.channel_id == id(C)));
    let renamed = Channel { id: id(C), code: "sms".to_string(), name: "Texts".to_string() };
    let (_, step) = h.resume(Reply::Channel(Ok(Some(renamed))));
    assert!(matches!(step, Step::Respond(Ok(Body::Channel(ref r))) if r.name == "Texts"));

    let (h, _) = update_channel(id(C), UpdateChannelRequest { name: "Texts".to_string() });
    let refusal = CommandBusError::UpdateChannel(UpdateChannelError::ChannelNotFound("Channel gone".to_string()));
    let (_, step) = h.resume(Reply::Executed(Err(refusal)));
    assert!(matches!(step, Step::Respond(Err(RestError::NotFound(ref m))) if m == "Channel gone"));

    let (h, step) = delete_channel(id(C));
    assert!(matches!(step, Step::Command(Command::DeleteChannel { channel_id }) if channel_id == id(C)));
    let (_, step) = h.resume(Reply::Executed(Ok(())));
    assert!(matches!(step, Step::Respond(Ok(Body::Empty))));
    let (h, _) = delete_channel(id(C));
    let refusal = CommandBusError::DeleteChannel(DeleteChannelError::ChannelNotFound("gone".to_string()));
    let (_, step) = h.resume(Reply::Executed(Err(refusal)));
    assert!(matches!(step, Step::Respond(Err(RestError::NotFound(ref m))) if m == "gone"));
    let (h, _) = delete_channel(id(C));
    let (_, step) = h.resume(Reply::Executed(Err(CommandBusError::Other("bus".to_string()))));
    assert!(matches!(step, Step::Respond(Err(RestError::InternalServer))));
}

#[test]
fn channel_listing_keeps_the_order() {
    let (h, step) = query_channels();
    assert!(matches!(step, Step::Query(Query::QueryChannels)));
    let other = Channel { id: id(M), code: "email".to_string(), name: "E-mail".to_string() };
    let (_, step) = h.resume(Reply::Channels(Ok(vec![channel(), other])));
    match step {
        Step::Respond(Ok(Body::Channels(v))) => {
            assert_eq!(v.len(), 2);
            assert_eq!(v[0].code, "sms");
            assert_eq!(v[1].code, "email");
            assert_eq!(v[1].id, id(M));
        },
        _ => panic!("expected the channels"),
    }
}

#[test]
fn message_type_is_created_in_the_channel_found() {
    let body = CreateMessageTypeRequest { code: "welcome".to_string(), description: "Welcome".to_string() };
    let (h, step) = MessageTypeRouter::create_message_type(ChannelPath::from(id(C)), id(M), body);
    assert!(matches!(step, Step::Query(Query::FindChannel(ref q)) if q.channel_id == id(C)));
    let (h, step) = h.resume(Reply::Channel(Ok(Some(channel()))));
    assert!(matches!(step, Step::Command(Command::CreateMessageType { message_type_id, ref code, ref description, channel_id })
        if message_type_id == id(M) && code == "welcome" && description == "Welcome" && channel_id == id(C)));
    let (h, step) = h.resume(Reply::Executed(Ok(())));
    assert!(matches!(step, Step::Query(Query::FindMessageType(ref q)) if q.message_type_id == id(M) && q.channel_id == Some(id(C))));
    let (h, step) = h.resume(Reply::MessageType(Ok(Some(message_type()))));
    assert!(matches!(h, Handler::Finished));
    assert!(matches!(step, Step::Respond(Ok(Body::MessageType(ref r))) if r.id == id(M) && r.code == "welcome" && r.enabled));
}

#[test]
fn message_types_of_a_missing_channel_are_not_found() {
    let (h, _) = MessageTypeRouter::query_message_types(ChannelPath::from(id(C)));
    let (_, step) = h.resume(Reply::Channel(Ok(None)));
    assert!(matches!(step, Step::Respond(Err(RestError::NotFound(ref m))) if m.is_empty()));
    let (h, _) = MessageTypeRouter::query_message_types(ChannelPath::from(id(C)));
    let (h, step) = h.resume(Reply::Channel(Ok(Some(channel()))));
    assert!(matches!(step, Step::Query(Query::QueryMessageTypes { channel_id }) if channel_id == id(C)));
    let (_, step) = h.resume(Reply::MessageTypes(Ok(vec![message_type()])));
    assert!(matches!(step, Step::Respond(Ok(Body::MessageTypes(ref v))) if v.len() == 1 && v[0].code == "welcome"));
}

#[test]
fn message_type_update_and_delete() {
    let path = MessageTypePath::from((id(C), id(M)));
    let (h, step) = MessageTypeRouter::update_message_type(path, UpdateMessageTypeRequest { description: "Hi".to_string(), enabled: false });
    assert!(matches!(step, Step::Query(Query::FindMessageType(ref q)) if q.message_type_id == id(M) && q.channel_id == Some(id(C))));
    let (h, step) = h.resume(Reply::MessageType(Ok(Some(message_type()))));
    assert!(matches!(step, Step::Command(Command::UpdateMessageType { message_type_id, ref description, enabled })
        if message_type_id == id(M) && description == "Hi" && !enabled));
    let (h, _) = h.resume(Reply::Executed(Ok(())));
    let (_, step) = h.resume(Reply::MessageType(Ok(None)));
    assert!(matches!(step, Step::Respond(Err(RestError::NotFound(_)))));

    let (h, _) = MessageTypeRouter::delete_message_type(MessageTypePath::from((id(C), id(M))));
    let (h, step) = h.resume(Reply::MessageType(Ok(Some(message_type()))));
    assert!(matches!(step, Step::Command(Command::DeleteMessageType { message_type_id }) if message_type_id == id(M)));
    let (_, step) = h.resume(Reply::Executed(Ok(())));
    assert!(matches!(step, Step::Respond(Ok(Body::Empty))));

    let (h, _) = MessageTypeRouter::find_message_type(MessageTypePath::from((id(C), id(M))));
    let (_, step) = h.resume(Reply::MessageType(Ok(None)));
    assert!(matches!(step, Step::Respond(Err(RestError::NotFound(_)))));
}

#[test]
fn schema_is_created_under_the_message_type_found() {
    let path = MessageTypePath::from((id(C), id(M)));
    let (h, _) = SchemaRouter::create_schema(path, id(S), CreateSchemaRequest { schema: "{}".to_string() });
    let (h, step) = h.resume(Reply::MessageType(Ok(Some(message_type()))));
    assert!(matches!(step, Step::Command(Command::CreateSchema { schema_id, message_type_id, ref schema })
        if schema_id == id(S) && message_type_id == id(M) && schema == "{}"));
    assert!(!h.accepts(&Reply::Executed(Err(CommandBusError::Other("x".to_string())))));
    let (h, step) = h.resume(Reply::Executed(Ok(())));
    assert!(matches!(step, Step::Query(Query::FindSchema(ref q)) if q.message_type_id == id(M) && q.channel_id == id(C) && q.version == id(S)));
    let stored = Schema { id: id(S), version: 1, schema: "{}".to_string(), message_type_id: id(M) };
    let (_, step) = h.resume(Reply::Schema(Ok(Some(stored))));
    assert!(matches!(step, Step::Respond(Ok(Body::Schema(ref r))) if r.version == 1 && r.id == id(S)));
}

#[test]
fn schema_listing_update_delete_find() {
    let (h, _) = SchemaRouter::query_schemas(MessageTypePath::from((id(C), id(M))));
    let (h, step) = h.resume(Reply::MessageType(Ok(Some(message_type()))));
    assert!(matches!(step, Step::Query(Query::QuerySchemas { message_type_id }) if message_type_id == id(M)));
    assert!(!h.accepts(&Reply::Schemas(Err(query_error()))));
    let (_, step) = h.resume(Reply::Schemas(Ok(vec![])));
    assert!(matches!(step, Step::Respond(Ok(Body::Schemas(ref v))) if v.is_empty()));

    let spath = SchemaPath::from((id(C), id(M), id(S)));
    let (h, step) = SchemaRouter::find_schema(spath);
    assert!(matches!(step, Step::Query(Query::FindSchema(ref q)) if q.version == id(S)));
    let (_, step) = h.resume(Reply::Schema(Ok(None)));
    assert!(matches!(step, Step::Respond(Err(RestError::NotFound(_)))));

    let (h, _) = SchemaRouter::delete_schema(SchemaPath::from((id(C), id(M), id(S))));
    let stored = Schema { id: id(S), version: 2, schema: "{}".to_string(), message_type_id: id(M) };
    let (h, step) = h.resume(Reply::Schema(Ok(Some(stored))));
    assert!(matches!(step, Step::Command(Command::DeleteSchema { schema_id }) if schema_id == id(S)));
    let (_, step) = h.resume(Reply::Executed(Ok(())));
    assert!(matches!(step, Step::Respond(Ok(Body::Empty))));

    let (h, _) = SchemaRouter::update_schema(SchemaPath::from((id(C), id(M), id(S))), perroute_backoffice::rest::UpdateSchemaRequest { schema: "[]".to_string() });
    let stored = Schema { id: id(S), version: 2, schema: "{}".to_string(), message_type_id: id(M) };
    let (_, step) = h.resume(Reply::Schema(Ok(Some(stored))));
    assert!(matches!(step, Step::Command(Command::UpdateSchema { schema_id, ref schema }) if schema_id == id(S) && schema == "[]"));
}

#[test]
fn health_is_ok() {
    assert_eq!(HealthRouter::health(), 200);
}

#[test]
fn fetch_settles_a_lookup() {
    let r = fetch(Ok(Some(5u8)), RestError::NotFound("none".to_string()));
    assert!(matches!(r, Ok(5)));
    let r = fetch::<u8>(Ok(None), RestError::NotFound("none".to_string()));
    assert!(matches!(r, Err(RestError::NotFound(ref m)) if m == "none"));
    let r = fetch::<u8>(Err(query_error()), RestError::NotFound("none".to_string()));
    assert!(matches!(r, Err(RestError::InternalServer)));
}

#[test]
fn paths_give_their_queries() {
    let q = ChannelPath::from(id(C)).query();
    assert_eq!(q.channel_id, id(C));
    let q = MessageTypePath::from((id(C), id(M))).query();
    assert_eq!((q.message_type_id, q.channel_id), (id(M), Some(id(C))));
    let q = SchemaPath::from((id(C), id(M), id(S))).query();
    assert_eq!((q.channel_id, q.message_type_id, q.version), (id(C), id(M), id(S)));
}

#[test]
fn actix_channel_creation_by_code() {
    let (h, step) = ChannelRouter::create_channel(id(C), "sms".to_string(), "SMS".to_string());
    assert!(matches!(step, ChannelStep::Command(Command::CreateChannel { channel_id, ref code, ref name })
        if channel_id == id(C) && code == "sms" && name == "SMS"));
    let (h, step) = h.resume(Reply::Executed(Ok(())));
    assert!(matches!(step, ChannelStep::Query(ChannelQuery::FindChannelByCode(ref c)) if c == "sms"));
    let (h, step) = h.resume(Reply::Channel(Ok(Some(channel()))));
    assert!(matches!(h, ChannelHandler::Finished));
    match step {
        ChannelStep::Respond(Ok(r)) => {
            assert_eq!(r.status_code(), 201);
            match r {
                channel_router::ApiResponse::Created(channel_router::ResourceLink::Channel(code), body) => {
                    assert_eq!(code, "sms");
                    assert_eq!(body.data.code, "sms");
                    assert_eq!(body.data.name, "SMS");
                },
                _ => panic!("expected a created channel"),
            }
        },
        _ => panic!("expected an answer"),
    }
}

#[test]
fn actix_created_channel_lost_is_a_fixed_failure() {
    let (h, _) = ChannelRouter::create_channel(id(C), "sms".to_string(), "SMS".to_string());
    let (h, _) = h.resume(Reply::Executed(Ok(())));
    let (_, step) = h.resume(Reply::Channel(Ok(None)));
    match step {
        ChannelStep::Respond(Err(e)) => {
            assert!(matches!(e, ActixError::Const("Failed to retrieve channel")));
            assert!(matches!(e.rest_error(), RestError::InternalServer));
        },
        _ => panic!("expected a failure"),
    }
}

#[test]
fn actix_channel_find_update_delete_query() {
    let (h, _) = ChannelRouter::find_channel("push".to_string());
    let (_, step) = h.resume(Reply::Channel(Ok(None)));
    assert!(matches!(step, ChannelStep::Respond(Err(ActixError::ChannelNotFound(ref c))) if c == "push"));

    let (h, step) = ChannelRouter::update("sms".to_string(), "Texts".to_string());
    assert!(matches!(step, ChannelStep::Query(ChannelQuery::FindChannelByCode(ref c)) if c == "sms"));
    let (h, step) = h.resume(Reply::Channel(Ok(Some(channel()))));
    assert!(matches!(step, ChannelStep::Command(Command::UpdateChannel { channel_id, ref name }) if channel_id == id(C) && name == "Texts"));
    let (h, _) = h.resume(Reply::Executed(Ok(())));
    let renamed = Channel { id: id(C), code: "sms".to_string(), name: "Texts".to_string() };
    let (_, step) = h.resume(Reply::Channel(Ok(Some(renamed))));
    assert!(matches!(step, ChannelStep::Respond(Ok(channel_router::ApiResponse::OkSingle(ref b))) if b.data.name == "Texts"));

    let (h, _) = ChannelRouter::delete("sms".to_string());
    let (h, step) = h.resume(Reply::Channel(Ok(Some(channel()))));
    assert!(matches!(step, ChannelStep::Command(Command::DeleteChannel { channel_id }) if channel_id == id(C)));
    let (_, step) = h.resume(Reply::Executed(Ok(())));
    assert!(matches!(step, ChannelStep::Respond(Ok(channel_router::ApiResponse::OkEmpty))));

    let (h, _) = ChannelRouter::query();
    let (_, step) = h.resume(Reply::Channels(Ok(vec![channel()])));
    match step {
        ChannelStep::Respond(Ok(channel_router::ApiResponse::OkCollection(c))) => {
            assert_eq!(c.data.len(), 1);
            assert_eq!(c.data[0].data.code, "sms");
        },
        _ => panic!("expected the channels"),
    }
}

#[test]
fn actix_failures_are_internal_errors_unless_rest() {
    assert!(matches!(ActixError::ChannelNotFound("x".to_string()).rest_error(), RestError::InternalServer));
    assert!(matches!(ActixError::MessageTypeNotFound(id(M)).rest_error(), RestError::InternalServer));
    assert!(matches!(ActixError::QueryBus(query_error()).rest_error(), RestError::InternalServer));
    assert!(matches!(ActixError::Rest(RestError::NotFound("n".to_string())).rest_error(), RestError::NotFound(ref m) if m == "n"));
}

#[test]
fn actix_message_type_creation() {
    let (h, step) = message_type_router::MessageTypeRouter::create(id(C), id(M), "welcome".to_string(), "Welcome".to_string());
    assert!(matches!(step, MessageTypeStep::Query(MessageTypeQuery::FindChannel { channel_id }) if channel_id == id(C)));
    let (h, step) = h.resume(Reply::Channel(Ok(Some(channel()))));
    assert!(matches!(step, MessageTypeStep::Command(Command::CreateMessageType { message_type_id, channel_id, .. })
        if message_type_id == id(M) && channel_id == id(C)));
    let (h, step) = h.resume(Reply::Executed(Ok(())));
    assert!(matches!(step, MessageTypeStep::Query(MessageTypeQuery::FindMessageType { message_type_id }) if message_type_id == id(M)));
    assert!(!h.accepts(&Reply::MessageType(Ok(None))));
    let (h, step) = h.resume(Reply::MessageType(Ok(Some(message_type()))));
    assert!(matches!(h, MessageTypeHandler::Finished));
    match step {
        MessageTypeStep::Respond(Ok(a)) => {
            assert_eq!(a.status_code(), 201);
            match a {
                MessageTypeAnswer::Created { link, message_type } => {
                    assert_eq!(link, HyperLink::MessageType(id(C), id(M)));
                    assert_eq!(message_type.code, "welcome");
                },
                _ => panic!("expected a created message type"),
            }
        },
        _ => panic!("expected an answer"),
    }
}

#[test]
fn actix_message_type_missing_channel_names_its_id() {
    let (h, _) = message_type_router::MessageTypeRouter::query(id(C));
    let (_, step) = h.resume(Reply::Channel(Ok(None)));
    assert!(matches!(step, MessageTypeStep::Respond(Err(ActixError::ChannelNotFound(ref c))) if c == C_TEXT));
}

#[test]
fn actix_message_type_listing_update_delete_find() {
    let (h, _) = message_type_router::MessageTypeRouter::query(id(C));
    let (h, step) = h.resume(Reply::Channel(Ok(Some(channel()))));
    assert!(matches!(step, MessageTypeStep::Query(MessageTypeQuery::QueryMessageTypes { channel_id }) if channel_id == id(C)));
    let (_, step) = h.resume(Reply::MessageTypes(Ok(vec![message_type()])));
    assert!(matches!(step, MessageTypeStep::Respond(Ok(MessageTypeAnswer::Collection { ref channel, ref message_types }))
        if channel.code == "sms" && message_types.len() == 1));

    let (h, step) = message_type_router::MessageTypeRouter::update(id(C), id(M), "Hi".to_string(), false);
    assert!(matches!(step, MessageTypeStep::Query(MessageTypeQuery::FindChannelMessageType { channel_id, message_type_id })
        if channel_id == id(C) && message_type_id == id(M)));
    let (_, step) = h.resume(Reply::MessageType(Ok(None)));
    assert!(matches!(step, MessageTypeStep::Respond(Err(ActixError::MessageTypeNotFound(m))) if m == id(M)));

    let (h, _) = message_type_router::MessageTypeRouter::delete(id(C), id(M));
    let (h, step) = h.resume(Reply::MessageType(Ok(Some(message_type()))));
    assert!(matches!(step, MessageTypeStep::Command(Command::DeleteMessageType { message_type_id }) if message_type_id == id(M)));
    let (_, step) = h.resume(Reply::Executed(Ok(())));
    assert!(matches!(step, MessageTypeStep::Respond(Ok(MessageTypeAnswer::Empty))));

    let (h, _) = message_type_router::MessageTypeRouter::find(id(C), id(M));
    let (_, step) = h.resume(Reply::MessageType(Ok(Some(message_type()))));
    match step {
        MessageTypeStep::Respond(Ok(a)) => {
            assert_eq!(a.status_code(), 200);
            assert!(matches!(a, MessageTypeAnswer::Single(ref m) if m.id == id(M)));
        },
        _ => panic!("expected the message type"),
    }
}

#[test]
fn retrieve_message_type_settles_a_lookup() {
    let r = message_type_router::retrieve_message_type(Ok(None), ActixError::MessageTypeNotFound(id(M)));
    assert!(matches!(r, Err(ActixError::MessageTypeNotFound(m)) if m == id(M)));
    let r = message_type_router::retrieve_message_type(Ok(Some(message_type())), ActixError::MessageTypeNotFound(id(M)));
    assert!(matches!(r, Ok(ref m) if m.code == "welcome"));
    let r = message_type_router::retrieve_message_type(Err(query_error()), ActixError::MessageTypeNotFound(id(M)));
    assert!(matches!(r, Err(ActixError::QueryBus(ref e)) if e.message == "timeout"));
    let q = message_type_router::retrieve_message_type_query(id(C), id(M));
    assert_eq!(q, MessageTypeQuery::FindChannelMessageType { channel_id: id(C), message_type_id: id(M) });
}
