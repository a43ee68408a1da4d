use perroute_backoffice::api_routes::{api_routes, business_units_scope, channels_scope, message_types_scope, nest, users_scope};
use perroute_backoffice::flows::{Body, Command, Query, Reply, Step};
use perroute_backoffice::guarded_routes::{
    check_channel, message_type_not_found_message, retrieve_message_type, GuardedHandler, GuardedMessageTypeRoutes,
    SystemChannelRoutes,
};
use perroute_backoffice::id::Id;
use perroute_backoffice::links::{ResourceLink, ResourceName};
use perroute_backoffice::rest::{
    Channel, CommandBusError, CreateChannelError, CreateChannelRequest, CreateMessageTypeRequest, MessageType,
    QueryBusError, RestError, UpdateChannelRequest, UpdateMessageTypeRequest,
};
use perroute_backoffice::routing::{back_office_route, back_office_routes, path_text, registered_route, Method, RouteName, Segment};
use perroute_backoffice::service_routes::{
    channel_api_routes, channel_code_routes, channels_routes, health_routes, message_type_routes, schema_routes,
};

const C: u128 = 0x67e5504410b1426f9247bb680e5fe0c8;
const M: u128 = 0x936da01f9abd4d9d80c702af85c822a8;
const C_TEXT: &str = "67e55044-10b1-426f-9247-bb680e5fe0c8";
const M_TEXT: &str = "936da01f-9abd-4d9d-80c7-02af85c822a8";

fn id(v: u128) -> Id {
    Id::from_u128(v)
}

fn paths<N>(routes: &[perroute_backoffice::routing::RouteEntry<N>]) -> Vec<String> {
    routes.iter().map(|e| path_text(&e.segments)).collect()
}

#[test]
fn path_text_writes_actix_paths() {
    assert_eq!(path_text(&vec![]), "");
    assert_eq!(path_text(&vec![Segment::Literal("api"), Segment::Literal("v1"), Segment::Param("id")]), "/api/v1/{id}");
}

#[test]
fn back_office_registers_each_route_once_in_order() {
    let routes = back_office_routes();
    assert_eq!(routes.len(), 16);
    let names: Vec<RouteName> = routes.iter().map(|e| e.name).collect();
    assert_eq!(names[0], RouteName::Health);
    assert_eq!(names[15], RouteName::Channel);
    for i in 0..names.len() {
        for j in (i + 1)..names.len() {
            assert_ne!(names[i], names[j]);
        }
    }
    let p = paths(&routes);
    assert_eq!(p[0], "/health");
    assert_eq!(p[1], "/api/v1/business_units");
    assert_eq!(p[2], "/api/v1/business_units/{business_unit_id}");
    assert_eq!(p[11], "/api/v1/connections/{conn_id}");
    assert_eq!(p[13], "/api/v1/plugins/{id}");
}

#[test]
fn back_office_route_handlers() {
    let r = back_office_route(RouteName::MessageType);
    assert_eq!(
        r.handlers,
        vec![
            (Method::Get, "MessageTypeRouter::find_one"),
            (Method::Put, "MessageTypeRouter::partial_update"),
            (Method::Patch, "MessageTypeRouter::partial_update"),
            (Method::Delete, "MessageTypeRouter::delete"),
        ]
    );
    let r = back_office_route(RouteName::BusinessUnit);
    assert!(r.handlers.contains(&(Method::Put, "BusinessUnitRouter::update")));
    let r = back_office_route(RouteName::Route);
    assert_eq!(r.handlers[1], (Method::Put, "RouteRouter::update_route"));
    let r = back_office_route(RouteName::Messages);
    assert_eq!(r.handlers, vec![(Method::Post, "MessageRouter::create_message")]);
}

#[test]
fn links_resolve_against_registered_routes() {
    let a = id(C);
    for link in [ResourceLink::BusinessUnit(a), ResourceLink::Template(a), ResourceLink::Routes, ResourceLink::MessageType(a)] {
        let (target, ids) = link.url_target();
        let name = registered_route(target).expect("registered");
        let route = back_office_route(name);
        let params = route.segments.iter().filter(|s| matches!(s, Segment::Param(_))).count();
        assert_eq!(params, ids.len());
    }
    assert_eq!(registered_route(ResourceName::Schemas), None);
    assert_eq!(registered_route(ResourceName::Schema), None);
}

#[test]
fn public_api_routes() {
    let routes = api_routes();
    let names: Vec<&str> = routes.iter().map(|e| e.name).collect();
    assert_eq!(
        names,
        vec![
            "bu_resources",
            "bu_resource",
            "channels_resource",
            "channel_resource",
            "message_types_resource",
            "message_type_resource",
            "users_resource",
            "user_resource",
        ]
    );
    let p = paths(&routes);
    assert_eq!(p[0], "/api/v1/business_units");
    assert_eq!(p[3], "/api/v1/business_units/{business_unit_id}/channels/{channel_id}");
    assert_eq!(p[4], "/api/v1/message_types");
    assert_eq!(p[5], "/api/v1/message_types/{message_type_id}");
    assert_eq!(p[7], "/api/v1/users/{user_id}");
    assert_eq!(routes[3].handlers[1], (Method::Put, "channels::routes::update"));
    assert_eq!(business_units_scope().len(), 4);
    assert_eq!(channels_scope().len(), 2);
    assert_eq!(message_types_scope().len(), 2);
    assert_eq!(users_scope().len(), 2);
}

#[test]
fn nesting_puts_the_prefix_first() {
    let nested = nest(&vec![Segment::Literal("x"), Segment::Param("y")], &channels_scope());
    assert_eq!(paths(&nested), vec!["/x/{y}/channels".to_string(), "/x/{y}/channels/{channel_id}".to_string()]);
    assert_eq!(nested[0].name, "channels_resource");
}

#[test]
fn channel_api_and_router_routes() {
    let routes = channel_api_routes();
    let names: Vec<&str> = routes.iter().map(|e| e.name).collect();
    assert_eq!(names, vec!["channels", "channel", "message_types", "message_type"]);
    assert_eq!(
        paths(&routes),
        vec![
            "/api/v1/channels".to_string(),
            "/api/v1/channels/{channel_id}".to_string(),
            "/api/v1/channels/{channel_id}/message_types".to_string(),
            "/api/v1/channels/{channel_id}/message_types/{message_type_id}".to_string(),
        ]
    );
    let routes = channel_code_routes();
    assert_eq!(routes[1].name, "channel");
    assert_eq!(paths(&routes)[1], "/v1/channels/{channel_code}");
    assert_eq!(paths(&health_routes()), vec!["/health".to_string()]);
    assert_eq!(paths(&channels_routes())[1], "/v1/channels/{channel_id}");
    assert_eq!(paths(&message_type_routes())[1], "/v1/channels/{channel_id}/message_types/{message_type_id}");
    let schemas = schema_routes();
    assert_eq!(paths(&schemas)[2], "/v1/channels/{channel_id}/message_types/{message_type_id}/schemas/{version}/publish");
    assert_eq!(schemas[2].handlers, vec![(Method::Post, "SchemaRouter::publish_schema")]);
}

fn channel() -> Channel {
    Channel { id: id(C), code: "sms".to_string(), name: "SMS".to_string() }
}

fn message_type() -> MessageType {
    MessageType { id: id(M), code: "welcome".to_string(), description: "Welcome".to_string(), enabled: true, channel_id: id(C) }
}

#[test]
fn guard_checks_the_channel() {
    assert!(matches!(check_channel(Ok(Some(channel())), id(C)), Ok(ref c) if c.code == "sms"));
    assert!(matches!(check_channel(Ok(None), id(C)), Err(RestError::NotFound(ref m)) if *m == format!("Channel {} not found", C_TEXT)));
    assert!(matches!(check_channel(Err(QueryBusError { message: "x".to_string() }), id(C)), Err(RestError::InternalServer)));
    assert_eq!(message_type_not_found_message(id(M)), format!("Message type {} not found", M_TEXT));
    assert!(matches!(retrieve_message_type(Ok(None), id(M)), Err(RestError::NotFound(ref m)) if *m == format!("Message type {} not found", M_TEXT)));
}

#[test]
fn guarded_creation_stops_on_a_missing_channel() {
    let body = CreateMessageTypeRequest { code: "welcome".to_string(), description: "Welcome".to_string() };
    let (h, step) = GuardedMessageTypeRoutes::create_message_type(id(C), id(M), body);
    assert!(matches!(step, Step::Query(Query::FindChannel(ref q)) if q.channel_id == id(C)));
    let (h, step) = h.resume(Reply::Channel(Ok(None)));
    assert!(matches!(h, GuardedHandler::Finished));
    assert!(matches!(step, Step::Respond(Err(RestError::NotFound(ref m))) if *m == format!("Channel {} not found", C_TEXT)));
}

#[test]
fn guarded_creation_creates_in_the_path_channel() {
    let body = CreateMessageTypeRequest { code: "welcome".to_string(), description: "Welcome".to_string() };
    let (h, _) = GuardedMessageTypeRoutes::create_message_type(id(C), id(M), body);
    let (h, step) = h.resume(Reply::Channel(Ok(Some(channel()))));
    assert!(matches!(step, Step::Command(Command::CreateMessageType { message_type_id, channel_id, .. }) if message_type_id == id(M) && channel_id == id(C)));
    let (h, step) = h.resume(Reply::Executed(Ok(())));
    assert!(matches!(step, Step::Query(Query::FindMessageType(ref q)) if q.message_type_id == id(M) && q.channel_id == Some(id(C))));
    let (_, step) = h.resume(Reply::MessageType(Ok(None)));
    assert!(matches!(step, Step::Respond(Err(RestError::NotFound(ref m))) if *m == format!("Message type {} not found", M_TEXT)));
}

#[test]
fn guarded_listing_update_delete() {
    let (h, _) = GuardedMessageTypeRoutes::query_message_types(id(C));
    let (h, step) = h.resume(Reply::Channel(Ok(Some(channel()))));
    assert!(matches!(step, Step::Query(Query::QueryMessageTypes { channel_id }) if channel_id == id(C)));
    let (_, step) = h.resume(Reply::MessageTypes(Ok(vec![message_type()])));
    assert!(matches!(step, Step::Respond(Ok(Body::MessageTypes(ref v))) if v.len() == 1));

    let (h, _) = GuardedMessageTypeRoutes::update_message_type(id(C), id(M), UpdateMessageTypeRequest { description: "Hi".to_string(), enabled: false });
    let (h, step) = h.resume(Reply::MessageType(Ok(Some(message_type()))));
    assert!(matches!(step, Step::Command(Command::UpdateMessageType { message_type_id, ref description, enabled }) if message_type_id == id(M) && description == "Hi" && !enabled));
    let (h, _) = h.resume(Reply::Executed(Ok(())));
    let (_, step) = h.resume(Reply::MessageType(Ok(Some(message_type()))));
    assert!(matches!(step, Step::Respond(Ok(Body::MessageType(ref r))) if r.id == id(M)));

    let (h, _) = GuardedMessageTypeRoutes::delete_message_type(id(C), id(M));
    let (h, step) = h.resume(Reply::MessageType(Ok(Some(message_type()))));
    assert!(matches!(step, Step::Command(Command::DeleteMessageType { message_type_id }) if message_type_id == id(M)));
    let (_, step) = h.resume(Reply::Executed(Ok(())));
    assert!(matches!(step, Step::Respond(Ok(Body::Empty))));

    let (h, _) = GuardedMessageTypeRoutes::find_message_type(id(C), id(M));
    let (_, step) = h.resume(Reply::MessageType(Err(QueryBusError { message: "x".to_string() })));
    assert!(matches!(step, Step::Respond(Err(RestError::InternalServer))));
}

#[test]
fn system_channel_routes() {
    let (h, _) = SystemChannelRoutes::create_channel(id(C), CreateChannelRequest { code: "sms".to_string(), name: "SMS".to_string() });
    let refusal = CommandBusError::CreateChannel(CreateChannelError::CodeAlreadyExists("Code sms already exists".to_string()));
    let (_, step) = h.resume(Reply::Executed(Err(refusal)));
    assert!(matches!(step, Step::Respond(Err(RestError::UnprocessableEntity(ref m))) if m == "Code sms already exists"));
    let (h, _) = SystemChannelRoutes::create_channel(id(C), CreateChannelRequest { code: "sms".to_string(), name: "SMS".to_string() });
    let (_, step) = h.resume(Reply::Executed(Err(CommandBusError::Other("bus down".to_string()))));
    assert!(matches!(step, Step::Respond(Err(RestError::UnprocessableEntity(ref m))) if m == "bus down"));
    let (h, _) = SystemChannelRoutes::create_channel(id(C), CreateChannelRequest { code: "sms".to_string(), name: "SMS".to_string() });
    let (h, _) = h.resume(Reply::Executed(Ok(())));
    let (_, step) = h.resume(Reply::Channel(Ok(None)));
    assert!(matches!(step, Step::Respond(Err(RestError::InternalServer))));

    let (h, _) = SystemChannelRoutes::find_channel(id(C));
    let (_, step) = h.resume(Reply::Channel(Ok(None)));
    assert!(matches!(step, Step::Respond(Err(RestError::NotFound(ref m))) if *m == format!("Channel {} not found", C_TEXT)));

    let (h, step) = SystemChannelRoutes::update_channel(id(C), UpdateChannelRequest { name: "Texts".to_string() });
    assert!(matches!(step, Step::Command(Command::UpdateChannel { channel_id, ref name }) if channel_id == id(C) && name == "Texts"));
    assert!(!h.accepts(&Reply::Executed(Err(CommandBusError::Other("x".to_string())))));
    let (h, step) = h.resume(Reply::Executed(Ok(())));
    assert!(matches!(step, Step::Query(Query::FindChannel(ref q)) if q.channel_id == id(C)));
    let (_, step) = h.resume(Reply::Channel(Ok(Some(channel()))));
    assert!(matches!(step, Step::Respond(Ok(Body::Channel(ref r))) if r.code == "sms"));
}

#[test]
fn command_failures_display_their_refusal() {
    assert_eq!(CommandBusError::Other("bus down".to_string()).text(), "bus down");
    let e = CommandBusError::CreateChannel(CreateChannelError::CodeAlreadyExists("Code sms already exists".to_string()));
    assert_eq!(e.text(), "Code sms already exists");
}
