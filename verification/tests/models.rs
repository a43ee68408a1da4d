use perroute_backoffice::datetime::RestDateTime;
use perroute_backoffice::exit::{report_exit, ExitOutcome, LogLevel};
use perroute_backoffice::id::Id;
use perroute_backoffice::models::{
    BusinessUnit, BusinessUnitResource, ChannelRestQuery, CreateBusinessUnitRequest, CreateChannelRequest,
    CreateConnectionRequest, CreateMessageTypeRequest, CreateRouteRequest, CreateSchemaRequest,
    CreateTemplateRequest, MessageType, MessageTypeResource, ModelError, SingleIdPath, Template, TemplateResource, TemplateSnippet,
    UpdateBusinessUnitRequest, UpdateChannelRequest, UpdateConnectionRequest, UpdateMessageTypeRequest,
    UpdateSchemaRequest, UpdateTemplateRequest,
};
use perroute_backoffice::service::DefaultRestService;
use perroute_backoffice::wrapper::W;

const A: u128 = 0x67e5504410b1426f9247bb680e5fe0c8;
const A_TEXT: &str = "67e55044-10b1-426f-9247-bb680e5fe0c8";

fn s(text: &str) -> String {
    text.to_string()
}

fn vars(items: &[(&str, &str)]) -> Vec<(String, String)> {
    items.iter().map(|(k, v)| (s(k), s(v))).collect()
}

fn missing(r: Result<String, ModelError>) -> Option<String> {
    match r {
        Err(ModelError::Missing(m)) => Some(m),
        _ => None,
    }
}

#[test]
fn business_unit_requests() {
    let req = CreateBusinessUnitRequest { code: Some(s("acme")), name: Some(s("Acme")), vars: None };
    assert!(matches!(req.name(), Ok(ref n) if n == "Acme"));
    assert!(matches!(req.vars(), Ok(ref v) if v.is_empty()));
    let req = CreateBusinessUnitRequest { code: None, name: None, vars: Some(vars(&[("a", "1")])) };
    assert_eq!(missing(req.name()), Some(s("missing name")));
    assert!(matches!(req.vars(), Ok(ref v) if *v == vars(&[("a", "1")])));

    let upd = UpdateBusinessUnitRequest { name: Some(s("New")), vars: None };
    assert_eq!(upd.name(), Some(s("New")));
    assert_eq!(upd.vars(), None);
}

#[test]
fn business_unit_resource_shows_the_id_text() {
    let bu = BusinessUnit { id: Id::from_u128(A), code: s("acme"), name: s("Acme"), vars: vars(&[("k", "v")]) };
    let r = BusinessUnitResource::from_business_unit(&bu);
    assert_eq!(r.id, A_TEXT);
    assert_eq!(r.code, "acme");
    assert_eq!(r.name, "Acme");
    assert_eq!(r.vars, vars(&[("k", "v")]));
}

#[test]
fn message_type_resource_shows_the_id_text() {
    let mt = MessageType { id: Id::from_u128(A), code: s("welcome"), name: s("Welcome"), vars: vars(&[("lang", "en")]) };
    let r = MessageTypeResource::from_message_type(&mt);
    assert_eq!(r.id, A_TEXT);
    assert_eq!(r.code, "welcome");
    assert_eq!(r.name, "Welcome");
    assert_eq!(r.vars, vars(&[("lang", "en")]));
}

#[test]
fn message_type_requests() {
    let req = CreateMessageTypeRequest { code: Some(s("welcome")), name: None, vars: None };
    assert_eq!(missing(req.name()), Some(s("Missing name")));
    let upd = UpdateMessageTypeRequest { name: Some(s("Hello")), vars: Some(vars(&[("x", "y")])) };
    assert!(matches!(upd.name(), Ok(Some(ref n)) if n == "Hello"));
    assert!(matches!(upd.vars(), Ok(Some(ref v)) if *v == vars(&[("x", "y")])));
    let upd = UpdateMessageTypeRequest { name: None, vars: None };
    assert!(matches!(upd.name(), Ok(None)));
}

#[test]
fn template_requests() {
    let req = CreateTemplateRequest { name: Some(s("t")), subject: Some(s("Hi")), html: None, text: Some(s("body")) };
    assert!(matches!(req.name(), Ok(ref n) if n == "t"));
    assert!(matches!(req.subject(), Ok(Some(ref t)) if t.text == "Hi"));
    assert!(matches!(req.html(), Ok(None)));
    assert!(matches!(req.text(), Ok(Some(ref t)) if t.text == "body"));
    let req = CreateTemplateRequest { name: None, subject: None, html: None, text: None };
    assert_eq!(missing(req.name()), Some(s("missing name")));

    let upd = UpdateTemplateRequest { name: None, subject: Some(None), html: Some(Some(s("<p/>"))), text: None };
    assert!(matches!(upd.name(), Ok(None)));
    assert!(matches!(upd.subject(), Ok(Some(None))));
    assert!(matches!(upd.html(), Ok(Some(Some(ref t))) if t.text == "<p/>"));
    assert!(matches!(upd.text(), Ok(None)));
}

#[test]
fn template_resource_shows_its_snippets() {
    let t = Template {
        id: Id::from_u128(A),
        name: s("welcome"),
        subject: Some(TemplateSnippet { text: s("Hi") }),
        html: None,
        text: Some(TemplateSnippet { text: s("Hello") }),
    };
    let r = TemplateResource::from_template(&t);
    assert_eq!(r.id, A_TEXT);
    assert_eq!(r.name, "welcome");
    assert_eq!(r.subject, Some(s("Hi")));
    assert_eq!(r.html, None);
    assert_eq!(r.text, Some(s("Hello")));
}

#[test]
fn channel_query_reads_its_business_unit() {
    let q = ChannelRestQuery { business_unit_id: None };
    assert!(matches!(q.business_unit_id(), Ok(None)));
    let q = ChannelRestQuery { business_unit_id: Some(s(A_TEXT)) };
    assert!(matches!(q.business_unit_id(), Ok(Some(id)) if id == Id::from_u128(A)));
    let q = ChannelRestQuery { business_unit_id: Some(s("nope")) };
    assert!(matches!(q.business_unit_id(), Err(ModelError::InvalidId)));
}

#[test]
fn single_id_path_reads_its_id() {
    assert!(matches!(SingleIdPath { id: s(A_TEXT) }.try_into_id(), Ok(id) if id.value == A));
    assert!(matches!(SingleIdPath { id: s("12") }.try_into_id(), Err(ModelError::InvalidId)));
}

#[test]
fn required_identifiers_of_requests() {
    let req = CreateChannelRequest { business_id: None, connection_id: Some(s("x")), dispatch_type: None, priority: None };
    assert!(matches!(req.into_business_id(), Err(ModelError::Missing(ref m)) if m == "Missing business id"));
    assert!(matches!(req.into_connection_id(), Err(ModelError::Invalid(ref m)) if m == "Invalid Id"));
    let req = CreateChannelRequest { business_id: Some(s(A_TEXT)), connection_id: None, dispatch_type: None, priority: Some(1) };
    assert!(matches!(req.into_business_id(), Ok(id) if id.value == A));
    assert!(matches!(req.into_connection_id(), Err(ModelError::Missing(ref m)) if m == "Missing connection id"));

    let route = CreateRouteRequest { channel_id: Some(s(A_TEXT)), schema_id: Some(s("bad")) };
    assert!(matches!(route.channel_id(), Ok(id) if id.value == A));
    assert!(matches!(route.schema_id(), Err(ModelError::Invalid(ref m)) if m == "invalid schema id"));
    let route = CreateRouteRequest { channel_id: None, schema_id: None };
    assert!(matches!(route.channel_id(), Err(ModelError::Missing(ref m)) if m == "missing channel id"));
    assert!(matches!(route.schema_id(), Err(ModelError::Missing(ref m)) if m == "missing schema id"));

    let schema = CreateSchemaRequest { message_type_id: None, vars: None };
    assert!(matches!(schema.message_type_id(), Err(ModelError::Missing(ref m)) if m == "missing message type id"));
    assert!(matches!(schema.vars(), Ok(ref v) if v.is_empty()));
    let schema = CreateSchemaRequest { message_type_id: Some(s("zz")), vars: Some(vars(&[("a", "b")])) };
    assert!(matches!(schema.message_type_id(), Err(ModelError::Invalid(ref m)) if m == "invalid message type id"));
    assert!(matches!(schema.vars(), Ok(ref v) if *v == vars(&[("a", "b")])));
}

#[test]
fn optional_fields_of_change_requests() {
    assert_eq!(UpdateChannelRequest { priority: None, enabled: Some(false) }.into_enabled(), Some(false));
    let c = CreateConnectionRequest { name: None, plugin_id: None };
    assert_eq!(missing(c.name()), Some(s("Missing name")));
    let c = CreateConnectionRequest { name: Some(s("smtp")), plugin_id: None };
    assert!(matches!(c.name(), Ok(ref n) if n == "smtp"));
    let u = UpdateConnectionRequest { name: Some(s("n")), enabled: None };
    assert_eq!(u.name(), Some(s("n")));
    assert_eq!(u.enabled(), None);
    let u = UpdateSchemaRequest { enabled: Some(true), vars: None };
    assert!(matches!(u.enabled(), Ok(Some(true))));
    assert_eq!(u.vars(), None);
}

#[test]
fn date_times_are_checked() {
    let d = RestDateTime::from_str("2023-06-01T12:30:05.25Z").ok().expect("a date time");
    assert_eq!((d.year, d.month, d.day, d.hour, d.minute, d.second, d.nanosecond), (2023, 6, 1, 12, 30, 5, 250_000_000));
    let d = RestDateTime::from_str("2023-06-01T12:30:00+02:00").ok().expect("a date time");
    assert_eq!((d.year, d.month, d.day, d.hour), (2023, 6, 1, 12));
    match RestDateTime::from_str("yesterday") {
        Err(m) => assert!(m.starts_with("Failed to parse datetime: ") && m.len() > "Failed to parse datetime: ".len()),
        Ok(_) => panic!("expected a failure"),
    }
    assert!(RestDateTime::validate("2023-06-01T12:30:00Z").is_ok());
    match RestDateTime::validate("2023-13-01") {
        Err(f) => {
            assert_eq!(f.code, "date time");
            assert_eq!(f.message, Some(s("Invalid date time")));
        },
        Ok(()) => panic!("expected a failed check"),
    }
}

#[test]
fn exits_are_reported() {
    let r = report_exit("API", &ExitOutcome::Completed);
    assert_eq!(r.level, LogLevel::Info);
    assert_eq!(r.message, "API has exited");
    assert_eq!(r.cause_chain, None);
    assert_eq!(r.error_message, None);

    let r = report_exit("API", &ExitOutcome::Failed { display: s("address in use"), debug: s("Os { code: 98 }") });
    assert_eq!(r.level, LogLevel::Error);
    assert_eq!(r.message, "API failed");
    assert_eq!(r.cause_chain, Some(s("Os { code: 98 }")));
    assert_eq!(r.error_message, Some(s("address in use")));

    let r = report_exit("API", &ExitOutcome::NotJoined { display: s("cancelled"), debug: s("JoinError::Cancelled") });
    assert_eq!(r.level, LogLevel::Error);
    assert_eq!(r.message, "API' task failed to complete");
    assert_eq!(r.error_message, Some(s("cancelled")));
}

#[test]
fn wrapper_gives_back_its_value() {
    let w = W(5u32);
    assert_eq!(*w.as_ref(), 5);
    assert_eq!(*w, 5);
    assert_eq!(w.into_inner(), 5);
}

#[test]
fn service_is_built_over_a_bus() {
    let _service = DefaultRestService::new(3u8);
}
