use vstd::prelude::*;
use crate::links::{ResourceLink, ResourceName, spec_target_name, spec_target_ids};

verus! {

/// An HTTP method that a route answers.
#[derive(Clone, Copy, PartialEq, Eq, Structural, Debug)]
pub enum Method {
    Get,
    Post,
    Put,
    Patch,
    Delete,
}

/// A segment of a route's path: fixed text, or a parameter by its name.
#[derive(Clone, Copy, Debug)]
pub enum Segment {
    Literal(&'static str),
    Param(&'static str),
}

/// The abstract value of a `Segment`.
pub enum SegmentView {
    Literal(Seq<char>),
    Param(Seq<char>),
}

pub open spec fn segment_view(s: Segment) -> SegmentView {
    match s {
        Segment::Literal(t) => SegmentView::Literal(t@),
        Segment::Param(t) => SegmentView::Param(t@),
    }
}

pub open spec fn segments_view(v: Seq<Segment>) -> Seq<SegmentView> {
    v.map_values(|s: Segment| segment_view(s))
}

pub open spec fn handlers_view(v: Seq<(Method, &'static str)>) -> Seq<(Method, Seq<char>)> {
    v.map_values(|h: (Method, &'static str)| (h.0, h.1@))
}

/// A registered route: the name it is registered under, its path, and the
/// handler of each method it answers, by the handler's name.
pub struct RouteEntry<N> {
    pub name: N,
    pub segments: Vec<Segment>,
    pub handlers: Vec<(Method, &'static str)>,
}

/// The text of a path as actix writes it: each segment after a slash, a
/// parameter in braces.
pub open spec fn spec_path_text(segments: Seq<SegmentView>) -> Seq<char>
    decreases segments.len(),
{
    if segments.len() == 0 {
        Seq::empty()
    } else {
        spec_path_text(segments.drop_last()) + match segments.last() {
            SegmentView::Literal(t) => "/"@ + t,
            SegmentView::Param(n) => "/{"@ + n + "}"@,
        }
    }
}

/// The text of a path as actix writes it.
pub fn path_text(segments: &Vec<Segment>) -> (r: String)
    ensures
        r@ == spec_path_text(segments_view(segments@)),
{
    let mut out = String::new();
    let mut i: usize = 0;
    while i < segments.len()
        invariant
            i <= segments@.len(),
            out@ == spec_path_text(segments_view(segments@.subrange(0, i as int))),
        decreases segments@.len() - i,
    {
        let ghost before = segments_view(segments@.subrange(0, i as int));
        match segments[i] {
            Segment::Literal(t) => {
                out = out.concat("/");
                out = out.concat(t);
            },
            Segment::Param(n) => {
                out = out.concat("/{");
                out = out.concat(n);
                out = out.concat("}");
            },
        }
        proof {
            let after = segments_view(segments@.subrange(0, i + 1));
            assert(segments@.subrange(0, i + 1) =~= segments@.subrange(0, i as int).push(segments@[i as int]));
            assert(after =~= before.push(segment_view(segments@[i as int])));
            assert(after.drop_last() =~= before);
        }
        i = i + 1;
    }
    proof {
        assert(segments@.subrange(0, segments@.len() as int) =~= segments@);
    }
    out
}

/// The number of parameters in a path.
pub open spec fn param_count(segments: Seq<SegmentView>) -> nat
    decreases segments.len(),
{
    if segments.len() == 0 {
        0
    } else {
        param_count(segments.drop_last()) + (if segments.last() is Param { 1nat } else { 0nat })
    }
}

pub open spec fn lit(t: &'static str) -> SegmentView {
    SegmentView::Literal(t@)
}

pub open spec fn par(t: &'static str) -> SegmentView {
    SegmentView::Param(t@)
}

pub open spec fn handler(m: Method, t: &'static str) -> (Method, Seq<char>) {
    (m, t@)
}

/// The routes of the back office, by the name they are registered under.
#[derive(Clone, Copy, PartialEq, Eq, Structural, Debug)]
pub enum RouteName {
    Health,
    BusinessUnits,
    BusinessUnit,
    MessageTypes,
    MessageType,
    Messages,
    Templates,
    Template,
    Routes,
    Route,
    Connections,
    Connection,
    Plugins,
    Plugin,
    Channels,
    Channel,
}

/// The back office's routes in the order they are registered.
pub open spec fn spec_back_office_order() -> Seq<RouteName> {
    seq![
        RouteName::Health,
        RouteName::BusinessUnits,
        RouteName::BusinessUnit,
        RouteName::MessageTypes,
        RouteName::MessageType,
        RouteName::Messages,
        RouteName::Templates,
        RouteName::Template,
        RouteName::Routes,
        RouteName::Route,
        RouteName::Connections,
        RouteName::Connection,
        RouteName::Plugins,
        RouteName::Plugin,
        RouteName::Channels,
        RouteName::Channel,
    ]
}

/// The path of a back office route: the health check at the root, every
/// other route under `/api/v1`, a collection at its name and one item of it
/// under the item's identifier.
pub open spec fn spec_back_office_path(name: RouteName) -> Seq<SegmentView> {
    match name {
        RouteName::Health => seq![lit("health")],
        RouteName::BusinessUnits => seq![lit("api"), lit("v1"), lit("business_units")],
        RouteName::BusinessUnit => seq![lit("api"), lit("v1"), lit("business_units"), par("business_unit_id")],
        RouteName::MessageTypes => seq![lit("api"), lit("v1"), lit("message_types")],
        RouteName::MessageType => seq![lit("api"), lit("v1"), lit("message_types"), par("message_type_id")],
        RouteName::Messages => seq![lit("api"), lit("v1"), lit("messages")],
        RouteName::Templates => seq![lit("api"), lit("v1"), lit("templates")],
        RouteName::Template => seq![lit("api"), lit("v1"), lit("templates"), par("template_id")],
        RouteName::Routes => seq![lit("api"), lit("v1"), lit("routes")],
        RouteName::Route => seq![lit("api"), lit("v1"), lit("routes"), par("route_id")],
        RouteName::Connections => seq![lit("api"), lit("v1"), lit("connections")],
        RouteName::Connection => seq![lit("api"), lit("v1"), lit("connections"), par("conn_id")],
        RouteName::Plugins => seq![lit("api"), lit("v1"), lit("plugins")],
        RouteName::Plugin => seq![lit("api"), lit("v1"), lit("plugins"), par("id")],
        RouteName::Channels => seq![lit("api"), lit("v1"), lit("channels")],
        RouteName::Channel => seq![lit("api"), lit("v1"), lit("channels"), par("channel_id")],
    }
}

/// The handlers of a back office route, by method.
pub open spec fn spec_back_office_handlers(name: RouteName) -> Seq<(Method, Seq<char>)> {
    match name {
        RouteName::Health => seq![handler(Method::Get, "HealthRouter::health")],
        RouteName::BusinessUnits => seq![
            handler(Method::Get, "BusinessUnitRouter::query"),
            handler(Method::Post, "BusinessUnitRouter::create"),
        ],
        RouteName::BusinessUnit => seq![
            handler(Method::Get, "BusinessUnitRouter::get"),
            handler(Method::Put, "BusinessUnitRouter::update"),
            handler(Method::Patch, "BusinessUnitRouter::update"),
            handler(Method::Delete, "BusinessUnitRouter::delete"),
        ],
        RouteName::MessageTypes => seq![
            handler(Method::Get, "MessageTypeRouter::query"),
            handler(Method::Post, "MessageTypeRouter::create"),
        ],
        RouteName::MessageType => seq![
            handler(Method::Get, "MessageTypeRouter::find_one"),
            handler(Method::Put, "MessageTypeRouter::partial_update"),
            handler(Method::Patch, "MessageTypeRouter::partial_update"),
            handler(Method::Delete, "MessageTypeRouter::delete"),
        ],
        RouteName::Messages => seq![handler(Method::Post, "MessageRouter::create_message")],
        RouteName::Templates => seq![
            handler(Method::Get, "TemplateRouter::query_templates"),
            handler(Method::Post, "TemplateRouter::create_template"),
        ],
        RouteName::Template => seq![
            handler(Method::Get, "TemplateRouter::find_template"),
            handler(Method::Patch, "TemplateRouter::update_template"),
            handler(Method::Delete, "TemplateRouter::delete_template"),
        ],
        RouteName::Routes => seq![
            handler(Method::Get, "RouteRouter::query_routes"),
            handler(Method::Post, "RouteRouter::create_route"),
        ],
        RouteName::Route => seq![
            handler(Method::Get, "RouteRouter::find_route"),
            handler(Method::Put, "RouteRouter::update_route"),
            handler(Method::Delete, "RouteRouter::delete_route"),
        ],
        RouteName::Connections => seq![
            handler(Method::Get, "ConnectionsRouter::query"),
            handler(Method::Post, "ConnectionsRouter::create"),
        ],
        RouteName::Connection => seq![
            handler(Method::Get, "ConnectionsRouter::get"),
            handler(Method::Patch, "ConnectionsRouter::update"),
            handler(Method::Delete, "ConnectionsRouter::delete"),
        ],
        RouteName::Plugins => seq![handler(Method::Get, "PluginRouter::query")],
        RouteName::Plugin => seq![handler(Method::Get, "PluginRouter::find")],
        RouteName::Channels => seq![
            handler(Method::Get, "ChannelsRouter::query"),
            handler(Method::Post, "ChannelsRouter::create"),
        ],
        RouteName::Channel => seq![
            handler(Method::Get, "ChannelsRouter::get"),
            handler(Method::Patch, "ChannelsRouter::update"),
            handler(Method::Delete, "ChannelsRouter::delete"),
        ],
    }
}

/// The router whose functions serve a back office route.
pub open spec fn router_of(name: RouteName) -> Seq<char> {
    match name {
        RouteName::Health => "HealthRouter"@,
        RouteName::BusinessUnits => "BusinessUnitRouter"@,
        RouteName::BusinessUnit => "BusinessUnitRouter"@,
        RouteName::MessageTypes => "MessageTypeRouter"@,
        RouteName::MessageType => "MessageTypeRouter"@,
        RouteName::Messages => "MessageRouter"@,
        RouteName::Templates => "TemplateRouter"@,
        RouteName::Template => "TemplateRouter"@,
        RouteName::Routes => "RouteRouter"@,
        RouteName::Route => "RouteRouter"@,
        RouteName::Connections => "ConnectionsRouter"@,
        RouteName::Connection => "ConnectionsRouter"@,
        RouteName::Plugins => "PluginRouter"@,
        RouteName::Plugin => "PluginRouter"@,
        RouteName::Channels => "ChannelsRouter"@,
        RouteName::Channel => "ChannelsRouter"@,
    }
}

/// Whether a route is one item of a collection, named by its identifier.
pub open spec fn is_item(name: RouteName) -> bool {
    match name {
        RouteName::BusinessUnit | RouteName::MessageType | RouteName::Template | RouteName::Route
        | RouteName::Connection | RouteName::Plugin | RouteName::Channel => true,
        _ => false,
    }
}

/// The functions that may serve a method: on a collection, `GET` lists (or
/// checks health) and `POST` creates; on an item, `GET` reads, `PUT` and
/// `PATCH` update and `DELETE` deletes.
pub open spec fn fits_method(m: Method, item: bool, f: Seq<char>) -> bool {
    match m {
        Method::Get => if item {
            f == "get"@ || f == "find"@ || f == "find_one"@ || f == "find_template"@ || f == "find_route"@
        } else {
            f == "query"@ || f == "query_templates"@ || f == "query_routes"@ || f == "health"@
        },
        Method::Post => !item && (f == "create"@ || f == "create_message"@ || f == "create_template"@ || f == "create_route"@),
        Method::Put | Method::Patch => item && (f == "update"@ || f == "partial_update"@ || f == "update_template"@ || f == "update_route"@),
        Method::Delete => item && (f == "delete"@ || f == "delete_template"@ || f == "delete_route"@),
    }
}

/// Every method of a back office route is served by a function of the
/// route's own router that does what the method asks (a `DELETE` by a
/// delete function, an item's `GET` by a read, and so on); no method is
/// bound twice; and the items are exactly the routes whose path ends with
/// an identifier.
pub proof fn lemma_handlers_fit_their_methods(name: RouteName)
    ensures
        forall|j: int| #![trigger spec_back_office_handlers(name)[j]] 0 <= j < spec_back_office_handlers(name).len() ==>
            exists|f: Seq<char>| #[trigger] fits_method(spec_back_office_handlers(name)[j].0, is_item(name), f)
                && spec_back_office_handlers(name)[j].1 == router_of(name) + "::"@ + f,
        forall|j: int, k: int| 0 <= j < k < spec_back_office_handlers(name).len() ==>
            spec_back_office_handlers(name)[j].0 != spec_back_office_handlers(name)[k].0,
        is_item(name) <==> spec_back_office_path(name).last() is Param,
{
    reveal_strlit("::");
    let h = spec_back_office_handlers(name);
    match name {
        RouteName::Health => {
            reveal_strlit("HealthRouter");
            reveal_strlit("HealthRouter::health");
            reveal_strlit("health");
            assert(h[0].1 =~= "HealthRouter"@ + "::"@ + "health"@);
            assert(fits_method(h[0].0, is_item(name), "health"@));
        },
        RouteName::BusinessUnits => {
            reveal_strlit("BusinessUnitRouter");
            reveal_strlit("BusinessUnitRouter::query");
            reveal_strlit("query");
            assert(h[0].1 =~= "BusinessUnitRouter"@ + "::"@ + "query"@);
            assert(fits_method(h[0].0, is_item(name), "query"@));
            reveal_strlit("BusinessUnitRouter::create");
            reveal_strlit("create");
            assert(h[1].1 =~= "BusinessUnitRouter"@ + "::"@ + "create"@);
            assert(fits_method(h[1].0, is_item(name), "create"@));
        },
        RouteName::BusinessUnit => {
            reveal_strlit("BusinessUnitRouter");
            reveal_strlit("BusinessUnitRouter::get");
            reveal_strlit("get");
            assert(h[0].1 =~= "BusinessUnitRouter"@ + "::"@ + "get"@);
            assert(fits_method(h[0].0, is_item(name), "get"@));
            reveal_strlit("BusinessUnitRouter::update");
            reveal_strlit("update");
            assert(h[1].1 =~= "BusinessUnitRouter"@ + "::"@ + "update"@);
            assert(fits_method(h[1].0, is_item(name), "update"@));
            reveal_strlit("BusinessUnitRouter::update");
            reveal_strlit("update");
            assert(h[2].1 =~= "BusinessUnitRouter"@ + "::"@ + "update"@);
            assert(fits_method(h[2].0, is_item(name), "update"@));
            reveal_strlit("BusinessUnitRouter::delete");
            reveal_strlit("delete");
            assert(h[3].1 =~= "BusinessUnitRouter"@ + "::"@ + "delete"@);
            assert(fits_method(h[3].0, is_item(name), "delete"@));
        },
        RouteName::MessageTypes => {
            reveal_strlit("MessageTypeRouter");
            reveal_strlit("MessageTypeRouter::query");
            reveal_strlit("query");
            assert(h[0].1 =~= "MessageTypeRouter"@ + "::"@ + "query"@);
            assert(fits_method(h[0].0, is_item(name), "query"@));
            reveal_strlit("MessageTypeRouter::create");
            reveal_strlit("create");
            assert(h[1].1 =~= "MessageTypeRouter"@ + "::"@ + "create"@);
            assert(fits_method(h[1].0, is_item(name), "create"@));
        },
        RouteName::MessageType => {
            reveal_strlit("MessageTypeRouter");
            reveal_strlit("MessageTypeRouter::find_one");
            reveal_strlit("find_one");
            assert(h[0].1 =~= "MessageTypeRouter"@ + "::"@ + "find_one"@);
            assert(fits_method(h[0].0, is_item(name), "find_one"@));
            reveal_strlit("MessageTypeRouter::partial_update");
            reveal_strlit("partial_update");
            assert(h[1].1 =~= "MessageTypeRouter"@ + "::"@ + "partial_update"@);
            assert(fits_method(h[1].0, is_item(name), "partial_update"@));
            reveal_strlit("MessageTypeRouter::partial_update");
            reveal_strlit("partial_update");
            assert(h[2].1 =~= "MessageTypeRouter"@ + "::"@ + "partial_update"@);
            assert(fits_method(h[2].0, is_item(name), "partial_update"@));
            reveal_strlit("MessageTypeRouter::delete");
            reveal_strlit("delete");
            assert(h[3].1 =~= "MessageTypeRouter"@ + "::"@ + "delete"@);
            assert(fits_method(h[3].0, is_item(name), "delete"@));
        },
        RouteName::Messages => {
            reveal_strlit("MessageRouter");
            reveal_strlit("MessageRouter::create_message");
            reveal_strlit("create_message");
            assert(h[0].1 =~= "MessageRouter"@ + "::"@ + "create_message"@);
            assert(fits_method(h[0].0, is_item(name), "create_message"@));
        },
        RouteName::Templates => {
            reveal_strlit("TemplateRouter");
            reveal_strlit("TemplateRouter::query_templates");
            reveal_strlit("query_templates");
            assert(h[0].1 =~= "TemplateRouter"@ + "::"@ + "query_templates"@);
            assert(fits_method(h[0].0, is_item(name), "query_templates"@));
            reveal_strlit("TemplateRouter::create_template");
            reveal_strlit("create_template");
            assert(h[1].1 =~= "TemplateRouter"@ + "::"@ + "create_template"@);
            assert(fits_method(h[1].0, is_item(name), "create_template"@));
        },
        RouteName::Template => {
            reveal_strlit("TemplateRouter");
            reveal_strlit("TemplateRouter::find_template");
            reveal_strlit("find_template");
            assert(h[0].1 =~= "TemplateRouter"@ + "::"@ + "find_template"@);
            assert(fits_method(h[0].0, is_item(name), "find_template"@));
            reveal_strlit("TemplateRouter::update_template");
            reveal_strlit("update_template");
            assert(h[1].1 =~= "TemplateRouter"@ + "::"@ + "update_template"@);
            assert(fits_method(h[1].0, is_item(name), "update_template"@));
            reveal_strlit("TemplateRouter::delete_template");
            reveal_strlit("delete_template");
            assert(h[2].1 =~= "TemplateRouter"@ + "::"@ + "delete_template"@);
            assert(fits_method(h[2].0, is_item(name), "delete_template"@));
        },
        RouteName::Routes => {
            reveal_strlit("RouteRouter");
            reveal_strlit("RouteRouter::query_routes");
            reveal_strlit("query_routes");
            assert(h[0].1 =~= "RouteRouter"@ + "::"@ + "query_routes"@);
            assert(fits_method(h[0].0, is_item(name), "query_routes"@));
            reveal_strlit("RouteRouter::create_route");
            reveal_strlit("create_route");
            assert(h[1].1 =~= "RouteRouter"@ + "::"@ + "create_route"@);
            assert(fits_method(h[1].0, is_item(name), "create_route"@));
        },
        RouteName::Route => {
            reveal_strlit("RouteRouter");
            reveal_strlit("RouteRouter::find_route");
            reveal_strlit("find_route");
            assert(h[0].1 =~= "RouteRouter"@ + "::"@ + "find_route"@);
            assert(fits_method(h[0].0, is_item(name), "find_route"@));
            reveal_strlit("RouteRouter::update_route");
            reveal_strlit("update_route");
            assert(h[1].1 =~= "RouteRouter"@ + "::"@ + "update_route"@);
            assert(fits_method(h[1].0, is_item(name), "update_route"@));
            reveal_strlit("RouteRouter::delete_route");
            reveal_strlit("delete_route");
            assert(h[2].1 =~= "RouteRouter"@ + "::"@ + "delete_route"@);
            assert(fits_method(h[2].0, is_item(name), "delete_route"@));
        },
        RouteName::Connections => {
            reveal_strlit("ConnectionsRouter");
            reveal_strlit("ConnectionsRouter::query");
            reveal_strlit("query");
            assert(h[0].1 =~= "ConnectionsRouter"@ + "::"@ + "query"@);
            assert(fits_method(h[0].0, is_item(name), "query"@));
            reveal_strlit("ConnectionsRouter::create");
            reveal_strlit("create");
            assert(h[1].1 =~= "ConnectionsRouter"@ + "::"@ + "create"@);
            assert(fits_method(h[1].0, is_item(name), "create"@));
        },
        RouteName::Connection => {
            reveal_strlit("ConnectionsRouter");
            reveal_strlit("ConnectionsRouter::get");
            reveal_strlit("get");
            assert(h[0].1 =~= "ConnectionsRouter"@ + "::"@ + "get"@);
            assert(fits_method(h[0].0, is_item(name), "get"@));
            reveal_strlit("ConnectionsRouter::update");
            reveal_strlit("update");
            assert(h[1].1 =~= "ConnectionsRouter"@ + "::"@ + "update"@);
            assert(fits_method(h[1].0, is_item(name), "update"@));
            reveal_strlit("ConnectionsRouter::delete");
            reveal_strlit("delete");
            assert(h[2].1 =~= "ConnectionsRouter"@ + "::"@ + "delete"@);
            assert(fits_method(h[2].0, is_item(name), "delete"@));
        },
        RouteName::Plugins => {
            reveal_strlit("PluginRouter");
            reveal_strlit("PluginRouter::query");
            reveal_strlit("query");
            assert(h[0].1 =~= "PluginRouter"@ + "::"@ + "query"@);
            assert(fits_method(h[0].0, is_item(name), "query"@));
        },
        RouteName::Plugin => {
            reveal_strlit("PluginRouter");
            reveal_strlit("PluginRouter::find");
            reveal_strlit("find");
            assert(h[0].1 =~= "PluginRouter"@ + "::"@ + "find"@);
            assert(fits_method(h[0].0, is_item(name), "find"@));
        },
        RouteName::Channels => {
            reveal_strlit("ChannelsRouter");
            reveal_strlit("ChannelsRouter::query");
            reveal_strlit("query");
            assert(h[0].1 =~= "ChannelsRouter"@ + "::"@ + "query"@);
            assert(fits_method(h[0].0, is_item(name), "query"@));
            reveal_strlit("ChannelsRouter::create");
            reveal_strlit("create");
            assert(h[1].1 =~= "ChannelsRouter"@ + "::"@ + "create"@);
            assert(fits_method(h[1].0, is_item(name), "create"@));
        },
        RouteName::Channel => {
            reveal_strlit("ChannelsRouter");
            reveal_strlit("ChannelsRouter::get");
            reveal_strlit("get");
            assert(h[0].1 =~= "ChannelsRouter"@ + "::"@ + "get"@);
            assert(fits_method(h[0].0, is_item(name), "get"@));
            reveal_strlit("ChannelsRouter::update");
            reveal_strlit("update");
            assert(h[1].1 =~= "ChannelsRouter"@ + "::"@ + "update"@);
            assert(fits_method(h[1].0, is_item(name), "update"@));
            reveal_strlit("ChannelsRouter::delete");
            reveal_strlit("delete");
            assert(h[2].1 =~= "ChannelsRouter"@ + "::"@ + "delete"@);
            assert(fits_method(h[2].0, is_item(name), "delete"@));
        },
    }
}

/// Whether an entry is the back office route that it names.
pub open spec fn is_back_office_route(e: RouteEntry<RouteName>) -> bool {
    &&& segments_view(e.segments@) == spec_back_office_path(e.name)
    &&& handlers_view(e.handlers@) == spec_back_office_handlers(e.name)
}

fn entry(name: RouteName, segments: Vec<Segment>, handlers: Vec<(Method, &'static str)>) -> (r: RouteEntry<RouteName>)
    ensures
        r.name == name,
        r.segments == segments,
        r.handlers == handlers,
{
    RouteEntry { name, segments, handlers }
}

/// The back office route registered under the name.
pub fn back_office_route(name: RouteName) -> (r: RouteEntry<RouteName>)
    ensures
        r.name == name,
        is_back_office_route(r),
{
    let r = match name {
        RouteName::Health => entry(name, vec![Segment::Literal("health")], vec![(Method::Get, "HealthRouter::health")]),
        RouteName::BusinessUnits => entry(
            name,
            vec![Segment::Literal("api"), Segment::Literal("v1"), Segment::Literal("business_units")],
            vec![(Method::Get, "BusinessUnitRouter::query"), (Method::Post, "BusinessUnitRouter::create")],
        ),
        RouteName::BusinessUnit => entry(
            name,
            vec![Segment::Literal("api"), Segment::Literal("v1"), Segment::Literal("business_units"), Segment::Param("business_unit_id")],
            vec![
                (Method::Get, "BusinessUnitRouter::get"),
                (Method::Put, "BusinessUnitRouter::update"),
                (Method::Patch, "BusinessUnitRouter::update"),
                (Method::Delete, "BusinessUnitRouter::delete"),
            ],
        ),
        RouteName::MessageTypes => entry(
            name,
            vec![Segment::Literal("api"), Segment::Literal("v1"), Segment::Literal("message_types")],
            vec![(Method::Get, "MessageTypeRouter::query"), (Method::Post, "MessageTypeRouter::create")],
        ),
        RouteName::MessageType => entry(
            name,
            vec![Segment::Literal("api"), Segment::Literal("v1"), Segment::Literal("message_types"), Segment::Param("message_type_id")],
            vec![
                (Method::Get, "MessageTypeRouter::find_one"),
                (Method::Put, "MessageTypeRouter::partial_update"),
                (Method::Patch, "MessageTypeRouter::partial_update"),
                (Method::Delete, "MessageTypeRouter::delete"),
            ],
        ),
        RouteName::Messages => entry(
            name,
            vec![Segment::Literal("api"), Segment::Literal("v1"), Segment::Literal("messages")],
            vec![(Method::Post, "MessageRouter::create_message")],
        ),
        RouteName::Templates => entry(
            name,
            vec![Segment::Literal("api"), Segment::Literal("v1"), Segment::Literal("templates")],
            vec![(Method::Get, "TemplateRouter::query_templates"), (Method::Post, "TemplateRouter::create_template")],
        ),
        RouteName::Template => entry(
            name,
            vec![Segment::Literal("api"), Segment::Literal("v1"), Segment::Literal("templates"), Segment::Param("template_id")],
            vec![
                (Method::Get, "TemplateRouter::find_template"),
                (Method::Patch, "TemplateRouter::update_template"),
                (Method::Delete, "TemplateRouter::delete_template"),
            ],
        ),
        RouteName::Routes => entry(
            name,
            vec![Segment::Literal("api"), Segment::Literal("v1"), Segment::Literal("routes")],
            vec![(Method::Get, "RouteRouter::query_routes"), (Method::Post, "RouteRouter::create_route")],
        ),
        RouteName::Route => entry(
            name,
            vec![Segment::Literal("api"), Segment::Literal("v1"), Segment::Literal("routes"), Segment::Param("route_id")],
            vec![
                (Method::Get, "RouteRouter::find_route"),
                (Method::Put, "RouteRouter::update_route"),
                (Method::Delete, "RouteRouter::delete_route"),
            ],
        ),
        RouteName::Connections => entry(
            name,
            vec![Segment::Literal("api"), Segment::Literal("v1"), Segment::Literal("connections")],
            vec![(Method::Get, "ConnectionsRouter::query"), (Method::Post, "ConnectionsRouter::create")],
        ),
        RouteName::Connection => entry(
            name,
            vec![Segment::Literal("api"), Segment::Literal("v1"), Segment::Literal("connections"), Segment::Param("conn_id")],
            vec![
                (Method::Get, "ConnectionsRouter::get"),
                (Method::Patch, "ConnectionsRouter::update"),
                (Method::Delete, "ConnectionsRouter::delete"),
            ],
        ),
        RouteName::Plugins => entry(
            name,
            vec![Segment::Literal("api"), Segment::Literal("v1"), Segment::Literal("plugins")],
            vec![(Method::Get, "PluginRouter::query")],
        ),
        RouteName::Plugin => entry(
            name,
            vec![Segment::Literal("api"), Segment::Literal("v1"), Segment::Literal("plugins"), Segment::Param("id")],
            vec![(Method::Get, "PluginRouter::find")],
        ),
        RouteName::Channels => entry(
            name,
            vec![Segment::Literal("api"), Segment::Literal("v1"), Segment::Literal("channels")],
            vec![(Method::Get, "ChannelsRouter::query"), (Method::Post, "ChannelsRouter::create")],
        ),
        RouteName::Channel => entry(
            name,
            vec![Segment::Literal("api"), Segment::Literal("v1"), Segment::Literal("channels"), Segment::Param("channel_id")],
            vec![
                (Method::Get, "ChannelsRouter::get"),
                (Method::Patch, "ChannelsRouter::update"),
                (Method::Delete, "ChannelsRouter::delete"),
            ],
        ),
    };
    proof {
        assert(segments_view(r.segments@) =~= spec_back_office_path(name));
        assert(handlers_view(r.handlers@) =~= spec_back_office_handlers(name));
    }
    r
}

/// The routes of the back office, in the order they are registered: the
/// health check, then business units, message types, messages, templates,
/// routes, connections, plugins and channels, each collection before its
/// items.
pub fn back_office_routes() -> (r: Vec<RouteEntry<RouteName>>)
    ensures
        r@.len() == spec_back_office_order().len(),
        forall|i: int| 0 <= i < r@.len() ==> #[trigger] r@[i].name == spec_back_office_order()[i],
        forall|i: int| 0 <= i < r@.len() ==> is_back_office_route(#[trigger] r@[i]),
{
    let order: [RouteName; 16] = [
        RouteName::Health,
        RouteName::BusinessUnits,
        RouteName::BusinessUnit,
        RouteName::MessageTypes,
        RouteName::MessageType,
        RouteName::Messages,
        RouteName::Templates,
        RouteName::Template,
        RouteName::Routes,
        RouteName::Route,
        RouteName::Connections,
        RouteName::Connection,
        RouteName::Plugins,
        RouteName::Plugin,
        RouteName::Channels,
        RouteName::Channel,
    ];
    proof {
        assert(order@ =~= spec_back_office_order());
    }
    let mut r: Vec<RouteEntry<RouteName>> = Vec::new();
    let mut i: usize = 0;
    while i < 16
        invariant
            order@ == spec_back_office_order(),
            i <= 16,
            r@.len() == i,
            forall|j: int| 0 <= j < i ==> #[trigger] r@[j].name == spec_back_office_order()[j],
            forall|j: int| 0 <= j < i ==> is_back_office_route(#[trigger] r@[j]),
        decreases 16 - i,
    {
        r.push(back_office_route(order[i]));
        i = i + 1;
    }
    r
}

/// The back office route that a link resolves against, where one is
/// registered: the schema routes that links name are not.
pub open spec fn spec_registered_route(target: ResourceName) -> Option<RouteName> {
    match target {
        ResourceName::BusinessUnits => Some(RouteName::BusinessUnits),
        ResourceName::BusinessUnit => Some(RouteName::BusinessUnit),
        ResourceName::MessageTypes => Some(RouteName::MessageTypes),
        ResourceName::MessageType => Some(RouteName::MessageType),
        ResourceName::Templates => Some(RouteName::Templates),
        ResourceName::Template => Some(RouteName::Template),
        ResourceName::Routes => Some(RouteName::Routes),
        ResourceName::Route => Some(RouteName::Route),
        ResourceName::Schemas => None,
        ResourceName::Schema => None,
    }
}

/// The back office route that a link's target resolves against, if one is
/// registered.
pub fn registered_route(target: ResourceName) -> (r: Option<RouteName>)
    ensures
        r == spec_registered_route(target),
{
    match target {
        ResourceName::BusinessUnits => Some(RouteName::BusinessUnits),
        ResourceName::BusinessUnit => Some(RouteName::BusinessUnit),
        ResourceName::MessageTypes => Some(RouteName::MessageTypes),
        ResourceName::MessageType => Some(RouteName::MessageType),
        ResourceName::Templates => Some(RouteName::Templates),
        ResourceName::Template => Some(RouteName::Template),
        ResourceName::Routes => Some(RouteName::Routes),
        ResourceName::Route => Some(RouteName::Route),
        ResourceName::Schemas => None,
        ResourceName::Schema => None,
    }
}

/// Every link of the back office, but those to schemas, resolves: its
/// target is registered exactly once, under a path with one parameter for
/// each identifier that the link supplies.
pub proof fn lemma_links_resolve(link: ResourceLink)
    requires
        !(link is Schemas),
        !(link is Schema),
    ensures
        spec_registered_route(spec_target_name(link)) matches Some(name) && {
            &&& spec_back_office_order().contains(name)
            &&& forall|i: int, j: int| 0 <= i < j < spec_back_office_order().len()
                ==> spec_back_office_order()[i] != spec_back_office_order()[j]
            &&& param_count(spec_back_office_path(name)) == spec_target_ids(link).len()
        },
{
    reveal_with_fuel(param_count, 5);
    let name = spec_registered_route(spec_target_name(link))->0;
    let order = spec_back_office_order();
    assert(order[1] == RouteName::BusinessUnits);
    assert(order[2] == RouteName::BusinessUnit);
    assert(order[3] == RouteName::MessageTypes);
    assert(order[4] == RouteName::MessageType);
    assert(order[6] == RouteName::Templates);
    assert(order[7] == RouteName::Template);
    assert(order[8] == RouteName::Routes);
    assert(order[9] == RouteName::Route);
}

/// The back office serves its health check at `/health`, every collection
/// at `/api/v1/` followed by the collection's name, and every item of a
/// collection at the collection's path followed by the item's identifier
/// parameter in braces.
pub proof fn lemma_back_office_paths()
    ensures
        spec_path_text(spec_back_office_path(RouteName::Health)) == "/health"@,
        spec_path_text(spec_back_office_path(RouteName::BusinessUnits)) == "/api/v1/business_units"@,
        spec_path_text(spec_back_office_path(RouteName::BusinessUnit)) == "/api/v1/business_units/{business_unit_id}"@,
        spec_path_text(spec_back_office_path(RouteName::MessageTypes)) == "/api/v1/message_types"@,
        spec_path_text(spec_back_office_path(RouteName::MessageType)) == "/api/v1/message_types/{message_type_id}"@,
        spec_path_text(spec_back_office_path(RouteName::Messages)) == "/api/v1/messages"@,
        spec_path_text(spec_back_office_path(RouteName::Templates)) == "/api/v1/templates"@,
        spec_path_text(spec_back_office_path(RouteName::Template)) == "/api/v1/templates/{template_id}"@,
        spec_path_text(spec_back_office_path(RouteName::Routes)) == "/api/v1/routes"@,
        spec_path_text(spec_back_office_path(RouteName::Route)) == "/api/v1/routes/{route_id}"@,
        spec_path_text(spec_back_office_path(RouteName::Connections)) == "/api/v1/connections"@,
        spec_path_text(spec_back_office_path(RouteName::Connection)) == "/api/v1/connections/{conn_id}"@,
        spec_path_text(spec_back_office_path(RouteName::Plugins)) == "/api/v1/plugins"@,
        spec_path_text(spec_back_office_path(RouteName::Plugin)) == "/api/v1/plugins/{id}"@,
        spec_path_text(spec_back_office_path(RouteName::Channels)) == "/api/v1/channels"@,
        spec_path_text(spec_back_office_path(RouteName::Channel)) == "/api/v1/channels/{channel_id}"@,
{
    reveal_strlit("/");
    reveal_strlit("/{");
    reveal_strlit("}");
    reveal_strlit("api");
    reveal_strlit("business_unit_id");
    reveal_strlit("business_units");
    reveal_strlit("channel_id");
    reveal_strlit("channels");
    reveal_strlit("conn_id");
    reveal_strlit("connections");
    reveal_strlit("health");
    reveal_strlit("id");
    reveal_strlit("message_type_id");
    reveal_strlit("message_types");
    reveal_strlit("messages");
    reveal_strlit("plugins");
    reveal_strlit("route_id");
    reveal_strlit("routes");
    reveal_strlit("template_id");
    reveal_strlit("templates");
    reveal_strlit("v1");
    reveal_strlit("/health");
    assert(spec_path_text(spec_back_office_path(RouteName::Health).subrange(0, 1)) =~= spec_path_text(spec_back_office_path(RouteName::Health).subrange(0, 0)) + ("/"@ + "health"@)) by {
        assert(spec_back_office_path(RouteName::Health).subrange(0, 1).drop_last() =~= spec_back_office_path(RouteName::Health).subrange(0, 0));
    }
    assert(spec_back_office_path(RouteName::Health).subrange(0, 1) =~= spec_back_office_path(RouteName::Health));
    assert(spec_path_text(spec_back_office_path(RouteName::Health)) =~= "/health"@);
    reveal_strlit("/api/v1/business_units");
    assert(spec_path_text(spec_back_office_path(RouteName::BusinessUnits).subrange(0, 1)) =~= spec_path_text(spec_back_office_path(RouteName::BusinessUnits).subrange(0, 0)) + ("/"@ + "api"@)) by {
        assert(spec_back_office_path(RouteName::BusinessUnits).subrange(0, 1).drop_last() =~= spec_back_office_path(RouteName::BusinessUnits).subrange(0, 0));
    }
    assert(spec_path_text(spec_back_office_path(RouteName::BusinessUnits).subrange(0, 2)) =~= spec_path_text(spec_back_office_path(RouteName::BusinessUnits).subrange(0, 1)) + ("/"@ + "v1"@)) by {
        assert(spec_back_office_path(RouteName::BusinessUnits).subrange(0, 2).drop_last() =~= spec_back_office_path(RouteName::BusinessUnits).subrange(0, 1));
    }
    assert(spec_path_text(spec_back_office_path(RouteName::BusinessUnits).subrange(0, 3)) =~= spec_path_text(spec_back_office_path(RouteName::BusinessUnits).subrange(0, 2)) + ("/"@ + "business_units"@)) by {
        assert(spec_back_office_path(RouteName::BusinessUnits).subrange(0, 3).drop_last() =~= spec_back_office_path(RouteName::BusinessUnits).subrange(0, 2));
    }
    assert(spec_back_office_path(RouteName::BusinessUnits).subrange(0, 3) =~= spec_back_office_path(RouteName::BusinessUnits));
    assert(spec_path_text(spec_back_office_path(RouteName::BusinessUnits)) =~= "/api/v1/business_units"@);
    reveal_strlit("/api/v1/business_units/{business_unit_id}");
    assert(spec_path_text(spec_back_office_path(RouteName::BusinessUnit).subrange(0, 1)) =~= spec_path_text(spec_back_office_path(RouteName::BusinessUnit).subrange(0, 0)) + ("/"@ + "api"@)) by {
        assert(spec_back_office_path(RouteName::BusinessUnit).subrange(0, 1).drop_last() =~= spec_back_office_path(RouteName::BusinessUnit).subrange(0, 0));
    }
    assert(spec_path_text(spec_back_office_path(RouteName::BusinessUnit).subrange(0, 2)) =~= spec_path_text(spec_back_office_path(RouteName::BusinessUnit).subrange(0, 1)) + ("/"@ + "v1"@)) by {
        assert(spec_back_office_path(RouteName::BusinessUnit).subrange(0, 2).drop_last() =~= spec_back_office_path(RouteName::BusinessUnit).subrange(0, 1));
    }
    assert(spec_path_text(spec_back_office_path(RouteName::BusinessUnit).subrange(0, 3)) =~= spec_path_text(spec_back_office_path(RouteName::BusinessUnit).subrange(0, 2)) + ("/"@ + "business_units"@)) by {
        assert(spec_back_office_path(RouteName::BusinessUnit).subrange(0, 3).drop_last() =~= spec_back_office_path(RouteName::BusinessUnit).subrange(0, 2));
    }
    assert(spec_path_text(spec_back_office_path(RouteName::BusinessUnit).subrange(0, 4)) =~= spec_path_text(spec_back_office_path(RouteName::BusinessUnit).subrange(0, 3)) + ("/{"@ + "business_unit_id"@ + "}"@)) by {
        assert(spec_back_office_path(RouteName::BusinessUnit).subrange(0, 4).drop_last() =~= spec_back_office_path(RouteName::BusinessUnit).subrange(0, 3));
    }
    assert(spec_back_office_path(RouteName::BusinessUnit).subrange(0, 4) =~= spec_back_office_path(RouteName::BusinessUnit));
    assert(spec_path_text(spec_back_office_path(RouteName::BusinessUnit)) =~= "/api/v1/business_units/{business_unit_id}"@);
    reveal_strlit("/api/v1/message_types");
    assert(spec_path_text(spec_back_office_path(RouteName::MessageTypes).subrange(0, 1)) =~= spec_path_text(spec_back_office_path(RouteName::MessageTypes).subrange(0, 0)) + ("/"@ + "api"@)) by {
        assert(spec_back_office_path(RouteName::MessageTypes).subrange(0, 1).drop_last() =~= spec_back_office_path(RouteName::MessageTypes).subrange(0, 0));
    }
    assert(spec_path_text(spec_back_office_path(RouteName::MessageTypes).subrange(0, 2)) =~= spec_path_text(spec_back_office_path(RouteName::MessageTypes).subrange(0, 1)) + ("/"@ + "v1"@)) by {
        assert(spec_back_office_path(RouteName::MessageTypes).subrange(0, 2).drop_last() =~= spec_back_office_path(RouteName::MessageTypes).subrange(0, 1));
    }
    assert(spec_path_text(spec_back_office_path(RouteName::MessageTypes).subrange(0, 3)) =~= spec_path_text(spec_back_office_path(RouteName::MessageTypes).subrange(0, 2)) + ("/"@ + "message_types"@)) by {
        assert(spec_back_office_path(RouteName::MessageTypes).subrange(0, 3).drop_last() =~= spec_back_office_path(RouteName::MessageTypes).subrange(0, 2));
    }
    assert(spec_back_office_path(RouteName::MessageTypes).subrange(0, 3) =~= spec_back_office_path(RouteName::MessageTypes));
    assert(spec_path_text(spec_back_office_path(RouteName::MessageTypes)) =~= "/api/v1/message_types"@);
    reveal_strlit("/api/v1/message_types/{message_type_id}");
    assert(spec_path_text(spec_back_office_path(RouteName::MessageType).subrange(0, 1)) =~= spec_path_text(spec_back_office_path(RouteName::MessageType).subrange(0, 0)) + ("/"@ + "api"@)) by {
        assert(spec_back_office_path(RouteName::MessageType).subrange(0, 1).drop_last() =~= spec_back_office_path(RouteName::MessageType).subrange(0, 0));
    }
    assert(spec_path_text(spec_back_office_path(RouteName::MessageType).subrange(0, 2)) =~= spec_path_text(spec_back_office_path(RouteName::MessageType).subrange(0, 1)) + ("/"@ + "v1"@)) by {
        assert(spec_back_office_path(RouteName::MessageType).subrange(0, 2).drop_last() =~= spec_back_office_path(RouteName::MessageType).subrange(0, 1));
    }
    assert(spec_path_text(spec_back_office_path(RouteName::MessageType).subrange(0, 3)) =~= spec_path_text(spec_back_office_path(RouteName::MessageType).subrange(0, 2)) + ("/"@ + "message_types"@)) by {
        assert(spec_back_office_path(RouteName::MessageType).subrange(0, 3).drop_last() =~= spec_back_office_path(RouteName::MessageType).subrange(0, 2));
    }
    assert(spec_path_text(spec_back_office_path(RouteName::MessageType).subrange(0, 4)) =~= spec_path_text(spec_back_office_path(RouteName::MessageType).subrange(0, 3)) + ("/{"@ + "message_type_id"@ + "}"@)) by {
        assert(spec_back_office_path(RouteName::MessageType).subrange(0, 4).drop_last() =~= spec_back_office_path(RouteName::MessageType).subrange(0, 3));
    }
    assert(spec_back_office_path(RouteName::MessageType).subrange(0, 4) =~= spec_back_office_path(RouteName::MessageType));
    assert(spec_path_text(spec_back_office_path(RouteName::MessageType)) =~= "/api/v1/message_types/{message_type_id}"@);
    reveal_strlit("/api/v1/messages");
    assert(spec_path_text(spec_back_office_path(RouteName::Messages).subrange(0, 1)) =~= spec_path_text(spec_back_office_path(RouteName::Messages).subrange(0, 0)) + ("/"@ + "api"@)) by {
        assert(spec_back_office_path(RouteName::Messages).subrange(0, 1).drop_last() =~= spec_back_office_path(RouteName::Messages).subrange(0, 0));
    }
    assert(spec_path_text(spec_back_office_path(RouteName::Messages).subrange(0, 2)) =~= spec_path_text(spec_back_office_path(RouteName::Messages).subrange(0, 1)) + ("/"@ + "v1"@)) by {
        assert(spec_back_office_path(RouteName::Messages).subrange(0, 2).drop_last() =~= spec_back_office_path(RouteName::Messages).subrange(0, 1));
    }
    assert(spec_path_text(spec_back_office_path(RouteName::Messages).subrange(0, 3)) =~= spec_path_text(spec_back_office_path(RouteName::Messages).subrange(0, 2)) + ("/"@ + "messages"@)) by {
        assert(spec_back_office_path(RouteName::Messages).subrange(0, 3).drop_last() =~= spec_back_office_path(RouteName::Messages).subrange(0, 2));
    }
    assert(spec_back_office_path(RouteName::Messages).subrange(0, 3) =~= spec_back_office_path(RouteName::Messages));
    assert(spec_path_text(spec_back_office_path(RouteName::Messages)) =~= "/api/v1/messages"@);
    reveal_strlit("/api/v1/templates");
    assert(spec_path_text(spec_back_office_path(RouteName::Templates).subrange(0, 1)) =~= spec_path_text(spec_back_office_path(RouteName::Templates).subrange(0, 0)) + ("/"@ + "api"@)) by {
        assert(spec_back_office_path(RouteName::Templates).subrange(0, 1).drop_last() =~= spec_back_office_path(RouteName::Templates).subrange(0, 0));
    }
    assert(spec_path_text(spec_back_office_path(RouteName::Templates).subrange(0, 2)) =~= spec_path_text(spec_back_office_path(RouteName::Templates).subrange(0, 1)) + ("/"@ + "v1"@)) by {
        assert(spec_back_office_path(RouteName::Templates).subrange(0, 2).drop_last() =~= spec_back_office_path(RouteName::Templates).subrange(0, 1));
    }
    assert(spec_path_text(spec_back_office_path(RouteName::Templates).subrange(0, 3)) =~= spec_path_text(spec_back_office_path(RouteName::Templates).subrange(0, 2)) + ("/"@ + "templates"@)) by {
        assert(spec_back_office_path(RouteName::Templates).subrange(0, 3).drop_last() =~= spec_back_office_path(RouteName::Templates).subrange(0, 2));
    }
    assert(spec_back_office_path(RouteName::Templates).subrange(0, 3) =~= spec_back_office_path(RouteName::Templates));
    assert(spec_path_text(spec_back_office_path(RouteName::Templates)) =~= "/api/v1/templates"@);
    reveal_strlit("/api/v1/templates/{template_id}");
    assert(spec_path_text(spec_back_office_path(RouteName::Template).subrange(0, 1)) =~= spec_path_text(spec_back_office_path(RouteName::Template).subrange(0, 0)) + ("/"@ + "api"@)) by {
        assert(spec_back_office_path(RouteName::Template).subrange(0, 1).drop_last() =~= spec_back_office_path(RouteName::Template).subrange(0, 0));
    }
    assert(spec_path_text(spec_back_office_path(RouteName::Template).subrange(0, 2)) =~= spec_path_text(spec_back_office_path(RouteName::Template).subrange(0, 1)) + ("/"@ + "v1"@)) by {
        assert(spec_back_office_path(RouteName::Template).subrange(0, 2).drop_last() =~= spec_back_office_path(RouteName::Template).subrange(0, 1));
    }
    assert(spec_path_text(spec_back_office_path(RouteName::Template).subrange(0, 3)) =~= spec_path_text(spec_back_office_path(RouteName::Template).subrange(0, 2)) + ("/"@ + "templates"@)) by {
        assert(spec_back_office_path(RouteName::Template).subrange(0, 3).drop_last() =~= spec_back_office_path(RouteName::Template).subrange(0, 2));
    }
    assert(spec_path_text(spec_back_office_path(RouteName::Template).subrange(0, 4)) =~= spec_path_text(spec_back_office_path(RouteName::Template).subrange(0, 3)) + ("/{"@ + "template_id"@ + "}"@)) by {
        assert(spec_back_office_path(RouteName::Template).subrange(0, 4).drop_last() =~= spec_back_office_path(RouteName::Template).subrange(0, 3));
    }
    assert(spec_back_office_path(RouteName::Template).subrange(0, 4) =~= spec_back_office_path(RouteName::Template));
    assert(spec_path_text(spec_back_office_path(RouteName::Template)) =~= "/api/v1/templates/{template_id}"@);
    reveal_strlit("/api/v1/routes");
    assert(spec_path_text(spec_back_office_path(RouteName::Routes).subrange(0, 1)) =~= spec_path_text(spec_back_office_path(RouteName::Routes).subrange(0, 0)) + ("/"@ + "api"@)) by {
        assert(spec_back_office_path(RouteName::Routes).subrange(0, 1).drop_last() =~= spec_back_office_path(RouteName::Routes).subrange(0, 0));
    }
    assert(spec_path_text(spec_back_office_path(RouteName::Routes).subrange(0, 2)) =~= spec_path_text(spec_back_office_path(RouteName::Routes).subrange(0, 1)) + ("/"@ + "v1"@)) by {
        assert(spec_back_office_path(RouteName::Routes).subrange(0, 2).drop_last() =~= spec_back_office_path(RouteName::Routes).subrange(0, 1));
    }
    assert(spec_path_text(spec_back_office_path(RouteName::Routes).subrange(0, 3)) =~= spec_path_text(spec_back_office_path(RouteName::Routes).subrange(0, 2)) + ("/"@ + "routes"@)) by {
        assert(spec_back_office_path(RouteName::Routes).subrange(0, 3).drop_last() =~= spec_back_office_path(RouteName::Routes).subrange(0, 2));
    }
    assert(spec_back_office_path(RouteName::Routes).subrange(0, 3) =~= spec_back_office_path(RouteName::Routes));
    assert(spec_path_text(spec_back_office_path(RouteName::Routes)) =~= "/api/v1/routes"@);
    reveal_strlit("/api/v1/routes/{route_id}");
    assert(spec_path_text(spec_back_office_path(RouteName::Route).subrange(0, 1)) =~= spec_path_text(spec_back_office_path(RouteName::Route).subrange(0, 0)) + ("/"@ + "api"@)) by {
        assert(spec_back_office_path(RouteName::Route).subrange(0, 1).drop_last() =~= spec_back_office_path(RouteName::Route).subrange(0, 0));
    }
    assert(spec_path_text(spec_back_office_path(RouteName::Route).subrange(0, 2)) =~= spec_path_text(spec_back_office_path(RouteName::Route).subrange(0, 1)) + ("/"@ + "v1"@)) by {
        assert(spec_back_office_path(RouteName::Route).subrange(0, 2).drop_last() =~= spec_back_office_path(RouteName::Route).subrange(0, 1));
    }
    assert(spec_path_text(spec_back_office_path(RouteName::Route).subrange(0, 3)) =~= spec_path_text(spec_back_office_path(RouteName::Route).subrange(0, 2)) + ("/"@ + "routes"@)) by {
        assert(spec_back_office_path(RouteName::Route).subrange(0, 3).drop_last() =~= spec_back_office_path(RouteName::Route).subrange(0, 2));
    }
    assert(spec_path_text(spec_back_office_path(RouteName::Route).subrange(0, 4)) =~= spec_path_text(spec_back_office_path(RouteName::Route).subrange(0, 3)) + ("/{"@ + "route_id"@ + "}"@)) by {
        assert(spec_back_office_path(RouteName::Route).subrange(0, 4).drop_last() =~= spec_back_office_path(RouteName::Route).subrange(0, 3));
    }
    assert(spec_back_office_path(RouteName::Route).subrange(0, 4) =~= spec_back_office_path(RouteName::Route));
    assert(spec_path_text(spec_back_office_path(RouteName::Route)) =~= "/api/v1/routes/{route_id}"@);
    reveal_strlit("/api/v1/connections");
    assert(spec_path_text(spec_back_office_path(RouteName::Connections).subrange(0, 1)) =~= spec_path_text(spec_back_office_path(RouteName::Connections).subrange(0, 0)) + ("/"@ + "api"@)) by {
        assert(spec_back_office_path(RouteName::Connections).subrange(0, 1).drop_last() =~= spec_back_office_path(RouteName::Connections).subrange(0, 0));
    }
    assert(spec_path_text(spec_back_office_path(RouteName::Connections).subrange(0, 2)) =~= spec_path_text(spec_back_office_path(RouteName::Connections).subrange(0, 1)) + ("/"@ + "v1"@)) by {
        assert(spec_back_office_path(RouteName::Connections).subrange(0, 2).drop_last() =~= spec_back_office_path(RouteName::Connections).subrange(0, 1));
    }
    assert(spec_path_text(spec_back_office_path(RouteName::Connections).subrange(0, 3)) =~= spec_path_text(spec_back_office_path(RouteName::Connections).subrange(0, 2)) + ("/"@ + "connections"@)) by {
        assert(spec_back_office_path(RouteName::Connections).subrange(0, 3).drop_last() =~= spec_back_office_path(RouteName::Connections).subrange(0, 2));
    }
    assert(spec_back_office_path(RouteName::Connections).subrange(0, 3) =~= spec_back_office_path(RouteName::Connections));
    assert(spec_path_text(spec_back_office_path(RouteName::Connections)) =~= "/api/v1/connections"@);
    reveal_strlit("/api/v1/connections/{conn_id}");
    assert(spec_path_text(spec_back_office_path(RouteName::Connection).subrange(0, 1)) =~= spec_path_text(spec_back_office_path(RouteName::Connection).subrange(0, 0)) + ("/"@ + "api"@)) by {
        assert(spec_back_office_path(RouteName::Connection).subrange(0, 1).drop_last() =~= spec_back_office_path(RouteName::Connection).subrange(0, 0));
    }
    assert(spec_path_text(spec_back_office_path(RouteName::Connection).subrange(0, 2)) =~= spec_path_text(spec_back_office_path(RouteName::Connection).subrange(0, 1)) + ("/"@ + "v1"@)) by {
        assert(spec_back_office_path(RouteName::Connection).subrange(0, 2).drop_last() =~= spec_back_office_path(RouteName::Connection).subrange(0, 1));
    }
    assert(spec_path_text(spec_back_office_path(RouteName::Connection).subrange(0, 3)) =~= spec_path_text(spec_back_office_path(RouteName::Connection).subrange(0, 2)) + ("/"@ + "connections"@)) by {
        assert(spec_back_office_path(RouteName::Connection).subrange(0, 3).drop_last() =~= spec_back_office_path(RouteName::Connection).subrange(0, 2));
    }
    assert(spec_path_text(spec_back_office_path(RouteName::Connection).subrange(0, 4)) =~= spec_path_text(spec_back_office_path(RouteName::Connection).subrange(0, 3)) + ("/{"@ + "conn_id"@ + "}"@)) by {
        assert(spec_back_office_path(RouteName::Connection).subrange(0, 4).drop_last() =~= spec_back_office_path(RouteName::Connection).subrange(0, 3));
    }
    assert(spec_back_office_path(RouteName::Connection).subrange(0, 4) =~= spec_back_office_path(RouteName::Connection));
    assert(spec_path_text(spec_back_office_path(RouteName::Connection)) =~= "/api/v1/connections/{conn_id}"@);
    reveal_strlit("/api/v1/plugins");
    assert(spec_path_text(spec_back_office_path(RouteName::Plugins).subrange(0, 1)) =~= spec_path_text(spec_back_office_path(RouteName::Plugins).subrange(0, 0)) + ("/"@ + "api"@)) by {
        assert(spec_back_office_path(RouteName::Plugins).subrange(0, 1).drop_last() =~= spec_back_office_path(RouteName::Plugins).subrange(0, 0));
    }
    assert(spec_path_text(spec_back_office_path(RouteName::Plugins).subrange(0, 2)) =~= spec_path_text(spec_back_office_path(RouteName::Plugins).subrange(0, 1)) + ("/"@ + "v1"@)) by {
        assert(spec_back_office_path(RouteName::Plugins).subrange(0, 2).drop_last() =~= spec_back_office_path(RouteName::Plugins).subrange(0, 1));
    }
    assert(spec_path_text(spec_back_office_path(RouteName::Plugins).subrange(0, 3)) =~= spec_path_text(spec_back_office_path(RouteName::Plugins).subrange(0, 2)) + ("/"@ + "plugins"@)) by {
        assert(spec_back_office_path(RouteName::Plugins).subrange(0, 3).drop_last() =~= spec_back_office_path(RouteName::Plugins).subrange(0, 2));
    }
    assert(spec_back_office_path(RouteName::Plugins).subrange(0, 3) =~= spec_back_office_path(RouteName::Plugins));
    assert(spec_path_text(spec_back_office_path(RouteName::Plugins)) =~= "/api/v1/plugins"@);
    reveal_strlit("/api/v1/plugins/{id}");
    assert(spec_path_text(spec_back_office_path(RouteName::Plugin).subrange(0, 1)) =~= spec_path_text(spec_back_office_path(RouteName::Plugin).subrange(0, 0)) + ("/"@ + "api"@)) by {
        assert(spec_back_office_path(RouteName::Plugin).subrange(0, 1).drop_last() =~= spec_back_office_path(RouteName::Plugin).subrange(0, 0));
    }
    assert(spec_path_text(spec_back_office_path(RouteName::Plugin).subrange(0, 2)) =~= spec_path_text(spec_back_office_path(RouteName::Plugin).subrange(0, 1)) + ("/"@ + "v1"@)) by {
        assert(spec_back_office_path(RouteName::Plugin).subrange(0, 2).drop_last() =~= spec_back_office_path(RouteName::Plugin).subrange(0, 1));
    }
    assert(spec_path_text(spec_back_office_path(RouteName::Plugin).subrange(0, 3)) =~= spec_path_text(spec_back_office_path(RouteName::Plugin).subrange(0, 2)) + ("/"@ + "plugins"@)) by {
        assert(spec_back_office_path(RouteName::Plugin).subrange(0, 3).drop_last() =~= spec_back_office_path(RouteName::Plugin).subrange(0, 2));
    }
    assert(spec_path_text(spec_back_office_path(RouteName::Plugin).subrange(0, 4)) =~= spec_path_text(spec_back_office_path(RouteName::Plugin).subrange(0, 3)) + ("/{"@ + "id"@ + "}"@)) by {
        assert(spec_back_office_path(RouteName::Plugin).subrange(0, 4).drop_last() =~= spec_back_office_path(RouteName::Plugin).subrange(0, 3));
    }
    assert(spec_back_office_path(RouteName::Plugin).subrange(0, 4) =~= spec_back_office_path(RouteName::Plugin));
    assert(spec_path_text(spec_back_office_path(RouteName::Plugin)) =~= "/api/v1/plugins/{id}"@);
    reveal_strlit("/api/v1/channels");
    assert(spec_path_text(spec_back_office_path(RouteName::Channels).subrange(0, 1)) =~= spec_path_text(spec_back_office_path(RouteName::Channels).subrange(0, 0)) + ("/"@ + "api"@)) by {
        assert(spec_back_office_path(RouteName::Channels).subrange(0, 1).drop_last() =~= spec_back_office_path(RouteName::Channels).subrange(0, 0));
    }
    assert(spec_path_text(spec_back_office_path(RouteName::Channels).subrange(0, 2)) =~= spec_path_text(spec_back_office_path(RouteName::Channels).subrange(0, 1)) + ("/"@ + "v1"@)) by {
        assert(spec_back_office_path(RouteName::Channels).subrange(0, 2).drop_last() =~= spec_back_office_path(RouteName::Channels).subrange(0, 1));
    }
    assert(spec_path_text(spec_back_office_path(RouteName::Channels).subrange(0, 3)) =~= spec_path_text(spec_back_office_path(RouteName::Channels).subrange(0, 2)) + ("/"@ + "channels"@)) by {
        assert(spec_back_office_path(RouteName::Channels).subrange(0, 3).drop_last() =~= spec_back_office_path(RouteName::Channels).subrange(0, 2));
    }
    assert(spec_back_office_path(RouteName::Channels).subrange(0, 3) =~= spec_back_office_path(RouteName::Channels));
    assert(spec_path_text(spec_back_office_path(RouteName::Channels)) =~= "/api/v1/channels"@);
    reveal_strlit("/api/v1/channels/{channel_id}");
    assert(spec_path_text(spec_back_office_path(RouteName::Channel).subrange(0, 1)) =~= spec_path_text(spec_back_office_path(RouteName::Channel).subrange(0, 0)) + ("/"@ + "api"@)) by {
        assert(spec_back_office_path(RouteName::Channel).subrange(0, 1).drop_last() =~= spec_back_office_path(RouteName::Channel).subrange(0, 0));
    }
    assert(spec_path_text(spec_back_office_path(RouteName::Channel).subrange(0, 2)) =~= spec_path_text(spec_back_office_path(RouteName::Channel).subrange(0, 1)) + ("/"@ + "v1"@)) by {
        assert(spec_back_office_path(RouteName::Channel).subrange(0, 2).drop_last() =~= spec_back_office_path(RouteName::Channel).subrange(0, 1));
    }
    assert(spec_path_text(spec_back_office_path(RouteName::Channel).subrange(0, 3)) =~= spec_path_text(spec_back_office_path(RouteName::Channel).subrange(0, 2)) + ("/"@ + "channels"@)) by {
        assert(spec_back_office_path(RouteName::Channel).subrange(0, 3).drop_last() =~= spec_back_office_path(RouteName::Channel).subrange(0, 2));
    }
    assert(spec_path_text(spec_back_office_path(RouteName::Channel).subrange(0, 4)) =~= spec_path_text(spec_back_office_path(RouteName::Channel).subrange(0, 3)) + ("/{"@ + "channel_id"@ + "}"@)) by {
        assert(spec_back_office_path(RouteName::Channel).subrange(0, 4).drop_last() =~= spec_back_office_path(RouteName::Channel).subrange(0, 3));
    }
    assert(spec_back_office_path(RouteName::Channel).subrange(0, 4) =~= spec_back_office_path(RouteName::Channel));
    assert(spec_path_text(spec_back_office_path(RouteName::Channel)) =~= "/api/v1/channels/{channel_id}"@);
}

} // verus!
