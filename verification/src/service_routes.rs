use vstd::prelude::*;
use crate::routing::{Method, Segment, SegmentView, RouteEntry, segments_view, handlers_view, lit, par, handler, param_count};
use crate::api_routes::{NamedRoute, entries_view};
use crate::hypermedia::{Route, spec_route_name, spec_route_params};
use crate::channel_router::{CHANNEL_RESOUCE_LINK, CHANNELS_RESOUCE_LINK};

verus! {

/// A route registered without a name.
pub type PlainRoute = RouteEntry<()>;

/// The abstract value of an unnamed route: its path and its handlers.
pub open spec fn plain_view(e: PlainRoute) -> (Seq<SegmentView>, Seq<(Method, Seq<char>)>) {
    (segments_view(e.segments@), handlers_view(e.handlers@))
}

pub open spec fn plains_view(v: Seq<PlainRoute>) -> Seq<(Seq<SegmentView>, Seq<(Method, Seq<char>)>)> {
    v.map_values(|e: PlainRoute| plain_view(e))
}

fn named(name: &'static str, segments: Vec<Segment>, handlers: Vec<(Method, &'static str)>) -> (r: NamedRoute)
    ensures
        r.name == name,
        r.segments == segments,
        r.handlers == handlers,
{
    RouteEntry { name, segments, handlers }
}

fn plain(segments: Vec<Segment>, handlers: Vec<(Method, &'static str)>) -> (r: PlainRoute)
    ensures
        r.segments == segments,
        r.handlers == handlers,
{
    RouteEntry { name: (), segments, handlers }
}

/// The routes of the channel api: the channels, one channel, the message
/// types of a channel and one message type of it, all under `/api/v1`, each
/// under the name that its links resolve against.
pub open spec fn spec_channel_api_routes() -> Seq<(Seq<char>, Seq<SegmentView>, Seq<(Method, Seq<char>)>)> {
    let channels = seq![lit("api"), lit("v1"), lit("channels")];
    let channel = channels.push(par("channel_id"));
    let message_types = channel.push(lit("message_types"));
    let message_type = message_types.push(par("message_type_id"));
    seq![
        (spec_route_name(Route::Channels), channels, seq![
            handler(Method::Get, "ChannelRouter::query"),
            handler(Method::Post, "ChannelRouter::create_channel"),
        ]),
        (spec_route_name(Route::Channel), channel, seq![
            handler(Method::Get, "ChannelRouter::find_channel"),
            handler(Method::Put, "ChannelRouter::update"),
            handler(Method::Delete, "ChannelRouter::delete"),
        ]),
        (spec_route_name(Route::MessageTypes), message_types, seq![
            handler(Method::Get, "MessageTypeRouter::query"),
            handler(Method::Post, "MessageTypeRouter::create"),
        ]),
        (spec_route_name(Route::MessageType), message_type, seq![
            handler(Method::Get, "MessageTypeRouter::find"),
            handler(Method::Put, "MessageTypeRouter::update"),
            handler(Method::Delete, "MessageTypeRouter::delete"),
        ]),
    ]
}

/// The routes of the channel api.
pub fn channel_api_routes() -> (r: Vec<NamedRoute>)
    ensures
        entries_view(r@) == spec_channel_api_routes(),
{
    let r = vec![
        named(
            Route::Channels.name(),
            vec![Segment::Literal("api"), Segment::Literal("v1"), Segment::Literal("channels")],
            vec![(Method::Get, "ChannelRouter::query"), (Method::Post, "ChannelRouter::create_channel")],
        ),
        named(
            Route::Channel.name(),
            vec![Segment::Literal("api"), Segment::Literal("v1"), Segment::Literal("channels"), Segment::Param("channel_id")],
            vec![
                (Method::Get, "ChannelRouter::find_channel"),
                (Method::Put, "ChannelRouter::update"),
                (Method::Delete, "ChannelRouter::delete"),
            ],
        ),
        named(
            Route::MessageTypes.name(),
            vec![
                Segment::Literal("api"),
                Segment::Literal("v1"),
                Segment::Literal("channels"),
                Segment::Param("channel_id"),
                Segment::Literal("message_types"),
            ],
            vec![(Method::Get, "MessageTypeRouter::query"), (Method::Post, "MessageTypeRouter::create")],
        ),
        named(
            Route::MessageType.name(),
            vec![
                Segment::Literal("api"),
                Segment::Literal("v1"),
                Segment::Literal("channels"),
                Segment::Param("channel_id"),
                Segment::Literal("message_types"),
                Segment::Param("message_type_id"),
            ],
            vec![
                (Method::Get, "MessageTypeRouter::find"),
                (Method::Put, "MessageTypeRouter::update"),
                (Method::Delete, "MessageTypeRouter::delete"),
            ],
        ),
    ];
    proof {
        let v = entries_view(r@);
        let s = spec_channel_api_routes();
        assert(v[0].1 =~= s[0].1);
        assert(v[0].2 =~= s[0].2);
        assert(v[1].1 =~= s[1].1);
        assert(v[1].2 =~= s[1].2);
        assert(v[2].1 =~= s[2].1);
        assert(v[2].2 =~= s[2].2);
        assert(v[3].1 =~= s[3].1);
        assert(v[3].2 =~= s[3].2);
        assert(v =~= s);
    }
    r
}

/// The names of a path's parameters, in order.
pub open spec fn param_names(p: Seq<SegmentView>) -> Seq<Seq<char>>
    decreases p.len(),
{
    if p.len() == 0 {
        Seq::empty()
    } else {
        let rest = param_names(p.drop_last());
        match p.last() {
            SegmentView::Param(n) => rest.push(n),
            SegmentView::Literal(_) => rest,
        }
    }
}

/// Every resource of the channel api is registered once, under its name,
/// at a path whose parameters are exactly the ones its links fill, in
/// order.
pub proof fn lemma_channel_api_routes_match_links(route: Route)
    ensures
        exists|i: int| 0 <= i < spec_channel_api_routes().len()
            && #[trigger] spec_channel_api_routes()[i].0 == spec_route_name(route)
            && param_names(spec_channel_api_routes()[i].1) == spec_route_params(route),
{
    reveal_with_fuel(param_names, 7);
    let s = spec_channel_api_routes();
    match route {
        Route::Channels => {
            assert(param_names(s[0].1) =~= spec_route_params(route));
            assert(s[0].0 == spec_route_name(route));
        },
        Route::Channel => {
            assert(param_names(s[1].1) =~= spec_route_params(route));
            assert(s[1].0 == spec_route_name(route));
        },
        Route::MessageTypes => {
            assert(param_names(s[2].1) =~= spec_route_params(route));
            assert(s[2].0 == spec_route_name(route));
        },
        Route::MessageType => {
            assert(param_names(s[3].1) =~= spec_route_params(route));
            assert(s[3].0 == spec_route_name(route));
        },
    }
}

/// The routes of the channels named by their codes: the channels, and one
/// channel under `/v1/channels/{channel_code}`.
pub open spec fn spec_channel_code_routes() -> Seq<(Seq<char>, Seq<SegmentView>, Seq<(Method, Seq<char>)>)> {
    let channels = seq![lit("v1"), lit("channels")];
    seq![
        (CHANNELS_RESOUCE_LINK@, channels, seq![
            handler(Method::Post, "ChannelRouter::create_channel"),
            handler(Method::Get, "ChannelRouter::query"),
        ]),
        (CHANNEL_RESOUCE_LINK@, channels.push(par("channel_code")), seq![
            handler(Method::Get, "ChannelRouter::find_channel"),
            handler(Method::Put, "ChannelRouter::update"),
            handler(Method::Delete, "ChannelRouter::delete"),
        ]),
    ]
}

/// The routes of the channels named by their codes.
pub fn channel_code_routes() -> (r: Vec<NamedRoute>)
    ensures
        entries_view(r@) == spec_channel_code_routes(),
{
    let r = vec![
        named(
            CHANNELS_RESOUCE_LINK,
            vec![Segment::Literal("v1"), Segment::Literal("channels")],
            vec![(Method::Post, "ChannelRouter::create_channel"), (Method::Get, "ChannelRouter::query")],
        ),
        named(
            CHANNEL_RESOUCE_LINK,
            vec![Segment::Literal("v1"), Segment::Literal("channels"), Segment::Param("channel_code")],
            vec![
                (Method::Get, "ChannelRouter::find_channel"),
                (Method::Put, "ChannelRouter::update"),
                (Method::Delete, "ChannelRouter::delete"),
            ],
        ),
    ];
    proof {
        let v = entries_view(r@);
        let s = spec_channel_code_routes();
        assert(v[0].1 =~= s[0].1);
        assert(v[0].2 =~= s[0].2);
        assert(v[1].1 =~= s[1].1);
        assert(v[1].2 =~= s[1].2);
        assert(v =~= s);
    }
    r
}

/// The links to channels by code resolve: "channels" is registered at a
/// path without parameters, "channel" at one with a single parameter, the
/// code that the link supplies.
pub proof fn lemma_channel_code_links_resolve()
    ensures
        spec_channel_code_routes()[0].0 == CHANNELS_RESOUCE_LINK@,
        param_count(spec_channel_code_routes()[0].1) == 0,
        spec_channel_code_routes()[1].0 == CHANNEL_RESOUCE_LINK@,
        param_count(spec_channel_code_routes()[1].1) == 1,
{
    reveal_with_fuel(param_count, 4);
}

/// The health check: `GET /health`.
pub open spec fn spec_health_routes() -> Seq<(Seq<SegmentView>, Seq<(Method, Seq<char>)>)> {
    seq![(seq![lit("health")], seq![handler(Method::Get, "HealthRouter::health")])]
}

/// The route of the health check.
pub fn health_routes() -> (r: Vec<PlainRoute>)
    ensures
        plains_view(r@) == spec_health_routes(),
{
    let r = vec![plain(vec![Segment::Literal("health")], vec![(Method::Get, "HealthRouter::health")])];
    proof {
        let v = plains_view(r@);
        let s = spec_health_routes();
        assert(v[0].0 =~= s[0].0);
        assert(v[0].1 =~= s[0].1);
        assert(v =~= s);
    }
    r
}

/// The channels, and one channel under its identifier, under
/// `/v1/channels`.
pub open spec fn spec_channels_routes() -> Seq<(Seq<SegmentView>, Seq<(Method, Seq<char>)>)> {
    let channels = seq![lit("v1"), lit("channels")];
    seq![
        (channels, seq![handler(Method::Get, "query_channels"), handler(Method::Post, "create_channel")]),
        (channels.push(par("channel_id")), seq![
            handler(Method::Get, "find_channel"),
            handler(Method::Put, "update_channel"),
            handler(Method::Delete, "delete_channel"),
        ]),
    ]
}

/// The routes of the channels by identifier.
pub fn channels_routes() -> (r: Vec<PlainRoute>)
    ensures
        plains_view(r@) == spec_channels_routes(),
{
    let r = vec![
        plain(
            vec![Segment::Literal("v1"), Segment::Literal("channels")],
            vec![(Method::Get, "query_channels"), (Method::Post, "create_channel")],
        ),
        plain(
            vec![Segment::Literal("v1"), Segment::Literal("channels"), Segment::Param("channel_id")],
            vec![(Method::Get, "find_channel"), (Method::Put, "update_channel"), (Method::Delete, "delete_channel")],
        ),
    ];
    proof {
        let v = plains_view(r@);
        let s = spec_channels_routes();
        assert(v[0].0 =~= s[0].0);
        assert(v[0].1 =~= s[0].1);
        assert(v[1].0 =~= s[1].0);
        assert(v[1].1 =~= s[1].1);
        assert(v =~= s);
    }
    r
}

/// The message types of a channel, and one message type, under
/// `/v1/channels/{channel_id}/message_types`.
pub open spec fn spec_message_type_routes() -> Seq<(Seq<SegmentView>, Seq<(Method, Seq<char>)>)> {
    let message_types = seq![lit("v1"), lit("channels"), par("channel_id"), lit("message_types")];
    seq![
        (message_types, seq![
            handler(Method::Get, "MessageTypeRouter::query_message_types"),
            handler(Method::Post, "MessageTypeRouter::create_message_type"),
        ]),
        (message_types.push(par("message_type_id")), seq![
            handler(Method::Get, "MessageTypeRouter::find_message_type"),
            handler(Method::Put, "MessageTypeRouter::update_message_type"),
            handler(Method::Delete, "MessageTypeRouter::delete_message_type"),
        ]),
    ]
}

/// The routes of the message types of a channel.
pub fn message_type_routes() -> (r: Vec<PlainRoute>)
    ensures
        plains_view(r@) == spec_message_type_routes(),
{
    let r = vec![
        plain(
            vec![Segment::Literal("v1"), Segment::Literal("channels"), Segment::Param("channel_id"), Segment::Literal("message_types")],
            vec![
                (Method::Get, "MessageTypeRouter::query_message_types"),
                (Method::Post, "MessageTypeRouter::create_message_type"),
            ],
        ),
        plain(
            vec![
                Segment::Literal("v1"),
                Segment::Literal("channels"),
                Segment::Param("channel_id"),
                Segment::Literal("message_types"),
                Segment::Param("message_type_id"),
            ],
            vec![
                (Method::Get, "MessageTypeRouter::find_message_type"),
                (Method::Put, "MessageTypeRouter::update_message_type"),
                (Method::Delete, "MessageTypeRouter::delete_message_type"),
            ],
        ),
    ];
    proof {
        let v = plains_view(r@);
        let s = spec_message_type_routes();
        assert(v[0].0 =~= s[0].0);
        assert(v[0].1 =~= s[0].1);
        assert(v[1].0 =~= s[1].0);
        assert(v[1].1 =~= s[1].1);
        assert(v =~= s);
    }
    r
}

/// The schema versions of a message type, one version, and the publishing
/// of a version, under
/// `/v1/channels/{channel_id}/message_types/{message_type_id}/schemas`.
pub open spec fn spec_schema_routes() -> Seq<(Seq<SegmentView>, Seq<(Method, Seq<char>)>)> {
    let schemas = seq![lit("v1"), lit("channels"), par("channel_id"), lit("message_types"), par("message_type_id"), lit("schemas")];
    let version = schemas.push(par("version"));
    seq![
        (schemas, seq![
            handler(Method::Get, "SchemaRouter::query_schemas"),
            handler(Method::Post, "SchemaRouter::create_schema"),
        ]),
        (version, seq![
            handler(Method::Get, "SchemaRouter::find_schema"),
            handler(Method::Put, "SchemaRouter::update_schema"),
            handler(Method::Delete, "SchemaRouter::delete_schema"),
        ]),
        (version.push(lit("publish")), seq![handler(Method::Post, "SchemaRouter::publish_schema")]),
    ]
}

fn schemas_path() -> (r: Vec<Segment>)
    ensures
        segments_view(r@) == seq![lit("v1"), lit("channels"), par("channel_id"), lit("message_types"), par("message_type_id"), lit("schemas")],
{
    let r = vec![
        Segment::Literal("v1"),
        Segment::Literal("channels"),
        Segment::Param("channel_id"),
        Segment::Literal("message_types"),
        Segment::Param("message_type_id"),
        Segment::Literal("schemas"),
    ];
    proof {
        assert(segments_view(r@) =~= seq![lit("v1"), lit("channels"), par("channel_id"), lit("message_types"), par("message_type_id"), lit("schemas")]);
    }
    r
}

/// The routes of the schema versions of a message type.
pub fn schema_routes() -> (r: Vec<PlainRoute>)
    ensures
        plains_view(r@) == spec_schema_routes(),
{
    let schemas = schemas_path();
    let mut version = schemas_path();
    version.push(Segment::Param("version"));
    let mut publish = schemas_path();
    publish.push(Segment::Param("version"));
    publish.push(Segment::Literal("publish"));
    let r = vec![
        plain(schemas, vec![(Method::Get, "SchemaRouter::query_schemas"), (Method::Post, "SchemaRouter::create_schema")]),
        plain(
            version,
            vec![
                (Method::Get, "SchemaRouter::find_schema"),
                (Method::Put, "SchemaRouter::update_schema"),
                (Method::Delete, "SchemaRouter::delete_schema"),
            ],
        ),
        plain(publish, vec![(Method::Post, "SchemaRouter::publish_schema")]),
    ];
    proof {
        let v = plains_view(r@);
        let s = spec_schema_routes();
        assert(v[0].0 =~= s[0].0);
        assert(v[0].1 =~= s[0].1);
        assert(v[1].0 =~= s[1].0);
        assert(v[1].1 =~= s[1].1);
        assert(v[2].0 =~= s[2].0);
        assert(v[2].1 =~= s[2].1);
        assert(v =~= s);
    }
    r
}

} // verus!
