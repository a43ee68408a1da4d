use vstd::prelude::*;
use crate::routing::{
    Method, Segment, SegmentView, RouteEntry, RouteName, segments_view, handlers_view, lit, par, handler,
    spec_back_office_order, spec_back_office_path, spec_back_office_handlers,
};

verus! {

/// A route registered under a name of text, as the public api registers
/// them.
pub type NamedRoute = RouteEntry<&'static str>;

/// The abstract value of a named route: its name, its path and its
/// handlers.
pub open spec fn entry_view(e: NamedRoute) -> (Seq<char>, Seq<SegmentView>, Seq<(Method, Seq<char>)>) {
    (e.name@, segments_view(e.segments@), handlers_view(e.handlers@))
}

pub open spec fn entries_view(v: Seq<NamedRoute>) -> Seq<(Seq<char>, Seq<SegmentView>, Seq<(Method, Seq<char>)>)> {
    v.map_values(|e: NamedRoute| entry_view(e))
}

/// The routes with `prefix` put before each path.
pub open spec fn spec_nest(
    prefix: Seq<SegmentView>,
    routes: Seq<(Seq<char>, Seq<SegmentView>, Seq<(Method, Seq<char>)>)>,
) -> Seq<(Seq<char>, Seq<SegmentView>, Seq<(Method, Seq<char>)>)> {
    routes.map_values(|e: (Seq<char>, Seq<SegmentView>, Seq<(Method, Seq<char>)>)| (e.0, prefix + e.1, e.2))
}

fn copy_segments(v: &Vec<Segment>) -> (r: Vec<Segment>)
    ensures
        r@ == v@,
{
    let mut r: Vec<Segment> = Vec::new();
    let mut i: usize = 0;
    while i < v.len()
        invariant
            i <= v@.len(),
            r@ == v@.subrange(0, i as int),
        decreases v@.len() - i,
    {
        r.push(v[i]);
        proof {
            assert(v@.subrange(0, i + 1) =~= v@.subrange(0, i as int).push(v@[i as int]));
        }
        i = i + 1;
    }
    proof {
        assert(v@.subrange(0, v@.len() as int) =~= v@);
    }
    r
}

fn copy_handlers(v: &Vec<(Method, &'static str)>) -> (r: Vec<(Method, &'static str)>)
    ensures
        r@ == v@,
{
    let mut r: Vec<(Method, &'static str)> = Vec::new();
    let mut i: usize = 0;
    while i < v.len()
        invariant
            i <= v@.len(),
            r@ == v@.subrange(0, i as int),
        decreases v@.len() - i,
    {
        r.push(v[i]);
        proof {
            assert(v@.subrange(0, i + 1) =~= v@.subrange(0, i as int).push(v@[i as int]));
        }
        i = i + 1;
    }
    proof {
        assert(v@.subrange(0, v@.len() as int) =~= v@);
    }
    r
}

/// The routes of a scope mounted under `prefix`: each route with the prefix
/// put before its path, in the same order.
pub fn nest(prefix: &Vec<Segment>, routes: &Vec<NamedRoute>) -> (r: Vec<NamedRoute>)
    ensures
        entries_view(r@) == spec_nest(segments_view(prefix@), entries_view(routes@)),
{
    let mut r: Vec<NamedRoute> = Vec::new();
    let mut i: usize = 0;
    while i < routes.len()
        invariant
            i <= routes@.len(),
            entries_view(r@) == spec_nest(segments_view(prefix@), entries_view(routes@.subrange(0, i as int))),
        decreases routes@.len() - i,
    {
        let mut segments = copy_segments(prefix);
        let mut rest = copy_segments(&routes[i].segments);
        let ghost before = segments@;
        segments.append(&mut rest);
        proof {
            assert(segments_view(segments@) =~= segments_view(prefix@) + segments_view(routes@[i as int].segments@));
        }
        let e = RouteEntry { name: routes[i].name, segments, handlers: copy_handlers(&routes[i].handlers) };
        let ghost old_r = r@;
        r.push(e);
        proof {
            let pv = segments_view(prefix@);
            let item = entry_view(routes@[i as int]);
            assert(entry_view(e) == (item.0, pv + item.1, item.2));
            assert(entries_view(r@) =~= entries_view(old_r).push(entry_view(e)));
            assert(routes@.subrange(0, i + 1) =~= routes@.subrange(0, i as int).push(routes@[i as int]));
            assert(entries_view(routes@.subrange(0, i + 1)) =~= entries_view(routes@.subrange(0, i as int)).push(item));
            assert(spec_nest(pv, entries_view(routes@.subrange(0, i as int)).push(item))
                =~= spec_nest(pv, entries_view(routes@.subrange(0, i as int))).push((item.0, pv + item.1, item.2)));
            assert(entries_view(r@) =~= spec_nest(pv, entries_view(routes@.subrange(0, i + 1))));
        }
        i = i + 1;
    }
    proof {
        assert(routes@.subrange(0, routes@.len() as int) =~= routes@);
    }
    r
}

fn named(name: &'static str, segments: Vec<Segment>, handlers: Vec<(Method, &'static str)>) -> (r: NamedRoute)
    ensures
        r.name == name,
        r.segments == segments,
        r.handlers == handlers,
{
    RouteEntry { name, segments, handlers }
}

/// The channels of a business unit: the collection and one channel of it.
pub open spec fn spec_channels_scope() -> Seq<(Seq<char>, Seq<SegmentView>, Seq<(Method, Seq<char>)>)> {
    seq![
        ("channels_resource"@, seq![lit("channels")], seq![
            handler(Method::Get, "channels::routes::query"),
            handler(Method::Post, "channels::routes::create"),
        ]),
        ("channel_resource"@, seq![lit("channels"), par("channel_id")], seq![
            handler(Method::Get, "channels::routes::get"),
            handler(Method::Put, "channels::routes::update"),
            handler(Method::Delete, "channels::routes::delete"),
        ]),
    ]
}

/// The routes of the channels of a business unit.
pub fn channels_scope() -> (r: Vec<NamedRoute>)
    ensures
        entries_view(r@) == spec_channels_scope(),
{
    let r = vec![
        named(
            "channels_resource",
            vec![Segment::Literal("channels")],
            vec![(Method::Get, "channels::routes::query"), (Method::Post, "channels::routes::create")],
        ),
        named(
            "channel_resource",
            vec![Segment::Literal("channels"), Segment::Param("channel_id")],
            vec![
                (Method::Get, "channels::routes::get"),
                (Method::Put, "channels::routes::update"),
                (Method::Delete, "channels::routes::delete"),
            ],
        ),
    ];
    proof {
        assert(entries_view(r@)[0].1 =~= spec_channels_scope()[0].1);
        assert(entries_view(r@)[0].2 =~= spec_channels_scope()[0].2);
        assert(entries_view(r@)[1].1 =~= spec_channels_scope()[1].1);
        assert(entries_view(r@)[1].2 =~= spec_channels_scope()[1].2);
        assert(entries_view(r@) =~= spec_channels_scope());
    }
    r
}

/// The business units, the collection and one unit of it, with the
/// channels of a unit under the unit.
pub open spec fn spec_business_units_scope() -> Seq<(Seq<char>, Seq<SegmentView>, Seq<(Method, Seq<char>)>)> {
    seq![
        ("bu_resources"@, seq![lit("business_units")], seq![
            handler(Method::Get, "business_units::routes::query"),
            handler(Method::Post, "business_units::routes::create"),
        ]),
        ("bu_resource"@, seq![lit("business_units"), par("business_unit_id")], seq![
            handler(Method::Get, "business_units::routes::get"),
            handler(Method::Put, "business_units::routes::update"),
            handler(Method::Delete, "business_units::routes::delete"),
        ]),
    ] + spec_nest(seq![lit("business_units"), par("business_unit_id")], spec_channels_scope())
}

/// The routes of the business units.
pub fn business_units_scope() -> (r: Vec<NamedRoute>)
    ensures
        entries_view(r@) == spec_business_units_scope(),
{
    let mut r = vec![
        named(
            "bu_resources",
            vec![Segment::Literal("business_units")],
            vec![(Method::Get, "business_units::routes::query"), (Method::Post, "business_units::routes::create")],
        ),
        named(
            "bu_resource",
            vec![Segment::Literal("business_units"), Segment::Param("business_unit_id")],
            vec![
                (Method::Get, "business_units::routes::get"),
                (Method::Put, "business_units::routes::update"),
                (Method::Delete, "business_units::routes::delete"),
            ],
        ),
    ];
    let ghost head = entries_view(r@);
    proof {
        assert(head[0].1 =~= seq![lit("business_units")]);
        assert(head[0].2 =~= seq![
            handler(Method::Get, "business_units::routes::query"),
            handler(Method::Post, "business_units::routes::create"),
        ]);
        assert(head[1].1 =~= seq![lit("business_units"), par("business_unit_id")]);
        assert(head[1].2 =~= seq![
            handler(Method::Get, "business_units::routes::get"),
            handler(Method::Put, "business_units::routes::update"),
            handler(Method::Delete, "business_units::routes::delete"),
        ]);
    }
    let prefix = vec![Segment::Literal("business_units"), Segment::Param("business_unit_id")];
    proof {
        assert(segments_view(prefix@) =~= seq![lit("business_units"), par("business_unit_id")]);
    }
    let mut channels = nest(&prefix, &channels_scope());
    let ghost tail = entries_view(channels@);
    r.append(&mut channels);
    proof {
        assert(entries_view(r@) =~= head + tail);
        assert(entries_view(r@) =~= spec_business_units_scope());
    }
    r
}

/// The message types: the collection and one message type of it, under
/// `/message_types`.
pub open spec fn spec_message_types_scope() -> Seq<(Seq<char>, Seq<SegmentView>, Seq<(Method, Seq<char>)>)> {
    seq![
        ("message_types_resource"@, seq![lit("message_types")], seq![
            handler(Method::Get, "message_types::routes::query"),
            handler(Method::Post, "message_types::routes::create"),
        ]),
        ("message_type_resource"@, seq![lit("message_types"), par("message_type_id")], seq![
            handler(Method::Get, "message_types::routes::get"),
            handler(Method::Put, "message_types::routes::update"),
            handler(Method::Delete, "message_types::routes::delete"),
        ]),
    ]
}

/// The routes of the message types.
pub fn message_types_scope() -> (r: Vec<NamedRoute>)
    ensures
        entries_view(r@) == spec_message_types_scope(),
{
    let r = vec![
        named(
            "message_types_resource",
            vec![Segment::Literal("message_types")],
            vec![(Method::Get, "message_types::routes::query"), (Method::Post, "message_types::routes::create")],
        ),
        named(
            "message_type_resource",
            vec![Segment::Literal("message_types"), Segment::Param("message_type_id")],
            vec![
                (Method::Get, "message_types::routes::get"),
                (Method::Put, "message_types::routes::update"),
                (Method::Delete, "message_types::routes::delete"),
            ],
        ),
    ];
    proof {
        assert(entries_view(r@)[0].1 =~= spec_message_types_scope()[0].1);
        assert(entries_view(r@)[0].2 =~= spec_message_types_scope()[0].2);
        assert(entries_view(r@)[1].1 =~= spec_message_types_scope()[1].1);
        assert(entries_view(r@)[1].2 =~= spec_message_types_scope()[1].2);
        assert(entries_view(r@) =~= spec_message_types_scope());
    }
    r
}

/// The users: the collection and one user of it.
pub open spec fn spec_users_scope() -> Seq<(Seq<char>, Seq<SegmentView>, Seq<(Method, Seq<char>)>)> {
    seq![
        ("users_resource"@, seq![lit("users")], seq![
            handler(Method::Get, "users::routes::query"),
            handler(Method::Post, "users::routes::create"),
        ]),
        ("user_resource"@, seq![lit("users"), par("user_id")], seq![
            handler(Method::Get, "users::routes::get"),
            handler(Method::Put, "users::routes::update"),
            handler(Method::Delete, "users::routes::delete"),
        ]),
    ]
}

/// The routes of the users.
pub fn users_scope() -> (r: Vec<NamedRoute>)
    ensures
        entries_view(r@) == spec_users_scope(),
{
    let r = vec![
        named(
            "users_resource",
            vec![Segment::Literal("users")],
            vec![(Method::Get, "users::routes::query"), (Method::Post, "users::routes::create")],
        ),
        named(
            "user_resource",
            vec![Segment::Literal("users"), Segment::Param("user_id")],
            vec![
                (Method::Get, "users::routes::get"),
                (Method::Put, "users::routes::update"),
                (Method::Delete, "users::routes::delete"),
            ],
        ),
    ];
    proof {
        assert(entries_view(r@)[0].1 =~= spec_users_scope()[0].1);
        assert(entries_view(r@)[0].2 =~= spec_users_scope()[0].2);
        assert(entries_view(r@)[1].1 =~= spec_users_scope()[1].1);
        assert(entries_view(r@)[1].2 =~= spec_users_scope()[1].2);
        assert(entries_view(r@) =~= spec_users_scope());
    }
    r
}

/// The routes of the public api: the business units, the message types and
/// the users, all under `/api/v1`.
pub open spec fn spec_api_routes() -> Seq<(Seq<char>, Seq<SegmentView>, Seq<(Method, Seq<char>)>)> {
    spec_nest(seq![lit("api"), lit("v1")], spec_business_units_scope() + spec_message_types_scope() + spec_users_scope())
}

/// The routes of the public api.
pub fn api_routes() -> (r: Vec<NamedRoute>)
    ensures
        entries_view(r@) == spec_api_routes(),
{
    let mut all = business_units_scope();
    let ghost a = entries_view(all@);
    let mut more = message_types_scope();
    let ghost b = entries_view(more@);
    all.append(&mut more);
    let mut users = users_scope();
    let ghost c = entries_view(users@);
    all.append(&mut users);
    proof {
        assert(entries_view(all@) =~= a + b + c);
    }
    let prefix = vec![Segment::Literal("api"), Segment::Literal("v1")];
    proof {
        assert(segments_view(prefix@) =~= seq![lit("api"), lit("v1")]);
    }
    nest(&prefix, &all)
}

/// A parameter without a name, as a route's documentation writes `:id`.
pub open spec fn anon() -> SegmentView {
    SegmentView::Param(Seq::empty())
}

/// The shape of a path: its fixed text, its parameters unnamed.
pub open spec fn shape(p: Seq<SegmentView>) -> Seq<SegmentView> {
    p.map_values(|s: SegmentView| match s {
        SegmentView::Literal(t) => SegmentView::Literal(t),
        SegmentView::Param(_) => anon(),
    })
}

/// Whether the routes answer the method at a path of the shape, under
/// `/api/v1`.
pub open spec fn serves(
    routes: Seq<(Seq<char>, Seq<SegmentView>, Seq<(Method, Seq<char>)>)>,
    m: Method,
    path: Seq<SegmentView>,
) -> bool {
    exists|i: int, j: int|
        0 <= i < routes.len() && 0 <= j < routes[i].2.len()
        && #[trigger] shape(routes[i].1) == seq![lit("api"), lit("v1")] + path
        && #[trigger] routes[i].2[j].0 == m
}

/// The routes that the documentation lists for the message types, the
/// business units and the channels of a business unit.
pub open spec fn spec_documented_routes() -> Seq<(Method, Seq<SegmentView>)> {
    let units = seq![lit("business_units")];
    let unit = units.push(anon());
    let channels = unit.push(lit("channels"));
    let channel = channels.push(anon());
    let message_types = seq![lit("message_types")];
    let message_type = message_types.push(anon());
    seq![
        (Method::Get, message_types),
        (Method::Post, message_types),
        (Method::Get, message_type),
        (Method::Put, message_type),
        (Method::Delete, message_type),
        (Method::Get, units),
        (Method::Post, units),
        (Method::Get, unit),
        (Method::Put, unit),
        (Method::Delete, unit),
        (Method::Get, channels),
        (Method::Post, channels),
        (Method::Get, channel),
        (Method::Put, channel),
        (Method::Delete, channel),
    ]
}

/// The public api answers every route that the documentation lists for
/// the message types, the business units and their channels.
pub proof fn lemma_documented_routes_served()
    ensures
        forall|k: int| 0 <= k < spec_documented_routes().len() ==>
            serves(spec_api_routes(), #[trigger] spec_documented_routes()[k].0, spec_documented_routes()[k].1),
{
    let routes = spec_api_routes();
    let doc = spec_documented_routes();
    let prefix = seq![lit("api"), lit("v1")];
    let units = seq![lit("business_units")];
    let unit = units.push(anon());
    let channels = unit.push(lit("channels"));
    let channel = channels.push(anon());
    let message_types = seq![lit("message_types")];
    let message_type = message_types.push(anon());
    assert(shape(routes[0].1) =~= prefix + units);
    assert(shape(routes[1].1) =~= prefix + unit);
    assert(shape(routes[2].1) =~= prefix + channels);
    assert(shape(routes[3].1) =~= prefix + channel);
    assert(shape(routes[4].1) =~= prefix + message_types);
    assert(shape(routes[5].1) =~= prefix + message_type);
    assert forall|k: int| 0 <= k < doc.len() implies serves(routes, #[trigger] doc[k].0, doc[k].1) by {
        if k == 0 {
            assert(routes[4].2[0].0 == Method::Get);
        } else if k == 1 {
            assert(routes[4].2[1].0 == Method::Post);
        } else if k == 2 {
            assert(routes[5].2[0].0 == Method::Get);
        } else if k == 3 {
            assert(routes[5].2[1].0 == Method::Put);
        } else if k == 4 {
            assert(routes[5].2[2].0 == Method::Delete);
        } else if k == 5 {
            assert(routes[0].2[0].0 == Method::Get);
        } else if k == 6 {
            assert(routes[0].2[1].0 == Method::Post);
        } else if k == 7 {
            assert(routes[1].2[0].0 == Method::Get);
        } else if k == 8 {
            assert(routes[1].2[1].0 == Method::Put);
        } else if k == 9 {
            assert(routes[1].2[2].0 == Method::Delete);
        } else if k == 10 {
            assert(routes[2].2[0].0 == Method::Get);
        } else if k == 11 {
            assert(routes[2].2[1].0 == Method::Post);
        } else if k == 12 {
            assert(routes[3].2[0].0 == Method::Get);
        } else if k == 13 {
            assert(routes[3].2[1].0 == Method::Put);
        } else {
            assert(routes[3].2[2].0 == Method::Delete);
        }
    }
}

/// Whether the back office answers the method at a path of the shape,
/// under `/api/v1`.
pub open spec fn back_office_serves(m: Method, path: Seq<SegmentView>) -> bool {
    exists|i: int, j: int|
        0 <= i < spec_back_office_order().len()
        && 0 <= j < spec_back_office_handlers(spec_back_office_order()[i]).len()
        && #[trigger] shape(spec_back_office_path(spec_back_office_order()[i])) == seq![lit("api"), lit("v1")] + path
        && #[trigger] spec_back_office_handlers(spec_back_office_order()[i])[j].0 == m
}

/// The back office answers every route that the documentation lists for
/// the message types and the business units, updates by `PUT` among them.
pub proof fn lemma_back_office_serves_documented_routes()
    ensures
        forall|k: int| 0 <= k < 10 ==>
            back_office_serves(#[trigger] spec_documented_routes()[k].0, spec_documented_routes()[k].1),
{
    let doc = spec_documented_routes();
    let order = spec_back_office_order();
    let prefix = seq![lit("api"), lit("v1")];
    let units = seq![lit("business_units")];
    let unit = units.push(anon());
    let message_types = seq![lit("message_types")];
    let message_type = message_types.push(anon());
    assert(order[1] == RouteName::BusinessUnits);
    assert(order[2] == RouteName::BusinessUnit);
    assert(order[3] == RouteName::MessageTypes);
    assert(order[4] == RouteName::MessageType);
    assert(shape(spec_back_office_path(order[1])) =~= prefix + units);
    assert(shape(spec_back_office_path(order[2])) =~= prefix + unit);
    assert(shape(spec_back_office_path(order[3])) =~= prefix + message_types);
    assert(shape(spec_back_office_path(order[4])) =~= prefix + message_type);
    assert forall|k: int| 0 <= k < 10 implies back_office_serves(#[trigger] doc[k].0, doc[k].1) by {
        if k == 0 {
            assert(spec_back_office_handlers(order[3])[0].0 == Method::Get);
        } else if k == 1 {
            assert(spec_back_office_handlers(order[3])[1].0 == Method::Post);
        } else if k == 2 {
            assert(spec_back_office_handlers(order[4])[0].0 == Method::Get);
        } else if k == 3 {
            assert(spec_back_office_handlers(order[4])[1].0 == Method::Put);
        } else if k == 4 {
            assert(spec_back_office_handlers(order[4])[3].0 == Method::Delete);
        } else if k == 5 {
            assert(spec_back_office_handlers(order[1])[0].0 == Method::Get);
        } else if k == 6 {
            assert(spec_back_office_handlers(order[1])[1].0 == Method::Post);
        } else if k == 7 {
            assert(spec_back_office_handlers(order[2])[0].0 == Method::Get);
        } else if k == 8 {
            assert(spec_back_office_handlers(order[2])[1].0 == Method::Put);
        } else {
            assert(spec_back_office_handlers(order[2])[3].0 == Method::Delete);
        }
    }
}

} // verus!
