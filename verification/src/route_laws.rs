use vstd::prelude::*;
use crate::routing::{Method, SegmentView, lit, par};
use crate::api_routes::spec_api_routes;
use crate::service_routes::{
    spec_channel_api_routes, spec_channel_code_routes, spec_health_routes, spec_channels_routes,
    spec_message_type_routes, spec_schema_routes,
};

verus! {

/// The functions that may serve a method: on a collection (or an action
/// route), `GET` lists or checks health and `POST` creates or publishes; on
/// an item, `GET` reads, `PUT` and `PATCH` update and `DELETE` deletes.
pub open spec fn verb_fits(m: Method, item: bool, f: Seq<char>) -> bool {
    match m {
        Method::Get => if item {
            f == "get"@ || f == "find"@ || f == "find_channel"@ || f == "find_message_type"@ || f == "find_schema"@
        } else {
            f == "query"@ || f == "query_channels"@ || f == "query_message_types"@ || f == "query_schemas"@ || f == "health"@
        },
        Method::Post => !item && (f == "create"@ || f == "create_channel"@ || f == "create_message_type"@
            || f == "create_schema"@ || f == "publish_schema"@),
        Method::Put | Method::Patch => item && (f == "update"@ || f == "update_channel"@ || f == "update_message_type"@
            || f == "update_schema"@),
        Method::Delete => item && (f == "delete"@ || f == "delete_channel"@ || f == "delete_message_type"@
            || f == "delete_schema"@),
    }
}

/// The name of a handler: its module or router path, then the function.
pub open spec fn handler_text(prefix: Seq<char>, f: Seq<char>) -> Seq<char> {
    prefix + f
}

/// A path to a module or router: empty, or ending with `::`.
pub open spec fn router_prefix(p: Seq<char>) -> bool {
    p.len() == 0 || (p.len() >= 2 && p[p.len() - 1] == ':' && p[p.len() - 2] == ':')
}

/// A method is served by a function that does what the method asks on a
/// route of that kind.
pub open spec fn serves_by_verb(h: (Method, Seq<char>), item: bool) -> bool {
    exists|p: Seq<char>, f: Seq<char>|
        #![trigger verb_fits(h.0, item, f), handler_text(p, f)]
        verb_fits(h.0, item, f) && handler_text(p, f) == h.1 && router_prefix(p)
}

/// Every method of the public api is served by the function of its kind: the item routes (those ending with an identifier) read, update and delete, the collections list and create.
pub proof fn lemma_api_handlers_fit_their_methods()
    ensures
        forall|i: int, j: int| #![trigger spec_api_routes()[i].2[j]]
            0 <= i < spec_api_routes().len() && 0 <= j < spec_api_routes()[i].2.len() ==>
            serves_by_verb(spec_api_routes()[i].2[j], spec_api_routes()[i].1.last() is Param),
{
    let t = spec_api_routes();
    assert(t.len() == 8);
    assert(t[0].1 =~= seq![lit("api"), lit("v1"), lit("business_units")]);
    reveal_strlit("business_units::routes::query");
    reveal_strlit("business_units::routes::");
    reveal_strlit("query");
    assert(t[0].2[0].1 =~= "business_units::routes::"@ + "query"@);
    assert(verb_fits(t[0].2[0].0, t[0].1.last() is Param, "query"@) && handler_text("business_units::routes::"@, "query"@) == t[0].2[0].1 && router_prefix("business_units::routes::"@));
    reveal_strlit("business_units::routes::create");
    reveal_strlit("business_units::routes::");
    reveal_strlit("create");
    assert(t[0].2[1].1 =~= "business_units::routes::"@ + "create"@);
    assert(verb_fits(t[0].2[1].0, t[0].1.last() is Param, "create"@) && handler_text("business_units::routes::"@, "create"@) == t[0].2[1].1 && router_prefix("business_units::routes::"@));
    assert(t[0].2.len() == 2);
    assert(t[1].1 =~= seq![lit("api"), lit("v1"), lit("business_units"), par("business_unit_id")]);
    reveal_strlit("business_units::routes::get");
    reveal_strlit("business_units::routes::");
    reveal_strlit("get");
    assert(t[1].2[0].1 =~= "business_units::routes::"@ + "get"@);
    assert(verb_fits(t[1].2[0].0, t[1].1.last() is Param, "get"@) && handler_text("business_units::routes::"@, "get"@) == t[1].2[0].1 && router_prefix("business_units::routes::"@));
    reveal_strlit("business_units::routes::update");
    reveal_strlit("business_units::routes::");
    reveal_strlit("update");
    assert(t[1].2[1].1 =~= "business_units::routes::"@ + "update"@);
    assert(verb_fits(t[1].2[1].0, t[1].1.last() is Param, "update"@) && handler_text("business_units::routes::"@, "update"@) == t[1].2[1].1 && router_prefix("business_units::routes::"@));
    reveal_strlit("business_units::routes::delete");
    reveal_strlit("business_units::routes::");
    reveal_strlit("delete");
    assert(t[1].2[2].1 =~= "business_units::routes::"@ + "delete"@);
    assert(verb_fits(t[1].2[2].0, t[1].1.last() is Param, "delete"@) && handler_text("business_units::routes::"@, "delete"@) == t[1].2[2].1 && router_prefix("business_units::routes::"@));
    assert(t[1].2.len() == 3);
    assert(t[2].1 =~= seq![lit("api"), lit("v1"), lit("business_units"), par("business_unit_id"), lit("channels")]);
    reveal_strlit("channels::routes::query");
    reveal_strlit("channels::routes::");
    reveal_strlit("query");
    assert(t[2].2[0].1 =~= "channels::routes::"@ + "query"@);
    assert(verb_fits(t[2].2[0].0, t[2].1.last() is Param, "query"@) && handler_text("channels::routes::"@, "query"@) == t[2].2[0].1 && router_prefix("channels::routes::"@));
    reveal_strlit("channels::routes::create");
    reveal_strlit("channels::routes::");
    reveal_strlit("create");
    assert(t[2].2[1].1 =~= "channels::routes::"@ + "create"@);
    assert(verb_fits(t[2].2[1].0, t[2].1.last() is Param, "create"@) && handler_text("channels::routes::"@, "create"@) == t[2].2[1].1 && router_prefix("channels::routes::"@));
    assert(t[2].2.len() == 2);
    assert(t[3].1 =~= seq![lit("api"), lit("v1"), lit("business_units"), par("business_unit_id"), lit("channels"), par("channel_id")]);
    reveal_strlit("channels::routes::get");
    reveal_strlit("channels::routes::");
    reveal_strlit("get");
    assert(t[3].2[0].1 =~= "channels::routes::"@ + "get"@);
    assert(verb_fits(t[3].2[0].0, t[3].1.last() is Param, "get"@) && handler_text("channels::routes::"@, "get"@) == t[3].2[0].1 && router_prefix("channels::routes::"@));
    reveal_strlit("channels::routes::update");
    reveal_strlit("channels::routes::");
    reveal_strlit("update");
    assert(t[3].2[1].1 =~= "channels::routes::"@ + "update"@);
    assert(verb_fits(t[3].2[1].0, t[3].1.last() is Param, "update"@) && handler_text("channels::routes::"@, "update"@) == t[3].2[1].1 && router_prefix("channels::routes::"@));
    reveal_strlit("channels::routes::delete");
    reveal_strlit("channels::routes::");
    reveal_strlit("delete");
    assert(t[3].2[2].1 =~= "channels::routes::"@ + "delete"@);
    assert(verb_fits(t[3].2[2].0, t[3].1.last() is Param, "delete"@) && handler_text("channels::routes::"@, "delete"@) == t[3].2[2].1 && router_prefix("channels::routes::"@));
    assert(t[3].2.len() == 3);
    assert(t[4].1 =~= seq![lit("api"), lit("v1"), lit("message_types")]);
    reveal_strlit("message_types::routes::query");
    reveal_strlit("message_types::routes::");
    reveal_strlit("query");
    assert(t[4].2[0].1 =~= "message_types::routes::"@ + "query"@);
    assert(verb_fits(t[4].2[0].0, t[4].1.last() is Param, "query"@) && handler_text("message_types::routes::"@, "query"@) == t[4].2[0].1 && router_prefix("message_types::routes::"@));
    reveal_strlit("message_types::routes::create");
    reveal_strlit("message_types::routes::");
    reveal_strlit("create");
    assert(t[4].2[1].1 =~= "message_types::routes::"@ + "create"@);
    assert(verb_fits(t[4].2[1].0, t[4].1.last() is Param, "create"@) && handler_text("message_types::routes::"@, "create"@) == t[4].2[1].1 && router_prefix("message_types::routes::"@));
    assert(t[4].2.len() == 2);
    assert(t[5].1 =~= seq![lit("api"), lit("v1"), lit("message_types"), par("message_type_id")]);
    reveal_strlit("message_types::routes::get");
    reveal_strlit("message_types::routes::");
    reveal_strlit("get");
    assert(t[5].2[0].1 =~= "message_types::routes::"@ + "get"@);
    assert(verb_fits(t[5].2[0].0, t[5].1.last() is Param, "get"@) && handler_text("message_types::routes::"@, "get"@) == t[5].2[0].1 && router_prefix("message_types::routes::"@));
    reveal_strlit("message_types::routes::update");
    reveal_strlit("message_types::routes::");
    reveal_strlit("update");
    assert(t[5].2[1].1 =~= "message_types::routes::"@ + "update"@);
    assert(verb_fits(t[5].2[1].0, t[5].1.last() is Param, "update"@) && handler_text("message_types::routes::"@, "update"@) == t[5].2[1].1 && router_prefix("message_types::routes::"@));
    reveal_strlit("message_types::routes::delete");
    reveal_strlit("message_types::routes::");
    reveal_strlit("delete");
    assert(t[5].2[2].1 =~= "message_types::routes::"@ + "delete"@);
    assert(verb_fits(t[5].2[2].0, t[5].1.last() is Param, "delete"@) && handler_text("message_types::routes::"@, "delete"@) == t[5].2[2].1 && router_prefix("message_types::routes::"@));
    assert(t[5].2.len() == 3);
    assert(t[6].1 =~= seq![lit("api"), lit("v1"), lit("users")]);
    reveal_strlit("users::routes::query");
    reveal_strlit("users::routes::");
    reveal_strlit("query");
    assert(t[6].2[0].1 =~= "users::routes::"@ + "query"@);
    assert(verb_fits(t[6].2[0].0, t[6].1.last() is Param, "query"@) && handler_text("users::routes::"@, "query"@) == t[6].2[0].1 && router_prefix("users::routes::"@));
    reveal_strlit("users::routes::create");
    reveal_strlit("users::routes::");
    reveal_strlit("create");
    assert(t[6].2[1].1 =~= "users::routes::"@ + "create"@);
    assert(verb_fits(t[6].2[1].0, t[6].1.last() is Param, "create"@) && handler_text("users::routes::"@, "create"@) == t[6].2[1].1 && router_prefix("users::routes::"@));
    assert(t[6].2.len() == 2);
    assert(t[7].1 =~= seq![lit("api"), lit("v1"), lit("users"), par("user_id")]);
    reveal_strlit("users::routes::get");
    reveal_strlit("users::routes::");
    reveal_strlit("get");
    assert(t[7].2[0].1 =~= "users::routes::"@ + "get"@);
    assert(verb_fits(t[7].2[0].0, t[7].1.last() is Param, "get"@) && handler_text("users::routes::"@, "get"@) == t[7].2[0].1 && router_prefix("users::routes::"@));
    reveal_strlit("users::routes::update");
    reveal_strlit("users::routes::");
    reveal_strlit("update");
    assert(t[7].2[1].1 =~= "users::routes::"@ + "update"@);
    assert(verb_fits(t[7].2[1].0, t[7].1.last() is Param, "update"@) && handler_text("users::routes::"@, "update"@) == t[7].2[1].1 && router_prefix("users::routes::"@));
    reveal_strlit("users::routes::delete");
    reveal_strlit("users::routes::");
    reveal_strlit("delete");
    assert(t[7].2[2].1 =~= "users::routes::"@ + "delete"@);
    assert(verb_fits(t[7].2[2].0, t[7].1.last() is Param, "delete"@) && handler_text("users::routes::"@, "delete"@) == t[7].2[2].1 && router_prefix("users::routes::"@));
    assert(t[7].2.len() == 3);
}

/// Every method of the channel api is served by the function of its kind.
pub proof fn lemma_channel_api_handlers_fit_their_methods()
    ensures
        forall|i: int, j: int| #![trigger spec_channel_api_routes()[i].2[j]]
            0 <= i < spec_channel_api_routes().len() && 0 <= j < spec_channel_api_routes()[i].2.len() ==>
            serves_by_verb(spec_channel_api_routes()[i].2[j], spec_channel_api_routes()[i].1.last() is Param),
{
    let t = spec_channel_api_routes();
    assert(t.len() == 4);
    assert(t[0].1 =~= seq![lit("api"), lit("v1"), lit("channels")]);
    reveal_strlit("ChannelRouter::query");
    reveal_strlit("ChannelRouter::");
    reveal_strlit("query");
    assert(t[0].2[0].1 =~= "ChannelRouter::"@ + "query"@);
    assert(verb_fits(t[0].2[0].0, t[0].1.last() is Param, "query"@) && handler_text("ChannelRouter::"@, "query"@) == t[0].2[0].1 && router_prefix("ChannelRouter::"@));
    reveal_strlit("ChannelRouter::create_channel");
    reveal_strlit("ChannelRouter::");
    reveal_strlit("create_channel");
    assert(t[0].2[1].1 =~= "ChannelRouter::"@ + "create_channel"@);
    assert(verb_fits(t[0].2[1].0, t[0].1.last() is Param, "create_channel"@) && handler_text("ChannelRouter::"@, "create_channel"@) == t[0].2[1].1 && router_prefix("ChannelRouter::"@));
    assert(t[0].2.len() == 2);
    assert(t[1].1 =~= seq![lit("api"), lit("v1"), lit("channels"), par("channel_id")]);
    reveal_strlit("ChannelRouter::find_channel");
    reveal_strlit("ChannelRouter::");
    reveal_strlit("find_channel");
    assert(t[1].2[0].1 =~= "ChannelRouter::"@ + "find_channel"@);
    assert(verb_fits(t[1].2[0].0, t[1].1.last() is Param, "find_channel"@) && handler_text("ChannelRouter::"@, "find_channel"@) == t[1].2[0].1 && router_prefix("ChannelRouter::"@));
    reveal_strlit("ChannelRouter::update");
    reveal_strlit("ChannelRouter::");
    reveal_strlit("update");
    assert(t[1].2[1].1 =~= "ChannelRouter::"@ + "update"@);
    assert(verb_fits(t[1].2[1].0, t[1].1.last() is Param, "update"@) && handler_text("ChannelRouter::"@, "update"@) == t[1].2[1].1 && router_prefix("ChannelRouter::"@));
    reveal_strlit("ChannelRouter::delete");
    reveal_strlit("ChannelRouter::");
    reveal_strlit("delete");
    assert(t[1].2[2].1 =~= "ChannelRouter::"@ + "delete"@);
    assert(verb_fits(t[1].2[2].0, t[1].1.last() is Param, "delete"@) && handler_text("ChannelRouter::"@, "delete"@) == t[1].2[2].1 && router_prefix("ChannelRouter::"@));
    assert(t[1].2.len() == 3);
    assert(t[2].1 =~= seq![lit("api"), lit("v1"), lit("channels"), par("channel_id"), lit("message_types")]);
    reveal_strlit("MessageTypeRouter::query");
    reveal_strlit("MessageTypeRouter::");
    reveal_strlit("query");
    assert(t[2].2[0].1 =~= "MessageTypeRouter::"@ + "query"@);
    assert(verb_fits(t[2].2[0].0, t[2].1.last() is Param, "query"@) && handler_text("MessageTypeRouter::"@, "query"@) == t[2].2[0].1 && router_prefix("MessageTypeRouter::"@));
    reveal_strlit("MessageTypeRouter::create");
    reveal_strlit("MessageTypeRouter::");
    reveal_strlit("create");
    assert(t[2].2[1].1 =~= "MessageTypeRouter::"@ + "create"@);
    assert(verb_fits(t[2].2[1].0, t[2].1.last() is Param, "create"@) && handler_text("MessageTypeRouter::"@, "create"@) == t[2].2[1].1 && router_prefix("MessageTypeRouter::"@));
    assert(t[2].2.len() == 2);
    assert(t[3].1 =~= seq![lit("api"), lit("v1"), lit("channels"), par("channel_id"), lit("message_types"), par("message_type_id")]);
    reveal_strlit("MessageTypeRouter::find");
    reveal_strlit("MessageTypeRouter::");
    reveal_strlit("find");
    assert(t[3].2[0].1 =~= "MessageTypeRouter::"@ + "find"@);
    assert(verb_fits(t[3].2[0].0, t[3].1.last() is Param, "find"@) && handler_text("MessageTypeRouter::"@, "find"@) == t[3].2[0].1 && router_prefix("MessageTypeRouter::"@));
    reveal_strlit("MessageTypeRouter::update");
    reveal_strlit("MessageTypeRouter::");
    reveal_strlit("update");
    assert(t[3].2[1].1 =~= "MessageTypeRouter::"@ + "update"@);
    assert(verb_fits(t[3].2[1].0, t[3].1.last() is Param, "update"@) && handler_text("MessageTypeRouter::"@, "update"@) == t[3].2[1].1 && router_prefix("MessageTypeRouter::"@));
    reveal_strlit("MessageTypeRouter::delete");
    reveal_strlit("MessageTypeRouter::");
    reveal_strlit("delete");
    assert(t[3].2[2].1 =~= "MessageTypeRouter::"@ + "delete"@);
    assert(verb_fits(t[3].2[2].0, t[3].1.last() is Param, "delete"@) && handler_text("MessageTypeRouter::"@, "delete"@) == t[3].2[2].1 && router_prefix("MessageTypeRouter::"@));
    assert(t[3].2.len() == 3);
}

/// Every method of the channels by code is served by the function of its kind.
pub proof fn lemma_channel_code_handlers_fit_their_methods()
    ensures
        forall|i: int, j: int| #![trigger spec_channel_code_routes()[i].2[j]]
            0 <= i < spec_channel_code_routes().len() && 0 <= j < spec_channel_code_routes()[i].2.len() ==>
            serves_by_verb(spec_channel_code_routes()[i].2[j], spec_channel_code_routes()[i].1.last() is Param),
{
    let t = spec_channel_code_routes();
    assert(t.len() == 2);
    assert(t[0].1 =~= seq![lit("v1"), lit("channels")]);
    reveal_strlit("ChannelRouter::create_channel");
    reveal_strlit("ChannelRouter::");
    reveal_strlit("create_channel");
    assert(t[0].2[0].1 =~= "ChannelRouter::"@ + "create_channel"@);
    assert(verb_fits(t[0].2[0].0, t[0].1.last() is Param, "create_channel"@) && handler_text("ChannelRouter::"@, "create_channel"@) == t[0].2[0].1 && router_prefix("ChannelRouter::"@));
    reveal_strlit("ChannelRouter::query");
    reveal_strlit("ChannelRouter::");
    reveal_strlit("query");
    assert(t[0].2[1].1 =~= "ChannelRouter::"@ + "query"@);
    assert(verb_fits(t[0].2[1].0, t[0].1.last() is Param, "query"@) && handler_text("ChannelRouter::"@, "query"@) == t[0].2[1].1 && router_prefix("ChannelRouter::"@));
    assert(t[0].2.len() == 2);
    assert(t[1].1 =~= seq![lit("v1"), lit("channels"), par("channel_code")]);
    reveal_strlit("ChannelRouter::find_channel");
    reveal_strlit("ChannelRouter::");
    reveal_strlit("find_channel");
    assert(t[1].2[0].1 =~= "ChannelRouter::"@ + "find_channel"@);
    assert(verb_fits(t[1].2[0].0, t[1].1.last() is Param, "find_channel"@) && handler_text("ChannelRouter::"@, "find_channel"@) == t[1].2[0].1 && router_prefix("ChannelRouter::"@));
    reveal_strlit("ChannelRouter::update");
    reveal_strlit("ChannelRouter::");
    reveal_strlit("update");
    assert(t[1].2[1].1 =~= "ChannelRouter::"@ + "update"@);
    assert(verb_fits(t[1].2[1].0, t[1].1.last() is Param, "update"@) && handler_text("ChannelRouter::"@, "update"@) == t[1].2[1].1 && router_prefix("ChannelRouter::"@));
    reveal_strlit("ChannelRouter::delete");
    reveal_strlit("ChannelRouter::");
    reveal_strlit("delete");
    assert(t[1].2[2].1 =~= "ChannelRouter::"@ + "delete"@);
    assert(verb_fits(t[1].2[2].0, t[1].1.last() is Param, "delete"@) && handler_text("ChannelRouter::"@, "delete"@) == t[1].2[2].1 && router_prefix("ChannelRouter::"@));
    assert(t[1].2.len() == 3);
}

/// The health check is answered by the health function.
pub proof fn lemma_health_handler_fits()
    ensures
        forall|i: int, j: int| #![trigger spec_health_routes()[i].1[j]]
            0 <= i < spec_health_routes().len() && 0 <= j < spec_health_routes()[i].1.len() ==>
            serves_by_verb(spec_health_routes()[i].1[j], spec_health_routes()[i].0.last() is Param),
{
    let t = spec_health_routes();
    assert(t.len() == 1);
    assert(t[0].0 =~= seq![lit("health")]);
    reveal_strlit("HealthRouter::health");
    reveal_strlit("HealthRouter::");
    reveal_strlit("health");
    assert(t[0].1[0].1 =~= "HealthRouter::"@ + "health"@);
    assert(verb_fits(t[0].1[0].0, t[0].0.last() is Param, "health"@) && handler_text("HealthRouter::"@, "health"@) == t[0].1[0].1 && router_prefix("HealthRouter::"@));
    assert(t[0].1.len() == 1);
}

/// Every method of the channels by identifier is served by the function of its kind.
pub proof fn lemma_channels_handlers_fit_their_methods()
    ensures
        forall|i: int, j: int| #![trigger spec_channels_routes()[i].1[j]]
            0 <= i < spec_channels_routes().len() && 0 <= j < spec_channels_routes()[i].1.len() ==>
            serves_by_verb(spec_channels_routes()[i].1[j], spec_channels_routes()[i].0.last() is Param),
{
    let t = spec_channels_routes();
    assert(t.len() == 2);
    assert(t[0].0 =~= seq![lit("v1"), lit("channels")]);
    reveal_strlit("query_channels");
    reveal_strlit("query_channels");
    assert(t[0].1[0].1 =~= Seq::<char>::empty() + "query_channels"@);
    assert(verb_fits(t[0].1[0].0, t[0].0.last() is Param, "query_channels"@) && handler_text(Seq::<char>::empty(), "query_channels"@) == t[0].1[0].1 && router_prefix(Seq::<char>::empty()));
    reveal_strlit("create_channel");
    reveal_strlit("create_channel");
    assert(t[0].1[1].1 =~= Seq::<char>::empty() + "create_channel"@);
    assert(verb_fits(t[0].1[1].0, t[0].0.last() is Param, "create_channel"@) && handler_text(Seq::<char>::empty(), "create_channel"@) == t[0].1[1].1 && router_prefix(Seq::<char>::empty()));
    assert(t[0].1.len() == 2);
    assert(t[1].0 =~= seq![lit("v1"), lit("channels"), par("channel_id")]);
    reveal_strlit("find_channel");
    reveal_strlit("find_channel");
    assert(t[1].1[0].1 =~= Seq::<char>::empty() + "find_channel"@);
    assert(verb_fits(t[1].1[0].0, t[1].0.last() is Param, "find_channel"@) && handler_text(Seq::<char>::empty(), "find_channel"@) == t[1].1[0].1 && router_prefix(Seq::<char>::empty()));
    reveal_strlit("update_channel");
    reveal_strlit("update_channel");
    assert(t[1].1[1].1 =~= Seq::<char>::empty() + "update_channel"@);
    assert(verb_fits(t[1].1[1].0, t[1].0.last() is Param, "update_channel"@) && handler_text(Seq::<char>::empty(), "update_channel"@) == t[1].1[1].1 && router_prefix(Seq::<char>::empty()));
    reveal_strlit("delete_channel");
    reveal_strlit("delete_channel");
    assert(t[1].1[2].1 =~= Seq::<char>::empty() + "delete_channel"@);
    assert(verb_fits(t[1].1[2].0, t[1].0.last() is Param, "delete_channel"@) && handler_text(Seq::<char>::empty(), "delete_channel"@) == t[1].1[2].1 && router_prefix(Seq::<char>::empty()));
    assert(t[1].1.len() == 3);
}

/// Every method of the message types of a channel is served by the function of its kind.
pub proof fn lemma_message_type_handlers_fit_their_methods()
    ensures
        forall|i: int, j: int| #![trigger spec_message_type_routes()[i].1[j]]
            0 <= i < spec_message_type_routes().len() && 0 <= j < spec_message_type_routes()[i].1.len() ==>
            serves_by_verb(spec_message_type_routes()[i].1[j], spec_message_type_routes()[i].0.last() is Param),
{
    let t = spec_message_type_routes();
    assert(t.len() == 2);
    assert(t[0].0 =~= seq![lit("v1"), lit("channels"), par("channel_id"), lit("message_types")]);
    reveal_strlit("MessageTypeRouter::query_message_types");
    reveal_strlit("MessageTypeRouter::");
    reveal_strlit("query_message_types");
    assert(t[0].1[0].1 =~= "MessageTypeRouter::"@ + "query_message_types"@);
    assert(verb_fits(t[0].1[0].0, t[0].0.last() is Param, "query_message_types"@) && handler_text("MessageTypeRouter::"@, "query_message_types"@) == t[0].1[0].1 && router_prefix("MessageTypeRouter::"@));
    reveal_strlit("MessageTypeRouter::create_message_type");
    reveal_strlit("MessageTypeRouter::");
    reveal_strlit("create_message_type");
    assert(t[0].1[1].1 =~= "MessageTypeRouter::"@ + "create_message_type"@);
    assert(verb_fits(t[0].1[1].0, t[0].0.last() is Param, "create_message_type"@) && handler_text("MessageTypeRouter::"@, "create_message_type"@) == t[0].1[1].1 && router_prefix("MessageTypeRouter::"@));
    assert(t[0].1.len() == 2);
    assert(t[1].0 =~= seq![lit("v1"), lit("channels"), par("channel_id"), lit("message_types"), par("message_type_id")]);
    reveal_strlit("MessageTypeRouter::find_message_type");
    reveal_strlit("MessageTypeRouter::");
    reveal_strlit("find_message_type");
    assert(t[1].1[0].1 =~= "MessageTypeRouter::"@ + "find_message_type"@);
    assert(verb_fits(t[1].1[0].0, t[1].0.last() is Param, "find_message_type"@) && handler_text("MessageTypeRouter::"@, "find_message_type"@) == t[1].1[0].1 && router_prefix("MessageTypeRouter::"@));
    reveal_strlit("MessageTypeRouter::update_message_type");
    reveal_strlit("MessageTypeRouter::");
    reveal_strlit("update_message_type");
    assert(t[1].1[1].1 =~= "MessageTypeRouter::"@ + "update_message_type"@);
    assert(verb_fits(t[1].1[1].0, t[1].0.last() is Param, "update_message_type"@) && handler_text("MessageTypeRouter::"@, "update_message_type"@) == t[1].1[1].1 && router_prefix("MessageTypeRouter::"@));
    reveal_strlit("MessageTypeRouter::delete_message_type");
    reveal_strlit("MessageTypeRouter::");
    reveal_strlit("delete_message_type");
    assert(t[1].1[2].1 =~= "MessageTypeRouter::"@ + "delete_message_type"@);
    assert(verb_fits(t[1].1[2].0, t[1].0.last() is Param, "delete_message_type"@) && handler_text("MessageTypeRouter::"@, "delete_message_type"@) == t[1].1[2].1 && router_prefix("MessageTypeRouter::"@));
    assert(t[1].1.len() == 3);
}

/// Every method of the schema versions is served by the function of its kind; publishing is a `POST` on its own action route.
pub proof fn lemma_schema_handlers_fit_their_methods()
    ensures
        forall|i: int, j: int| #![trigger spec_schema_routes()[i].1[j]]
            0 <= i < spec_schema_routes().len() && 0 <= j < spec_schema_routes()[i].1.len() ==>
            serves_by_verb(spec_schema_routes()[i].1[j], spec_schema_routes()[i].0.last() is Param),
{
    let t = spec_schema_routes();
    assert(t.len() == 3);
    assert(t[0].0 =~= seq![lit("v1"), lit("channels"), par("channel_id"), lit("message_types"), par("message_type_id"), lit("schemas")]);
    reveal_strlit("SchemaRouter::query_schemas");
    reveal_strlit("SchemaRouter::");
    reveal_strlit("query_schemas");
    assert(t[0].1[0].1 =~= "SchemaRouter::"@ + "query_schemas"@);
    assert(verb_fits(t[0].1[0].0, t[0].0.last() is Param, "query_schemas"@) && handler_text("SchemaRouter::"@, "query_schemas"@) == t[0].1[0].1 && router_prefix("SchemaRouter::"@));
    reveal_strlit("SchemaRouter::create_schema");
    reveal_strlit("SchemaRouter::");
    reveal_strlit("create_schema");
    assert(t[0].1[1].1 =~= "SchemaRouter::"@ + "create_schema"@);
    assert(verb_fits(t[0].1[1].0, t[0].0.last() is Param, "create_schema"@) && handler_text("SchemaRouter::"@, "create_schema"@) == t[0].1[1].1 && router_prefix("SchemaRouter::"@));
    assert(t[0].1.len() == 2);
    assert(t[1].0 =~= seq![lit("v1"), lit("channels"), par("channel_id"), lit("message_types"), par("message_type_id"), lit("schemas"), par("version")]);
    reveal_strlit("SchemaRouter::find_schema");
    reveal_strlit("SchemaRouter::");
    reveal_strlit("find_schema");
    assert(t[1].1[0].1 =~= "SchemaRouter::"@ + "find_schema"@);
    assert(verb_fits(t[1].1[0].0, t[1].0.last() is Param, "find_schema"@) && handler_text("SchemaRouter::"@, "find_schema"@) == t[1].1[0].1 && router_prefix("SchemaRouter::"@));
    reveal_strlit("SchemaRouter::update_schema");
    reveal_strlit("SchemaRouter::");
    reveal_strlit("update_schema");
    assert(t[1].1[1].1 =~= "SchemaRouter::"@ + "update_schema"@);
    assert(verb_fits(t[1].1[1].0, t[1].0.last() is Param, "update_schema"@) && handler_text("SchemaRouter::"@, "update_schema"@) == t[1].1[1].1 && router_prefix("SchemaRouter::"@));
    reveal_strlit("SchemaRouter::delete_schema");
    reveal_strlit("SchemaRouter::");
    reveal_strlit("delete_schema");
    assert(t[1].1[2].1 =~= "SchemaRouter::"@ + "delete_schema"@);
    assert(verb_fits(t[1].1[2].0, t[1].0.last() is Param, "delete_schema"@) && handler_text("SchemaRouter::"@, "delete_schema"@) == t[1].1[2].1 && router_prefix("SchemaRouter::"@));
    assert(t[1].1.len() == 3);
    assert(t[2].0 =~= seq![lit("v1"), lit("channels"), par("channel_id"), lit("message_types"), par("message_type_id"), lit("schemas"), par("version"), lit("publish")]);
    reveal_strlit("SchemaRouter::publish_schema");
    reveal_strlit("SchemaRouter::");
    reveal_strlit("publish_schema");
    assert(t[2].1[0].1 =~= "SchemaRouter::"@ + "publish_schema"@);
    assert(verb_fits(t[2].1[0].0, t[2].0.last() is Param, "publish_schema"@) && handler_text("SchemaRouter::"@, "publish_schema"@) == t[2].1[0].1 && router_prefix("SchemaRouter::"@));
    assert(t[2].1.len() == 1);
}

} // verus!
