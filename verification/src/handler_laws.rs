use vstd::prelude::*;
use crate::id::Id;
use crate::rest::{
    Channel, MessageType, Schema, ChannelResource, MessageTypeResource, SchemaResource,
    CreateMessageTypeRequest, UpdateMessageTypeRequest, UpdateSchemaRequest, MessageTypePath, SchemaPath,
    FindChannelQuery, FindMessageTypeQuery, FindSchemaQuery,
};
use crate::flows::{Handler, Query, Command, Reply, StepView, BodyView};
use crate::message_type_router::{MessageTypeHandler, MessageTypeStepView, MessageTypeQuery, MessageTypeAnswer};
use crate::guarded_routes::GuardedHandler;
use crate::channel_router::{
    ChannelHandler, ChannelStep, ChannelQueryView, ResourceLinkView, Linkrelation, SingleResource,
    CollectionResource, spec_is_channel_single, spec_is_channel_collection, spec_channel_resume,
};
use crate::hypermedia::ResourceLink;
use vstd::std_specs::convert::FromSpec;
use crate::id::uuid_text;
use crate::rest::{RestErrorView, CommandBusError, spec_channel_not_found, spec_command_text};
use crate::guarded_routes::spec_message_type_not_found;
use crate::channel_router::ApiErrorView;

verus! {

/// A channel as the api shows it has the stored channel's fields.
pub open spec fn keeps_channel(r: ChannelResource, c: Channel) -> bool {
    r.id == c.id && r.code == c.code && r.name == c.name
}

/// A message type as the api shows it has the stored message type's fields.
pub open spec fn keeps_message_type(r: MessageTypeResource, m: MessageType) -> bool {
    &&& r.id == m.id
    &&& r.code == m.code
    &&& r.description == m.description
    &&& r.enabled == m.enabled
    &&& r.channel_id == m.channel_id
}

/// A schema version as the api shows it has the stored version's fields.
pub open spec fn keeps_schema(r: SchemaResource, s: Schema) -> bool {
    r.id == s.id && r.version == s.version && r.schema == s.schema && r.message_type_id == s.message_type_id
}

/// Showing a stored channel, message type or schema version keeps every one
/// of its fields.
pub proof fn lemma_resources_keep_fields(c: Channel, m: MessageType, s: Schema)
    ensures
        keeps_channel(ChannelResource::from_spec(c), c),
        keeps_message_type(MessageTypeResource::from_spec(m), m),
        keeps_schema(SchemaResource::from_spec(s), s),
{
}

/// A listing answers one resource per item that the bus returned, in the
/// bus's order, each with that item's fields, whatever they hold: channels,
/// message types of a channel and schema versions of a message type alike.
pub proof fn lemma_listings_keep_every_item(cs: Vec<Channel>, ms: Vec<MessageType>, ss: Vec<Schema>)
    ensures
        Handler::AwaitChannels.spec_resume(Reply::Channels(Ok(cs))).1 matches StepView::Respond(Ok(BodyView::Channels(r)))
            && r.len() == cs@.len() && forall|i: int| 0 <= i < r.len() ==> keeps_channel(#[trigger] r[i], cs@[i]),
        Handler::AwaitMessageTypes.spec_resume(Reply::MessageTypes(Ok(ms))).1 matches StepView::Respond(Ok(BodyView::MessageTypes(r)))
            && r.len() == ms@.len() && forall|i: int| 0 <= i < r.len() ==> keeps_message_type(#[trigger] r[i], ms@[i]),
        GuardedHandler::AwaitListing.spec_resume(Reply::MessageTypes(Ok(ms))).1 matches StepView::Respond(Ok(BodyView::MessageTypes(r)))
            && r.len() == ms@.len() && forall|i: int| 0 <= i < r.len() ==> keeps_message_type(#[trigger] r[i], ms@[i]),
        Handler::AwaitSchemas.spec_resume(Reply::Schemas(Ok(ss))).1 matches StepView::Respond(Ok(BodyView::Schemas(r)))
            && r.len() == ss@.len() && forall|i: int| 0 <= i < r.len() ==> keeps_schema(#[trigger] r[i], ss@[i]),
{
}

/// A lookup that finds its resource is answered with that resource, every
/// field kept: the channel, message type or schema version behind a path,
/// and the ones read back after a creation or an update.
pub proof fn lemma_found_resource_is_answered(channel_id: Id, c: Channel, m: MessageType, s: Schema)
    ensures
        (Handler::AwaitChannel { channel_id }).spec_resume(Reply::Channel(Ok(Some(c)))).1
            matches StepView::Respond(Ok(BodyView::Channel(r))) && keeps_channel(r, c),
        (Handler::AwaitUpdatedChannel { channel_id }).spec_resume(Reply::Channel(Ok(Some(c)))).1
            matches StepView::Respond(Ok(BodyView::Channel(r))) && keeps_channel(r, c),
        Handler::AwaitCreatedChannel.spec_resume(Reply::Channel(Ok(Some(c)))).1
            matches StepView::Respond(Ok(BodyView::Channel(r))) && keeps_channel(r, c),
        Handler::AwaitMessageType.spec_resume(Reply::MessageType(Ok(Some(m)))).1
            matches StepView::Respond(Ok(BodyView::MessageType(r))) && keeps_message_type(r, m),
        Handler::AwaitCreatedMessageType.spec_resume(Reply::MessageType(Ok(Some(m)))).1
            matches StepView::Respond(Ok(BodyView::MessageType(r))) && keeps_message_type(r, m),
        Handler::AwaitUpdatedMessageType.spec_resume(Reply::MessageType(Ok(Some(m)))).1
            matches StepView::Respond(Ok(BodyView::MessageType(r))) && keeps_message_type(r, m),
        Handler::AwaitSchema.spec_resume(Reply::Schema(Ok(Some(s)))).1
            matches StepView::Respond(Ok(BodyView::Schema(r))) && keeps_schema(r, s),
        Handler::AwaitCreatedSchema.spec_resume(Reply::Schema(Ok(Some(s)))).1
            matches StepView::Respond(Ok(BodyView::Schema(r))) && keeps_schema(r, s),
        Handler::AwaitUpdatedSchema.spec_resume(Reply::Schema(Ok(Some(s)))).1
            matches StepView::Respond(Ok(BodyView::Schema(r))) && keeps_schema(r, s),
        (GuardedHandler::AwaitFound { message_type_id: m.id }).spec_resume(Reply::MessageType(Ok(Some(m)))).1
            matches StepView::Respond(Ok(BodyView::MessageType(r))) && keeps_message_type(r, m),
        (GuardedHandler::AwaitSystemChannel { channel_id }).spec_resume(Reply::Channel(Ok(Some(c)))).1
            matches StepView::Respond(Ok(BodyView::Channel(r))) && keeps_channel(r, c),
{
}

/// An update sends what the request asks for: the found resource's
/// identifier with the request's description and enabled flag, or with the
/// request's schema, never the stored values.
pub proof fn lemma_updates_send_the_request(
    path: MessageTypePath,
    change: UpdateMessageTypeRequest,
    schema_path: SchemaPath,
    replacement: UpdateSchemaRequest,
    m: MessageType,
    s: Schema,
    channel_id: Id,
    message_type_id: Id,
    description: String,
    enabled: bool,
)
    ensures
        (Handler::AwaitMessageTypeToUpdate { message_type_path: path, change }).spec_resume(Reply::MessageType(Ok(Some(m)))).1
            == StepView::Command(Command::UpdateMessageType {
                message_type_id: m.id,
                description: change.description,
                enabled: change.enabled,
            }),
        (Handler::AwaitSchemaToUpdate { schema_path, replacement }).spec_resume(Reply::Schema(Ok(Some(s)))).1
            == StepView::Command(Command::UpdateSchema { schema_id: s.id, schema: replacement.schema }),
        (MessageTypeHandler::AwaitMessageTypeToUpdate { channel_id, message_type_id, description, enabled })
            .spec_resume(Reply::MessageType(Ok(Some(m)))).1
            == MessageTypeStepView::Command(Command::UpdateMessageType { message_type_id: m.id, description, enabled }),
        (GuardedHandler::AwaitToUpdate {
            channel_id,
            message_type_id,
            change: UpdateMessageTypeRequest { description, enabled },
        }).spec_resume(Reply::MessageType(Ok(Some(m)))).1
            == StepView::Command(Command::UpdateMessageType { message_type_id, description, enabled }),
{
}

/// After a change is carried out, the handler reads back the resource that
/// its path names, and no other: the same channel, message type or schema
/// version.
pub proof fn lemma_updates_read_back_the_path(
    path: MessageTypePath,
    schema_path: SchemaPath,
    channel_id: Id,
    message_type_id: Id,
)
    ensures
        (Handler::AwaitChannelUpdate { channel_id }).spec_resume(Reply::Executed(Ok(()))).1
            == StepView::Query(Query::FindChannel(FindChannelQuery { channel_id })),
        (Handler::AwaitMessageTypeUpdate { message_type_path: path }).spec_resume(Reply::Executed(Ok(()))).1
            == StepView::Query(Query::FindMessageType(FindMessageTypeQuery {
                message_type_id: path.message_type_id,
                channel_id: Some(path.channel_id),
            })),
        (Handler::AwaitSchemaUpdate { schema_path }).spec_resume(Reply::Executed(Ok(()))).1
            == StepView::Query(Query::FindSchema(FindSchemaQuery {
                message_type_id: schema_path.message_type_id,
                channel_id: schema_path.channel_id,
                version: schema_path.schema_id,
            })),
        (MessageTypeHandler::AwaitMessageTypeUpdate { channel_id, message_type_id }).spec_resume(Reply::Executed(Ok(()))).1
            == MessageTypeStepView::Query(MessageTypeQuery::FindChannelMessageType { channel_id, message_type_id }),
        (GuardedHandler::AwaitUpdate { channel_id, message_type_id }).spec_resume(Reply::Executed(Ok(()))).1
            == StepView::Query(Query::FindMessageType(FindMessageTypeQuery { message_type_id, channel_id: Some(channel_id) })),
        (GuardedHandler::AwaitSystemUpdate { channel_id }).spec_resume(Reply::Executed(Ok(()))).1
            == StepView::Query(Query::FindChannel(FindChannelQuery { channel_id })),
{
}

/// After a creation, the handler reads back the resource it created, by
/// the fresh identifier it was given.
pub proof fn lemma_creations_read_back_the_new_resource(channel_id: Id, message_type_id: Id, schema_id: Id)
    ensures
        (Handler::AwaitChannelCreation { channel_id }).spec_resume(Reply::Executed(Ok(()))).1
            == StepView::Query(Query::FindChannel(FindChannelQuery { channel_id })),
        (Handler::AwaitMessageTypeCreation { channel_id, message_type_id }).spec_resume(Reply::Executed(Ok(()))).1
            == StepView::Query(Query::FindMessageType(FindMessageTypeQuery { message_type_id, channel_id: Some(channel_id) })),
        (Handler::AwaitSchemaCreation { channel_id, message_type_id, schema_id }).spec_resume(Reply::Executed(Ok(()))).1
            == StepView::Query(Query::FindSchema(FindSchemaQuery { message_type_id, channel_id, version: schema_id })),
        (MessageTypeHandler::AwaitMessageTypeCreation { channel_id, message_type_id }).spec_resume(Reply::Executed(Ok(()))).1
            == MessageTypeStepView::Query(MessageTypeQuery::FindMessageType { message_type_id }),
        (GuardedHandler::AwaitCreation { channel_id, message_type_id }).spec_resume(Reply::Executed(Ok(()))).1
            == StepView::Query(Query::FindMessageType(FindMessageTypeQuery { message_type_id, channel_id: Some(channel_id) })),
        (GuardedHandler::AwaitSystemCreation { channel_id }).spec_resume(Reply::Executed(Ok(()))).1
            == StepView::Query(Query::FindChannel(FindChannelQuery { channel_id })),
{
}

/// A creation sends the request's fields with the fresh identifier, in the
/// channel that was found (or, behind a guard, the channel of the path).
pub proof fn lemma_creations_send_the_request(channel_id: Id, message_type_id: Id, code: String, description: String, c: Channel)
    ensures
        (MessageTypeHandler::AwaitCreationChannel { channel_id, message_type_id, code, description })
            .spec_resume(Reply::Channel(Ok(Some(c)))).1
            == MessageTypeStepView::Command(Command::CreateMessageType { message_type_id, code, description, channel_id: c.id }),
        (GuardedHandler::AwaitGuardForCreation {
            channel_id,
            message_type_id,
            creation: CreateMessageTypeRequest { code, description },
        }).spec_resume(Reply::Channel(Ok(Some(c)))).1
            == StepView::Command(Command::CreateMessageType { message_type_id, code, description, channel_id }),
{
}

/// A deletion removes the resource that its lookup found, by that
/// resource's identifier.
pub proof fn lemma_deletions_remove_what_was_found(m: MessageType, s: Schema, message_type_id: Id)
    ensures
        Handler::AwaitMessageTypeToDelete.spec_resume(Reply::MessageType(Ok(Some(m)))).1
            == StepView::Command(Command::DeleteMessageType { message_type_id: m.id }),
        Handler::AwaitSchemaToDelete.spec_resume(Reply::Schema(Ok(Some(s)))).1
            == StepView::Command(Command::DeleteSchema { schema_id: s.id }),
        (MessageTypeHandler::AwaitMessageTypeToDelete { message_type_id }).spec_resume(Reply::MessageType(Ok(Some(m)))).1
            == MessageTypeStepView::Command(Command::DeleteMessageType { message_type_id: m.id }),
        (GuardedHandler::AwaitToDelete { message_type_id }).spec_resume(Reply::MessageType(Ok(Some(m)))).1
            == StepView::Command(Command::DeleteMessageType { message_type_id }),
{
}

/// The message type handlers answer with what the bus gave: the listed
/// message types exactly as returned with the channel they belong to, the
/// found message type as found, and a new one with a link to it in the
/// channel of the request.
pub proof fn lemma_message_type_answers_are_the_bus_values(
    channel_id: Id,
    message_type_id: Id,
    c: Channel,
    ms: Vec<MessageType>,
    m: MessageType,
)
    ensures
        (MessageTypeHandler::AwaitMessageTypeList { channel: c }).spec_resume(Reply::MessageTypes(Ok(ms))).1
            == MessageTypeStepView::Respond(Ok(MessageTypeAnswer::Collection { channel: c, message_types: ms })),
        (MessageTypeHandler::AwaitFoundMessageType { channel_id }).spec_resume(Reply::MessageType(Ok(Some(m)))).1
            == MessageTypeStepView::Respond(Ok(MessageTypeAnswer::Single(m))),
        (MessageTypeHandler::AwaitUpdatedMessageType { message_type_id }).spec_resume(Reply::MessageType(Ok(Some(m)))).1
            == MessageTypeStepView::Respond(Ok(MessageTypeAnswer::Single(m))),
        (MessageTypeHandler::AwaitCreatedMessageType { channel_id }).spec_resume(Reply::MessageType(Ok(Some(m)))).1
            == MessageTypeStepView::Respond(Ok(MessageTypeAnswer::Created {
                link: ResourceLink::MessageType(channel_id, m.id),
                message_type: m,
            })),
        (MessageTypeHandler::AwaitListedChannel { channel_id }).spec_resume(Reply::Channel(Ok(Some(c)))).1
            == MessageTypeStepView::Query(MessageTypeQuery::QueryMessageTypes { channel_id: c.id }),
{
}

/// A channel resource carries the channel's code and name, a self link to
/// the channel by its code and a link to the channels; a channel listing
/// has one such resource per channel, in order, and a self link to the
/// channels.
pub proof fn lemma_channel_bodies(
    r: SingleResource<crate::channel_router::ChannelResource>,
    c: Channel,
    v: Seq<Channel>,
    col: CollectionResource<crate::channel_router::ChannelResource>,
)
    ensures
        spec_is_channel_single(r, c) ==> {
            &&& r.data.code == c.code
            &&& r.data.name == c.name
            &&& r.links@.contains_key(Linkrelation::Self_) && r.links@[Linkrelation::Self_] == ResourceLinkView::Channel(c.code@)
            &&& r.links@.contains_key(Linkrelation::Channels) && r.links@[Linkrelation::Channels] == ResourceLinkView::Channels
            &&& r.links@.dom().len() == 2
        },
        spec_is_channel_collection(col, v) ==> {
            &&& col.data@.len() == v.len()
            &&& forall|i: int| 0 <= i < v.len() ==> (#[trigger] col.data@[i]).data.code == v[i].code && col.data@[i].data.name == v[i].name
            &&& col.links@.contains_key(Linkrelation::Self_) && col.links@[Linkrelation::Self_] == ResourceLinkView::Channels
        },
{
    if spec_is_channel_single(r, c) {
        let m = Map::<Linkrelation, ResourceLinkView>::empty()
            .insert(Linkrelation::Self_, ResourceLinkView::Channel(c.code@))
            .insert(Linkrelation::Channels, ResourceLinkView::Channels);
        assert(m.dom() =~= set![Linkrelation::Self_, Linkrelation::Channels]);
        assert(set![Linkrelation::Self_, Linkrelation::Channels].len() == 2) by {
            assert(set![Linkrelation::Self_].insert(Linkrelation::Channels) =~= set![Linkrelation::Self_, Linkrelation::Channels]);
        }
    }
}

/// The channel handlers by code change the channel that their lookup found:
/// an update renames it to the request's name, a deletion removes it, both
/// by its identifier; after a rename the channel is read back by the code
/// of the request.
pub proof fn lemma_channel_changes_send_the_request(code: String, name: String, c: Channel, next: ChannelHandler, step: ChannelStep)
    ensures
        spec_channel_resume(ChannelHandler::AwaitChannelToUpdate { code, name }, Reply::Channel(Ok(Some(c))), next, step)
            ==> step == ChannelStep::Command(Command::UpdateChannel { channel_id: c.id, name }),
        spec_channel_resume(ChannelHandler::AwaitChannelToDelete { code }, Reply::Channel(Ok(Some(c))), next, step)
            ==> step == ChannelStep::Command(Command::DeleteChannel { channel_id: c.id }),
        spec_channel_resume(ChannelHandler::AwaitUpdate { code }, Reply::Executed(Ok(())), next, step)
            ==> (step matches ChannelStep::Query(q) && q@ == ChannelQueryView::FindChannelByCode(code@)),
        spec_channel_resume(ChannelHandler::AwaitCreation { code }, Reply::Executed(Ok(())), next, step)
            ==> (step matches ChannelStep::Query(q) && q@ == ChannelQueryView::FindChannelByCode(code@)),
{
}

/// A listing looks in the parent that its lookup found: the message types
/// of the found channel, the schema versions of the found message type, or,
/// behind a guard, the message types of the channel of the path.
pub proof fn lemma_listings_look_in_the_found_parent(channel_id: Id, c: Channel, m: MessageType)
    ensures
        Handler::AwaitListingChannel.spec_resume(Reply::Channel(Ok(Some(c))))
            == (Handler::AwaitMessageTypes, StepView::Query(Query::QueryMessageTypes { channel_id: c.id })),
        Handler::AwaitListingMessageType.spec_resume(Reply::MessageType(Ok(Some(m))))
            == (Handler::AwaitSchemas, StepView::Query(Query::QuerySchemas { message_type_id: m.id })),
        (GuardedHandler::AwaitGuardForListing { channel_id }).spec_resume(Reply::Channel(Ok(Some(c))))
            == (GuardedHandler::AwaitListing, StepView::Query(Query::QueryMessageTypes { channel_id })),
{
}

/// A deletion that the bus carried out is answered with an empty body.
pub proof fn lemma_completed_deletions_answer_empty()
    ensures
        Handler::AwaitChannelDeletion.spec_resume(Reply::Executed(Ok(()))) == (Handler::Finished, StepView::Respond(Ok(BodyView::Empty))),
        Handler::AwaitMessageTypeDeletion.spec_resume(Reply::Executed(Ok(())))
            == (Handler::Finished, StepView::Respond(Ok(BodyView::Empty))),
        Handler::AwaitSchemaDeletion.spec_resume(Reply::Executed(Ok(()))) == (Handler::Finished, StepView::Respond(Ok(BodyView::Empty))),
        GuardedHandler::AwaitDeletion.spec_resume(Reply::Executed(Ok(())))
            == (GuardedHandler::Finished, StepView::Respond(Ok(BodyView::Empty))),
        MessageTypeHandler::AwaitMessageTypeDeletion.spec_resume(Reply::Executed(Ok(())))
            == (MessageTypeHandler::Finished, MessageTypeStepView::Respond(Ok(MessageTypeAnswer::Empty))),
{
}

/// A channel or message type that the path names and the lookup misses is
/// answered "not found" by a message that names the path's identifier.
pub proof fn lemma_missing_resources_are_named(channel_id: Id, message_type_id: Id)
    ensures
        (Handler::AwaitChannel { channel_id }).spec_resume(Reply::Channel(Ok(None)))
            == (Handler::Finished, StepView::Respond(Err(RestErrorView::NotFound(spec_channel_not_found(channel_id))))),
        (Handler::AwaitUpdatedChannel { channel_id }).spec_resume(Reply::Channel(Ok(None)))
            == (Handler::Finished, StepView::Respond(Err(RestErrorView::NotFound(spec_channel_not_found(channel_id))))),
        (GuardedHandler::AwaitGuardForListing { channel_id }).spec_resume(Reply::Channel(Ok(None)))
            == (GuardedHandler::Finished, StepView::Respond(Err(RestErrorView::NotFound(spec_channel_not_found(channel_id))))),
        (GuardedHandler::AwaitSystemChannel { channel_id }).spec_resume(Reply::Channel(Ok(None)))
            == (GuardedHandler::Finished, StepView::Respond(Err(RestErrorView::NotFound(spec_channel_not_found(channel_id))))),
        (GuardedHandler::AwaitFound { message_type_id }).spec_resume(Reply::MessageType(Ok(None)))
            == (GuardedHandler::Finished, StepView::Respond(Err(RestErrorView::NotFound(spec_message_type_not_found(message_type_id))))),
        (GuardedHandler::AwaitToDelete { message_type_id }).spec_resume(Reply::MessageType(Ok(None)))
            == (GuardedHandler::Finished, StepView::Respond(Err(RestErrorView::NotFound(spec_message_type_not_found(message_type_id))))),
        (MessageTypeHandler::AwaitListedChannel { channel_id }).spec_resume(Reply::Channel(Ok(None)))
            == (MessageTypeHandler::Finished, MessageTypeStepView::Respond(Err(ApiErrorView::ChannelNotFound(uuid_text(channel_id.value))))),
{
}

/// A channel that the system fails to create is answered as unprocessable,
/// with the text of the refusal.
pub proof fn lemma_refused_system_creation_is_unprocessable(channel_id: Id, e: CommandBusError)
    ensures
        (GuardedHandler::AwaitSystemCreation { channel_id }).spec_resume(Reply::Executed(Err(e)))
            == (GuardedHandler::Finished, StepView::Respond(Err(RestErrorView::UnprocessableEntity(spec_command_text(e))))),
{
}

/// The channel handlers by code answer: a created channel with 201, a link
/// to it by its code and its resource; a channel that no code names with
/// "not found" for the code that was asked; a channel that was just written
/// and cannot be read back with "Failed to retrieve channel"; a carried out
/// deletion with an empty 200; and a failure of the bus with that failure.
pub proof fn lemma_channel_answers(
    code: String,
    c: Channel,
    e: CommandBusError,
    q: crate::rest::QueryBusError,
    next: ChannelHandler,
    step: ChannelStep,
)
    ensures
        spec_channel_resume(ChannelHandler::AwaitCreated, Reply::Channel(Ok(Some(c))), next, step) ==> (
            step matches ChannelStep::Respond(Ok(r)) && crate::channel_router::spec_response_status(r) == 201
                && (r matches crate::channel_router::ApiResponse::Created(link, body)
                && link@ == ResourceLinkView::Channel(c.code@) && body.data.code == c.code && body.data.name == c.name)),
        spec_channel_resume(ChannelHandler::AwaitChannel { code }, Reply::Channel(Ok(None)), next, step)
            ==> (step matches ChannelStep::Respond(Err(f)) && f@ == ApiErrorView::ChannelNotFound(code@)),
        spec_channel_resume(ChannelHandler::AwaitChannelToUpdate { code, name: c.name }, Reply::Channel(Ok(None)), next, step)
            ==> (step matches ChannelStep::Respond(Err(f)) && f@ == ApiErrorView::ChannelNotFound(code@)),
        spec_channel_resume(ChannelHandler::AwaitChannelToDelete { code }, Reply::Channel(Ok(None)), next, step)
            ==> (step matches ChannelStep::Respond(Err(f)) && f@ == ApiErrorView::ChannelNotFound(code@)),
        spec_channel_resume(ChannelHandler::AwaitCreated, Reply::Channel(Ok(None)), next, step)
            ==> (step matches ChannelStep::Respond(Err(f)) && f@ == ApiErrorView::Const("Failed to retrieve channel"@)),
        spec_channel_resume(ChannelHandler::AwaitUpdated, Reply::Channel(Ok(None)), next, step)
            ==> (step matches ChannelStep::Respond(Err(f)) && f@ == ApiErrorView::Const("Failed to retrieve channel"@)),
        spec_channel_resume(ChannelHandler::AwaitDeletion, Reply::Executed(Ok(())), next, step)
            ==> (step matches ChannelStep::Respond(Ok(r)) && r is OkEmpty && crate::channel_router::spec_response_status(r) == 200),
        spec_channel_resume(ChannelHandler::AwaitDeletion, Reply::Executed(Err(e)), next, step)
            ==> (step matches ChannelStep::Respond(Err(f)) && f@ == ApiErrorView::CommandBus(e)),
        spec_channel_resume(ChannelHandler::AwaitChannels, Reply::Channels(Err(q)), next, step)
            ==> (step matches ChannelStep::Respond(Err(f)) && f@ == ApiErrorView::QueryBus(q)),
{
}

/// A channel that was just created and cannot be read back is an internal
/// error, not a missing resource.
pub proof fn lemma_lost_creation_is_internal()
    ensures
        Handler::AwaitCreatedChannel.spec_resume(Reply::Channel(Ok(None)))
            == (Handler::Finished, StepView::Respond(Err(RestErrorView::InternalServer))),
        GuardedHandler::AwaitSystemCreated.spec_resume(Reply::Channel(Ok(None)))
            == (GuardedHandler::Finished, StepView::Respond(Err(RestErrorView::InternalServer))),
{
}

/// What the message type handlers answer when a lookup finds nothing: an
/// update, and the read back after it, name the missing message type; a
/// deletion reports the message type's identifier as a missing channel; a
/// lookup by path names the path's channel; a creation or listing names the
/// channel of the path.
pub proof fn lemma_message_type_misses(channel_id: Id, message_type_id: Id, code: String, description: String, enabled: bool)
    ensures
        (MessageTypeHandler::AwaitMessageTypeToUpdate { channel_id, message_type_id, description, enabled })
            .spec_resume(Reply::MessageType(Ok(None))).1
            == MessageTypeStepView::Respond(Err(ApiErrorView::MessageTypeNotFound(message_type_id))),
        (MessageTypeHandler::AwaitUpdatedMessageType { message_type_id }).spec_resume(Reply::MessageType(Ok(None))).1
            == MessageTypeStepView::Respond(Err(ApiErrorView::MessageTypeNotFound(message_type_id))),
        (MessageTypeHandler::AwaitMessageTypeToDelete { message_type_id }).spec_resume(Reply::MessageType(Ok(None))).1
            == MessageTypeStepView::Respond(Err(ApiErrorView::ChannelNotFound(uuid_text(message_type_id.value)))),
        (MessageTypeHandler::AwaitFoundMessageType { channel_id }).spec_resume(Reply::MessageType(Ok(None))).1
            == MessageTypeStepView::Respond(Err(ApiErrorView::MessageTypeNotFound(channel_id))),
        (MessageTypeHandler::AwaitCreationChannel { channel_id, message_type_id, code, description })
            .spec_resume(Reply::Channel(Ok(None))).1
            == MessageTypeStepView::Respond(Err(ApiErrorView::ChannelNotFound(uuid_text(channel_id.value)))),
{
}

} // verus!
