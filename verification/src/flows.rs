use vstd::prelude::*;
use crate::id::Id;
use crate::error::STATUS_OK;
use crate::rest::{
    RestError, RestErrorView, CommandBusError, QueryBusError, PerrouteBackofficeApiError,
    Channel, MessageType, Schema, ChannelResource, MessageTypeResource, SchemaResource,
    CreateChannelRequest, UpdateChannelRequest, CreateMessageTypeRequest, UpdateMessageTypeRequest,
    CreateSchemaRequest, UpdateSchemaRequest, FindChannelQuery, FindMessageTypeQuery, FindSchemaQuery,
    ChannelPath, MessageTypePath, SchemaPath, spec_command_rest_error, spec_channel_not_found,
    channel_not_found_message,
};
use vstd::std_specs::convert::FromSpec;
use vstd::pervasive::unreached;

verus! {

/// A query that a handler hands to the query bus.
pub enum Query {
    FindChannel(FindChannelQuery),
    QueryChannels,
    FindMessageType(FindMessageTypeQuery),
    QueryMessageTypes { channel_id: Id },
    FindSchema(FindSchemaQuery),
    QuerySchemas { message_type_id: Id },
}

/// A command that a handler hands to the command bus.
pub enum Command {
    CreateChannel { channel_id: Id, code: String, name: String },
    UpdateChannel { channel_id: Id, name: String },
    DeleteChannel { channel_id: Id },
    CreateMessageType { message_type_id: Id, code: String, description: String, channel_id: Id },
    UpdateMessageType { message_type_id: Id, description: String, enabled: bool },
    DeleteMessageType { message_type_id: Id },
    CreateSchema { schema_id: Id, message_type_id: Id, schema: String },
    UpdateSchema { schema_id: Id, schema: String },
    DeleteSchema { schema_id: Id },
}

/// What the bus answered to a query or a command.
pub enum Reply {
    Channel(Result<Option<Channel>, QueryBusError>),
    Channels(Result<Vec<Channel>, QueryBusError>),
    MessageType(Result<Option<MessageType>, QueryBusError>),
    MessageTypes(Result<Vec<MessageType>, QueryBusError>),
    Schema(Result<Option<Schema>, QueryBusError>),
    Schemas(Result<Vec<Schema>, QueryBusError>),
    Executed(Result<(), CommandBusError>),
}

/// The body of a successful answer.
pub enum Body {
    Channel(ChannelResource),
    Channels(Vec<ChannelResource>),
    MessageType(MessageTypeResource),
    MessageTypes(Vec<MessageTypeResource>),
    Schema(SchemaResource),
    Schemas(Vec<SchemaResource>),
    Empty,
}

/// The abstract value of a `Body`.
pub enum BodyView {
    Channel(ChannelResource),
    Channels(Seq<ChannelResource>),
    MessageType(MessageTypeResource),
    MessageTypes(Seq<MessageTypeResource>),
    Schema(SchemaResource),
    Schemas(Seq<SchemaResource>),
    Empty,
}

impl View for Body {
    type V = BodyView;

    open spec fn view(&self) -> BodyView {
        match self {
            Body::Channel(c) => BodyView::Channel(*c),
            Body::Channels(v) => BodyView::Channels(v@),
            Body::MessageType(m) => BodyView::MessageType(*m),
            Body::MessageTypes(v) => BodyView::MessageTypes(v@),
            Body::Schema(s) => BodyView::Schema(*s),
            Body::Schemas(v) => BodyView::Schemas(v@),
            Body::Empty => BodyView::Empty,
        }
    }
}

/// What a handler does next: ask the query bus, ask the command bus, or
/// answer the request.
pub enum Step {
    Query(Query),
    Command(Command),
    Respond(Result<Body, RestError>),
}

/// The abstract value of a `Step`.
pub enum StepView {
    Query(Query),
    Command(Command),
    Respond(Result<BodyView, RestErrorView>),
}

impl View for Step {
    type V = StepView;

    open spec fn view(&self) -> StepView {
        match self {
            Step::Query(q) => StepView::Query(*q),
            Step::Command(c) => StepView::Command(*c),
            Step::Respond(Ok(b)) => StepView::Respond(Ok(b@)),
            Step::Respond(Err(e)) => StepView::Respond(Err(e@)),
        }
    }
}

/// Where a request handler stands: which answer of the bus it awaits, and
/// what it keeps for the steps after it.
pub enum Handler {
    /// `create_channel` awaits the creation of the channel.
    AwaitChannelCreation { channel_id: Id },
    /// `create_channel` awaits the lookup of the created channel.
    AwaitCreatedChannel,
    /// `find_channel` awaits the lookup of the channel.
    AwaitChannel { channel_id: Id },
    /// `update_channel` awaits the renaming of the channel.
    AwaitChannelUpdate { channel_id: Id },
    /// `update_channel` awaits the lookup of the renamed channel.
    AwaitUpdatedChannel { channel_id: Id },
    /// `delete_channel` awaits the deletion of the channel.
    AwaitChannelDeletion,
    /// `query_channels` awaits the listing of the channels.
    AwaitChannels,
    /// `query_message_types` awaits the lookup of the channel.
    AwaitListingChannel,
    /// `query_message_types` awaits the listing of the message types.
    AwaitMessageTypes,
    /// `find_message_type` awaits the lookup of the message type.
    AwaitMessageType,
    /// `create_message_type` awaits the lookup of the channel.
    AwaitCreationChannel { message_type_id: Id, creation: CreateMessageTypeRequest },
    /// `create_message_type` awaits the creation of the message type.
    AwaitMessageTypeCreation { channel_id: Id, message_type_id: Id },
    /// `create_message_type` awaits the lookup of the created message type.
    AwaitCreatedMessageType,
    /// `update_message_type` awaits the lookup of the message type.
    AwaitMessageTypeToUpdate { message_type_path: MessageTypePath, change: UpdateMessageTypeRequest },
    /// `update_message_type` awaits the change of the message type.
    AwaitMessageTypeUpdate { message_type_path: MessageTypePath },
    /// `update_message_type` awaits the lookup of the changed message type.
    AwaitUpdatedMessageType,
    /// `delete_message_type` awaits the lookup of the message type.
    AwaitMessageTypeToDelete,
    /// `delete_message_type` awaits the deletion of the message type.
    AwaitMessageTypeDeletion,
    /// `query_schemas` awaits the lookup of the message type.
    AwaitListingMessageType,
    /// `query_schemas` awaits the listing of the schemas.
    AwaitSchemas,
    /// `create_schema` awaits the lookup of the message type.
    AwaitCreationMessageType { schema_id: Id, schema_creation: CreateSchemaRequest },
    /// `create_schema` awaits the creation of the schema.
    AwaitSchemaCreation { channel_id: Id, message_type_id: Id, schema_id: Id },
    /// `create_schema` awaits the lookup of the created schema.
    AwaitCreatedSchema,
    /// `update_schema` awaits the lookup of the schema.
    AwaitSchemaToUpdate { schema_path: SchemaPath, replacement: UpdateSchemaRequest },
    /// `update_schema` awaits the replacement of the schema.
    AwaitSchemaUpdate { schema_path: SchemaPath },
    /// `update_schema` awaits the lookup of the replaced schema.
    AwaitUpdatedSchema,
    /// `delete_schema` awaits the lookup of the schema.
    AwaitSchemaToDelete,
    /// `delete_schema` awaits the deletion of the schema.
    AwaitSchemaDeletion,
    /// `find_schema` awaits the lookup of the schema.
    AwaitSchema,
    /// The handler has answered.
    Finished,
}


/// The error that answers a failed query: an internal error.
pub open spec fn query_failed() -> RestErrorView {
    RestErrorView::InternalServer
}

/// The error that answers a missing resource behind a path.
pub open spec fn missing() -> RestErrorView {
    RestErrorView::NotFound(Seq::empty())
}

pub open spec fn respond_err(e: RestErrorView) -> StepView {
    StepView::Respond(Err(e))
}

pub open spec fn respond_ok(b: BodyView) -> StepView {
    StepView::Respond(Ok(b))
}

pub open spec fn channel_resources(v: Seq<Channel>) -> Seq<ChannelResource> {
    v.map_values(|c: Channel| ChannelResource::from_spec(c))
}

pub open spec fn message_type_resources(v: Seq<MessageType>) -> Seq<MessageTypeResource> {
    v.map_values(|m: MessageType| MessageTypeResource::from_spec(m))
}

pub open spec fn schema_resources(v: Seq<Schema>) -> Seq<SchemaResource> {
    v.map_values(|s: Schema| SchemaResource::from_spec(s))
}

impl Handler {
    /// Whether the handler can take the reply: it is the answer to what the
    /// handler asked, and not one on which the handler would give up
    /// (a failed schema command, a failed schema listing).
    pub open spec fn spec_accepts(self, reply: Reply) -> bool {
        match self {
            Handler::AwaitChannelCreation { .. } => reply is Executed,
            Handler::AwaitChannelUpdate { .. } => reply is Executed,
            Handler::AwaitChannelDeletion => reply is Executed,
            Handler::AwaitMessageTypeCreation { .. } => reply is Executed,
            Handler::AwaitMessageTypeUpdate { .. } => reply is Executed,
            Handler::AwaitMessageTypeDeletion => reply is Executed,
            Handler::AwaitSchemaCreation { .. } => reply matches Reply::Executed(Ok(_)),
            Handler::AwaitSchemaUpdate { .. } => reply matches Reply::Executed(Ok(_)),
            Handler::AwaitSchemaDeletion => reply matches Reply::Executed(Ok(_)),
            Handler::AwaitCreatedChannel => reply is Channel,
            Handler::AwaitChannel { .. } => reply is Channel,
            Handler::AwaitUpdatedChannel { .. } => reply is Channel,
            Handler::AwaitListingChannel => reply is Channel,
            Handler::AwaitCreationChannel { .. } => reply is Channel,
            Handler::AwaitChannels => reply is Channels,
            Handler::AwaitMessageTypes => reply is MessageTypes,
            Handler::AwaitMessageType => reply is MessageType,
            Handler::AwaitCreatedMessageType => reply is MessageType,
            Handler::AwaitMessageTypeToUpdate { .. } => reply is MessageType,
            Handler::AwaitUpdatedMessageType => reply is MessageType,
            Handler::AwaitMessageTypeToDelete => reply is MessageType,
            Handler::AwaitListingMessageType => reply is MessageType,
            Handler::AwaitCreationMessageType { .. } => reply is MessageType,
            Handler::AwaitSchemas => reply matches Reply::Schemas(Ok(_)),
            Handler::AwaitCreatedSchema => reply is Schema,
            Handler::AwaitSchemaToUpdate { .. } => reply is Schema,
            Handler::AwaitUpdatedSchema => reply is Schema,
            Handler::AwaitSchemaToDelete => reply is Schema,
            Handler::AwaitSchema => reply is Schema,
            Handler::Finished => false,
        }
    }

    /// The most exchanges with the bus that the handler still needs before
    /// it answers.
    pub open spec fn spec_remaining(self) -> nat {
        match self {
            Handler::AwaitCreationChannel { .. } => 3,
            Handler::AwaitMessageTypeToUpdate { .. } => 3,
            Handler::AwaitCreationMessageType { .. } => 3,
            Handler::AwaitSchemaToUpdate { .. } => 3,
            Handler::AwaitChannelCreation { .. } => 2,
            Handler::AwaitChannelUpdate { .. } => 2,
            Handler::AwaitListingChannel => 2,
            Handler::AwaitMessageTypeCreation { .. } => 2,
            Handler::AwaitMessageTypeUpdate { .. } => 2,
            Handler::AwaitMessageTypeToDelete => 2,
            Handler::AwaitListingMessageType => 2,
            Handler::AwaitSchemaCreation { .. } => 2,
            Handler::AwaitSchemaUpdate { .. } => 2,
            Handler::AwaitSchemaToDelete => 2,
            Handler::Finished => 0,
            _ => 1,
        }
    }

    /// The next state of the handler and what it does next, given the reply
    /// of the bus.
    pub open spec fn spec_resume(self, reply: Reply) -> (Handler, StepView) {
        match self {
            Handler::AwaitChannelCreation { channel_id } => match reply {
                Reply::Executed(Ok(_)) => (Handler::AwaitCreatedChannel, StepView::Query(Query::FindChannel(FindChannelQuery { channel_id }))),
                Reply::Executed(Err(e)) => (Handler::Finished, respond_err(spec_command_rest_error(e)@)),
                _ => (self, respond_err(query_failed())),
            },
            Handler::AwaitCreatedChannel => match reply {
                Reply::Channel(Ok(Some(c))) => (Handler::Finished, respond_ok(BodyView::Channel(ChannelResource::from_spec(c)))),
                _ => (Handler::Finished, respond_err(query_failed())),
            },
            Handler::AwaitChannel { channel_id } => match reply {
                Reply::Channel(Ok(Some(c))) => (Handler::Finished, respond_ok(BodyView::Channel(ChannelResource::from_spec(c)))),
                Reply::Channel(Ok(None)) => (Handler::Finished, respond_err(RestErrorView::NotFound(spec_channel_not_found(channel_id)))),
                _ => (Handler::Finished, respond_err(query_failed())),
            },
            Handler::AwaitChannelUpdate { channel_id } => match reply {
                Reply::Executed(Ok(_)) => (Handler::AwaitUpdatedChannel { channel_id }, StepView::Query(Query::FindChannel(FindChannelQuery { channel_id }))),
                Reply::Executed(Err(e)) => (Handler::Finished, respond_err(spec_command_rest_error(e)@)),
                _ => (self, respond_err(query_failed())),
            },
            Handler::AwaitUpdatedChannel { channel_id } => match reply {
                Reply::Channel(Ok(Some(c))) => (Handler::Finished, respond_ok(BodyView::Channel(ChannelResource::from_spec(c)))),
                Reply::Channel(Ok(None)) => (Handler::Finished, respond_err(RestErrorView::NotFound(spec_channel_not_found(channel_id)))),
                _ => (Handler::Finished, respond_err(query_failed())),
            },
            Handler::AwaitChannelDeletion => match reply {
                Reply::Executed(Ok(_)) => (Handler::Finished, respond_ok(BodyView::Empty)),
                Reply::Executed(Err(e)) => (Handler::Finished, respond_err(spec_command_rest_error(e)@)),
                _ => (self, respond_err(query_failed())),
            },
            Handler::AwaitChannels => match reply {
                Reply::Channels(Ok(v)) => (Handler::Finished, respond_ok(BodyView::Channels(channel_resources(v@)))),
                _ => (Handler::Finished, respond_err(query_failed())),
            },
            Handler::AwaitListingChannel => match reply {
                Reply::Channel(Ok(Some(c))) => (Handler::AwaitMessageTypes, StepView::Query(Query::QueryMessageTypes { channel_id: c.id })),
                Reply::Channel(Ok(None)) => (Handler::Finished, respond_err(missing())),
                _ => (Handler::Finished, respond_err(query_failed())),
            },
            Handler::AwaitMessageTypes => match reply {
                Reply::MessageTypes(Ok(v)) => (Handler::Finished, respond_ok(BodyView::MessageTypes(message_type_resources(v@)))),
                _ => (Handler::Finished, respond_err(query_failed())),
            },
            Handler::AwaitCreationChannel { message_type_id, creation } => match reply {
                Reply::Channel(Ok(Some(c))) => (
                    Handler::AwaitMessageTypeCreation { channel_id: c.id, message_type_id },
                    StepView::Command(Command::CreateMessageType {
                        message_type_id,
                        code: creation.code,
                        description: creation.description,
                        channel_id: c.id,
                    }),
                ),
                Reply::Channel(Ok(None)) => (Handler::Finished, respond_err(missing())),
                _ => (Handler::Finished, respond_err(query_failed())),
            },
            Handler::AwaitMessageTypeCreation { channel_id, message_type_id } => match reply {
                Reply::Executed(Ok(_)) => (
                    Handler::AwaitCreatedMessageType,
                    StepView::Query(Query::FindMessageType(FindMessageTypeQuery { message_type_id, channel_id: Some(channel_id) })),
                ),
                Reply::Executed(Err(e)) => (Handler::Finished, respond_err(spec_command_rest_error(e)@)),
                _ => (self, respond_err(query_failed())),
            },
            Handler::AwaitMessageTypeToUpdate { message_type_path, change } => match reply {
                Reply::MessageType(Ok(Some(m))) => (
                    Handler::AwaitMessageTypeUpdate { message_type_path },
                    StepView::Command(Command::UpdateMessageType {
                        message_type_id: m.id,
                        description: change.description,
                        enabled: change.enabled,
                    }),
                ),
                Reply::MessageType(Ok(None)) => (Handler::Finished, respond_err(missing())),
                _ => (Handler::Finished, respond_err(query_failed())),
            },
            Handler::AwaitMessageTypeUpdate { message_type_path } => match reply {
                Reply::Executed(Ok(_)) => (
                    Handler::AwaitUpdatedMessageType,
                    StepView::Query(Query::FindMessageType(FindMessageTypeQuery {
                        message_type_id: message_type_path.message_type_id,
                        channel_id: Some(message_type_path.channel_id),
                    })),
                ),
                Reply::Executed(Err(e)) => (Handler::Finished, respond_err(spec_command_rest_error(e)@)),
                _ => (self, respond_err(query_failed())),
            },
            Handler::AwaitMessageTypeToDelete => match reply {
                Reply::MessageType(Ok(Some(m))) => (
                    Handler::AwaitMessageTypeDeletion,
                    StepView::Command(Command::DeleteMessageType { message_type_id: m.id }),
                ),
                Reply::MessageType(Ok(None)) => (Handler::Finished, respond_err(missing())),
                _ => (Handler::Finished, respond_err(query_failed())),
            },
            Handler::AwaitMessageTypeDeletion => match reply {
                Reply::Executed(Ok(_)) => (Handler::Finished, respond_ok(BodyView::Empty)),
                Reply::Executed(Err(e)) => (Handler::Finished, respond_err(spec_command_rest_error(e)@)),
                _ => (self, respond_err(query_failed())),
            },
            Handler::AwaitListingMessageType => match reply {
                Reply::MessageType(Ok(Some(m))) => (Handler::AwaitSchemas, StepView::Query(Query::QuerySchemas { message_type_id: m.id })),
                Reply::MessageType(Ok(None)) => (Handler::Finished, respond_err(missing())),
                _ => (Handler::Finished, respond_err(query_failed())),
            },
            Handler::AwaitSchemas => match reply {
                Reply::Schemas(Ok(v)) => (Handler::Finished, respond_ok(BodyView::Schemas(schema_resources(v@)))),
                _ => (self, respond_err(query_failed())),
            },
            Handler::AwaitCreationMessageType { schema_id, schema_creation } => match reply {
                Reply::MessageType(Ok(Some(m))) => (
                    Handler::AwaitSchemaCreation { channel_id: m.channel_id, message_type_id: m.id, schema_id },
                    StepView::Command(Command::CreateSchema { schema_id, message_type_id: m.id, schema: schema_creation.schema }),
                ),
                Reply::MessageType(Ok(None)) => (Handler::Finished, respond_err(missing())),
                _ => (Handler::Finished, respond_err(query_failed())),
            },
            Handler::AwaitSchemaCreation { channel_id, message_type_id, schema_id } => match reply {
                Reply::Executed(Ok(_)) => (
                    Handler::AwaitCreatedSchema,
                    StepView::Query(Query::FindSchema(FindSchemaQuery { message_type_id, channel_id, version: schema_id })),
                ),
                _ => (self, respond_err(query_failed())),
            },
            Handler::AwaitSchemaToUpdate { schema_path, replacement } => match reply {
                Reply::Schema(Ok(Some(sc))) => (
                    Handler::AwaitSchemaUpdate { schema_path },
                    StepView::Command(Command::UpdateSchema { schema_id: sc.id, schema: replacement.schema }),
                ),
                Reply::Schema(Ok(None)) => (Handler::Finished, respond_err(missing())),
                _ => (Handler::Finished, respond_err(query_failed())),
            },
            Handler::AwaitSchemaUpdate { schema_path } => match reply {
                Reply::Executed(Ok(_)) => (
                    Handler::AwaitUpdatedSchema,
                    StepView::Query(Query::FindSchema(FindSchemaQuery {
                        message_type_id: schema_path.message_type_id,
                        channel_id: schema_path.channel_id,
                        version: schema_path.schema_id,
                    })),
                ),
                _ => (self, respond_err(query_failed())),
            },
            Handler::AwaitSchemaToDelete => match reply {
                Reply::Schema(Ok(Some(sc))) => (
                    Handler::AwaitSchemaDeletion,
                    StepView::Command(Command::DeleteSchema { schema_id: sc.id }),
                ),
                Reply::Schema(Ok(None)) => (Handler::Finished, respond_err(missing())),
                _ => (Handler::Finished, respond_err(query_failed())),
            },
            Handler::AwaitSchemaDeletion => match reply {
                Reply::Executed(Ok(_)) => (Handler::Finished, respond_ok(BodyView::Empty)),
                _ => (self, respond_err(query_failed())),
            },
            Handler::AwaitMessageType => spec_answer_message_type(reply),
            Handler::AwaitCreatedMessageType => spec_answer_message_type(reply),
            Handler::AwaitUpdatedMessageType => spec_answer_message_type(reply),
            Handler::AwaitCreatedSchema => spec_answer_schema(reply),
            Handler::AwaitUpdatedSchema => spec_answer_schema(reply),
            Handler::AwaitSchema => spec_answer_schema(reply),
            Handler::Finished => (self, respond_err(query_failed())),
        }
    }
}

/// The answer to the lookup of a message type behind a path: the message
/// type, "not found", or an internal error.
pub open spec fn spec_answer_message_type(reply: Reply) -> (Handler, StepView) {
    match reply {
        Reply::MessageType(Ok(Some(m))) => (Handler::Finished, respond_ok(BodyView::MessageType(MessageTypeResource::from_spec(m)))),
        Reply::MessageType(Ok(None)) => (Handler::Finished, respond_err(missing())),
        _ => (Handler::Finished, respond_err(query_failed())),
    }
}

/// The answer to the lookup of a schema behind a path: the schema, "not
/// found", or an internal error.
pub open spec fn spec_answer_schema(reply: Reply) -> (Handler, StepView) {
    match reply {
        Reply::Schema(Ok(Some(sc))) => (Handler::Finished, respond_ok(BodyView::Schema(SchemaResource::from_spec(sc)))),
        Reply::Schema(Ok(None)) => (Handler::Finished, respond_err(missing())),
        _ => (Handler::Finished, respond_err(query_failed())),
    }
}

fn channel_resources_of(v: Vec<Channel>) -> (r: Vec<ChannelResource>)
    ensures
        r@ == channel_resources(v@),
{
    let mut out: Vec<ChannelResource> = Vec::new();
    let mut i: usize = 0;
    while i < v.len()
        invariant
            i <= v@.len(),
            out@ == channel_resources(v@.subrange(0, i as int)),
        decreases v@.len() - i,
    {
        let c = v[i].duplicate();
        out.push(ChannelResource::from(c));
        proof {
            assert(v@.subrange(0, i + 1) =~= v@.subrange(0, i as int).push(v@[i as int]));
            assert(out@ =~= channel_resources(v@.subrange(0, i + 1)));
        }
        i = i + 1;
    }
    proof {
        assert(v@.subrange(0, v@.len() as int) =~= v@);
    }
    out
}

pub(crate) fn message_type_resources_of(v: Vec<MessageType>) -> (r: Vec<MessageTypeResource>)
    ensures
        r@ == message_type_resources(v@),
{
    let mut out: Vec<MessageTypeResource> = Vec::new();
    let mut i: usize = 0;
    while i < v.len()
        invariant
            i <= v@.len(),
            out@ == message_type_resources(v@.subrange(0, i as int)),
        decreases v@.len() - i,
    {
        let m = v[i].duplicate();
        out.push(MessageTypeResource::from(m));
        proof {
            assert(v@.subrange(0, i + 1) =~= v@.subrange(0, i as int).push(v@[i as int]));
            assert(out@ =~= message_type_resources(v@.subrange(0, i + 1)));
        }
        i = i + 1;
    }
    proof {
        assert(v@.subrange(0, v@.len() as int) =~= v@);
    }
    out
}

fn schema_resources_of(v: Vec<Schema>) -> (r: Vec<SchemaResource>)
    ensures
        r@ == schema_resources(v@),
{
    let mut out: Vec<SchemaResource> = Vec::new();
    let mut i: usize = 0;
    while i < v.len()
        invariant
            i <= v@.len(),
            out@ == schema_resources(v@.subrange(0, i as int)),
        decreases v@.len() - i,
    {
        let sc = v[i].duplicate();
        out.push(SchemaResource::from(sc));
        proof {
            assert(v@.subrange(0, i + 1) =~= v@.subrange(0, i as int).push(v@[i as int]));
            assert(out@ =~= schema_resources(v@.subrange(0, i + 1)));
        }
        i = i + 1;
    }
    proof {
        assert(v@.subrange(0, v@.len() as int) =~= v@);
    }
    out
}

pub(crate) fn query_error(e: QueryBusError) -> (r: Step)
    ensures
        r@ == respond_err(query_failed()),
{
    Step::Respond(Err(RestError::from(PerrouteBackofficeApiError::QueryBus(e))))
}

pub(crate) fn command_error(e: CommandBusError) -> (r: Step)
    ensures
        r@ == respond_err(spec_command_rest_error(e)@),
{
    Step::Respond(Err(RestError::from(PerrouteBackofficeApiError::CommandBus(e))))
}

fn missing_resource() -> (r: Step)
    ensures
        r@ == respond_err(missing()),
{
    Step::Respond(Err(RestError::NotFound(String::new())))
}

fn answer_message_type(reply: Reply) -> (r: (Handler, Step))
    requires
        reply is MessageType,
    ensures
        (r.0, r.1@) == spec_answer_message_type(reply),
{
    match reply {
        Reply::MessageType(Ok(Some(m))) => (Handler::Finished, Step::Respond(Ok(Body::MessageType(MessageTypeResource::from(m))))),
        Reply::MessageType(Ok(None)) => (Handler::Finished, missing_resource()),
        Reply::MessageType(Err(e)) => (Handler::Finished, query_error(e)),
        _ => unreached(),
    }
}

fn answer_schema(reply: Reply) -> (r: (Handler, Step))
    requires
        reply is Schema,
    ensures
        (r.0, r.1@) == spec_answer_schema(reply),
{
    match reply {
        Reply::Schema(Ok(Some(sc))) => (Handler::Finished, Step::Respond(Ok(Body::Schema(SchemaResource::from(sc))))),
        Reply::Schema(Ok(None)) => (Handler::Finished, missing_resource()),
        Reply::Schema(Err(e)) => (Handler::Finished, query_error(e)),
        _ => unreached(),
    }
}

fn answer_channel(reply: Reply, channel_id: Id) -> (r: (Handler, Step))
    requires
        reply is Channel,
    ensures
        (r.0, r.1@) == (Handler::AwaitChannel { channel_id }).spec_resume(reply),
{
    match reply {
        Reply::Channel(Ok(Some(c))) => (Handler::Finished, Step::Respond(Ok(Body::Channel(ChannelResource::from(c))))),
        Reply::Channel(Ok(None)) => (
            Handler::Finished,
            Step::Respond(Err(RestError::NotFound(channel_not_found_message(channel_id)))),
        ),
        Reply::Channel(Err(e)) => (Handler::Finished, query_error(e)),
        _ => unreached(),
    }
}

impl Handler {
    /// Whether the handler can take the reply; see `spec_accepts`.
    pub fn accepts(&self, reply: &Reply) -> (r: bool)
        ensures
            r == self.spec_accepts(*reply),
    {
        match self {
            Handler::AwaitChannelCreation { .. } | Handler::AwaitChannelUpdate { .. } | Handler::AwaitChannelDeletion
            | Handler::AwaitMessageTypeCreation { .. } | Handler::AwaitMessageTypeUpdate { .. }
            | Handler::AwaitMessageTypeDeletion => matches!(reply, Reply::Executed(_)),
            Handler::AwaitSchemaCreation { .. } | Handler::AwaitSchemaUpdate { .. } | Handler::AwaitSchemaDeletion =>
                matches!(reply, Reply::Executed(Ok(_))),
            Handler::AwaitCreatedChannel | Handler::AwaitChannel { .. } | Handler::AwaitUpdatedChannel { .. }
            | Handler::AwaitListingChannel | Handler::AwaitCreationChannel { .. } => matches!(reply, Reply::Channel(_)),
            Handler::AwaitChannels => matches!(reply, Reply::Channels(_)),
            Handler::AwaitMessageTypes => matches!(reply, Reply::MessageTypes(_)),
            Handler::AwaitMessageType | Handler::AwaitCreatedMessageType | Handler::AwaitMessageTypeToUpdate { .. }
            | Handler::AwaitUpdatedMessageType | Handler::AwaitMessageTypeToDelete | Handler::AwaitListingMessageType
            | Handler::AwaitCreationMessageType { .. } => matches!(reply, Reply::MessageType(_)),
            Handler::AwaitSchemas => matches!(reply, Reply::Schemas(Ok(_))),
            Handler::AwaitCreatedSchema | Handler::AwaitSchemaToUpdate { .. } | Handler::AwaitUpdatedSchema
            | Handler::AwaitSchemaToDelete | Handler::AwaitSchema => matches!(reply, Reply::Schema(_)),
            Handler::Finished => false,
        }
    }

    /// Takes the reply of the bus: the handler's next state and what it does
    /// next.
    pub fn resume(self, reply: Reply) -> (r: (Handler, Step))
        requires
            self.spec_accepts(reply),
        ensures
            (r.0, r.1@) == self.spec_resume(reply),
    {
        match self {
            Handler::AwaitChannelCreation { channel_id } => match reply {
                Reply::Executed(Ok(_)) => (
                    Handler::AwaitCreatedChannel,
                    Step::Query(Query::FindChannel(FindChannelQuery { channel_id })),
                ),
                Reply::Executed(Err(e)) => (Handler::Finished, command_error(e)),
                _ => unreached(),
            },
            Handler::AwaitCreatedChannel => match reply {
                Reply::Channel(Ok(Some(c))) => (Handler::Finished, Step::Respond(Ok(Body::Channel(ChannelResource::from(c))))),
                Reply::Channel(Ok(None)) => (Handler::Finished, Step::Respond(Err(RestError::InternalServer))),
                Reply::Channel(Err(e)) => (Handler::Finished, query_error(e)),
                _ => unreached(),
            },
            Handler::AwaitChannel { channel_id } => answer_channel(reply, channel_id),
            Handler::AwaitChannelUpdate { channel_id } => match reply {
                Reply::Executed(Ok(_)) => (
                    Handler::AwaitUpdatedChannel { channel_id },
                    Step::Query(Query::FindChannel(FindChannelQuery { channel_id })),
                ),
                Reply::Executed(Err(e)) => (Handler::Finished, command_error(e)),
                _ => unreached(),
            },
            Handler::AwaitUpdatedChannel { channel_id } => answer_channel(reply, channel_id),
            Handler::AwaitChannelDeletion => match reply {
                Reply::Executed(Ok(_)) => (Handler::Finished, Step::Respond(Ok(Body::Empty))),
                Reply::Executed(Err(e)) => (Handler::Finished, command_error(e)),
                _ => unreached(),
            },
            Handler::AwaitChannels => match reply {
                Reply::Channels(Ok(v)) => (Handler::Finished, Step::Respond(Ok(Body::Channels(channel_resources_of(v))))),
                Reply::Channels(Err(e)) => (Handler::Finished, query_error(e)),
                _ => unreached(),
            },
            Handler::AwaitListingChannel => match reply {
                Reply::Channel(Ok(Some(c))) => (
                    Handler::AwaitMessageTypes,
                    Step::Query(Query::QueryMessageTypes { channel_id: c.id }),
                ),
                Reply::Channel(Ok(None)) => (Handler::Finished, missing_resource()),
                Reply::Channel(Err(e)) => (Handler::Finished, query_error(e)),
                _ => unreached(),
            },
            Handler::AwaitMessageTypes => match reply {
                Reply::MessageTypes(Ok(v)) => (
                    Handler::Finished,
                    Step::Respond(Ok(Body::MessageTypes(message_type_resources_of(v)))),
                ),
                Reply::MessageTypes(Err(e)) => (Handler::Finished, query_error(e)),
                _ => unreached(),
            },
            Handler::AwaitMessageType => answer_message_type(reply),
            Handler::AwaitCreationChannel { message_type_id, creation } => match reply {
                Reply::Channel(Ok(Some(c))) => (
                    Handler::AwaitMessageTypeCreation { channel_id: c.id, message_type_id },
                    Step::Command(Command::CreateMessageType {
                        message_type_id,
                        code: creation.code,
                        description: creation.description,
                        channel_id: c.id,
                    }),
                ),
                Reply::Channel(Ok(None)) => (Handler::Finished, missing_resource()),
                Reply::Channel(Err(e)) => (Handler::Finished, query_error(e)),
                _ => unreached(),
            },
            Handler::AwaitMessageTypeCreation { channel_id, message_type_id } => match reply {
                Reply::Executed(Ok(_)) => (
                    Handler::AwaitCreatedMessageType,
                    Step::Query(Query::FindMessageType(FindMessageTypeQuery { message_type_id, channel_id: Some(channel_id) })),
                ),
                Reply::Executed(Err(e)) => (Handler::Finished, command_error(e)),
                _ => unreached(),
            },
            Handler::AwaitCreatedMessageType => answer_message_type(reply),
            Handler::AwaitMessageTypeToUpdate { message_type_path, change } => match reply {
                Reply::MessageType(Ok(Some(m))) => (
                    Handler::AwaitMessageTypeUpdate { message_type_path },
                    Step::Command(Command::UpdateMessageType {
                        message_type_id: m.id,
                        description: change.description,
                        enabled: change.enabled,
                    }),
                ),
                Reply::MessageType(Ok(None)) => (Handler::Finished, missing_resource()),
                Reply::MessageType(Err(e)) => (Handler::Finished, query_error(e)),
                _ => unreached(),
            },
            Handler::AwaitMessageTypeUpdate { message_type_path } => match reply {
                Reply::Executed(Ok(_)) => (
                    Handler::AwaitUpdatedMessageType,
                    Step::Query(Query::FindMessageType(message_type_path.query())),
                ),
                Reply::Executed(Err(e)) => (Handler::Finished, command_error(e)),
                _ => unreached(),
            },
            Handler::AwaitUpdatedMessageType => answer_message_type(reply),
            Handler::AwaitMessageTypeToDelete => match reply {
                Reply::MessageType(Ok(Some(m))) => (
                    Handler::AwaitMessageTypeDeletion,
                    Step::Command(Command::DeleteMessageType { message_type_id: m.id }),
                ),
                Reply::MessageType(Ok(None)) => (Handler::Finished, missing_resource()),
                Reply::MessageType(Err(e)) => (Handler::Finished, query_error(e)),
                _ => unreached(),
            },
            Handler::AwaitMessageTypeDeletion => match reply {
                Reply::Executed(Ok(_)) => (Handler::Finished, Step::Respond(Ok(Body::Empty))),
                Reply::Executed(Err(e)) => (Handler::Finished, command_error(e)),
                _ => unreached(),
            },
            Handler::AwaitListingMessageType => match reply {
                Reply::MessageType(Ok(Some(m))) => (
                    Handler::AwaitSchemas,
                    Step::Query(Query::QuerySchemas { message_type_id: m.id }),
                ),
                Reply::MessageType(Ok(None)) => (Handler::Finished, missing_resource()),
                Reply::MessageType(Err(e)) => (Handler::Finished, query_error(e)),
                _ => unreached(),
            },
            Handler::AwaitSchemas => match reply {
                Reply::Schemas(Ok(v)) => (Handler::Finished, Step::Respond(Ok(Body::Schemas(schema_resources_of(v))))),
                _ => unreached(),
            },
            Handler::AwaitCreationMessageType { schema_id, schema_creation } => match reply {
                Reply::MessageType(Ok(Some(m))) => (
                    Handler::AwaitSchemaCreation { channel_id: m.channel_id, message_type_id: m.id, schema_id },
                    Step::Command(Command::CreateSchema { schema_id, message_type_id: m.id, schema: schema_creation.schema }),
                ),
                Reply::MessageType(Ok(None)) => (Handler::Finished, missing_resource()),
                Reply::MessageType(Err(e)) => (Handler::Finished, query_error(e)),
                _ => unreached(),
            },
            Handler::AwaitSchemaCreation { channel_id, message_type_id, schema_id } => match reply {
                Reply::Executed(Ok(_)) => (
                    Handler::AwaitCreatedSchema,
                    Step::Query(Query::FindSchema(FindSchemaQuery { message_type_id, channel_id, version: schema_id })),
                ),
                _ => unreached(),
            },
            Handler::AwaitCreatedSchema => answer_schema(reply),
            Handler::AwaitSchemaToUpdate { schema_path, replacement } => match reply {
                Reply::Schema(Ok(Some(sc))) => (
                    Handler::AwaitSchemaUpdate { schema_path },
                    Step::Command(Command::UpdateSchema { schema_id: sc.id, schema: replacement.schema }),
                ),
                Reply::Schema(Ok(None)) => (Handler::Finished, missing_resource()),
                Reply::Schema(Err(e)) => (Handler::Finished, query_error(e)),
                _ => unreached(),
            },
            Handler::AwaitSchemaUpdate { schema_path } => match reply {
                Reply::Executed(Ok(_)) => (
                    Handler::AwaitUpdatedSchema,
                    Step::Query(Query::FindSchema(schema_path.query())),
                ),
                _ => unreached(),
            },
            Handler::AwaitUpdatedSchema => answer_schema(reply),
            Handler::AwaitSchemaToDelete => match reply {
                Reply::Schema(Ok(Some(sc))) => (
                    Handler::AwaitSchemaDeletion,
                    Step::Command(Command::DeleteSchema { schema_id: sc.id }),
                ),
                Reply::Schema(Ok(None)) => (Handler::Finished, missing_resource()),
                Reply::Schema(Err(e)) => (Handler::Finished, query_error(e)),
                _ => unreached(),
            },
            Handler::AwaitSchemaDeletion => match reply {
                Reply::Executed(Ok(_)) => (Handler::Finished, Step::Respond(Ok(Body::Empty))),
                _ => unreached(),
            },
            Handler::AwaitSchema => answer_schema(reply),
            Handler::Finished => unreached(),
        }
    }
}

/// `POST /v1/channels`: creates a channel under a fresh identifier, then
/// answers with the channel as stored.
pub fn create_channel(channel_id: Id, body: CreateChannelRequest) -> (r: (Handler, Step))
    ensures
        r.0 == (Handler::AwaitChannelCreation { channel_id }),
        r.1@ == StepView::Command(Command::CreateChannel { channel_id, code: body.code, name: body.name }),
{
    (
        Handler::AwaitChannelCreation { channel_id },
        Step::Command(Command::CreateChannel { channel_id, code: body.code, name: body.name }),
    )
}

/// `GET /v1/channels/{channel_id}`: answers with the channel.
pub fn find_channel(channel_id: Id) -> (r: (Handler, Step))
    ensures
        r.0 == (Handler::AwaitChannel { channel_id }),
        r.1@ == StepView::Query(Query::FindChannel(FindChannelQuery { channel_id })),
{
    (Handler::AwaitChannel { channel_id }, Step::Query(Query::FindChannel(FindChannelQuery { channel_id })))
}

/// `PUT /v1/channels/{channel_id}`: renames the channel, then answers with
/// it.
pub fn update_channel(channel_id: Id, req: UpdateChannelRequest) -> (r: (Handler, Step))
    ensures
        r.0 == (Handler::AwaitChannelUpdate { channel_id }),
        r.1@ == StepView::Command(Command::UpdateChannel { channel_id, name: req.name }),
{
    (
        Handler::AwaitChannelUpdate { channel_id },
        Step::Command(Command::UpdateChannel { channel_id, name: req.name }),
    )
}

/// `DELETE /v1/channels/{channel_id}`: deletes the channel.
pub fn delete_channel(channel_id: Id) -> (r: (Handler, Step))
    ensures
        r.0 == Handler::AwaitChannelDeletion,
        r.1@ == StepView::Command(Command::DeleteChannel { channel_id }),
{
    (Handler::AwaitChannelDeletion, Step::Command(Command::DeleteChannel { channel_id }))
}

/// `GET /v1/channels`: answers with all channels.
pub fn query_channels() -> (r: (Handler, Step))
    ensures
        r.0 == Handler::AwaitChannels,
        r.1@ == StepView::Query(Query::QueryChannels),
{
    (Handler::AwaitChannels, Step::Query(Query::QueryChannels))
}

/// The handlers of `/v1/channels/{channel_id}/message_types`.
pub struct MessageTypeRouter;

impl MessageTypeRouter {
    /// `GET`: answers with the message types of the channel, once the
    /// channel is found.
    pub fn query_message_types(channel_path: ChannelPath) -> (r: (Handler, Step))
        ensures
            r.0 == Handler::AwaitListingChannel,
            r.1@ == StepView::Query(Query::FindChannel(FindChannelQuery { channel_id: channel_path.channel_id })),
    {
        (Handler::AwaitListingChannel, Step::Query(Query::FindChannel(channel_path.query())))
    }

    /// `GET /{message_type_id}`: answers with the message type of the
    /// channel.
    pub fn find_message_type(message_type_path: MessageTypePath) -> (r: (Handler, Step))
        ensures
            r.0 == Handler::AwaitMessageType,
            r.1@ == StepView::Query(Query::FindMessageType(FindMessageTypeQuery {
                message_type_id: message_type_path.message_type_id,
                channel_id: Some(message_type_path.channel_id),
            })),
    {
        (Handler::AwaitMessageType, Step::Query(Query::FindMessageType(message_type_path.query())))
    }

    /// `POST`: once the channel is found, creates a message type in it
    /// under a fresh identifier, then answers with the message type as
    /// stored.
    pub fn create_message_type(channel_path: ChannelPath, message_type_id: Id, body: CreateMessageTypeRequest) -> (r: (Handler, Step))
        ensures
            r.0 == (Handler::AwaitCreationChannel { message_type_id, creation: body }),
            r.1@ == StepView::Query(Query::FindChannel(FindChannelQuery { channel_id: channel_path.channel_id })),
    {
        (
            Handler::AwaitCreationChannel { message_type_id, creation: body },
            Step::Query(Query::FindChannel(channel_path.query())),
        )
    }

    /// `PUT /{message_type_id}`: once the message type is found, changes
    /// it, then answers with it.
    pub fn update_message_type(message_type_path: MessageTypePath, req: UpdateMessageTypeRequest) -> (r: (Handler, Step))
        ensures
            r.0 == (Handler::AwaitMessageTypeToUpdate { message_type_path, change: req }),
            r.1@ == StepView::Query(Query::FindMessageType(FindMessageTypeQuery {
                message_type_id: message_type_path.message_type_id,
                channel_id: Some(message_type_path.channel_id),
            })),
    {
        let q = message_type_path.query();
        (Handler::AwaitMessageTypeToUpdate { message_type_path, change: req }, Step::Query(Query::FindMessageType(q)))
    }

    /// `DELETE /{message_type_id}`: once the message type is found,
    /// deletes it.
    pub fn delete_message_type(message_type_path: MessageTypePath) -> (r: (Handler, Step))
        ensures
            r.0 == Handler::AwaitMessageTypeToDelete,
            r.1@ == StepView::Query(Query::FindMessageType(FindMessageTypeQuery {
                message_type_id: message_type_path.message_type_id,
                channel_id: Some(message_type_path.channel_id),
            })),
    {
        (Handler::AwaitMessageTypeToDelete, Step::Query(Query::FindMessageType(message_type_path.query())))
    }
}

/// The handlers of
/// `/v1/channels/{channel_id}/message_types/{message_type_id}/schemas`.
pub struct SchemaRouter;

impl SchemaRouter {
    /// `GET`: answers with the schema versions of the message type, once
    /// the message type is found.
    pub fn query_schemas(message_type_path: MessageTypePath) -> (r: (Handler, Step))
        ensures
            r.0 == Handler::AwaitListingMessageType,
            r.1@ == StepView::Query(Query::FindMessageType(FindMessageTypeQuery {
                message_type_id: message_type_path.message_type_id,
                channel_id: Some(message_type_path.channel_id),
            })),
    {
        (Handler::AwaitListingMessageType, Step::Query(Query::FindMessageType(message_type_path.query())))
    }

    /// `POST`: once the message type is found, creates a schema version of
    /// it under a fresh identifier, then answers with the version as stored.
    pub fn create_schema(message_type_path: MessageTypePath, schema_id: Id, body: CreateSchemaRequest) -> (r: (Handler, Step))
        ensures
            r.0 == (Handler::AwaitCreationMessageType { schema_id, schema_creation: body }),
            r.1@ == StepView::Query(Query::FindMessageType(FindMessageTypeQuery {
                message_type_id: message_type_path.message_type_id,
                channel_id: Some(message_type_path.channel_id),
            })),
    {
        (
            Handler::AwaitCreationMessageType { schema_id, schema_creation: body },
            Step::Query(Query::FindMessageType(message_type_path.query())),
        )
    }

    /// `PUT /{version}`: once the schema version is found, replaces it,
    /// then answers with it.
    pub fn update_schema(schema_path: SchemaPath, body: UpdateSchemaRequest) -> (r: (Handler, Step))
        ensures
            r.0 == (Handler::AwaitSchemaToUpdate { schema_path, replacement: body }),
            r.1@ == StepView::Query(Query::FindSchema(FindSchemaQuery {
                message_type_id: schema_path.message_type_id,
                channel_id: schema_path.channel_id,
                version: schema_path.schema_id,
            })),
    {
        let q = schema_path.query();
        (Handler::AwaitSchemaToUpdate { schema_path, replacement: body }, Step::Query(Query::FindSchema(q)))
    }

    /// `DELETE /{version}`: once the schema version is found, deletes it.
    pub fn delete_schema(schema_path: SchemaPath) -> (r: (Handler, Step))
        ensures
            r.0 == Handler::AwaitSchemaToDelete,
            r.1@ == StepView::Query(Query::FindSchema(FindSchemaQuery {
                message_type_id: schema_path.message_type_id,
                channel_id: schema_path.channel_id,
                version: schema_path.schema_id,
            })),
    {
        (Handler::AwaitSchemaToDelete, Step::Query(Query::FindSchema(schema_path.query())))
    }

    /// `GET /{version}`: answers with the schema version.
    pub fn find_schema(schema_path: SchemaPath) -> (r: (Handler, Step))
        ensures
            r.0 == Handler::AwaitSchema,
            r.1@ == StepView::Query(Query::FindSchema(FindSchemaQuery {
                message_type_id: schema_path.message_type_id,
                channel_id: schema_path.channel_id,
                version: schema_path.schema_id,
            })),
    {
        (Handler::AwaitSchema, Step::Query(Query::FindSchema(schema_path.query())))
    }
}

/// The handlers of the versions of a message type: it serves no route yet.
pub struct MessageTypeVersionRouter;

/// The health check.
pub struct HealthRouter;

impl HealthRouter {
    /// `GET /health`: the service is up.
    pub fn health() -> (r: u16)
        ensures
            r == STATUS_OK,
    {
        STATUS_OK
    }
}

/// A handler that has not answered keeps going: every reply it can take
/// brings it at least one exchange closer to its answer, and it answers
/// exactly when it has finished.
pub proof fn lemma_handler_progress(h: Handler, reply: Reply)
    requires
        h.spec_accepts(reply),
    ensures
        h.spec_resume(reply).0.spec_remaining() < h.spec_remaining(),
        (h.spec_resume(reply).1 is Respond) <==> (h.spec_resume(reply).0 is Finished),
{
}

/// A handler that has finished takes no further reply.
pub proof fn lemma_finished_takes_nothing(reply: Reply)
    ensures
        !Handler::Finished.spec_accepts(reply),
{
}

/// A failed query is answered with an internal error, whatever the handler.
pub proof fn lemma_failed_query_is_internal(h: Handler, reply: Reply)
    requires
        h.spec_accepts(reply),
        match reply {
            Reply::Channel(Err(_)) | Reply::Channels(Err(_)) | Reply::MessageType(Err(_))
            | Reply::MessageTypes(Err(_)) | Reply::Schema(Err(_)) | Reply::Schemas(Err(_)) => true,
            _ => false,
        },
    ensures
        h.spec_resume(reply) == (Handler::Finished, respond_err(RestErrorView::InternalServer)),
{
}

/// A refused command is answered with the error that the refusal maps to.
pub proof fn lemma_refused_command_answers_its_error(h: Handler, e: CommandBusError)
    requires
        h.spec_accepts(Reply::Executed(Err(e))),
    ensures
        h.spec_resume(Reply::Executed(Err(e))) == (Handler::Finished, respond_err(spec_command_rest_error(e)@)),
{
}

/// A lookup of a path's resource that finds nothing is answered with "not
/// found"; the lookup of a just created channel answers an internal error
/// instead, and a finished handler's resource is the one that was found.
pub proof fn lemma_missing_resource_is_not_found(h: Handler, reply: Reply)
    requires
        h.spec_accepts(reply),
        h != Handler::AwaitCreatedChannel,
        match reply {
            Reply::Channel(Ok(None)) | Reply::MessageType(Ok(None)) | Reply::Schema(Ok(None)) => true,
            _ => false,
        },
    ensures
        h.spec_resume(reply).0 is Finished,
        h.spec_resume(reply).1 matches StepView::Respond(Err(RestErrorView::NotFound(_))),
{
}

/// Creating a message type puts it in the channel that the lookup found,
/// under the fresh identifier, and then looks up that same message type in
/// that same channel.
pub proof fn lemma_message_type_created_where_found(message_type_id: Id, creation: CreateMessageTypeRequest, c: Channel)
    ensures
        ({
            let first = (Handler::AwaitCreationChannel { message_type_id, creation }).spec_resume(Reply::Channel(Ok(Some(c))));
            &&& first.1 == StepView::Command(Command::CreateMessageType {
                message_type_id,
                code: creation.code,
                description: creation.description,
                channel_id: c.id,
            })
            &&& first.0.spec_resume(Reply::Executed(Ok(()))).1 == StepView::Query(Query::FindMessageType(FindMessageTypeQuery {
                message_type_id,
                channel_id: Some(c.id),
            }))
        }),
{
}

/// Creating a schema version attaches it to the message type that the
/// lookup found, and then looks up that same version of that message type
/// in the message type's channel.
pub proof fn lemma_schema_created_where_found(schema_id: Id, schema_creation: CreateSchemaRequest, m: MessageType)
    ensures
        ({
            let first = (Handler::AwaitCreationMessageType { schema_id, schema_creation }).spec_resume(Reply::MessageType(Ok(Some(m))));
            &&& first.1 == StepView::Command(Command::CreateSchema {
                schema_id,
                message_type_id: m.id,
                schema: schema_creation.schema,
            })
            &&& first.0.spec_resume(Reply::Executed(Ok(()))).1 == StepView::Query(Query::FindSchema(FindSchemaQuery {
                message_type_id: m.id,
                channel_id: m.channel_id,
                version: schema_id,
            }))
        }),
{
}

} // verus!
