use vstd::prelude::*;
use crate::id::{Id, uuid_text};
use crate::wrapper::W;

verus! {

/// An error as the channel api reports it to a client.
pub enum RestError {
    NotFound(String),
    InternalServer,
    UnprocessableEntity(String),
}

/// The abstract value of a `RestError`.
pub enum RestErrorView {
    NotFound(Seq<char>),
    InternalServer,
    UnprocessableEntity(Seq<char>),
}

impl View for RestError {
    type V = RestErrorView;

    open spec fn view(&self) -> RestErrorView {
        match self {
            RestError::NotFound(m) => RestErrorView::NotFound(m@),
            RestError::InternalServer => RestErrorView::InternalServer,
            RestError::UnprocessableEntity(m) => RestErrorView::UnprocessableEntity(m@),
        }
    }
}

/// A channel could not be created; the text is what the error displays.
pub enum CreateChannelError {
    CodeAlreadyExists(String),
}

/// A channel could not be updated; the text is what the error displays.
pub enum UpdateChannelError {
    ChannelNotFound(String),
}

/// A channel could not be deleted; the text is what the error displays.
pub enum DeleteChannelError {
    ChannelNotFound(String),
}

/// A command that the command bus refused or failed.
pub enum CommandBusError {
    CreateChannel(CreateChannelError),
    UpdateChannel(UpdateChannelError),
    DeleteChannel(DeleteChannelError),
    /// Any other failure, by the text that it displays.
    Other(String),
}

/// A query that the query bus failed, by the text that the failure displays.
pub struct QueryBusError {
    pub message: String,
}

/// A failure of the command or query bus behind a handler.
pub enum PerrouteBackofficeApiError {
    CommandBus(CommandBusError),
    QueryBus(QueryBusError),
}

/// The REST error that answers a refused command: an existing code is
/// unprocessable, a missing channel is not found, anything else is an
/// internal error.
pub open spec fn spec_command_rest_error(e: CommandBusError) -> RestError {
    match e {
        CommandBusError::CreateChannel(CreateChannelError::CodeAlreadyExists(m)) => RestError::UnprocessableEntity(m),
        CommandBusError::UpdateChannel(UpdateChannelError::ChannelNotFound(m)) => RestError::NotFound(m),
        CommandBusError::DeleteChannel(DeleteChannelError::ChannelNotFound(m)) => RestError::NotFound(m),
        CommandBusError::Other(_) => RestError::InternalServer,
    }
}

/// The text that a failed command displays: that of the refusal or failure
/// that it carries.
pub open spec fn spec_command_text(e: CommandBusError) -> Seq<char> {
    match e {
        CommandBusError::CreateChannel(CreateChannelError::CodeAlreadyExists(m)) => m@,
        CommandBusError::UpdateChannel(UpdateChannelError::ChannelNotFound(m)) => m@,
        CommandBusError::DeleteChannel(DeleteChannelError::ChannelNotFound(m)) => m@,
        CommandBusError::Other(m) => m@,
    }
}

impl CommandBusError {
    /// The text that the failed command displays.
    pub fn text(&self) -> (r: String)
        ensures
            r@ == spec_command_text(*self),
    {
        match self {
            CommandBusError::CreateChannel(CreateChannelError::CodeAlreadyExists(m)) => m.clone(),
            CommandBusError::UpdateChannel(UpdateChannelError::ChannelNotFound(m)) => m.clone(),
            CommandBusError::DeleteChannel(DeleteChannelError::ChannelNotFound(m)) => m.clone(),
            CommandBusError::Other(m) => m.clone(),
        }
    }
}

fn command_rest_error(e: CommandBusError) -> (r: RestError)
    ensures
        r == spec_command_rest_error(e),
{
    match e {
        CommandBusError::CreateChannel(CreateChannelError::CodeAlreadyExists(m)) => RestError::UnprocessableEntity(m),
        CommandBusError::UpdateChannel(UpdateChannelError::ChannelNotFound(m)) => RestError::NotFound(m),
        CommandBusError::DeleteChannel(DeleteChannelError::ChannelNotFound(m)) => RestError::NotFound(m),
        CommandBusError::Other(_) => RestError::InternalServer,
    }
}

impl From<PerrouteBackofficeApiError> for RestError {
    fn from(value: PerrouteBackofficeApiError) -> (r: RestError) {
        match value {
            PerrouteBackofficeApiError::CommandBus(e) => command_rest_error(e),
            PerrouteBackofficeApiError::QueryBus(_) => RestError::InternalServer,
        }
    }
}

impl vstd::std_specs::convert::FromSpecImpl<PerrouteBackofficeApiError> for RestError {
    open spec fn obeys_from_spec() -> bool {
        true
    }

    open spec fn from_spec(value: PerrouteBackofficeApiError) -> RestError {
        match value {
            PerrouteBackofficeApiError::CommandBus(e) => spec_command_rest_error(e),
            PerrouteBackofficeApiError::QueryBus(_) => RestError::InternalServer,
        }
    }
}

impl From<W<CommandBusError>> for RestError {
    fn from(value: W<CommandBusError>) -> (r: RestError) {
        command_rest_error(value.into_inner())
    }
}

impl vstd::std_specs::convert::FromSpecImpl<W<CommandBusError>> for RestError {
    open spec fn obeys_from_spec() -> bool {
        true
    }

    open spec fn from_spec(value: W<CommandBusError>) -> RestError {
        spec_command_rest_error(value.0)
    }
}

impl From<W<QueryBusError>> for RestError {
    fn from(value: W<QueryBusError>) -> (r: RestError) {
        RestError::InternalServer
    }
}

impl vstd::std_specs::convert::FromSpecImpl<W<QueryBusError>> for RestError {
    open spec fn obeys_from_spec() -> bool {
        true
    }

    open spec fn from_spec(value: W<QueryBusError>) -> RestError {
        RestError::InternalServer
    }
}

/// A stored channel.
pub struct Channel {
    pub id: Id,
    pub code: String,
    pub name: String,
}

/// A stored message type, which belongs to a channel.
pub struct MessageType {
    pub id: Id,
    pub code: String,
    pub description: String,
    pub enabled: bool,
    pub channel_id: Id,
}

/// A stored version of a message type's JSON schema; the schema is held as
/// its JSON text.
pub struct Schema {
    pub id: Id,
    pub version: i32,
    pub schema: String,
    pub message_type_id: Id,
}

impl Channel {
    /// A copy of the channel.
    pub fn duplicate(&self) -> (r: Channel)
        ensures
            r == *self,
    {
        Channel { id: self.id, code: self.code.clone(), name: self.name.clone() }
    }
}

impl MessageType {
    /// A copy of the message type.
    pub fn duplicate(&self) -> (r: MessageType)
        ensures
            r == *self,
    {
        MessageType {
            id: self.id,
            code: self.code.clone(),
            description: self.description.clone(),
            enabled: self.enabled,
            channel_id: self.channel_id,
        }
    }
}

impl Schema {
    /// A copy of the schema.
    pub fn duplicate(&self) -> (r: Schema)
        ensures
            r == *self,
    {
        Schema {
            id: self.id,
            version: self.version,
            schema: self.schema.clone(),
            message_type_id: self.message_type_id,
        }
    }
}

/// A channel as the api shows it.
pub struct ChannelResource {
    pub id: Id,
    pub code: String,
    pub name: String,
}

/// A message type as the api shows it.
pub struct MessageTypeResource {
    pub id: Id,
    pub code: String,
    pub description: String,
    pub enabled: bool,
    pub channel_id: Id,
}

/// A schema version as the api shows it.
pub struct SchemaResource {
    pub id: Id,
    pub version: i32,
    pub schema: String,
    pub message_type_id: Id,
}

impl From<Channel> for ChannelResource {
    fn from(value: Channel) -> (r: ChannelResource) {
        ChannelResource { id: value.id, code: value.code, name: value.name }
    }
}

impl vstd::std_specs::convert::FromSpecImpl<Channel> for ChannelResource {
    open spec fn obeys_from_spec() -> bool {
        true
    }

    open spec fn from_spec(value: Channel) -> ChannelResource {
        ChannelResource { id: value.id, code: value.code, name: value.name }
    }
}

impl From<MessageType> for MessageTypeResource {
    fn from(value: MessageType) -> (r: MessageTypeResource) {
        MessageTypeResource {
            id: value.id,
            code: value.code,
            description: value.description,
            enabled: value.enabled,
            channel_id: value.channel_id,
        }
    }
}

impl vstd::std_specs::convert::FromSpecImpl<MessageType> for MessageTypeResource {
    open spec fn obeys_from_spec() -> bool {
        true
    }

    open spec fn from_spec(value: MessageType) -> MessageTypeResource {
        MessageTypeResource {
            id: value.id,
            code: value.code,
            description: value.description,
            enabled: value.enabled,
            channel_id: value.channel_id,
        }
    }
}

impl From<Schema> for SchemaResource {
    fn from(value: Schema) -> (r: SchemaResource) {
        SchemaResource {
            id: value.id,
            version: value.version,
            schema: value.schema,
            message_type_id: value.message_type_id,
        }
    }
}

impl vstd::std_specs::convert::FromSpecImpl<Schema> for SchemaResource {
    open spec fn obeys_from_spec() -> bool {
        true
    }

    open spec fn from_spec(value: Schema) -> SchemaResource {
        SchemaResource {
            id: value.id,
            version: value.version,
            schema: value.schema,
            message_type_id: value.message_type_id,
        }
    }
}

/// The body of a request that creates a channel.
pub struct CreateChannelRequest {
    pub code: String,
    pub name: String,
}

/// The body of a request that renames a channel.
pub struct UpdateChannelRequest {
    pub name: String,
}

/// The body of a request that creates a message type.
pub struct CreateMessageTypeRequest {
    pub code: String,
    pub description: String,
}

/// The body of a request that changes a message type.
pub struct UpdateMessageTypeRequest {
    pub description: String,
    pub enabled: bool,
}

/// The body of a request that creates a schema version; the schema is its
/// JSON text.
pub struct CreateSchemaRequest {
    pub schema: String,
}

/// The body of a request that replaces a schema version.
pub struct UpdateSchemaRequest {
    pub schema: String,
}

/// The query for one channel.
pub struct FindChannelQuery {
    pub channel_id: Id,
}

/// The query for one message type, within a channel when one is named.
pub struct FindMessageTypeQuery {
    pub message_type_id: Id,
    pub channel_id: Option<Id>,
}

/// The query for one schema version of a message type of a channel.
pub struct FindSchemaQuery {
    pub message_type_id: Id,
    pub channel_id: Id,
    pub version: Id,
}

/// The path of a channel: `/channels/{channel_id}`.
pub struct ChannelPath {
    pub channel_id: Id,
}

/// The path of a message type: `/channels/{channel_id}/message_types/{message_type_id}`.
pub struct MessageTypePath {
    pub channel_id: Id,
    pub message_type_id: Id,
}

/// The path of a schema version:
/// `/channels/{channel_id}/message_types/{message_type_id}/schemas/{version}`.
pub struct SchemaPath {
    pub channel_id: Id,
    pub message_type_id: Id,
    pub schema_id: Id,
}

impl From<Id> for ChannelPath {
    fn from(channel_id: Id) -> (r: ChannelPath) {
        ChannelPath { channel_id }
    }
}

impl vstd::std_specs::convert::FromSpecImpl<Id> for ChannelPath {
    open spec fn obeys_from_spec() -> bool {
        true
    }

    open spec fn from_spec(channel_id: Id) -> ChannelPath {
        ChannelPath { channel_id }
    }
}

impl From<(Id, Id)> for MessageTypePath {
    fn from(ids: (Id, Id)) -> (r: MessageTypePath) {
        MessageTypePath { channel_id: ids.0, message_type_id: ids.1 }
    }
}

impl vstd::std_specs::convert::FromSpecImpl<(Id, Id)> for MessageTypePath {
    open spec fn obeys_from_spec() -> bool {
        true
    }

    open spec fn from_spec(ids: (Id, Id)) -> MessageTypePath {
        MessageTypePath { channel_id: ids.0, message_type_id: ids.1 }
    }
}

impl From<(Id, Id, Id)> for SchemaPath {
    fn from(ids: (Id, Id, Id)) -> (r: SchemaPath) {
        SchemaPath { channel_id: ids.0, message_type_id: ids.1, schema_id: ids.2 }
    }
}

impl vstd::std_specs::convert::FromSpecImpl<(Id, Id, Id)> for SchemaPath {
    open spec fn obeys_from_spec() -> bool {
        true
    }

    open spec fn from_spec(ids: (Id, Id, Id)) -> SchemaPath {
        SchemaPath { channel_id: ids.0, message_type_id: ids.1, schema_id: ids.2 }
    }
}

impl ChannelPath {
    /// The query for the channel that the path names.
    pub fn query(&self) -> (r: FindChannelQuery)
        ensures
            r.channel_id == self.channel_id,
    {
        FindChannelQuery { channel_id: self.channel_id }
    }
}

impl MessageTypePath {
    /// The query for the message type that the path names, within the
    /// path's channel.
    pub fn query(&self) -> (r: FindMessageTypeQuery)
        ensures
            r.message_type_id == self.message_type_id,
            r.channel_id == Some(self.channel_id),
    {
        FindMessageTypeQuery { message_type_id: self.message_type_id, channel_id: Some(self.channel_id) }
    }
}

impl SchemaPath {
    /// The query for the schema version that the path names.
    pub fn query(&self) -> (r: FindSchemaQuery)
        ensures
            r.message_type_id == self.message_type_id,
            r.channel_id == self.channel_id,
            r.version == self.schema_id,
    {
        FindSchemaQuery {
            message_type_id: self.message_type_id,
            channel_id: self.channel_id,
            version: self.schema_id,
        }
    }
}

/// What a lookup of a path's resource answers: the resource; the error that
/// the caller gives for a missing one; an internal error when the query
/// failed.
pub open spec fn spec_fetch<R>(outcome: Result<Option<R>, QueryBusError>, when_none: RestError) -> Result<R, RestError> {
    match outcome {
        Ok(Some(r)) => Ok(r),
        Ok(None) => Err(when_none),
        Err(_) => Err(RestError::InternalServer),
    }
}

/// Settles the lookup of a path's resource once the query bus answered.
pub fn fetch<R>(outcome: Result<Option<R>, QueryBusError>, when_none: RestError) -> (r: Result<R, RestError>)
    ensures
        r == spec_fetch(outcome, when_none),
{
    match outcome {
        Ok(Some(resource)) => Ok(resource),
        Ok(None) => Err(when_none),
        Err(e) => Err(RestError::from(PerrouteBackofficeApiError::QueryBus(e))),
    }
}

/// The message that a missing channel is reported with.
pub open spec fn spec_channel_not_found(id: Id) -> Seq<char> {
    "Channel "@ + uuid_text(id.value) + " not found"@
}

/// The message that a missing channel is reported with.
pub fn channel_not_found_message(id: Id) -> (r: String)
    ensures
        r@ == spec_channel_not_found(id),
{
    String::from_str("Channel ").concat(id.text().as_str()).concat(" not found")
}

} // verus!
