use vstd::prelude::*;
use crate::id::{Id, uuid_text};
use crate::error::{STATUS_OK, STATUS_CREATED};
use crate::rest::{RestErrorView, QueryBusError, Channel, MessageType};
use crate::flows::{Command, Reply};
use crate::hypermedia::ResourceLink;
use crate::channel_router::{ApiError, ApiErrorView, spec_rest_error_of};
use vstd::pervasive::unreached;

verus! {

/// A query of the message type handlers.
#[derive(Clone, Copy, PartialEq, Eq, Structural, Debug)]
pub enum MessageTypeQuery {
    /// The channel with the identifier.
    FindChannel { channel_id: Id },
    /// The message types of the channel.
    QueryMessageTypes { channel_id: Id },
    /// The message type with the identifier.
    FindMessageType { message_type_id: Id },
    /// The message type with the identifier, within the channel.
    FindChannelMessageType { channel_id: Id, message_type_id: Id },
}

/// What a message type handler answers, before its values are turned into
/// resource bodies.
pub enum MessageTypeAnswer {
    /// The message types of a channel.
    Collection { channel: Channel, message_types: Vec<MessageType> },
    /// A new message type, with the link that points at it.
    Created { link: ResourceLink, message_type: MessageType },
    /// One message type.
    Single(MessageType),
    /// Nothing.
    Empty,
}

/// "Created" for a new message type, "OK" otherwise.
pub open spec fn spec_answer_status(a: MessageTypeAnswer) -> u16 {
    if a is Created { STATUS_CREATED } else { STATUS_OK }
}

impl MessageTypeAnswer {
    /// The HTTP status of the answer.
    pub fn status_code(&self) -> (r: u16)
        ensures
            r == spec_answer_status(*self),
    {
        match self {
            MessageTypeAnswer::Created { .. } => STATUS_CREATED,
            _ => STATUS_OK,
        }
    }
}

/// What a message type handler does next.
pub enum MessageTypeStep {
    Query(MessageTypeQuery),
    Command(Command),
    Respond(Result<MessageTypeAnswer, ApiError>),
}

/// The abstract value of a `MessageTypeStep`.
pub enum MessageTypeStepView {
    Query(MessageTypeQuery),
    Command(Command),
    Respond(Result<MessageTypeAnswer, ApiErrorView>),
}

impl View for MessageTypeStep {
    type V = MessageTypeStepView;

    open spec fn view(&self) -> MessageTypeStepView {
        match self {
            MessageTypeStep::Query(q) => MessageTypeStepView::Query(*q),
            MessageTypeStep::Command(c) => MessageTypeStepView::Command(*c),
            MessageTypeStep::Respond(Ok(a)) => MessageTypeStepView::Respond(Ok(*a)),
            MessageTypeStep::Respond(Err(e)) => MessageTypeStepView::Respond(Err(e@)),
        }
    }
}

/// Where a message type handler stands.
pub enum MessageTypeHandler {
    /// `query` awaits the lookup of the channel.
    AwaitListedChannel { channel_id: Id },
    /// `query` awaits the listing of the channel's message types.
    AwaitMessageTypeList { channel: Channel },
    /// `create` awaits the lookup of the channel.
    AwaitCreationChannel { channel_id: Id, message_type_id: Id, code: String, description: String },
    /// `create` awaits the creation of the message type.
    AwaitMessageTypeCreation { channel_id: Id, message_type_id: Id },
    /// `create` awaits the lookup of the created message type.
    AwaitCreatedMessageType { channel_id: Id },
    /// `update` awaits the lookup of the message type.
    AwaitMessageTypeToUpdate { channel_id: Id, message_type_id: Id, description: String, enabled: bool },
    /// `update` awaits the change of the message type.
    AwaitMessageTypeUpdate { channel_id: Id, message_type_id: Id },
    /// `update` awaits the lookup of the changed message type.
    AwaitUpdatedMessageType { message_type_id: Id },
    /// `delete` awaits the lookup of the message type.
    AwaitMessageTypeToDelete { message_type_id: Id },
    /// `delete` awaits the deletion of the message type.
    AwaitMessageTypeDeletion,
    /// `find` awaits the lookup of the message type.
    AwaitFoundMessageType { channel_id: Id },
    /// The handler has answered.
    Finished,
}

/// The failure that a missing channel is answered with: the channel's
/// identifier, by its text.
pub open spec fn spec_channel_not_found(channel_id: Id) -> ApiErrorView {
    ApiErrorView::ChannelNotFound(uuid_text(channel_id.value))
}

/// The lookup of a message type within a channel.
pub fn retrieve_message_type_query(channel_id: Id, message_type_id: Id) -> (r: MessageTypeQuery)
    ensures
        r == (MessageTypeQuery::FindChannelMessageType { channel_id, message_type_id }),
{
    MessageTypeQuery::FindChannelMessageType { channel_id, message_type_id }
}

/// The message type that a lookup found, or `not_found` where it found
/// none, or the failure of the query bus.
pub fn retrieve_message_type(found: Result<Option<MessageType>, QueryBusError>, not_found: ApiError) -> (r: Result<MessageType, ApiError>)
    ensures
        match found {
            Ok(Some(m)) => r == Ok::<MessageType, ApiError>(m),
            Ok(None) => r == Err::<MessageType, ApiError>(not_found),
            Err(e) => r == Err::<MessageType, ApiError>(ApiError::QueryBus(e)),
        },
{
    match found {
        Ok(Some(m)) => Ok(m),
        Ok(None) => Err(not_found),
        Err(e) => Err(ApiError::QueryBus(e)),
    }
}

impl MessageTypeHandler {
    /// Whether the handler can take the reply: it answers what the handler
    /// asked, and the created message type is found again.
    pub open spec fn spec_accepts(self, reply: Reply) -> bool {
        match self {
            MessageTypeHandler::AwaitListedChannel { .. } => reply is Channel,
            MessageTypeHandler::AwaitCreationChannel { .. } => reply is Channel,
            MessageTypeHandler::AwaitMessageTypeList { .. } => reply is MessageTypes,
            MessageTypeHandler::AwaitMessageTypeCreation { .. } => reply is Executed,
            MessageTypeHandler::AwaitMessageTypeUpdate { .. } => reply is Executed,
            MessageTypeHandler::AwaitMessageTypeDeletion => reply is Executed,
            MessageTypeHandler::AwaitCreatedMessageType { .. } => reply is MessageType && !(reply matches Reply::MessageType(Ok(None))),
            MessageTypeHandler::Finished => false,
            _ => reply is MessageType,
        }
    }

    /// The most exchanges with the buses that the handler still needs before
    /// it answers.
    pub open spec fn spec_remaining(self) -> nat {
        match self {
            MessageTypeHandler::AwaitCreationChannel { .. } => 3,
            MessageTypeHandler::AwaitMessageTypeToUpdate { .. } => 3,
            MessageTypeHandler::AwaitListedChannel { .. } => 2,
            MessageTypeHandler::AwaitMessageTypeCreation { .. } => 2,
            MessageTypeHandler::AwaitMessageTypeUpdate { .. } => 2,
            MessageTypeHandler::AwaitMessageTypeToDelete { .. } => 2,
            MessageTypeHandler::Finished => 0,
            _ => 1,
        }
    }

    /// The handler's next state and what it does next, once the reply came.
    pub open spec fn spec_resume(self, reply: Reply) -> (MessageTypeHandler, MessageTypeStepView) {
        let done = MessageTypeHandler::Finished;
        match self {
            MessageTypeHandler::AwaitListedChannel { channel_id } => match reply {
                Reply::Channel(Ok(Some(c))) => (
                    MessageTypeHandler::AwaitMessageTypeList { channel: c },
                    MessageTypeStepView::Query(MessageTypeQuery::QueryMessageTypes { channel_id: c.id }),
                ),
                Reply::Channel(Ok(None)) => (done, MessageTypeStepView::Respond(Err(spec_channel_not_found(channel_id)))),
                Reply::Channel(Err(e)) => (done, MessageTypeStepView::Respond(Err(ApiErrorView::QueryBus(e)))),
                _ => (done, MessageTypeStepView::Respond(Ok(MessageTypeAnswer::Empty))),
            },
            MessageTypeHandler::AwaitMessageTypeList { channel } => match reply {
                Reply::MessageTypes(Ok(v)) => (
                    done,
                    MessageTypeStepView::Respond(Ok(MessageTypeAnswer::Collection { channel, message_types: v })),
                ),
                Reply::MessageTypes(Err(e)) => (done, MessageTypeStepView::Respond(Err(ApiErrorView::QueryBus(e)))),
                _ => (done, MessageTypeStepView::Respond(Ok(MessageTypeAnswer::Empty))),
            },
            MessageTypeHandler::AwaitCreationChannel { channel_id, message_type_id, code, description } => match reply {
                Reply::Channel(Ok(Some(c))) => (
                    MessageTypeHandler::AwaitMessageTypeCreation { channel_id, message_type_id },
                    MessageTypeStepView::Command(Command::CreateMessageType { message_type_id, code, description, channel_id: c.id }),
                ),
                Reply::Channel(Ok(None)) => (done, MessageTypeStepView::Respond(Err(spec_channel_not_found(channel_id)))),
                Reply::Channel(Err(e)) => (done, MessageTypeStepView::Respond(Err(ApiErrorView::QueryBus(e)))),
                _ => (done, MessageTypeStepView::Respond(Ok(MessageTypeAnswer::Empty))),
            },
            MessageTypeHandler::AwaitMessageTypeCreation { channel_id, message_type_id } => match reply {
                Reply::Executed(Ok(_)) => (
                    MessageTypeHandler::AwaitCreatedMessageType { channel_id },
                    MessageTypeStepView::Query(MessageTypeQuery::FindMessageType { message_type_id }),
                ),
                Reply::Executed(Err(e)) => (done, MessageTypeStepView::Respond(Err(ApiErrorView::CommandBus(e)))),
                _ => (done, MessageTypeStepView::Respond(Ok(MessageTypeAnswer::Empty))),
            },
            MessageTypeHandler::AwaitCreatedMessageType { channel_id } => match reply {
                Reply::MessageType(Ok(Some(m))) => (
                    done,
                    MessageTypeStepView::Respond(Ok(MessageTypeAnswer::Created {
                        link: ResourceLink::MessageType(channel_id, m.id),
                        message_type: m,
                    })),
                ),
                Reply::MessageType(Err(e)) => (done, MessageTypeStepView::Respond(Err(ApiErrorView::QueryBus(e)))),
                _ => (done, MessageTypeStepView::Respond(Ok(MessageTypeAnswer::Empty))),
            },
            MessageTypeHandler::AwaitMessageTypeToUpdate { channel_id, message_type_id, description, enabled } => match reply {
                Reply::MessageType(Ok(Some(m))) => (
                    MessageTypeHandler::AwaitMessageTypeUpdate { channel_id, message_type_id },
                    MessageTypeStepView::Command(Command::UpdateMessageType { message_type_id: m.id, description, enabled }),
                ),
                Reply::MessageType(Ok(None)) => (done, MessageTypeStepView::Respond(Err(ApiErrorView::MessageTypeNotFound(message_type_id)))),
                Reply::MessageType(Err(e)) => (done, MessageTypeStepView::Respond(Err(ApiErrorView::QueryBus(e)))),
                _ => (done, MessageTypeStepView::Respond(Ok(MessageTypeAnswer::Empty))),
            },
            MessageTypeHandler::AwaitMessageTypeUpdate { channel_id, message_type_id } => match reply {
                Reply::Executed(Ok(_)) => (
                    MessageTypeHandler::AwaitUpdatedMessageType { message_type_id },
                    MessageTypeStepView::Query(MessageTypeQuery::FindChannelMessageType { channel_id, message_type_id }),
                ),
                Reply::Executed(Err(e)) => (done, MessageTypeStepView::Respond(Err(ApiErrorView::CommandBus(e)))),
                _ => (done, MessageTypeStepView::Respond(Ok(MessageTypeAnswer::Empty))),
            },
            MessageTypeHandler::AwaitUpdatedMessageType { message_type_id } => match reply {
                Reply::MessageType(Ok(Some(m))) => (done, MessageTypeStepView::Respond(Ok(MessageTypeAnswer::Single(m)))),
                Reply::MessageType(Ok(None)) => (done, MessageTypeStepView::Respond(Err(ApiErrorView::MessageTypeNotFound(message_type_id)))),
                Reply::MessageType(Err(e)) => (done, MessageTypeStepView::Respond(Err(ApiErrorView::QueryBus(e)))),
                _ => (done, MessageTypeStepView::Respond(Ok(MessageTypeAnswer::Empty))),
            },
            MessageTypeHandler::AwaitMessageTypeToDelete { message_type_id } => match reply {
                Reply::MessageType(Ok(Some(m))) => (
                    MessageTypeHandler::AwaitMessageTypeDeletion,
                    MessageTypeStepView::Command(Command::DeleteMessageType { message_type_id: m.id }),
                ),
                Reply::MessageType(Ok(None)) => (done, MessageTypeStepView::Respond(Err(spec_channel_not_found(message_type_id)))),
                Reply::MessageType(Err(e)) => (done, MessageTypeStepView::Respond(Err(ApiErrorView::QueryBus(e)))),
                _ => (done, MessageTypeStepView::Respond(Ok(MessageTypeAnswer::Empty))),
            },
            MessageTypeHandler::AwaitMessageTypeDeletion => match reply {
                Reply::Executed(Ok(_)) => (done, MessageTypeStepView::Respond(Ok(MessageTypeAnswer::Empty))),
                Reply::Executed(Err(e)) => (done, MessageTypeStepView::Respond(Err(ApiErrorView::CommandBus(e)))),
                _ => (done, MessageTypeStepView::Respond(Ok(MessageTypeAnswer::Empty))),
            },
            MessageTypeHandler::AwaitFoundMessageType { channel_id } => match reply {
                Reply::MessageType(Ok(Some(m))) => (done, MessageTypeStepView::Respond(Ok(MessageTypeAnswer::Single(m)))),
                Reply::MessageType(Ok(None)) => (done, MessageTypeStepView::Respond(Err(ApiErrorView::MessageTypeNotFound(channel_id)))),
                Reply::MessageType(Err(e)) => (done, MessageTypeStepView::Respond(Err(ApiErrorView::QueryBus(e)))),
                _ => (done, MessageTypeStepView::Respond(Ok(MessageTypeAnswer::Empty))),
            },
            MessageTypeHandler::Finished => (done, MessageTypeStepView::Respond(Ok(MessageTypeAnswer::Empty))),
        }
    }

    /// Whether the handler can take the reply.
    pub fn accepts(&self, reply: &Reply) -> (r: bool)
        ensures
            r == self.spec_accepts(*reply),
    {
        match self {
            MessageTypeHandler::AwaitListedChannel { .. } | MessageTypeHandler::AwaitCreationChannel { .. } =>
                matches!(reply, Reply::Channel(_)),
            MessageTypeHandler::AwaitMessageTypeList { .. } => matches!(reply, Reply::MessageTypes(_)),
            MessageTypeHandler::AwaitMessageTypeCreation { .. }
            | MessageTypeHandler::AwaitMessageTypeUpdate { .. }
            | MessageTypeHandler::AwaitMessageTypeDeletion => matches!(reply, Reply::Executed(_)),
            MessageTypeHandler::AwaitCreatedMessageType { .. } =>
                matches!(reply, Reply::MessageType(Ok(Some(_)))) || matches!(reply, Reply::MessageType(Err(_))),
            MessageTypeHandler::Finished => false,
            _ => matches!(reply, Reply::MessageType(_)),
        }
    }

    /// Takes the reply of the bus: the handler's next state and what it does
    /// next.
    pub fn resume(self, reply: Reply) -> (r: (MessageTypeHandler, MessageTypeStep))
        requires
            self.spec_accepts(reply),
        ensures
            r.0 == self.spec_resume(reply).0,
            r.1@ == self.spec_resume(reply).1,
    {
        let done = MessageTypeHandler::Finished;
        match self {
            MessageTypeHandler::AwaitListedChannel { channel_id } => match reply {
                Reply::Channel(Ok(Some(c))) => {
                    let q = MessageTypeQuery::QueryMessageTypes { channel_id: c.id };
                    (MessageTypeHandler::AwaitMessageTypeList { channel: c }, MessageTypeStep::Query(q))
                },
                Reply::Channel(Ok(None)) => (done, MessageTypeStep::Respond(Err(ApiError::ChannelNotFound(channel_id.text())))),
                Reply::Channel(Err(e)) => (done, MessageTypeStep::Respond(Err(ApiError::QueryBus(e)))),
                _ => unreached(),
            },
            MessageTypeHandler::AwaitMessageTypeList { channel } => match reply {
                Reply::MessageTypes(Ok(v)) => (
                    done,
                    MessageTypeStep::Respond(Ok(MessageTypeAnswer::Collection { channel, message_types: v })),
                ),
                Reply::MessageTypes(Err(e)) => (done, MessageTypeStep::Respond(Err(ApiError::QueryBus(e)))),
                _ => unreached(),
            },
            MessageTypeHandler::AwaitCreationChannel { channel_id, message_type_id, code, description } => match reply {
                Reply::Channel(Ok(Some(c))) => (
                    MessageTypeHandler::AwaitMessageTypeCreation { channel_id, message_type_id },
                    MessageTypeStep::Command(Command::CreateMessageType { message_type_id, code, description, channel_id: c.id }),
                ),
                Reply::Channel(Ok(None)) => (done, MessageTypeStep::Respond(Err(ApiError::ChannelNotFound(channel_id.text())))),
                Reply::Channel(Err(e)) => (done, MessageTypeStep::Respond(Err(ApiError::QueryBus(e)))),
                _ => unreached(),
            },
            MessageTypeHandler::AwaitMessageTypeCreation { channel_id, message_type_id } => match reply {
                Reply::Executed(Ok(_)) => (
                    MessageTypeHandler::AwaitCreatedMessageType { channel_id },
                    MessageTypeStep::Query(MessageTypeQuery::FindMessageType { message_type_id }),
                ),
                Reply::Executed(Err(e)) => (done, MessageTypeStep::Respond(Err(ApiError::CommandBus(e)))),
                _ => unreached(),
            },
            MessageTypeHandler::AwaitCreatedMessageType { channel_id } => match reply {
                Reply::MessageType(Ok(Some(m))) => {
                    let link = ResourceLink::MessageType(channel_id, m.id);
                    (done, MessageTypeStep::Respond(Ok(MessageTypeAnswer::Created { link, message_type: m })))
                },
                Reply::MessageType(Err(e)) => (done, MessageTypeStep::Respond(Err(ApiError::QueryBus(e)))),
                _ => unreached(),
            },
            MessageTypeHandler::AwaitMessageTypeToUpdate { channel_id, message_type_id, description, enabled } => match reply {
                Reply::MessageType(found) => match retrieve_message_type(found, ApiError::MessageTypeNotFound(message_type_id)) {
                    Ok(m) => (
                        MessageTypeHandler::AwaitMessageTypeUpdate { channel_id, message_type_id },
                        MessageTypeStep::Command(Command::UpdateMessageType { message_type_id: m.id, description, enabled }),
                    ),
                    Err(e) => (done, MessageTypeStep::Respond(Err(e))),
                },
                _ => unreached(),
            },
            MessageTypeHandler::AwaitMessageTypeUpdate { channel_id, message_type_id } => match reply {
                Reply::Executed(Ok(_)) => (
                    MessageTypeHandler::AwaitUpdatedMessageType { message_type_id },
                    MessageTypeStep::Query(retrieve_message_type_query(channel_id, message_type_id)),
                ),
                Reply::Executed(Err(e)) => (done, MessageTypeStep::Respond(Err(ApiError::CommandBus(e)))),
                _ => unreached(),
            },
            MessageTypeHandler::AwaitUpdatedMessageType { message_type_id } => match reply {
                Reply::MessageType(found) => match retrieve_message_type(found, ApiError::MessageTypeNotFound(message_type_id)) {
                    Ok(m) => (done, MessageTypeStep::Respond(Ok(MessageTypeAnswer::Single(m)))),
                    Err(e) => (done, MessageTypeStep::Respond(Err(e))),
                },
                _ => unreached(),
            },
            MessageTypeHandler::AwaitMessageTypeToDelete { message_type_id } => match reply {
                Reply::MessageType(found) => match retrieve_message_type(found, ApiError::ChannelNotFound(message_type_id.text())) {
                    Ok(m) => (
                        MessageTypeHandler::AwaitMessageTypeDeletion,
                        MessageTypeStep::Command(Command::DeleteMessageType { message_type_id: m.id }),
                    ),
                    Err(e) => (done, MessageTypeStep::Respond(Err(e))),
                },
                _ => unreached(),
            },
            MessageTypeHandler::AwaitMessageTypeDeletion => match reply {
                Reply::Executed(Ok(_)) => (done, MessageTypeStep::Respond(Ok(MessageTypeAnswer::Empty))),
                Reply::Executed(Err(e)) => (done, MessageTypeStep::Respond(Err(ApiError::CommandBus(e)))),
                _ => unreached(),
            },
            MessageTypeHandler::AwaitFoundMessageType { channel_id } => match reply {
                Reply::MessageType(found) => match retrieve_message_type(found, ApiError::MessageTypeNotFound(channel_id)) {
                    Ok(m) => (done, MessageTypeStep::Respond(Ok(MessageTypeAnswer::Single(m)))),
                    Err(e) => (done, MessageTypeStep::Respond(Err(e))),
                },
                _ => unreached(),
            },
            MessageTypeHandler::Finished => unreached(),
        }
    }
}

/// The handlers of the message types of a channel, which name the channel
/// and the message type by their identifiers.
pub struct MessageTypeRouter;

impl MessageTypeRouter {
    /// `GET`: once the channel is found, answers with its message types.
    pub fn query(channel_id: Id) -> (r: (MessageTypeHandler, MessageTypeStep))
        ensures
            r.0 == (MessageTypeHandler::AwaitListedChannel { channel_id }),
            r.1@ == MessageTypeStepView::Query(MessageTypeQuery::FindChannel { channel_id }),
    {
        (MessageTypeHandler::AwaitListedChannel { channel_id }, MessageTypeStep::Query(MessageTypeQuery::FindChannel { channel_id }))
    }

    /// `POST`: once the channel is found, creates the message type under the
    /// fresh identifier `message_type_id`, then answers "created" with the
    /// message type as stored and a link to it.
    pub fn create(channel_id: Id, message_type_id: Id, code: String, description: String) -> (r: (MessageTypeHandler, MessageTypeStep))
        ensures
            r.0 == (MessageTypeHandler::AwaitCreationChannel { channel_id, message_type_id, code, description }),
            r.1@ == MessageTypeStepView::Query(MessageTypeQuery::FindChannel { channel_id }),
    {
        (
            MessageTypeHandler::AwaitCreationChannel { channel_id, message_type_id, code, description },
            MessageTypeStep::Query(MessageTypeQuery::FindChannel { channel_id }),
        )
    }

    /// `PUT /{message_type_id}`: once the message type is found in the
    /// channel, changes its description and whether it is enabled, then
    /// answers with it as found again.
    pub fn update(channel_id: Id, message_type_id: Id, description: String, enabled: bool) -> (r: (MessageTypeHandler, MessageTypeStep))
        ensures
            r.0 == (MessageTypeHandler::AwaitMessageTypeToUpdate { channel_id, message_type_id, description, enabled }),
            r.1@ == MessageTypeStepView::Query(MessageTypeQuery::FindChannelMessageType { channel_id, message_type_id }),
    {
        (
            MessageTypeHandler::AwaitMessageTypeToUpdate { channel_id, message_type_id, description, enabled },
            MessageTypeStep::Query(retrieve_message_type_query(channel_id, message_type_id)),
        )
    }

    /// `DELETE /{message_type_id}`: once the message type is found in the
    /// channel, deletes it.
    pub fn delete(channel_id: Id, message_type_id: Id) -> (r: (MessageTypeHandler, MessageTypeStep))
        ensures
            r.0 == (MessageTypeHandler::AwaitMessageTypeToDelete { message_type_id }),
            r.1@ == MessageTypeStepView::Query(MessageTypeQuery::FindChannelMessageType { channel_id, message_type_id }),
    {
        (
            MessageTypeHandler::AwaitMessageTypeToDelete { message_type_id },
            MessageTypeStep::Query(retrieve_message_type_query(channel_id, message_type_id)),
        )
    }

    /// `GET /{message_type_id}`: answers with the message type of the
    /// channel.
    pub fn find(channel_id: Id, message_type_id: Id) -> (r: (MessageTypeHandler, MessageTypeStep))
        ensures
            r.0 == (MessageTypeHandler::AwaitFoundMessageType { channel_id }),
            r.1@ == MessageTypeStepView::Query(MessageTypeQuery::FindChannelMessageType { channel_id, message_type_id }),
    {
        (
            MessageTypeHandler::AwaitFoundMessageType { channel_id },
            MessageTypeStep::Query(retrieve_message_type_query(channel_id, message_type_id)),
        )
    }
}

/// A message type handler that has not answered keeps going: every reply
/// it can take brings it at least one exchange closer to its answer, and it
/// answers exactly when it has finished.
pub proof fn lemma_message_type_handler_progress(h: MessageTypeHandler, reply: Reply)
    requires
        h.spec_accepts(reply),
    ensures
        h.spec_resume(reply).0.spec_remaining() < h.spec_remaining(),
        (h.spec_resume(reply).1 is Respond) <==> (h.spec_resume(reply).0 is Finished),
{
}

/// Every failure of a message type handler is answered with an internal
/// error: the handlers' failures are never REST errors of their own.
pub proof fn lemma_message_type_failures_are_internal(h: MessageTypeHandler, reply: Reply)
    requires
        h.spec_accepts(reply),
        h.spec_resume(reply).1 matches MessageTypeStepView::Respond(Err(_)),
    ensures
        h.spec_resume(reply).1 matches MessageTypeStepView::Respond(Err(e))
            && spec_rest_error_of(e) == RestErrorView::InternalServer,
{
}

/// The message type handlers act on what their lookups found: a creation
/// goes into the channel that was found, a change or a deletion goes to the
/// message type that was found, and a creation is answered with a link to
/// the created message type within the channel of the request.
pub proof fn lemma_message_type_acts_where_found(h: MessageTypeHandler, c: Channel, m: MessageType)
    ensures
        h is AwaitCreationChannel ==> (h.spec_resume(Reply::Channel(Ok(Some(c)))).1 matches
            MessageTypeStepView::Command(Command::CreateMessageType { channel_id, .. }) && channel_id == c.id),
        h is AwaitMessageTypeToUpdate ==> (h.spec_resume(Reply::MessageType(Ok(Some(m)))).1 matches
            MessageTypeStepView::Command(Command::UpdateMessageType { message_type_id, .. }) && message_type_id == m.id),
        h is AwaitMessageTypeToDelete ==> (h.spec_resume(Reply::MessageType(Ok(Some(m)))).1 matches
            MessageTypeStepView::Command(Command::DeleteMessageType { message_type_id }) && message_type_id == m.id),
        h matches MessageTypeHandler::AwaitCreatedMessageType { channel_id } ==> h.spec_resume(Reply::MessageType(Ok(Some(m)))).1 matches
            MessageTypeStepView::Respond(Ok(MessageTypeAnswer::Created { link, message_type }))
                && link == ResourceLink::MessageType(channel_id, m.id) && message_type == m,
{
}

} // verus!
