use vstd::prelude::*;
use crate::id::{Id, uuid_text};
use crate::rest::{
    RestError, RestErrorView, QueryBusError, PerrouteBackofficeApiError, Channel, MessageType,
    ChannelResource, MessageTypeResource, CreateChannelRequest, UpdateChannelRequest,
    CreateMessageTypeRequest, UpdateMessageTypeRequest, FindChannelQuery, FindMessageTypeQuery,
    spec_command_rest_error, spec_command_text, spec_channel_not_found, channel_not_found_message,
};
use crate::flows::{
    Query, Command, Reply, Body, BodyView, Step, StepView, respond_err, respond_ok, query_failed,
    message_type_resources, message_type_resources_of, query_error, command_error,
};
use vstd::std_specs::convert::FromSpec;
use vstd::pervasive::unreached;

verus! {

/// The message that a missing message type is reported with.
pub open spec fn spec_message_type_not_found(id: Id) -> Seq<char> {
    "Message type "@ + uuid_text(id.value) + " not found"@
}

/// The message that a missing message type is reported with.
pub fn message_type_not_found_message(id: Id) -> (r: String)
    ensures
        r@ == spec_message_type_not_found(id),
{
    String::from_str("Message type ").concat(id.text().as_str()).concat(" not found")
}

/// What a guard's lookup of the channel in a request's path answers: the
/// channel, "not found" naming the channel, or an internal error when the
/// query failed.
pub open spec fn spec_check_channel(outcome: Result<Option<Channel>, QueryBusError>, channel_id: Id) -> Result<Channel, RestErrorView> {
    match outcome {
        Ok(Some(c)) => Ok(c),
        Ok(None) => Err(RestErrorView::NotFound(spec_channel_not_found(channel_id))),
        Err(_) => Err(RestErrorView::InternalServer),
    }
}

pub open spec fn channel_result_view(r: Result<Channel, RestError>) -> Result<Channel, RestErrorView> {
    match r {
        Ok(c) => Ok(c),
        Err(e) => Err(e@),
    }
}

/// Settles the guard's lookup of the channel in a request's path.
pub fn check_channel(outcome: Result<Option<Channel>, QueryBusError>, channel_id: Id) -> (r: Result<Channel, RestError>)
    ensures
        channel_result_view(r) == spec_check_channel(outcome, channel_id),
{
    match outcome {
        Ok(Some(c)) => Ok(c),
        Ok(None) => Err(RestError::NotFound(channel_not_found_message(channel_id))),
        Err(e) => Err(RestError::from(PerrouteBackofficeApiError::QueryBus(e))),
    }
}

/// What the lookup of a message type answers: the message type, "not
/// found" naming it, or an internal error when the query failed.
pub open spec fn spec_retrieve_message_type(outcome: Result<Option<MessageType>, QueryBusError>, message_type_id: Id) -> Result<MessageType, RestErrorView> {
    match outcome {
        Ok(Some(m)) => Ok(m),
        Ok(None) => Err(RestErrorView::NotFound(spec_message_type_not_found(message_type_id))),
        Err(_) => Err(RestErrorView::InternalServer),
    }
}

pub open spec fn message_type_result_view(r: Result<MessageType, RestError>) -> Result<MessageType, RestErrorView> {
    match r {
        Ok(m) => Ok(m),
        Err(e) => Err(e@),
    }
}

/// Settles the lookup of a message type of a channel.
pub fn retrieve_message_type(outcome: Result<Option<MessageType>, QueryBusError>, message_type_id: Id) -> (r: Result<MessageType, RestError>)
    ensures
        message_type_result_view(r) == spec_retrieve_message_type(outcome, message_type_id),
{
    match outcome {
        Ok(Some(m)) => Ok(m),
        Ok(None) => Err(RestError::NotFound(message_type_not_found_message(message_type_id))),
        Err(e) => Err(RestError::from(PerrouteBackofficeApiError::QueryBus(e))),
    }
}

/// The lookup of a message type within a channel.
pub open spec fn spec_message_type_lookup(channel_id: Id, message_type_id: Id) -> Query {
    Query::FindMessageType(FindMessageTypeQuery { message_type_id, channel_id: Some(channel_id) })
}

/// Where a handler stands that guards its path, or that acts as the system.
pub enum GuardedHandler {
    /// `query_message_types` awaits the guard's lookup of the channel.
    AwaitGuardForListing { channel_id: Id },
    /// `query_message_types` awaits the listing of the message types.
    AwaitListing,
    /// `find_message_type` awaits the lookup of the message type.
    AwaitFound { message_type_id: Id },
    /// `create_message_type` awaits the guard's lookup of the channel.
    AwaitGuardForCreation { channel_id: Id, message_type_id: Id, creation: CreateMessageTypeRequest },
    /// `create_message_type` awaits the creation of the message type.
    AwaitCreation { channel_id: Id, message_type_id: Id },
    /// `update_message_type` awaits the lookup of the message type.
    AwaitToUpdate { channel_id: Id, message_type_id: Id, change: UpdateMessageTypeRequest },
    /// `update_message_type` awaits the change of the message type.
    AwaitUpdate { channel_id: Id, message_type_id: Id },
    /// `delete_message_type` awaits the lookup of the message type.
    AwaitToDelete { message_type_id: Id },
    /// `delete_message_type` awaits the deletion of the message type.
    AwaitDeletion,
    /// `create_channel`, acting as the system, awaits the creation.
    AwaitSystemCreation { channel_id: Id },
    /// `create_channel` awaits the lookup of the created channel.
    AwaitSystemCreated,
    /// `find_channel` or `update_channel` awaits the lookup of the channel.
    AwaitSystemChannel { channel_id: Id },
    /// `update_channel` awaits the renaming of the channel.
    AwaitSystemUpdate { channel_id: Id },
    /// The handler has answered.
    Finished,
}

impl GuardedHandler {
    /// Whether the handler can take the reply: it answers what the handler
    /// asked, and it is not a failed renaming, on which the handler gives up.
    pub open spec fn spec_accepts(self, reply: Reply) -> bool {
        match self {
            GuardedHandler::AwaitGuardForListing { .. } => reply is Channel,
            GuardedHandler::AwaitGuardForCreation { .. } => reply is Channel,
            GuardedHandler::AwaitSystemCreated => reply is Channel,
            GuardedHandler::AwaitSystemChannel { .. } => reply is Channel,
            GuardedHandler::AwaitListing => reply is MessageTypes,
            GuardedHandler::AwaitFound { .. } => reply is MessageType,
            GuardedHandler::AwaitToUpdate { .. } => reply is MessageType,
            GuardedHandler::AwaitToDelete { .. } => reply is MessageType,
            GuardedHandler::AwaitCreation { .. } => reply is Executed,
            GuardedHandler::AwaitUpdate { .. } => reply is Executed,
            GuardedHandler::AwaitDeletion => reply is Executed,
            GuardedHandler::AwaitSystemCreation { .. } => reply is Executed,
            GuardedHandler::AwaitSystemUpdate { .. } => reply matches Reply::Executed(Ok(_)),
            GuardedHandler::Finished => false,
        }
    }

    /// The most exchanges with the buses that the handler still needs before
    /// it answers.
    pub open spec fn spec_remaining(self) -> nat {
        match self {
            GuardedHandler::AwaitGuardForCreation { .. } => 3,
            GuardedHandler::AwaitToUpdate { .. } => 3,
            GuardedHandler::AwaitGuardForListing { .. } => 2,
            GuardedHandler::AwaitCreation { .. } => 2,
            GuardedHandler::AwaitUpdate { .. } => 2,
            GuardedHandler::AwaitToDelete { .. } => 2,
            GuardedHandler::AwaitSystemCreation { .. } => 2,
            GuardedHandler::AwaitSystemUpdate { .. } => 2,
            GuardedHandler::Finished => 0,
            _ => 1,
        }
    }

    /// The handler's next state and what it does next, once the reply came.
    pub open spec fn spec_resume(self, reply: Reply) -> (GuardedHandler, StepView) {
        let done = GuardedHandler::Finished;
        match self {
            GuardedHandler::AwaitGuardForListing { channel_id } => match reply {
                Reply::Channel(outcome) => match spec_check_channel(outcome, channel_id) {
                    Ok(_) => (GuardedHandler::AwaitListing, StepView::Query(Query::QueryMessageTypes { channel_id })),
                    Err(e) => (done, respond_err(e)),
                },
                _ => (done, respond_err(query_failed())),
            },
            GuardedHandler::AwaitListing => match reply {
                Reply::MessageTypes(Ok(v)) => (done, respond_ok(BodyView::MessageTypes(message_type_resources(v@)))),
                _ => (done, respond_err(query_failed())),
            },
            GuardedHandler::AwaitFound { message_type_id } => match reply {
                Reply::MessageType(outcome) => match spec_retrieve_message_type(outcome, message_type_id) {
                    Ok(m) => (done, respond_ok(BodyView::MessageType(MessageTypeResource::from_spec(m)))),
                    Err(e) => (done, respond_err(e)),
                },
                _ => (done, respond_err(query_failed())),
            },
            GuardedHandler::AwaitGuardForCreation { channel_id, message_type_id, creation } => match reply {
                Reply::Channel(outcome) => match spec_check_channel(outcome, channel_id) {
                    Ok(_) => (
                        GuardedHandler::AwaitCreation { channel_id, message_type_id },
                        StepView::Command(Command::CreateMessageType {
                            message_type_id,
                            code: creation.code,
                            description: creation.description,
                            channel_id,
                        }),
                    ),
                    Err(e) => (done, respond_err(e)),
                },
                _ => (done, respond_err(query_failed())),
            },
            GuardedHandler::AwaitCreation { channel_id, message_type_id } => match reply {
                Reply::Executed(Ok(_)) => (
                    GuardedHandler::AwaitFound { message_type_id },
                    StepView::Query(spec_message_type_lookup(channel_id, message_type_id)),
                ),
                Reply::Executed(Err(e)) => (done, respond_err(spec_command_rest_error(e)@)),
                _ => (done, respond_err(query_failed())),
            },
            GuardedHandler::AwaitToUpdate { channel_id, message_type_id, change } => match reply {
                Reply::MessageType(outcome) => match spec_retrieve_message_type(outcome, message_type_id) {
                    Ok(_) => (
                        GuardedHandler::AwaitUpdate { channel_id, message_type_id },
                        StepView::Command(Command::UpdateMessageType {
                            message_type_id,
                            description: change.description,
                            enabled: change.enabled,
                        }),
                    ),
                    Err(e) => (done, respond_err(e)),
                },
                _ => (done, respond_err(query_failed())),
            },
            GuardedHandler::AwaitUpdate { channel_id, message_type_id } => match reply {
                Reply::Executed(Ok(_)) => (
                    GuardedHandler::AwaitFound { message_type_id },
                    StepView::Query(spec_message_type_lookup(channel_id, message_type_id)),
                ),
                Reply::Executed(Err(e)) => (done, respond_err(spec_command_rest_error(e)@)),
                _ => (done, respond_err(query_failed())),
            },
            GuardedHandler::AwaitToDelete { message_type_id } => match reply {
                Reply::MessageType(outcome) => match spec_retrieve_message_type(outcome, message_type_id) {
                    Ok(_) => (GuardedHandler::AwaitDeletion, StepView::Command(Command::DeleteMessageType { message_type_id })),
                    Err(e) => (done, respond_err(e)),
                },
                _ => (done, respond_err(query_failed())),
            },
            GuardedHandler::AwaitDeletion => match reply {
                Reply::Executed(Ok(_)) => (done, respond_ok(BodyView::Empty)),
                Reply::Executed(Err(e)) => (done, respond_err(spec_command_rest_error(e)@)),
                _ => (done, respond_err(query_failed())),
            },
            GuardedHandler::AwaitSystemCreation { channel_id } => match reply {
                Reply::Executed(Ok(_)) => (
                    GuardedHandler::AwaitSystemCreated,
                    StepView::Query(Query::FindChannel(FindChannelQuery { channel_id })),
                ),
                Reply::Executed(Err(e)) => (done, respond_err(RestErrorView::UnprocessableEntity(spec_command_text(e)))),
                _ => (done, respond_err(query_failed())),
            },
            GuardedHandler::AwaitSystemCreated => match reply {
                Reply::Channel(Ok(Some(c))) => (done, respond_ok(BodyView::Channel(ChannelResource::from_spec(c)))),
                _ => (done, respond_err(query_failed())),
            },
            GuardedHandler::AwaitSystemChannel { channel_id } => match reply {
                Reply::Channel(outcome) => match spec_check_channel(outcome, channel_id) {
                    Ok(c) => (done, respond_ok(BodyView::Channel(ChannelResource::from_spec(c)))),
                    Err(e) => (done, respond_err(e)),
                },
                _ => (done, respond_err(query_failed())),
            },
            GuardedHandler::AwaitSystemUpdate { channel_id } => (
                GuardedHandler::AwaitSystemChannel { channel_id },
                StepView::Query(Query::FindChannel(FindChannelQuery { channel_id })),
            ),
            GuardedHandler::Finished => (done, respond_err(query_failed())),
        }
    }

    /// Whether the handler can take the reply.
    pub fn accepts(&self, reply: &Reply) -> (r: bool)
        ensures
            r == self.spec_accepts(*reply),
    {
        match self {
            GuardedHandler::AwaitGuardForListing { .. }
            | GuardedHandler::AwaitGuardForCreation { .. }
            | GuardedHandler::AwaitSystemCreated
            | GuardedHandler::AwaitSystemChannel { .. } => matches!(reply, Reply::Channel(_)),
            GuardedHandler::AwaitListing => matches!(reply, Reply::MessageTypes(_)),
            GuardedHandler::AwaitFound { .. } | GuardedHandler::AwaitToUpdate { .. } | GuardedHandler::AwaitToDelete { .. } =>
                matches!(reply, Reply::MessageType(_)),
            GuardedHandler::AwaitCreation { .. }
            | GuardedHandler::AwaitUpdate { .. }
            | GuardedHandler::AwaitDeletion
            | GuardedHandler::AwaitSystemCreation { .. } => matches!(reply, Reply::Executed(_)),
            GuardedHandler::AwaitSystemUpdate { .. } => matches!(reply, Reply::Executed(Ok(_))),
            GuardedHandler::Finished => false,
        }
    }

    /// Takes the reply of the bus: the handler's next state and what it does
    /// next.
    pub fn resume(self, reply: Reply) -> (r: (GuardedHandler, Step))
        requires
            self.spec_accepts(reply),
        ensures
            r.0 == self.spec_resume(reply).0,
            r.1@ == self.spec_resume(reply).1,
    {
        let done = GuardedHandler::Finished;
        match self {
            GuardedHandler::AwaitGuardForListing { channel_id } => match reply {
                Reply::Channel(outcome) => match check_channel(outcome, channel_id) {
                    Ok(_) => (GuardedHandler::AwaitListing, Step::Query(Query::QueryMessageTypes { channel_id })),
                    Err(e) => (done, Step::Respond(Err(e))),
                },
                _ => unreached(),
            },
            GuardedHandler::AwaitListing => match reply {
                Reply::MessageTypes(Ok(v)) => (done, Step::Respond(Ok(Body::MessageTypes(message_type_resources_of(v))))),
                Reply::MessageTypes(Err(e)) => (done, query_error(e)),
                _ => unreached(),
            },
            GuardedHandler::AwaitFound { message_type_id } => match reply {
                Reply::MessageType(outcome) => match retrieve_message_type(outcome, message_type_id) {
                    Ok(m) => (done, Step::Respond(Ok(Body::MessageType(MessageTypeResource::from(m))))),
                    Err(e) => (done, Step::Respond(Err(e))),
                },
                _ => unreached(),
            },
            GuardedHandler::AwaitGuardForCreation { channel_id, message_type_id, creation } => match reply {
                Reply::Channel(outcome) => match check_channel(outcome, channel_id) {
                    Ok(_) => (
                        GuardedHandler::AwaitCreation { channel_id, message_type_id },
                        Step::Command(Command::CreateMessageType {
                            message_type_id,
                            code: creation.code,
                            description: creation.description,
                            channel_id,
                        }),
                    ),
                    Err(e) => (done, Step::Respond(Err(e))),
                },
                _ => unreached(),
            },
            GuardedHandler::AwaitCreation { channel_id, message_type_id } => match reply {
                Reply::Executed(Ok(_)) => (
                    GuardedHandler::AwaitFound { message_type_id },
                    Step::Query(message_type_lookup(channel_id, message_type_id)),
                ),
                Reply::Executed(Err(e)) => (done, command_error(e)),
                _ => unreached(),
            },
            GuardedHandler::AwaitToUpdate { channel_id, message_type_id, change } => match reply {
                Reply::MessageType(outcome) => match retrieve_message_type(outcome, message_type_id) {
                    Ok(_) => (
                        GuardedHandler::AwaitUpdate { channel_id, message_type_id },
                        Step::Command(Command::UpdateMessageType {
                            message_type_id,
                            description: change.description,
                            enabled: change.enabled,
                        }),
                    ),
                    Err(e) => (done, Step::Respond(Err(e))),
                },
                _ => unreached(),
            },
            GuardedHandler::AwaitUpdate { channel_id, message_type_id } => match reply {
                Reply::Executed(Ok(_)) => (
                    GuardedHandler::AwaitFound { message_type_id },
                    Step::Query(message_type_lookup(channel_id, message_type_id)),
                ),
                Reply::Executed(Err(e)) => (done, command_error(e)),
                _ => unreached(),
            },
            GuardedHandler::AwaitToDelete { message_type_id } => match reply {
                Reply::MessageType(outcome) => match retrieve_message_type(outcome, message_type_id) {
                    Ok(_) => (GuardedHandler::AwaitDeletion, Step::Command(Command::DeleteMessageType { message_type_id })),
                    Err(e) => (done, Step::Respond(Err(e))),
                },
                _ => unreached(),
            },
            GuardedHandler::AwaitDeletion => match reply {
                Reply::Executed(Ok(_)) => (done, Step::Respond(Ok(Body::Empty))),
                Reply::Executed(Err(e)) => (done, command_error(e)),
                _ => unreached(),
            },
            GuardedHandler::AwaitSystemCreation { channel_id } => match reply {
                Reply::Executed(Ok(_)) => (
                    GuardedHandler::AwaitSystemCreated,
                    Step::Query(Query::FindChannel(FindChannelQuery { channel_id })),
                ),
                Reply::Executed(Err(e)) => (done, Step::Respond(Err(RestError::UnprocessableEntity(e.text())))),
                _ => unreached(),
            },
            GuardedHandler::AwaitSystemCreated => match reply {
                Reply::Channel(Ok(Some(c))) => (done, Step::Respond(Ok(Body::Channel(ChannelResource::from(c))))),
                Reply::Channel(Ok(None)) => (done, Step::Respond(Err(RestError::InternalServer))),
                Reply::Channel(Err(e)) => (done, query_error(e)),
                _ => unreached(),
            },
            GuardedHandler::AwaitSystemChannel { channel_id } => match reply {
                Reply::Channel(outcome) => match check_channel(outcome, channel_id) {
                    Ok(c) => (done, Step::Respond(Ok(Body::Channel(ChannelResource::from(c))))),
                    Err(e) => (done, Step::Respond(Err(e))),
                },
                _ => unreached(),
            },
            GuardedHandler::AwaitSystemUpdate { channel_id } => (
                GuardedHandler::AwaitSystemChannel { channel_id },
                Step::Query(Query::FindChannel(FindChannelQuery { channel_id })),
            ),
            GuardedHandler::Finished => unreached(),
        }
    }
}

fn message_type_lookup(channel_id: Id, message_type_id: Id) -> (r: Query)
    ensures
        r == spec_message_type_lookup(channel_id, message_type_id),
{
    Query::FindMessageType(FindMessageTypeQuery { message_type_id, channel_id: Some(channel_id) })
}

/// The handlers of the message types of a channel that check, before they
/// act, that the channel in the path exists.
pub struct GuardedMessageTypeRoutes;

impl GuardedMessageTypeRoutes {
    /// `GET`: once the channel is found, answers with its message types.
    pub fn query_message_types(channel_id: Id) -> (r: (GuardedHandler, Step))
        ensures
            r.0 == (GuardedHandler::AwaitGuardForListing { channel_id }),
            r.1@ == StepView::Query(Query::FindChannel(FindChannelQuery { channel_id })),
    {
        (GuardedHandler::AwaitGuardForListing { channel_id }, Step::Query(Query::FindChannel(FindChannelQuery { channel_id })))
    }

    /// `GET /{id}`: answers with the message type of the channel.
    pub fn find_message_type(channel_id: Id, message_type_id: Id) -> (r: (GuardedHandler, Step))
        ensures
            r.0 == (GuardedHandler::AwaitFound { message_type_id }),
            r.1@ == StepView::Query(spec_message_type_lookup(channel_id, message_type_id)),
    {
        (GuardedHandler::AwaitFound { message_type_id }, Step::Query(message_type_lookup(channel_id, message_type_id)))
    }

    /// `POST`: once the channel is found, creates the message type in the
    /// channel of the path under the fresh identifier, then answers with it.
    pub fn create_message_type(channel_id: Id, message_type_id: Id, body: CreateMessageTypeRequest) -> (r: (GuardedHandler, Step))
        ensures
            r.0 == (GuardedHandler::AwaitGuardForCreation { channel_id, message_type_id, creation: body }),
            r.1@ == StepView::Query(Query::FindChannel(FindChannelQuery { channel_id })),
    {
        (
            GuardedHandler::AwaitGuardForCreation { channel_id, message_type_id, creation: body },
            Step::Query(Query::FindChannel(FindChannelQuery { channel_id })),
        )
    }

    /// `PUT /{id}`: once the message type is found, changes it, then answers
    /// with it as found again.
    pub fn update_message_type(channel_id: Id, message_type_id: Id, req: UpdateMessageTypeRequest) -> (r: (GuardedHandler, Step))
        ensures
            r.0 == (GuardedHandler::AwaitToUpdate { channel_id, message_type_id, change: req }),
            r.1@ == StepView::Query(spec_message_type_lookup(channel_id, message_type_id)),
    {
        (
            GuardedHandler::AwaitToUpdate { channel_id, message_type_id, change: req },
            Step::Query(message_type_lookup(channel_id, message_type_id)),
        )
    }

    /// `DELETE /{id}`: once the message type is found, deletes it.
    pub fn delete_message_type(channel_id: Id, message_type_id: Id) -> (r: (GuardedHandler, Step))
        ensures
            r.0 == (GuardedHandler::AwaitToDelete { message_type_id }),
            r.1@ == StepView::Query(spec_message_type_lookup(channel_id, message_type_id)),
    {
        (GuardedHandler::AwaitToDelete { message_type_id }, Step::Query(message_type_lookup(channel_id, message_type_id)))
    }
}

/// The channel handlers that act as the system rather than as the caller.
pub struct SystemChannelRoutes;

impl SystemChannelRoutes {
    /// `POST`: creates the channel under the fresh identifier, then answers
    /// with it as stored; a refused creation is unprocessable.
    pub fn create_channel(channel_id: Id, body: CreateChannelRequest) -> (r: (GuardedHandler, Step))
        ensures
            r.0 == (GuardedHandler::AwaitSystemCreation { channel_id }),
            r.1@ == StepView::Command(Command::CreateChannel { channel_id, code: body.code, name: body.name }),
    {
        (
            GuardedHandler::AwaitSystemCreation { channel_id },
            Step::Command(Command::CreateChannel { channel_id, code: body.code, name: body.name }),
        )
    }

    /// `GET /{id}`: answers with the channel.
    pub fn find_channel(channel_id: Id) -> (r: (GuardedHandler, Step))
        ensures
            r.0 == (GuardedHandler::AwaitSystemChannel { channel_id }),
            r.1@ == StepView::Query(Query::FindChannel(FindChannelQuery { channel_id })),
    {
        (GuardedHandler::AwaitSystemChannel { channel_id }, Step::Query(Query::FindChannel(FindChannelQuery { channel_id })))
    }

    /// `PUT /{id}`: renames the channel, then answers with it.
    pub fn update_channel(channel_id: Id, req: UpdateChannelRequest) -> (r: (GuardedHandler, Step))
        ensures
            r.0 == (GuardedHandler::AwaitSystemUpdate { channel_id }),
            r.1@ == StepView::Command(Command::UpdateChannel { channel_id, name: req.name }),
    {
        (GuardedHandler::AwaitSystemUpdate { channel_id }, Step::Command(Command::UpdateChannel { channel_id, name: req.name }))
    }
}

/// A guarded or system handler that has not answered keeps going: every
/// reply it can take brings it at least one exchange closer to its answer,
/// and it answers exactly when it has finished.
pub proof fn lemma_guarded_handler_progress(h: GuardedHandler, reply: Reply)
    requires
        h.spec_accepts(reply),
    ensures
        h.spec_resume(reply).0.spec_remaining() < h.spec_remaining(),
        (h.spec_resume(reply).1 is Respond) <==> (h.spec_resume(reply).0 is Finished),
{
}

/// The guard stops a request on a missing channel before anything is
/// changed: the answer is "not found" naming the channel, and no command
/// is sent.
pub proof fn lemma_guard_stops_missing_channel(h: GuardedHandler)
    requires
        h is AwaitGuardForListing || h is AwaitGuardForCreation,
    ensures
        ({
            let channel_id = if h is AwaitGuardForListing { h->AwaitGuardForListing_channel_id } else { h->AwaitGuardForCreation_channel_id };
            h.spec_resume(Reply::Channel(Ok(None)))
                == (GuardedHandler::Finished, respond_err(RestErrorView::NotFound(spec_channel_not_found(channel_id))))
        }),
{
}

/// A message type is created in the channel of the path, under the
/// identifier that the request was given, and is then looked up by that
/// identifier within that channel.
pub proof fn lemma_created_where_guarded(channel_id: Id, message_type_id: Id, creation: CreateMessageTypeRequest, c: Channel)
    ensures
        ({
            let (next, step) = (GuardedHandler::AwaitGuardForCreation { channel_id, message_type_id, creation })
                .spec_resume(Reply::Channel(Ok(Some(c))));
            &&& step == StepView::Command(Command::CreateMessageType {
                message_type_id,
                code: creation.code,
                description: creation.description,
                channel_id,
            })
            &&& next.spec_resume(Reply::Executed(Ok(()))).1
                == StepView::Query(spec_message_type_lookup(channel_id, message_type_id))
        }),
{
}

} // verus!
