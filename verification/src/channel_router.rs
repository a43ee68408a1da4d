use vstd::prelude::*;
use crate::id::Id;
use crate::error::{STATUS_OK, STATUS_CREATED};
use crate::links::LOCATION_HEADER;
use crate::rest::{RestError, RestErrorView, CommandBusError, QueryBusError, Channel};
use crate::flows::{Command, Reply};
use vstd::pervasive::unreached;

verus! {

pub const CHANNEL_RESOUCE_LINK: &'static str = "channel";
pub const CHANNELS_RESOUCE_LINK: &'static str = "channels";

/// The relation of a link of the channel resources to the resource that
/// carries it.
#[derive(Clone, Copy, PartialEq, Eq, Structural, Debug, Hash)]
pub enum Linkrelation {
    Self_,
    Channels,
}

/// A link to a channel, by its code, or to the channel collection.
pub enum ResourceLink {
    Channel(String),
    Channels,
}

/// The abstract value of a `ResourceLink`.
pub enum ResourceLinkView {
    Channel(Seq<char>),
    Channels,
}

impl View for ResourceLink {
    type V = ResourceLinkView;

    open spec fn view(&self) -> ResourceLinkView {
        match self {
            ResourceLink::Channel(code) => ResourceLinkView::Channel(code@),
            ResourceLink::Channels => ResourceLinkView::Channels,
        }
    }
}

impl ResourceLink {
    /// The name of the resource that the link resolves against and the
    /// texts that fill its path.
    pub fn url_target(&self) -> (r: (&'static str, Vec<String>))
        ensures
            match *self {
                ResourceLink::Channel(code) => r.0@ == CHANNEL_RESOUCE_LINK@ && r.1@.len() == 1 && r.1@[0]@ == code@,
                ResourceLink::Channels => r.0@ == CHANNELS_RESOUCE_LINK@ && r.1@.len() == 0,
            },
    {
        let mut elements: Vec<String> = Vec::new();
        match self {
            ResourceLink::Channel(code) => {
                elements.push(code.clone());
                (CHANNEL_RESOUCE_LINK, elements)
            },
            ResourceLink::Channels => (CHANNELS_RESOUCE_LINK, elements),
        }
    }

    /// The `Location` header that points at the link, given the url that the
    /// link resolved to.
    pub fn as_location_header(&self, url: String) -> (r: (String, String))
        ensures
            r.0@ == LOCATION_HEADER@,
            r.1 == url,
    {
        (String::from_str(LOCATION_HEADER), url)
    }
}

/// The links of a channel resource, at most one per relation.
pub struct Links {
    self_: Option<ResourceLink>,
    channels: Option<ResourceLink>,
}

impl View for Links {
    type V = Map<Linkrelation, ResourceLinkView>;

    closed spec fn view(&self) -> Map<Linkrelation, ResourceLinkView> {
        Map::new(
            |r: Linkrelation| match r {
                Linkrelation::Self_ => self.self_ is Some,
                Linkrelation::Channels => self.channels is Some,
            },
            |r: Linkrelation| match r {
                Linkrelation::Self_ => self.self_->0@,
                Linkrelation::Channels => self.channels->0@,
            },
        )
    }
}

impl Links {
    /// No links.
    pub fn default() -> (r: Links)
        ensures
            r@ == Map::<Linkrelation, ResourceLinkView>::empty(),
    {
        let r = Links { self_: None, channels: None };
        proof {
            assert(r@ =~= Map::<Linkrelation, ResourceLinkView>::empty());
        }
        r
    }

    /// The links with `link` under `rel`, in place of the one there was.
    pub fn add(self, rel: Linkrelation, link: ResourceLink) -> (r: Links)
        ensures
            r@ == self@.insert(rel, link@),
    {
        let ghost l = link@;
        let r = match rel {
            Linkrelation::Self_ => Links { self_: Some(link), channels: self.channels },
            Linkrelation::Channels => Links { self_: self.self_, channels: Some(link) },
        };
        proof {
            assert(r@ =~= self@.insert(rel, l));
        }
        r
    }

    /// Each link with its relation, the self link first.
    pub fn entries(&self) -> (r: Vec<(Linkrelation, &ResourceLink)>)
        ensures
            forall|i: int| 0 <= i < r@.len() ==> self@.contains_key(#[trigger] r@[i].0) && self@[r@[i].0] == r@[i].1@,
            forall|rel: Linkrelation| #[trigger] self@.contains_key(rel) ==> exists|i: int| 0 <= i < r@.len() && r@[i].0 == rel,
            forall|i: int, j: int| 0 <= i < j < r@.len() ==> r@[i].0 != r@[j].0,
    {
        let mut r: Vec<(Linkrelation, &ResourceLink)> = Vec::new();
        match &self.self_ {
            Some(l) => r.push((Linkrelation::Self_, l)),
            None => {},
        }
        match &self.channels {
            Some(l) => r.push((Linkrelation::Channels, l)),
            None => {},
        }
        proof {
            assert forall|rel: Linkrelation| #[trigger] self@.contains_key(rel) implies exists|i: int| 0 <= i < r@.len() && r@[i].0 == rel by {
                if rel == Linkrelation::Self_ {
                    assert(r@[0].0 == rel);
                } else if self.self_ is Some {
                    assert(r@[1].0 == rel);
                } else {
                    assert(r@[0].0 == rel);
                }
            }
        }
        r
    }
}

/// One resource: its data and its links.
pub struct SingleResource<D> {
    pub data: D,
    pub links: Links,
}

/// A collection of resources with the links of the collection.
pub struct CollectionResource<D> {
    pub data: Vec<SingleResource<D>>,
    pub links: Links,
}

/// The answer of a handler of the channel resources.
pub enum ApiResponse<D> {
    OkEmpty,
    OkSingle(SingleResource<D>),
    OkCollection(CollectionResource<D>),
    CreatedEmpty(ResourceLink),
    Created(ResourceLink, SingleResource<D>),
}

/// "Created" for a response that points at a new resource, "OK" otherwise.
pub open spec fn spec_response_status<D>(r: ApiResponse<D>) -> u16 {
    match r {
        ApiResponse::CreatedEmpty(_) => STATUS_CREATED,
        ApiResponse::Created(_, _) => STATUS_CREATED,
        _ => STATUS_OK,
    }
}

impl<D> ApiResponse<D> {
    /// The HTTP status of the response.
    pub fn status_code(&self) -> (r: u16)
        ensures
            r == spec_response_status(*self),
    {
        match self {
            ApiResponse::OkEmpty => STATUS_OK,
            ApiResponse::OkSingle(_) => STATUS_OK,
            ApiResponse::OkCollection(_) => STATUS_OK,
            ApiResponse::CreatedEmpty(_) => STATUS_CREATED,
            ApiResponse::Created(_, _) => STATUS_CREATED,
        }
    }
}

/// A channel as the channel resources show it: its code and name.
pub struct ChannelResource {
    pub code: String,
    pub name: String,
}

/// The resource of a channel: its code and name, linked to itself by its
/// code and to the channel collection.
pub open spec fn spec_is_channel_single(r: SingleResource<ChannelResource>, c: Channel) -> bool {
    &&& r.data == ChannelResource { code: c.code, name: c.name }
    &&& r.links@ == Map::<Linkrelation, ResourceLinkView>::empty()
        .insert(Linkrelation::Self_, ResourceLinkView::Channel(c.code@))
        .insert(Linkrelation::Channels, ResourceLinkView::Channels)
}

/// The resource of a channel.
pub fn channel_single(value: Channel) -> (r: SingleResource<ChannelResource>)
    ensures
        spec_is_channel_single(r, value),
{
    let self_link = ResourceLink::Channel(value.code.clone());
    let links = Links::default().add(Linkrelation::Self_, self_link).add(Linkrelation::Channels, ResourceLink::Channels);
    SingleResource { data: ChannelResource { code: value.code, name: value.name }, links }
}

/// The collection of channels: each channel's resource, in order, linked
/// to the collection itself.
pub open spec fn spec_is_channel_collection(r: CollectionResource<ChannelResource>, v: Seq<Channel>) -> bool {
    &&& r.data@.len() == v.len()
    &&& forall|i: int| 0 <= i < v.len() ==> spec_is_channel_single(#[trigger] r.data@[i], v[i])
    &&& r.links@ == Map::<Linkrelation, ResourceLinkView>::empty().insert(Linkrelation::Self_, ResourceLinkView::Channels)
}

/// The collection of channels.
pub fn channel_collection(value: Vec<Channel>) -> (r: CollectionResource<ChannelResource>)
    ensures
        spec_is_channel_collection(r, value@),
{
    let mut data: Vec<SingleResource<ChannelResource>> = Vec::new();
    let mut i: usize = 0;
    while i < value.len()
        invariant
            i <= value@.len(),
            data@.len() == i,
            forall|j: int| 0 <= j < i ==> spec_is_channel_single(#[trigger] data@[j], value@[j]),
        decreases value@.len() - i,
    {
        let c = value[i].duplicate();
        data.push(channel_single(c));
        i = i + 1;
    }
    CollectionResource { data, links: Links::default().add(Linkrelation::Self_, ResourceLink::Channels) }
}

/// Everything that can go wrong while a channel handler serves a request.
pub enum ApiError {
    /// No channel has the code (or the identifier, by its text).
    ChannelNotFound(String),
    /// No message type has the identifier.
    MessageTypeNotFound(Id),
    CommandBus(CommandBusError),
    QueryBus(QueryBusError),
    Rest(RestError),
    /// An unexpected failure, by the text that it displays.
    Unexpected(String),
    /// A failure described by a fixed text.
    Const(&'static str),
}

/// The abstract value of an `ApiError`.
pub enum ApiErrorView {
    ChannelNotFound(Seq<char>),
    MessageTypeNotFound(Id),
    CommandBus(CommandBusError),
    QueryBus(QueryBusError),
    Rest(RestErrorView),
    Unexpected(Seq<char>),
    Const(Seq<char>),
}

impl View for ApiError {
    type V = ApiErrorView;

    open spec fn view(&self) -> ApiErrorView {
        match self {
            ApiError::ChannelNotFound(c) => ApiErrorView::ChannelNotFound(c@),
            ApiError::MessageTypeNotFound(id) => ApiErrorView::MessageTypeNotFound(*id),
            ApiError::CommandBus(e) => ApiErrorView::CommandBus(*e),
            ApiError::QueryBus(e) => ApiErrorView::QueryBus(*e),
            ApiError::Rest(e) => ApiErrorView::Rest(e@),
            ApiError::Unexpected(m) => ApiErrorView::Unexpected(m@),
            ApiError::Const(m) => ApiErrorView::Const(m@),
        }
    }
}

/// The REST error that answers a failure: a REST error answers as itself,
/// anything else as an internal error.
pub open spec fn spec_rest_error_of(e: ApiErrorView) -> RestErrorView {
    match e {
        ApiErrorView::Rest(r) => r,
        _ => RestErrorView::InternalServer,
    }
}

impl ApiError {
    /// The REST error that answers the failure.
    pub fn rest_error(&self) -> (r: RestError)
        ensures
            r@ == spec_rest_error_of(self@),
    {
        match self {
            ApiError::Rest(e) => match e {
                RestError::NotFound(m) => RestError::NotFound(m.clone()),
                RestError::InternalServer => RestError::InternalServer,
                RestError::UnprocessableEntity(m) => RestError::UnprocessableEntity(m.clone()),
            },
            _ => RestError::InternalServer,
        }
    }
}

/// A query of the channel handlers.
pub enum ChannelQuery {
    FindChannelByCode(String),
    QueryChannels,
}

/// The abstract value of a `ChannelQuery`.
pub enum ChannelQueryView {
    FindChannelByCode(Seq<char>),
    QueryChannels,
}

impl View for ChannelQuery {
    type V = ChannelQueryView;

    open spec fn view(&self) -> ChannelQueryView {
        match self {
            ChannelQuery::FindChannelByCode(c) => ChannelQueryView::FindChannelByCode(c@),
            ChannelQuery::QueryChannels => ChannelQueryView::QueryChannels,
        }
    }
}

/// What a channel handler does next.
pub enum ChannelStep {
    Query(ChannelQuery),
    Command(Command),
    Respond(Result<ApiResponse<ChannelResource>, ApiError>),
}

/// Where a channel handler stands.
pub enum ChannelHandler {
    /// `create_channel` awaits the creation of the channel with the code.
    AwaitCreation { code: String },
    /// `create_channel` awaits the lookup of the created channel.
    AwaitCreated,
    /// `find_channel` awaits the lookup of the channel with the code.
    AwaitChannel { code: String },
    /// `query` awaits the listing of the channels.
    AwaitChannels,
    /// `update` awaits the lookup of the channel with the code.
    AwaitChannelToUpdate { code: String, name: String },
    /// `update` awaits the renaming of the channel.
    AwaitUpdate { code: String },
    /// `update` awaits the lookup of the renamed channel.
    AwaitUpdated,
    /// `delete` awaits the lookup of the channel with the code.
    AwaitChannelToDelete { code: String },
    /// `delete` awaits the deletion of the channel.
    AwaitDeletion,
    /// The handler has answered.
    Finished,
}

impl ChannelHandler {
    /// Whether the handler can take the reply: it answers what the handler
    /// asked.
    pub open spec fn spec_accepts(self, reply: Reply) -> bool {
        match self {
            ChannelHandler::AwaitCreation { .. } => reply is Executed,
            ChannelHandler::AwaitUpdate { .. } => reply is Executed,
            ChannelHandler::AwaitDeletion => reply is Executed,
            ChannelHandler::AwaitChannels => reply is Channels,
            ChannelHandler::Finished => false,
            _ => reply is Channel,
        }
    }

    /// The most exchanges with the bus that the handler still needs before
    /// it answers.
    pub open spec fn spec_remaining(self) -> nat {
        match self {
            ChannelHandler::AwaitChannelToUpdate { .. } => 3,
            ChannelHandler::AwaitCreation { .. } => 2,
            ChannelHandler::AwaitUpdate { .. } => 2,
            ChannelHandler::AwaitChannelToDelete { .. } => 2,
            ChannelHandler::Finished => 0,
            _ => 1,
        }
    }

    /// Whether the handler can take the reply.
    pub fn accepts(&self, reply: &Reply) -> (r: bool)
        ensures
            r == self.spec_accepts(*reply),
    {
        match self {
            ChannelHandler::AwaitCreation { .. } | ChannelHandler::AwaitUpdate { .. } | ChannelHandler::AwaitDeletion =>
                matches!(reply, Reply::Executed(_)),
            ChannelHandler::AwaitChannels => matches!(reply, Reply::Channels(_)),
            ChannelHandler::Finished => false,
            _ => matches!(reply, Reply::Channel(_)),
        }
    }
}

/// The failure that a missing channel is answered with.
pub open spec fn spec_not_found(code: Seq<char>) -> ApiErrorView {
    ApiErrorView::ChannelNotFound(code)
}

/// The failure that a lost channel is answered with, when a channel that
/// was just written cannot be read back.
pub open spec fn spec_lost() -> ApiErrorView {
    ApiErrorView::Const("Failed to retrieve channel"@)
}

/// The steps of the channel handlers, taken by a reply: in each case the
/// handler's next state and what it does next.
pub open spec fn spec_channel_resume(h: ChannelHandler, reply: Reply, next: ChannelHandler, step: ChannelStep) -> bool {
    match h {
        ChannelHandler::AwaitCreation { code } => match reply {
            Reply::Executed(Ok(_)) => next == ChannelHandler::AwaitCreated
                && (step matches ChannelStep::Query(q) && q@ == ChannelQueryView::FindChannelByCode(code@)),
            Reply::Executed(Err(e)) => next == ChannelHandler::Finished
                && (step matches ChannelStep::Respond(Err(f)) && f@ == ApiErrorView::CommandBus(e)),
            _ => false,
        },
        ChannelHandler::AwaitCreated => match reply {
            Reply::Channel(Ok(Some(c))) => next == ChannelHandler::Finished
                && (step matches ChannelStep::Respond(Ok(ApiResponse::Created(link, body)))
                && link@ == ResourceLinkView::Channel(c.code@) && spec_is_channel_single(body, c)),
            Reply::Channel(Ok(None)) => next == ChannelHandler::Finished
                && (step matches ChannelStep::Respond(Err(f)) && f@ == spec_lost()),
            Reply::Channel(Err(e)) => next == ChannelHandler::Finished
                && (step matches ChannelStep::Respond(Err(f)) && f@ == ApiErrorView::QueryBus(e)),
            _ => false,
        },
        ChannelHandler::AwaitChannel { code } => match reply {
            Reply::Channel(Ok(Some(c))) => next == ChannelHandler::Finished
                && (step matches ChannelStep::Respond(Ok(ApiResponse::OkSingle(body))) && spec_is_channel_single(body, c)),
            Reply::Channel(Ok(None)) => next == ChannelHandler::Finished
                && (step matches ChannelStep::Respond(Err(f)) && f@ == spec_not_found(code@)),
            Reply::Channel(Err(e)) => next == ChannelHandler::Finished
                && (step matches ChannelStep::Respond(Err(f)) && f@ == ApiErrorView::QueryBus(e)),
            _ => false,
        },
        ChannelHandler::AwaitChannels => match reply {
            Reply::Channels(Ok(v)) => next == ChannelHandler::Finished
                && (step matches ChannelStep::Respond(Ok(ApiResponse::OkCollection(body))) && spec_is_channel_collection(body, v@)),
            Reply::Channels(Err(e)) => next == ChannelHandler::Finished
                && (step matches ChannelStep::Respond(Err(f)) && f@ == ApiErrorView::QueryBus(e)),
            _ => false,
        },
        ChannelHandler::AwaitChannelToUpdate { code, name } => match reply {
            Reply::Channel(Ok(Some(c))) => next == (ChannelHandler::AwaitUpdate { code })
                && step == ChannelStep::Command(Command::UpdateChannel { channel_id: c.id, name }),
            Reply::Channel(Ok(None)) => next == ChannelHandler::Finished
                && (step matches ChannelStep::Respond(Err(f)) && f@ == spec_not_found(code@)),
            Reply::Channel(Err(e)) => next == ChannelHandler::Finished
                && (step matches ChannelStep::Respond(Err(f)) && f@ == ApiErrorView::QueryBus(e)),
            _ => false,
        },
        ChannelHandler::AwaitUpdate { code } => match reply {
            Reply::Executed(Ok(_)) => next == ChannelHandler::AwaitUpdated
                && (step matches ChannelStep::Query(q) && q@ == ChannelQueryView::FindChannelByCode(code@)),
            Reply::Executed(Err(e)) => next == ChannelHandler::Finished
                && (step matches ChannelStep::Respond(Err(f)) && f@ == ApiErrorView::CommandBus(e)),
            _ => false,
        },
        ChannelHandler::AwaitUpdated => match reply {
            Reply::Channel(Ok(Some(c))) => next == ChannelHandler::Finished
                && (step matches ChannelStep::Respond(Ok(ApiResponse::OkSingle(body))) && spec_is_channel_single(body, c)),
            Reply::Channel(Ok(None)) => next == ChannelHandler::Finished
                && (step matches ChannelStep::Respond(Err(f)) && f@ == spec_lost()),
            Reply::Channel(Err(e)) => next == ChannelHandler::Finished
                && (step matches ChannelStep::Respond(Err(f)) && f@ == ApiErrorView::QueryBus(e)),
            _ => false,
        },
        ChannelHandler::AwaitChannelToDelete { code } => match reply {
            Reply::Channel(Ok(Some(c))) => next == ChannelHandler::AwaitDeletion
                && step == ChannelStep::Command(Command::DeleteChannel { channel_id: c.id }),
            Reply::Channel(Ok(None)) => next == ChannelHandler::Finished
                && (step matches ChannelStep::Respond(Err(f)) && f@ == spec_not_found(code@)),
            Reply::Channel(Err(e)) => next == ChannelHandler::Finished
                && (step matches ChannelStep::Respond(Err(f)) && f@ == ApiErrorView::QueryBus(e)),
            _ => false,
        },
        ChannelHandler::AwaitDeletion => match reply {
            Reply::Executed(Ok(_)) => next == ChannelHandler::Finished
                && (step matches ChannelStep::Respond(Ok(ApiResponse::OkEmpty))),
            Reply::Executed(Err(e)) => next == ChannelHandler::Finished
                && (step matches ChannelStep::Respond(Err(f)) && f@ == ApiErrorView::CommandBus(e)),
            _ => false,
        },
        ChannelHandler::Finished => false,
    }
}

fn lookup_answer(reply: Reply, code: String) -> (r: (ChannelHandler, ChannelStep))
    requires
        reply is Channel,
    ensures
        spec_channel_resume(ChannelHandler::AwaitChannel { code }, reply, r.0, r.1),
{
    match reply {
        Reply::Channel(Ok(Some(c))) => (ChannelHandler::Finished, ChannelStep::Respond(Ok(ApiResponse::OkSingle(channel_single(c))))),
        Reply::Channel(Ok(None)) => (ChannelHandler::Finished, ChannelStep::Respond(Err(ApiError::ChannelNotFound(code)))),
        Reply::Channel(Err(e)) => (ChannelHandler::Finished, ChannelStep::Respond(Err(ApiError::QueryBus(e)))),
        _ => unreached(),
    }
}

fn reread_answer(reply: Reply) -> (r: (ChannelHandler, ChannelStep))
    requires
        reply is Channel,
    ensures
        spec_channel_resume(ChannelHandler::AwaitUpdated, reply, r.0, r.1),
{
    match reply {
        Reply::Channel(Ok(Some(c))) => (ChannelHandler::Finished, ChannelStep::Respond(Ok(ApiResponse::OkSingle(channel_single(c))))),
        Reply::Channel(Ok(None)) => (
            ChannelHandler::Finished,
            ChannelStep::Respond(Err(ApiError::Const("Failed to retrieve channel"))),
        ),
        Reply::Channel(Err(e)) => (ChannelHandler::Finished, ChannelStep::Respond(Err(ApiError::QueryBus(e)))),
        _ => unreached(),
    }
}

impl ChannelHandler {
    /// Takes the reply of the bus: the handler's next state and what it does
    /// next.
    pub fn resume(self, reply: Reply) -> (r: (ChannelHandler, ChannelStep))
        requires
            self.spec_accepts(reply),
        ensures
            spec_channel_resume(self, reply, r.0, r.1),
    {
        match self {
            ChannelHandler::AwaitCreation { code } => match reply {
                Reply::Executed(Ok(_)) => (ChannelHandler::AwaitCreated, ChannelStep::Query(ChannelQuery::FindChannelByCode(code))),
                Reply::Executed(Err(e)) => (ChannelHandler::Finished, ChannelStep::Respond(Err(ApiError::CommandBus(e)))),
                _ => unreached(),
            },
            ChannelHandler::AwaitCreated => match reply {
                Reply::Channel(Ok(Some(c))) => {
                    let link = ResourceLink::Channel(c.code.clone());
                    (ChannelHandler::Finished, ChannelStep::Respond(Ok(ApiResponse::Created(link, channel_single(c)))))
                },
                Reply::Channel(Ok(None)) => (
                    ChannelHandler::Finished,
                    ChannelStep::Respond(Err(ApiError::Const("Failed to retrieve channel"))),
                ),
                Reply::Channel(Err(e)) => (ChannelHandler::Finished, ChannelStep::Respond(Err(ApiError::QueryBus(e)))),
                _ => unreached(),
            },
            ChannelHandler::AwaitChannel { code } => lookup_answer(reply, code),
            ChannelHandler::AwaitChannels => match reply {
                Reply::Channels(Ok(v)) => (
                    ChannelHandler::Finished,
                    ChannelStep::Respond(Ok(ApiResponse::OkCollection(channel_collection(v)))),
                ),
                Reply::Channels(Err(e)) => (ChannelHandler::Finished, ChannelStep::Respond(Err(ApiError::QueryBus(e)))),
                _ => unreached(),
            },
            ChannelHandler::AwaitChannelToUpdate { code, name } => match reply {
                Reply::Channel(Ok(Some(c))) => (
                    ChannelHandler::AwaitUpdate { code },
                    ChannelStep::Command(Command::UpdateChannel { channel_id: c.id, name }),
                ),
                Reply::Channel(Ok(None)) => (ChannelHandler::Finished, ChannelStep::Respond(Err(ApiError::ChannelNotFound(code)))),
                Reply::Channel(Err(e)) => (ChannelHandler::Finished, ChannelStep::Respond(Err(ApiError::QueryBus(e)))),
                _ => unreached(),
            },
            ChannelHandler::AwaitUpdate { code } => match reply {
                Reply::Executed(Ok(_)) => (ChannelHandler::AwaitUpdated, ChannelStep::Query(ChannelQuery::FindChannelByCode(code))),
                Reply::Executed(Err(e)) => (ChannelHandler::Finished, ChannelStep::Respond(Err(ApiError::CommandBus(e)))),
                _ => unreached(),
            },
            ChannelHandler::AwaitUpdated => reread_answer(reply),
            ChannelHandler::AwaitChannelToDelete { code } => match reply {
                Reply::Channel(Ok(Some(c))) => (
                    ChannelHandler::AwaitDeletion,
                    ChannelStep::Command(Command::DeleteChannel { channel_id: c.id }),
                ),
                Reply::Channel(Ok(None)) => (ChannelHandler::Finished, ChannelStep::Respond(Err(ApiError::ChannelNotFound(code)))),
                Reply::Channel(Err(e)) => (ChannelHandler::Finished, ChannelStep::Respond(Err(ApiError::QueryBus(e)))),
                _ => unreached(),
            },
            ChannelHandler::AwaitDeletion => match reply {
                Reply::Executed(Ok(_)) => (ChannelHandler::Finished, ChannelStep::Respond(Ok(ApiResponse::OkEmpty))),
                Reply::Executed(Err(e)) => (ChannelHandler::Finished, ChannelStep::Respond(Err(ApiError::CommandBus(e)))),
                _ => unreached(),
            },
            ChannelHandler::Finished => unreached(),
        }
    }
}

/// The handlers of `/v1/channels`, which name a channel by its code.
pub struct ChannelRouter;

impl ChannelRouter {
    /// `POST`: creates a channel under a fresh identifier, then answers
    /// "created" with the channel as stored and a link to it.
    pub fn create_channel(channel_id: Id, code: String, name: String) -> (r: (ChannelHandler, ChannelStep))
        ensures
            r.0 matches ChannelHandler::AwaitCreation { code: c } && c == code,
            r.1 matches ChannelStep::Command(Command::CreateChannel { channel_id: i, code: c, name: n })
                && i == channel_id && c == code && n == name,
    {
        let kept = code.clone();
        (ChannelHandler::AwaitCreation { code: kept }, ChannelStep::Command(Command::CreateChannel { channel_id, code, name }))
    }

    /// `GET /{channel_code}`: answers with the channel that has the code.
    pub fn find_channel(code: String) -> (r: (ChannelHandler, ChannelStep))
        ensures
            r.0 matches ChannelHandler::AwaitChannel { code: c } && c == code,
            r.1 matches ChannelStep::Query(q) && q@ == ChannelQueryView::FindChannelByCode(code@),
    {
        let kept = code.clone();
        (ChannelHandler::AwaitChannel { code: kept }, ChannelStep::Query(ChannelQuery::FindChannelByCode(code)))
    }

    /// `GET`: answers with all channels.
    pub fn query() -> (r: (ChannelHandler, ChannelStep))
        ensures
            r.0 == ChannelHandler::AwaitChannels,
            r.1 matches ChannelStep::Query(q) && q@ == ChannelQueryView::QueryChannels,
    {
        (ChannelHandler::AwaitChannels, ChannelStep::Query(ChannelQuery::QueryChannels))
    }

    /// `PUT /{channel_code}`: once the channel is found, renames it, then
    /// answers with it.
    pub fn update(code: String, name: String) -> (r: (ChannelHandler, ChannelStep))
        ensures
            r.0 matches ChannelHandler::AwaitChannelToUpdate { code: c, name: n } && c == code && n == name,
            r.1 matches ChannelStep::Query(q) && q@ == ChannelQueryView::FindChannelByCode(code@),
    {
        let kept = code.clone();
        (ChannelHandler::AwaitChannelToUpdate { code: kept, name }, ChannelStep::Query(ChannelQuery::FindChannelByCode(code)))
    }

    /// `DELETE /{channel_code}`: once the channel is found, deletes it.
    pub fn delete(code: String) -> (r: (ChannelHandler, ChannelStep))
        ensures
            r.0 matches ChannelHandler::AwaitChannelToDelete { code: c } && c == code,
            r.1 matches ChannelStep::Query(q) && q@ == ChannelQueryView::FindChannelByCode(code@),
    {
        let kept = code.clone();
        (ChannelHandler::AwaitChannelToDelete { code: kept }, ChannelStep::Query(ChannelQuery::FindChannelByCode(code)))
    }
}

/// A REST error that a channel handler raised answers as itself: wrapping
/// it and mapping it back loses nothing.
pub proof fn lemma_rest_error_answers_as_itself(e: RestError)
    ensures
        spec_rest_error_of(ApiError::Rest(e)@) == e@,
{
}

/// A channel handler that has not answered keeps going: every reply it can
/// take brings it at least one exchange closer to its answer, and it answers
/// exactly when it has finished.
pub proof fn lemma_channel_handler_progress(h: ChannelHandler, reply: Reply, next: ChannelHandler, step: ChannelStep)
    requires
        h.spec_accepts(reply),
        spec_channel_resume(h, reply, next, step),
    ensures
        next.spec_remaining() < h.spec_remaining(),
        (step is Respond) <==> (next is Finished),
{
}

/// A channel handler that changes or removes a channel acts on the channel
/// that its lookup found, by that channel's identifier.
pub proof fn lemma_channel_changed_where_found(h: ChannelHandler, c: Channel, next: ChannelHandler, step: ChannelStep)
    requires
        h is AwaitChannelToUpdate || h is AwaitChannelToDelete,
        spec_channel_resume(h, Reply::Channel(Ok(Some(c))), next, step),
    ensures
        step matches ChannelStep::Command(cmd) && (match cmd {
            Command::UpdateChannel { channel_id, .. } => channel_id == c.id,
            Command::DeleteChannel { channel_id } => channel_id == c.id,
            _ => false,
        }),
{
}

} // verus!
