use vstd::prelude::*;
use crate::id::{Id, uuid_text};
use crate::error::{STATUS_OK, STATUS_CREATED};
use crate::links::LOCATION_HEADER;
use crate::validation::strings_view;

verus! {

pub const CHANNELS_RESOURCE_NAME: &'static str = "channels";
pub const CHANNEL_RESOURCE_NAME: &'static str = "channel";
pub const MESSAGE_TYPES_RESOURCE_NAME: &'static str = "message_types";
pub const MESSAGE_TYPE_RESOURCE_NAME: &'static str = "message_type";

/// A named resource of the channel api, whose url a link resolves to.
#[derive(Clone, Copy, PartialEq, Eq, Structural, Debug)]
pub enum Route {
    Channels,
    Channel,
    MessageTypes,
    MessageType,
}

/// The names of the parameters in a resource's path, in order.
pub open spec fn spec_route_params(route: Route) -> Seq<Seq<char>> {
    match route {
        Route::Channels => Seq::empty(),
        Route::Channel => seq!["channel_id"@],
        Route::MessageTypes => seq!["channel_id"@],
        Route::MessageType => seq!["channel_id"@, "message_type_id"@],
    }
}

pub open spec fn spec_route_path(route: Route) -> Seq<char> {
    match route {
        Route::Channels => "/api/v1/channels"@,
        Route::Channel => "/api/v1/channels/{channel_id}"@,
        Route::MessageTypes => "/api/v1/channels/{channel_id}/message_types"@,
        Route::MessageType => "/api/v1/channels/{channel_id}/message_types/{message_type_id}"@,
    }
}

pub open spec fn spec_route_name(route: Route) -> Seq<char> {
    match route {
        Route::Channels => CHANNELS_RESOURCE_NAME@,
        Route::Channel => CHANNEL_RESOURCE_NAME@,
        Route::MessageTypes => MESSAGE_TYPES_RESOURCE_NAME@,
        Route::MessageType => MESSAGE_TYPE_RESOURCE_NAME@,
    }
}

impl Route {
    /// The name under which the resource is registered.
    pub fn name(&self) -> (r: &'static str)
        ensures
            r@ == spec_route_name(*self),
    {
        match self {
            Route::Channels => CHANNELS_RESOURCE_NAME,
            Route::Channel => CHANNEL_RESOURCE_NAME,
            Route::MessageTypes => MESSAGE_TYPES_RESOURCE_NAME,
            Route::MessageType => MESSAGE_TYPE_RESOURCE_NAME,
        }
    }

    /// The path pattern under which the resource is served.
    pub fn path(&self) -> (r: &'static str)
        ensures
            r@ == spec_route_path(*self),
    {
        match self {
            Route::Channels => "/api/v1/channels",
            Route::Channel => "/api/v1/channels/{channel_id}",
            Route::MessageTypes => "/api/v1/channels/{channel_id}/message_types",
            Route::MessageType => "/api/v1/channels/{channel_id}/message_types/{message_type_id}",
        }
    }
}

/// The relation of a link to the resource that carries it.
#[derive(Clone, Copy, PartialEq, Eq, Structural, Debug, Hash)]
pub enum Linkrelation {
    Self_,
    Channels,
    Channel,
    MessageTypes,
}

/// A link to a resource of the channel api.
#[derive(Clone, Copy, PartialEq, Eq, Structural, Debug)]
pub enum ResourceLink {
    Channel(Id),
    Channels,
    MessageType(Id, Id),
    MessageTypes(Id),
}

pub open spec fn spec_link_route(link: ResourceLink) -> Route {
    match link {
        ResourceLink::Channel(_) => Route::Channel,
        ResourceLink::Channels => Route::Channels,
        ResourceLink::MessageTypes(_) => Route::MessageTypes,
        ResourceLink::MessageType(_, _) => Route::MessageType,
    }
}

pub open spec fn spec_link_ids(link: ResourceLink) -> Seq<Id> {
    match link {
        ResourceLink::Channel(id) => seq![id],
        ResourceLink::Channels => Seq::empty(),
        ResourceLink::MessageTypes(channel_id) => seq![channel_id],
        ResourceLink::MessageType(channel_id, message_type_id) => seq![channel_id, message_type_id],
    }
}

pub open spec fn spec_link_elements(link: ResourceLink) -> Seq<Seq<char>> {
    spec_link_ids(link).map_values(|id: Id| uuid_text(id.value))
}

impl ResourceLink {
    /// The resource that the link resolves against and the texts that fill
    /// its path.
    pub fn url_target(&self) -> (r: (Route, Vec<String>))
        ensures
            r.0 == spec_link_route(*self),
            strings_view(r.1) == spec_link_elements(*self),
    {
        let mut elements: Vec<String> = Vec::new();
        let route = match self {
            ResourceLink::Channel(id) => {
                elements.push(id.text());
                Route::Channel
            },
            ResourceLink::Channels => Route::Channels,
            ResourceLink::MessageTypes(channel_id) => {
                elements.push(channel_id.text());
                Route::MessageTypes
            },
            ResourceLink::MessageType(channel_id, message_type_id) => {
                elements.push(channel_id.text());
                elements.push(message_type_id.text());
                Route::MessageType
            },
        };
        proof {
            assert(strings_view(elements) =~= spec_link_elements(*self));
        }
        (route, elements)
    }

    /// The `Location` header that points at the link, given the url that the
    /// link resolved to.
    pub fn as_location_header(&self, url: String) -> (r: (String, String))
        ensures
            r.0@ == LOCATION_HEADER@,
            r.1 == url,
    {
        (String::from_str(LOCATION_HEADER), url)
    }
}

/// Every link supplies exactly one element per parameter of the path that
/// it resolves against, so resolving it never lacks nor leaves over one.
pub proof fn lemma_link_fills_its_path(link: ResourceLink)
    ensures
        spec_link_elements(link).len() == spec_route_params(spec_link_route(link)).len(),
{
}

/// The links of a resource, at most one per relation.
pub struct Links {
    self_: Option<ResourceLink>,
    channels: Option<ResourceLink>,
    channel: Option<ResourceLink>,
    message_types: Option<ResourceLink>,
}

impl Links {
    pub closed spec fn slot(&self, rel: Linkrelation) -> Option<ResourceLink> {
        match rel {
            Linkrelation::Self_ => self.self_,
            Linkrelation::Channels => self.channels,
            Linkrelation::Channel => self.channel,
            Linkrelation::MessageTypes => self.message_types,
        }
    }
}

impl View for Links {
    type V = Map<Linkrelation, ResourceLink>;

    closed spec fn view(&self) -> Map<Linkrelation, ResourceLink> {
        Map::new(|r: Linkrelation| self.slot(r) is Some, |r: Linkrelation| self.slot(r)->0)
    }
}

impl Links {
    /// No links.
    pub fn default() -> (r: Links)
        ensures
            r@ == Map::<Linkrelation, ResourceLink>::empty(),
    {
        let r = Links { self_: None, channels: None, channel: None, message_types: None };
        proof {
            assert(r@ =~= Map::<Linkrelation, ResourceLink>::empty());
        }
        r
    }

    /// The links with `link` under `rel`, in place of the one there was.
    pub fn add(self, rel: Linkrelation, link: ResourceLink) -> (r: Links)
        ensures
            r@ == self@.insert(rel, link),
    {
        let mut r = self;
        match rel {
            Linkrelation::Self_ => r.self_ = Some(link),
            Linkrelation::Channels => r.channels = Some(link),
            Linkrelation::Channel => r.channel = Some(link),
            Linkrelation::MessageTypes => r.message_types = Some(link),
        }
        proof {
            assert(r@ =~= self@.insert(rel, link));
        }
        r
    }

    /// Each link with its relation, the relations in a fixed order.
    pub fn entries(&self) -> (r: Vec<(Linkrelation, ResourceLink)>)
        ensures
            forall|i: int| 0 <= i < r@.len() ==> self@.contains_key(#[trigger] r@[i].0) && self@[r@[i].0] == r@[i].1,
            forall|rel: Linkrelation| #[trigger] self@.contains_key(rel) ==> exists|i: int| 0 <= i < r@.len() && r@[i].0 == rel,
            forall|i: int, j: int| 0 <= i < j < r@.len() ==> r@[i].0 != r@[j].0,
    {
        let mut r: Vec<(Linkrelation, ResourceLink)> = Vec::new();
        let ghost mut pos: Map<Linkrelation, int> = Map::empty();
        if let Some(l) = self.self_ {
            r.push((Linkrelation::Self_, l));
            proof { pos = pos.insert(Linkrelation::Self_, r@.len() - 1); }
        }
        if let Some(l) = self.channels {
            r.push((Linkrelation::Channels, l));
            proof { pos = pos.insert(Linkrelation::Channels, r@.len() - 1); }
        }
        if let Some(l) = self.channel {
            r.push((Linkrelation::Channel, l));
            proof { pos = pos.insert(Linkrelation::Channel, r@.len() - 1); }
        }
        if let Some(l) = self.message_types {
            r.push((Linkrelation::MessageTypes, l));
            proof { pos = pos.insert(Linkrelation::MessageTypes, r@.len() - 1); }
        }
        proof {
            assert forall|rel: Linkrelation| #[trigger] self@.contains_key(rel) implies exists|i: int| 0 <= i < r@.len() && r@[i].0 == rel by {
                assert(self.slot(rel) is Some);
                let i = pos[rel];
                assert(0 <= i < r@.len() && r@[i].0 == rel);
            }
        }
        r
    }
}

/// A marker for the bodies that a resource may carry.
pub trait Resource {}

/// The body of a response that carries no data.
#[derive(Clone, Copy, PartialEq, Eq, Structural, Debug)]
pub struct EmptyResource;

impl Resource for EmptyResource {}

/// One resource: its data, if any, and its links.
pub struct SingleResource<D> {
    pub data: Option<D>,
    pub links: Links,
}

impl<D> SingleResource<D> {
    /// A resource without data or links.
    pub fn default() -> (r: Self)
        ensures
            r.data is None,
            r.links@ == Map::<Linkrelation, ResourceLink>::empty(),
    {
        SingleResource { data: None, links: Links::default() }
    }

    /// The resource with one more link, in place of the one under `rel`.
    pub fn with_link(self, rel: Linkrelation, link: ResourceLink) -> (r: Self)
        ensures
            r.data == self.data,
            r.links@ == self.links@.insert(rel, link),
    {
        SingleResource { data: self.data, links: self.links.add(rel, link) }
    }

    /// The resource with `data` as its data.
    pub fn with_data(self, data: D) -> (r: Self)
        ensures
            r.data == Some(data),
            r.links@ == self.links@,
    {
        SingleResource { data: Some(data), links: self.links }
    }
}

/// A collection of resources with the links of the collection.
pub struct CollectionResource<D> {
    pub data: Vec<SingleResource<D>>,
    pub links: Links,
}

impl<D> CollectionResource<D> {
    /// An empty collection without links.
    pub fn default() -> (r: Self)
        ensures
            r.data@.len() == 0,
            r.links@ == Map::<Linkrelation, ResourceLink>::empty(),
    {
        CollectionResource { data: Vec::new(), links: Links::default() }
    }

    /// The collection with `data` as its resources.
    pub fn with_resources(self, data: Vec<SingleResource<D>>) -> (r: Self)
        ensures
            r.data@ == data@,
            r.links@ == self.links@,
    {
        CollectionResource { data, links: self.links }
    }

    /// The collection with one more resource at its end.
    pub fn add_resource(self, data: SingleResource<D>) -> (r: Self)
        ensures
            r.data@ == self.data@.push(data),
            r.links@ == self.links@,
    {
        let mut s = self;
        s.data.push(data);
        CollectionResource { data: s.data, links: s.links }
    }

    /// The collection with one more link, in place of the one under `rel`.
    pub fn with_link(self, rel: Linkrelation, link: ResourceLink) -> (r: Self)
        ensures
            r.data@ == self.data@,
            r.links@ == self.links@.insert(rel, link),
    {
        CollectionResource { data: self.data, links: self.links.add(rel, link) }
    }
}

/// The answer of a handler of the channel api.
pub enum ApiResponse<D> {
    OkEmpty(EmptyResource),
    OkSingle(SingleResource<D>),
    OkCollection(CollectionResource<D>),
    CreatedEmpty(ResourceLink),
    Created(ResourceLink, SingleResource<D>),
}

/// "Created" for a response that points at a new resource, "OK" otherwise.
pub open spec fn spec_response_status<D>(r: ApiResponse<D>) -> u16 {
    match r {
        ApiResponse::CreatedEmpty(_) => STATUS_CREATED,
        ApiResponse::Created(_, _) => STATUS_CREATED,
        _ => STATUS_OK,
    }
}

impl<D> ApiResponse<D> {
    /// The HTTP status of the response.
    pub fn status_code(&self) -> (r: u16)
        ensures
            r == spec_response_status(*self),
    {
        match self {
            ApiResponse::OkEmpty(_) => STATUS_OK,
            ApiResponse::OkSingle(_) => STATUS_OK,
            ApiResponse::OkCollection(_) => STATUS_OK,
            ApiResponse::CreatedEmpty(_) => STATUS_CREATED,
            ApiResponse::Created(_, _) => STATUS_CREATED,
        }
    }
}

/// Adding a link is read back under its relation, leaves the other
/// relations alone, and adding twice under one relation keeps the last.
pub proof fn lemma_links_add(links: Links, rel: Linkrelation, link: ResourceLink, other: Linkrelation, later: ResourceLink)
    requires
        other != rel,
    ensures
        links@.insert(rel, link)[rel] == link,
        links@.insert(rel, link).contains_key(other) == links@.contains_key(other),
        links@.contains_key(other) ==> links@.insert(rel, link)[other] == links@[other],
        links@.insert(rel, link).insert(rel, later) == links@.insert(rel, later),
{
    assert(links@.insert(rel, link).insert(rel, later) =~= links@.insert(rel, later));
}

} // verus!
