use vstd::prelude::*;
use crate::id::{Id, uuid_text};
use crate::validation::strings_view;

verus! {

/// The name of the response header that carries a created resource's url.
pub const LOCATION_HEADER: &'static str = "location";

/// The relation of a link to the resource that carries it.
#[derive(Clone, Copy, PartialEq, Eq, Structural, Debug, Hash)]
pub enum Linkrelation {
    Self_,
    BusinessUnits,
    BusinessUnit,
    MessageTypes,
    Routes,
    Schemas,
}

/// The text of a relation: its name in snake case.
pub open spec fn spec_relation_name(rel: Linkrelation) -> Seq<char> {
    match rel {
        Linkrelation::Self_ => "self"@,
        Linkrelation::BusinessUnits => "business_units"@,
        Linkrelation::BusinessUnit => "business_unit"@,
        Linkrelation::MessageTypes => "message_types"@,
        Linkrelation::Routes => "routes"@,
        Linkrelation::Schemas => "schemas"@,
    }
}

impl Linkrelation {
    /// The text of the relation, under which a link is listed.
    pub fn name(&self) -> (r: &'static str)
        ensures
            r@ == spec_relation_name(*self),
    {
        match self {
            Linkrelation::Self_ => "self",
            Linkrelation::BusinessUnits => "business_units",
            Linkrelation::BusinessUnit => "business_unit",
            Linkrelation::MessageTypes => "message_types",
            Linkrelation::Routes => "routes",
            Linkrelation::Schemas => "schemas",
        }
    }
}

/// A named route of the back office, whose url a link resolves to.
#[derive(Clone, Copy, PartialEq, Eq, Structural, Debug)]
pub enum ResourceName {
    BusinessUnits,
    BusinessUnit,
    MessageTypes,
    MessageType,
    Schemas,
    Schema,
    Templates,
    Template,
    Routes,
    Route,
}

/// A link to a resource of the back office.
#[derive(Clone, Copy, PartialEq, Eq, Structural, Debug)]
pub enum ResourceLink {
    BusinessUnit(Id),
    BusinessUnits,
    MessageTypes,
    MessageType(Id),
    Schemas(Id),
    Schema(Id, Id),
    Templates,
    Template(Id),
    Routes,
    Route(Id),
}

/// The route that a link names.
pub open spec fn spec_target_name(link: ResourceLink) -> ResourceName {
    match link {
        ResourceLink::BusinessUnit(_) => ResourceName::BusinessUnit,
        ResourceLink::BusinessUnits => ResourceName::BusinessUnits,
        ResourceLink::MessageTypes => ResourceName::MessageTypes,
        ResourceLink::MessageType(_) => ResourceName::MessageType,
        ResourceLink::Schemas(_) => ResourceName::Schemas,
        ResourceLink::Schema(_, _) => ResourceName::Schema,
        ResourceLink::Templates => ResourceName::Templates,
        ResourceLink::Template(_) => ResourceName::Template,
        ResourceLink::Routes => ResourceName::Routes,
        ResourceLink::Route(_) => ResourceName::Route,
    }
}

/// The identifiers that fill the route's path, in order.
pub open spec fn spec_target_ids(link: ResourceLink) -> Seq<Id> {
    match link {
        ResourceLink::BusinessUnit(id) => seq![id],
        ResourceLink::MessageType(id) => seq![id],
        ResourceLink::Schemas(message_type_id) => seq![message_type_id],
        ResourceLink::Schema(message_type_id, schema_id) => seq![message_type_id, schema_id],
        ResourceLink::Template(id) => seq![id],
        ResourceLink::Route(id) => seq![id],
        _ => Seq::empty(),
    }
}

/// The texts that fill the route's path: the identifiers' texts.
pub open spec fn spec_target_elements(link: ResourceLink) -> Seq<Seq<char>> {
    spec_target_ids(link).map_values(|id: Id| uuid_text(id.value))
}

impl ResourceLink {
    /// The route that the link resolves against and the texts that fill its
    /// path.
    pub fn url_target(&self) -> (r: (ResourceName, Vec<String>))
        ensures
            r.0 == spec_target_name(*self),
            strings_view(r.1) == spec_target_elements(*self),
    {
        let mut elements: Vec<String> = Vec::new();
        let name = match self {
            ResourceLink::BusinessUnit(id) => {
                elements.push(id.text());
                ResourceName::BusinessUnit
            },
            ResourceLink::BusinessUnits => ResourceName::BusinessUnits,
            ResourceLink::MessageTypes => ResourceName::MessageTypes,
            ResourceLink::MessageType(id) => {
                elements.push(id.text());
                ResourceName::MessageType
            },
            ResourceLink::Schemas(message_type_id) => {
                elements.push(message_type_id.text());
                ResourceName::Schemas
            },
            ResourceLink::Schema(message_type_id, schema_id) => {
                elements.push(message_type_id.text());
                elements.push(schema_id.text());
                ResourceName::Schema
            },
            ResourceLink::Templates => ResourceName::Templates,
            ResourceLink::Template(id) => {
                elements.push(id.text());
                ResourceName::Template
            },
            ResourceLink::Routes => ResourceName::Routes,
            ResourceLink::Route(id) => {
                elements.push(id.text());
                ResourceName::Route
            },
        };
        proof {
            assert(strings_view(elements) =~= spec_target_elements(*self));
        }
        (name, elements)
    }

    /// The `Location` header that points at the link, given the url that the
    /// link resolved to.
    pub fn as_location_header(&self, url: String) -> (r: (String, String))
        ensures
            r.0@ == LOCATION_HEADER@,
            r.1 == url,
    {
        (String::from_str(LOCATION_HEADER), url)
    }
}

} // verus!
