use perroute_backoffice::channel_router;
use perroute_backoffice::hypermedia::{
    ApiResponse, CollectionResource, EmptyResource, Linkrelation as HyperRelation, Links as HyperLinks,
    ResourceLink as HyperLink, Route, SingleResource,
};
use perroute_backoffice::id::Id;
use perroute_backoffice::links::{Linkrelation, ResourceLink, ResourceName, LOCATION_HEADER};
use perroute_backoffice::response::{self, EmptyResourceBuilder};

const A: u128 = 0x67e5504410b1426f9247bb680e5fe0c8;
const B: u128 = 0x936da01f9abd4d9d80c702af85c822a8;
const A_TEXT: &str = "67e55044-10b1-426f-9247-bb680e5fe0c8";
const B_TEXT: &str = "936da01f-9abd-4d9d-80c7-02af85c822a8";

#[test]
fn id_text_is_the_hyphenated_uuid() {
    assert_eq!(Id::from_u128(A).text(), A_TEXT);
    assert_eq!(Id::from_u128(0).text(), "00000000-0000-0000-0000-000000000000");
}

#[test]
fn id_parse_reads_back_what_text_writes() {
    let id = Id::from_u128(B);
    assert_eq!(Id::parse(&id.text()), Some(id));
    assert_eq!(Id::parse(B_TEXT), Some(id));
    assert_eq!(Id::parse("936DA01F9ABD4D9D80C702AF85C822A8"), Some(id));
}

#[test]
fn id_parse_refuses_what_is_no_uuid() {
    assert_eq!(Id::parse("not-a-uuid"), None);
    assert_eq!(Id::parse(""), None);
    assert_eq!(Id::parse("67e55044-10b1-426f-9247-bb680e5fe0c"), None);
}

#[test]
fn relation_names_are_snake_case() {
    assert_eq!(Linkrelation::Self_.name(), "self");
    assert_eq!(Linkrelation::BusinessUnits.name(), "business_units");
    assert_eq!(Linkrelation::BusinessUnit.name(), "business_unit");
    assert_eq!(Linkrelation::MessageTypes.name(), "message_types");
    assert_eq!(Linkrelation::Routes.name(), "routes");
    assert_eq!(Linkrelation::Schemas.name(), "schemas");
}

#[test]
fn back_office_links_name_their_route_and_ids() {
    let a = Id::from_u128(A);
    let b = Id::from_u128(B);
    assert_eq!(ResourceLink::BusinessUnit(a).url_target(), (ResourceName::BusinessUnit, vec![A_TEXT.to_string()]));
    assert_eq!(ResourceLink::BusinessUnits.url_target(), (ResourceName::BusinessUnits, vec![]));
    assert_eq!(ResourceLink::MessageTypes.url_target(), (ResourceName::MessageTypes, vec![]));
    assert_eq!(ResourceLink::MessageType(b).url_target(), (ResourceName::MessageType, vec![B_TEXT.to_string()]));
    assert_eq!(ResourceLink::Schemas(a).url_target(), (ResourceName::Schemas, vec![A_TEXT.to_string()]));
    assert_eq!(
        ResourceLink::Schema(a, b).url_target(),
        (ResourceName::Schema, vec![A_TEXT.to_string(), B_TEXT.to_string()])
    );
    assert_eq!(ResourceLink::Templates.url_target(), (ResourceName::Templates, vec![]));
    assert_eq!(ResourceLink::Template(b).url_target(), (ResourceName::Template, vec![B_TEXT.to_string()]));
    assert_eq!(ResourceLink::Routes.url_target(), (ResourceName::Routes, vec![]));
    assert_eq!(ResourceLink::Route(a).url_target(), (ResourceName::Route, vec![A_TEXT.to_string()]));
}

#[test]
fn location_header_carries_the_url() {
    let (name, value) = ResourceLink::Routes.as_location_header("http://localhost/routes".to_string());
    assert_eq!(name, "location");
    assert_eq!(name, LOCATION_HEADER);
    assert_eq!(value, "http://localhost/routes");
}

#[test]
fn channel_api_routes_and_paths() {
    assert_eq!(Route::Channels.name(), "channels");
    assert_eq!(Route::Channel.name(), "channel");
    assert_eq!(Route::MessageTypes.name(), "message_types");
    assert_eq!(Route::MessageType.name(), "message_type");
    assert_eq!(Route::Channel.path(), "/api/v1/channels/{channel_id}");
    assert_eq!(Route::MessageType.path(), "/api/v1/channels/{channel_id}/message_types/{message_type_id}");
}

#[test]
fn channel_api_links_fill_their_paths() {
    let a = Id::from_u128(A);
    let b = Id::from_u128(B);
    assert_eq!(HyperLink::Channel(a).url_target(), (Route::Channel, vec![A_TEXT.to_string()]));
    assert_eq!(HyperLink::Channels.url_target(), (Route::Channels, vec![]));
    assert_eq!(HyperLink::MessageTypes(a).url_target(), (Route::MessageTypes, vec![A_TEXT.to_string()]));
    assert_eq!(
        HyperLink::MessageType(a, b).url_target(),
        (Route::MessageType, vec![A_TEXT.to_string(), B_TEXT.to_string()])
    );
    let (h, v) = HyperLink::Channels.as_location_header("u".to_string());
    assert_eq!((h.as_str(), v.as_str()), ("location", "u"));
}

#[test]
fn adding_a_link_replaces_the_one_under_its_relation() {
    let a = Id::from_u128(A);
    let b = Id::from_u128(B);
    let links = HyperLinks::default()
        .add(HyperRelation::Self_, HyperLink::Channel(a))
        .add(HyperRelation::Channels, HyperLink::Channels)
        .add(HyperRelation::Self_, HyperLink::Channel(b));
    let entries = links.entries();
    assert_eq!(entries, vec![(HyperRelation::Self_, HyperLink::Channel(b)), (HyperRelation::Channels, HyperLink::Channels)]);
    assert_eq!(HyperLinks::default().entries(), vec![]);
}

#[test]
fn single_and_collection_resources_build_up() {
    let a = Id::from_u128(A);
    let r: SingleResource<u32> = SingleResource::default();
    assert_eq!(r.data, None);
    let r = r.with_data(7).with_link(HyperRelation::Self_, HyperLink::Channel(a));
    assert_eq!(r.data, Some(7));
    assert_eq!(r.links.entries(), vec![(HyperRelation::Self_, HyperLink::Channel(a))]);

    let c: CollectionResource<u32> = CollectionResource::default();
    let c = c.add_resource(SingleResource::default().with_data(1)).with_link(HyperRelation::Self_, HyperLink::Channels);
    assert_eq!(c.data.len(), 1);
    assert_eq!(c.data[0].data, Some(1));
    let c = c.with_resources(vec![]);
    assert_eq!(c.data.len(), 0);
    assert_eq!(c.links.entries(), vec![(HyperRelation::Self_, HyperLink::Channels)]);
}

#[test]
fn response_status_codes() {
    let a = Id::from_u128(A);
    assert_eq!(ApiResponse::<u32>::OkEmpty(EmptyResource).status_code(), 200);
    assert_eq!(ApiResponse::<u32>::OkSingle(SingleResource::default()).status_code(), 200);
    assert_eq!(ApiResponse::<u32>::OkCollection(CollectionResource::default()).status_code(), 200);
    assert_eq!(ApiResponse::<u32>::CreatedEmpty(HyperLink::Channel(a)).status_code(), 201);
    assert_eq!(ApiResponse::<u32>::Created(HyperLink::Channel(a), SingleResource::default()).status_code(), 201);
}

#[test]
fn back_office_responses() {
    let ok: response::ApiResponse<u32, ResourceLink> = response::ApiResponse::ok(3);
    assert!(matches!(ok, response::ApiResponse::Success(Some(3))));
    assert_eq!(ok.status_code(), 200);
    let empty: response::ApiResponse<EmptyResourceBuilder, ResourceLink> = response::ApiResponse::ok_empty();
    assert!(matches!(empty, response::ApiResponse::Success(None)));
    let created: response::ApiResponse<u32, ResourceLink> = response::ApiResponse::created(ResourceLink::Routes, 4);
    assert!(matches!(created, response::ApiResponse::Created(ResourceLink::Routes, Some(4))));
    assert_eq!(created.status_code(), 201);
}

#[test]
fn back_office_links_keep_one_link_per_relation() {
    let links: response::Links<u32> = response::Links::default();
    assert_eq!(links.entries().len(), 0);
    let links = links.add("self".to_string(), 1).add("schemas".to_string(), 2).add("self".to_string(), 3);
    assert_eq!(links.entries(), &vec![("self".to_string(), 3), ("schemas".to_string(), 2)]);
}

#[test]
fn channel_links_by_code() {
    let (name, ids) = channel_router::ResourceLink::Channel("sms".to_string()).url_target();
    assert_eq!((name, ids), ("channel", vec!["sms".to_string()]));
    let (name, ids) = channel_router::ResourceLink::Channels.url_target();
    assert_eq!((name, ids), ("channels", vec![]));
    let (h, v) = channel_router::ResourceLink::Channels.as_location_header("x".to_string());
    assert_eq!((h.as_str(), v.as_str()), ("location", "x"));
}
