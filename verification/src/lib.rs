//! The request, response and error logic of the perroute back office:
//! how errors become HTTP error bodies, how validation failures are
//! flattened into field maps, how resource links and hypermedia bodies are
//! assembled, and how each request handler steps through its queries and
//! commands.

pub mod id;
pub mod error;
pub mod validation;
pub mod api_error;
pub mod links;
pub mod hypermedia;
pub mod models;
pub mod datetime;
pub mod wrapper;
pub mod service;
pub mod exit;
pub mod rest;
pub mod flows;
pub mod response;
pub mod message_type_router;
pub mod guarded_routes;
pub mod routing;
pub mod api_routes;
pub mod service_routes;
pub mod handler_laws;
pub mod route_laws;
pub mod channel_router;
pub mod answer_laws;
