//! A verified core for a music-service API gateway: request parameters,
//! cookies, request signing, upstream request plans and response shaping.
use vstd::prelude::*;

pub mod text;
pub mod json;
pub mod js;
pub mod decimal;
pub mod params;
pub mod signing;
pub mod form;
pub mod cookies;
pub mod routes;
pub mod upstream;
pub mod response;
pub mod enrich;
pub mod encoding;
pub mod qr;
pub mod handlers;
pub mod server;
pub mod bridge;
pub mod device;
pub mod config;
pub mod laws;

verus! {
} // verus!
