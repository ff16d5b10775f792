//! Verified core of the asset-tracking HTTP API: request validation
//! outcomes, error envelopes, response shaping and search-query formatting.

pub mod text;
pub mod search;
pub mod errors;
pub mod extract;
pub mod coins;
pub mod assets;
pub mod route_errors;
pub mod api_error;
pub mod error;
pub mod prices;
pub mod requests;
pub mod handlers;
pub mod handlers_v1;
