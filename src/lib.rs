//! Session front end for a remote fantasy-league service: login marker
//! extraction, the bearer-token session store, the request guard, and the
//! request/response rules of the upstream client.

pub mod marker;
pub mod errors;
pub mod mfl_api;
pub mod handler_models;
pub mod app_state;
pub mod handler_middleware;
pub mod handlers;
