//! A gateway library for a transit authority's REST API: request building,
//! status triage, error rendering and response envelopes.

pub mod error;
pub mod json;
pub mod routes;
pub mod text;
pub mod tfl;
