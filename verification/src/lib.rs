//! Outbound HTTP client core for calling sibling services: request
//! admission and dispatch, response classification, retry policy and the
//! error taxonomy, together with the resource naming table and the access
//! control predicates that the surrounding service uses.

pub mod acl;
pub mod body;
pub mod client;
pub mod error;
pub mod graphql;
pub mod handle;
pub mod json;
pub mod model;
pub mod request;
pub mod status;
pub mod target;
pub mod text;
