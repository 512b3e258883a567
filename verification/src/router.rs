//! The transport layer's pure core: response and request models, the
//! mapping from error kinds to response classifications, and the decision
//! logic of every endpoint.

pub mod entity;
pub mod errors;
pub mod handlers;
pub mod models;
pub mod state;
