//! A link-shortening core: identifier generation, an in-process link store,
//! and the decisions that turn store replies into service outcomes.

pub mod endpoints;
pub mod errors;
pub mod id;
pub mod service;
pub mod store;
