//! Collections: user-owned groups of project references, with moderation
//! status, icon metadata and authorization-gated lifecycle operations.
pub mod base62;
pub mod model;
pub mod validate;
pub mod store;
pub mod auth;
pub mod membership;
pub mod routes;
pub mod icons;
pub mod laws;
