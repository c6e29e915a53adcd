//! Verified core of a small personal data-logging web service.
pub mod text;
pub mod encoding;
pub mod codec;
pub mod auth;
pub mod routes;
pub mod category;
pub mod entries;
pub mod protocol;
pub mod exchange;
pub mod laws;
pub mod handler_laws;
