//! Verified core of the shop service: the decisions and record shapes behind
//! the shop repository, its admin and app HTTP surfaces, and the process
//! identity. Storage and transport stay outside; they hand plain values in
//! and take plain values back.

pub mod admin;
pub mod app_api;
pub mod error;
pub mod host;
pub mod identity;
pub mod json;
pub mod laws;
pub mod plan_laws;
pub mod routes;
pub mod store;
pub mod subresource;
pub mod text;
pub mod write_laws;

pub use host::{assembly_route_count, default_seed_locale, default_seed_profile};
pub use identity::{identity_posture, IdentityPosture};
pub use subresource::{current_timestamp_string, resolve_row_id, stable_storage_id};
