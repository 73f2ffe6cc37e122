//! Multi-tenant website uptime monitor: a verified data model with
//! per-row ownership enforcement, an append-only probe history with
//! paginated retrieval, probe-result classification, and the request
//! handling that surrounds them.

pub mod pagination;
pub mod text;
pub mod time_format;
pub mod model;
pub mod errors;
pub mod validate;
pub mod ids;
pub mod clock;
pub mod password;
pub mod store;
pub mod jwt;
pub mod auth;
pub mod monitor;
pub mod api_types;
pub mod user_routes;
pub mod website_routes;
pub mod worker;
