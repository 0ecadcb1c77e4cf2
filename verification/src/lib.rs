//! Collaborative password vault: the verified core of the server.
pub mod auth;
pub mod crypto;
pub mod errors;
pub mod models;
pub mod primitives;
pub mod routes;
pub mod startup;
pub mod text;
pub mod wire;
