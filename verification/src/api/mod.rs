//! The decisions behind the HTTP surface.

pub mod auth;
pub mod error;
pub mod participants;
pub mod routes;
