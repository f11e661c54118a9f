//! Verified core of an event-registration backend: credential checks, the
//! session lifecycle, the decisions of the HTTP handlers and the mapping from
//! failures to responses. Everything that touches a socket or a database lives
//! outside this crate and talks to it in plain values.

pub mod api;
pub mod models;
pub mod session;
pub mod startup;
pub mod text;
