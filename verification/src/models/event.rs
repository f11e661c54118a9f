//! Events that participants register for.

use vstd::prelude::*;

verus! {

/// A stored event. Dates and timestamps are microseconds since the Unix
/// epoch.
#[derive(Debug, Clone, PartialEq, Eq)]
pub struct Event {
    pub id: String,
    pub name: String,
    pub description: Option<String>,
    pub location: Option<String>,
    pub start_date: Option<i64>,
    pub end_date: Option<i64>,
    pub registration_open: bool,
    pub created_at: i64,
    pub updated_at: i64,
}

/// What a caller supplies to create an event.
#[derive(Debug, Clone, PartialEq, Eq)]
pub struct CreateEvent {
    pub name: String,
    pub description: Option<String>,
    pub location: Option<String>,
    pub start_date: Option<i64>,
    pub end_date: Option<i64>,
    pub registration_open: bool,
}

} // verus!
