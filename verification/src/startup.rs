//! What the server settles before it takes requests.

use vstd::prelude::*;

use crate::models::event::CreateEvent;
use crate::text::opt_text;

verus! {

/// Whether `event` is the event a fresh installation starts with: open for
/// registration, without dates.
pub open spec fn is_default_event(event: CreateEvent) -> bool {
    &&& event.name@ == "ICMT 2026"@
    &&& opt_text(event.description) == Some("TODO: Add event description here"@)
    &&& opt_text(event.location) == Some("TODO: Add event location here"@)
    &&& event.start_date.is_none()
    &&& event.end_date.is_none()
    &&& event.registration_open
}

/// Decides from the number of stored events whether the default event is to
/// be created: it is when there are none, and then this is the event.
pub fn ensure_default_event(event_count: i64) -> (r: Option<CreateEvent>)
    ensures
        event_count != 0 ==> r.is_none(),
        event_count == 0 ==> (r matches Some(event) && is_default_event(event)),
{
    if event_count == 0 {
        Some(
            CreateEvent {
                name: "ICMT 2026".to_owned(),
                description: Some("TODO: Add event description here".to_owned()),
                location: Some("TODO: Add event location here".to_owned()),
                start_date: None,
                end_date: None,
                registration_open: true,
            },
        )
    } else {
        None
    }
}

} // verus!
