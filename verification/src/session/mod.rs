//! The session a request runs in, and what becomes of it afterwards.
//!
//! A session is a small map from text keys to text values, stored under an
//! unguessable token that the client holds in a cookie. Each request resolves
//! its cookie to a [`SessionContext`], lets the handler read and change it, and
//! then decides from the difference what to write back. The store itself is
//! out of sight: it hands in the record it found and carries out the plan.

pub mod context;
pub mod entries;
pub mod laws;
pub mod plan;

pub use context::{
    all_text, opt_record, resolved, resolves, texts, user_id_key, SessionContext,
    SessionRecord, SessionRecordView, SessionView, StoredEntry,
};
pub use entries::{entries_map, map_get, same_data, without_key, SessionEntry};
pub use plan::{
    dirty, expiry_after, expiry_date, persist, planned, CookieUpdate, SessionCookie,
    SessionPlan, SessionPlanView, SessionWrite, SessionWriteView, StoreOutcome,
    SESSION_COOKIE_NAME, SESSION_INACTIVITY_SECS,
};
