//! What becomes of a session once its request has been handled.

use vstd::prelude::*;

use crate::api::error::ApiError;
use crate::session::context::{SessionContext, SessionRecord, SessionRecordView, SessionView};
use crate::session::entries::{entries_map, lemma_entries_map_keys, same_data, SessionEntry};

verus! {

/// Seconds without a write after which a session is gone: seven days.
pub const SESSION_INACTIVITY_SECS: i64 = 604_800;

/// When a session written at `now` expires: `window` seconds later, or at the
/// end of representable time if that would lie beyond it.
pub open spec fn expiry_after(now: i64, window: i64) -> i64 {
    if now + window > i64::MAX {
        i64::MAX
    } else if now + window < i64::MIN {
        i64::MIN
    } else {
        (now + window) as i64
    }
}

/// Computes [`expiry_after`].
pub fn expiry_date(now: i64, window: i64) -> (at: i64)
    ensures
        at == expiry_after(now, window),
{
    match now.checked_add(window) {
        Some(at) => at,
        None => if window > 0 {
            i64::MAX
        } else {
            i64::MIN
        },
    }
}

/// What a plan writes to the store.
#[derive(Debug, Clone, PartialEq, Eq)]
pub enum SessionWrite {
    /// No write.
    Nothing,
    /// A new record under a token the store mints.
    Create { data: Vec<SessionEntry>, expiry_date: i64 },
    /// The record of an existing session, replaced as a whole.
    Save(SessionRecord),
}

/// A [`SessionWrite`] as mathematics sees it.
pub enum SessionWriteView {
    Nothing,
    Create { data: Map<Seq<char>, Seq<char>>, expiry_date: i64 },
    Save(SessionRecordView),
}

impl View for SessionWrite {
    type V = SessionWriteView;

    open spec fn view(&self) -> SessionWriteView {
        match *self {
            SessionWrite::Nothing => SessionWriteView::Nothing,
            SessionWrite::Create { data, expiry_date } => SessionWriteView::Create {
                data: entries_map(data@),
                expiry_date,
            },
            SessionWrite::Save(record) => SessionWriteView::Save(record@),
        }
    }
}

/// What is to be done about a session once its request has been handled.
#[derive(Debug, Clone, PartialEq, Eq)]
pub struct SessionPlan {
    /// The token whose stored record is to be deleted, if any.
    pub invalidate: Option<i128>,
    pub write: SessionWrite,
    /// Whether the client is told to drop its cookie.
    pub clear_cookie: bool,
}

/// A [`SessionPlan`] as mathematics sees it.
pub struct SessionPlanView {
    pub invalidate: Option<i128>,
    pub write: SessionWriteView,
    pub clear_cookie: bool,
}

impl View for SessionPlan {
    type V = SessionPlanView;

    open spec fn view(&self) -> SessionPlanView {
        SessionPlanView {
            invalidate: self.invalidate,
            write: self.write@,
            clear_cookie: self.clear_cookie,
        }
    }
}

/// Whether handling changed the session.
pub open spec fn dirty(before: SessionView, after: SessionView) -> bool {
    after.id != before.id || after.data != before.data
}

/// The plan for a session that was `before` when its request began and is
/// `after` now.
///
/// - A stored record the session has let go of is invalidated.
/// - An unchanged session is not written, nor is any session when the
///   response is a server error.
/// - A changed session with a token is saved under it as a whole, with its
///   expiry moved to `window` seconds from `now`. One without a token is
///   created if it holds data.
/// - A client that sent a cookie is told to drop it when the session ends with
///   neither token nor data.
pub open spec fn planned(
    before: SessionView,
    after: SessionView,
    cookie_sent: bool,
    server_error: bool,
    now: i64,
    window: i64,
) -> SessionPlanView {
    SessionPlanView {
        invalidate: if before.id is Some && after.id != before.id {
            before.id
        } else {
            None
        },
        write: if server_error || !dirty(before, after) {
            SessionWriteView::Nothing
        } else {
            match after.id {
                Some(token) => SessionWriteView::Save(
                    SessionRecordView {
                        id: token,
                        data: after.data,
                        expiry_date: expiry_after(now, window),
                    },
                ),
                None => if after.data == Map::<Seq<char>, Seq<char>>::empty() {
                    SessionWriteView::Nothing
                } else {
                    SessionWriteView::Create {
                        data: after.data,
                        expiry_date: expiry_after(now, window),
                    }
                },
            }
        },
        clear_cookie: cookie_sent && after == SessionView::anonymous(),
    }
}

/// Decides what to do about a session after its request: see [`planned`].
pub fn persist(
    before: &SessionContext,
    after: SessionContext,
    cookie_sent: bool,
    server_error: bool,
    now: i64,
    window: i64,
) -> (plan: SessionPlan)
    ensures
        plan@ == planned(before@, after@, cookie_sent, server_error, now, window),
        plan.write matches SessionWrite::Save(record) ==> record.data == after.data,
        plan.write matches SessionWrite::Create { data, .. } ==> data == after.data,
{
    let id_changed = match (before.id, after.id) {
        (Some(x), Some(y)) => x != y,
        (None, None) => false,
        _ => true,
    };
    let invalidate = if id_changed {
        before.id
    } else {
        None
    };
    let changed = id_changed || !same_data(&before.data, &after.data);
    let clear_cookie = cookie_sent && after.is_empty();
    let write = if server_error || !changed {
        SessionWrite::Nothing
    } else {
        let at = expiry_date(now, window);
        match after.id {
            Some(token) => SessionWrite::Save(
                SessionRecord { id: token, data: after.data, expiry_date: at },
            ),
            None => {
                if after.data.len() == 0 {
                    SessionWrite::Nothing
                } else {
                    proof {
                        lemma_entries_map_keys(after.data@, after.data@[0].key@);
                        assert(after@.data.contains_key(after.data@[0].key@));
                    }
                    SessionWrite::Create { data: after.data, expiry_date: at }
                }
            },
        }
    };
    SessionPlan { invalidate, write, clear_cookie }
}

/// How carrying out a plan ended.
#[derive(Debug, Clone, Copy, PartialEq, Eq, Structural)]
pub enum StoreOutcome {
    /// The plan was carried out and wrote no record.
    Untouched,
    /// The plan was carried out; its record now lives under this token.
    Stored(i128),
    /// The store failed.
    Failed,
}

/// What the response does to the client's session cookie.
#[derive(Debug, Clone, Copy, PartialEq, Eq, Structural)]
pub enum CookieUpdate {
    /// The response says nothing about the cookie.
    Keep,
    /// The cookie is set to this token, for another window of inactivity.
    Issue(i128),
    /// The client is told to drop the cookie.
    Clear,
}

/// The name of the session cookie.
pub const SESSION_COOKIE_NAME: &'static str = "id";

/// The session cookie as a response sets it.
#[derive(Debug, Clone, Copy, PartialEq, Eq)]
pub struct SessionCookie {
    pub name: &'static str,
    /// The token the cookie carries; `None` tells the client to drop it.
    pub token: Option<i128>,
    /// Seconds the client keeps the cookie.
    pub max_age: i64,
    pub path: &'static str,
    /// Kept from scripts.
    pub http_only: bool,
    /// Sent over secure connections only.
    pub secure: bool,
    /// Sent with same-site requests only.
    pub same_site_strict: bool,
}

impl CookieUpdate {
    /// The cookie a response sets for this update, if it sets one. An issued
    /// token lives for `window` seconds, so that it slides with the session's
    /// own expiry; a cleared cookie lives no longer. Either covers every
    /// path and is kept from scripts, insecure connections and other sites.
    pub open spec fn cookie(self, window: i64) -> Option<SessionCookie> {
        match self {
            CookieUpdate::Keep => None,
            CookieUpdate::Issue(token) => Some(
                SessionCookie {
                    name: SESSION_COOKIE_NAME,
                    token: Some(token),
                    max_age: window,
                    path: "/",
                    http_only: true,
                    secure: true,
                    same_site_strict: true,
                },
            ),
            CookieUpdate::Clear => Some(
                SessionCookie {
                    name: SESSION_COOKIE_NAME,
                    token: None,
                    max_age: 0,
                    path: "/",
                    http_only: true,
                    secure: true,
                    same_site_strict: true,
                },
            ),
        }
    }

    /// Computes [`CookieUpdate::cookie`].
    pub fn to_cookie(self, window: i64) -> (cookie: Option<SessionCookie>)
        ensures
            cookie == self.cookie(window),
    {
        match self {
            CookieUpdate::Keep => None,
            CookieUpdate::Issue(token) => Some(
                SessionCookie {
                    name: SESSION_COOKIE_NAME,
                    token: Some(token),
                    max_age: window,
                    path: "/",
                    http_only: true,
                    secure: true,
                    same_site_strict: true,
                },
            ),
            CookieUpdate::Clear => Some(
                SessionCookie {
                    name: SESSION_COOKIE_NAME,
                    token: None,
                    max_age: 0,
                    path: "/",
                    http_only: true,
                    secure: true,
                    same_site_strict: true,
                },
            ),
        }
    }
}

impl SessionPlan {
    /// The cookie update that follows from how the plan's execution ended.
    pub open spec fn finished(self, outcome: StoreOutcome) -> Result<CookieUpdate, ApiError> {
        match outcome {
            StoreOutcome::Failed => Err(ApiError::Session),
            StoreOutcome::Stored(token) => if self.clear_cookie {
                Ok(CookieUpdate::Clear)
            } else {
                Ok(CookieUpdate::Issue(token))
            },
            StoreOutcome::Untouched => if self.clear_cookie {
                Ok(CookieUpdate::Clear)
            } else {
                Ok(CookieUpdate::Keep)
            },
        }
    }

    /// Closes the request's session once the store has carried out the plan:
    /// a session failure if the store failed, else what to do to the cookie.
    pub fn finish(&self, outcome: StoreOutcome) -> (r: Result<CookieUpdate, ApiError>)
        ensures
            r == self.finished(outcome),
    {
        match outcome {
            StoreOutcome::Failed => Err(ApiError::Session),
            StoreOutcome::Stored(token) => if self.clear_cookie {
                Ok(CookieUpdate::Clear)
            } else {
                Ok(CookieUpdate::Issue(token))
            },
            StoreOutcome::Untouched => if self.clear_cookie {
                Ok(CookieUpdate::Clear)
            } else {
                Ok(CookieUpdate::Keep)
            },
        }
    }
}

} // verus!
