//! What holds of sessions against a store that keeps its records faithfully.
//!
//! The store is modelled as a map from token to record. The laws follow a
//! session from one request to the next through that map.

use vstd::prelude::*;

use crate::session::context::{
    resolved, resolves, user_id_key, SessionRecordView, SessionView,
};
use crate::session::entries::map_get;
use crate::session::plan::{planned, SessionPlanView, SessionWriteView};

verus! {

/// What a store that keeps its records faithfully finds under a cookie's
/// token. The store is a map from token to record.
pub open spec fn store_load(
    store: Map<i128, SessionRecordView>,
    cookie: Option<i128>,
) -> Option<SessionRecordView> {
    match cookie {
        Some(token) => if store.contains_key(token) {
            Some(store[token])
        } else {
            None
        },
        None => None,
    }
}

/// The store after it has carried out a plan, minting `minted` as the token
/// of a record the plan creates.
pub open spec fn store_after(
    store: Map<i128, SessionRecordView>,
    plan: SessionPlanView,
    minted: i128,
) -> Map<i128, SessionRecordView> {
    let kept = match plan.invalidate {
        Some(token) => store.remove(token),
        None => store,
    };
    match plan.write {
        SessionWriteView::Nothing => kept,
        SessionWriteView::Create { data, expiry_date } => kept.insert(
            minted,
            SessionRecordView { id: minted, data, expiry_date },
        ),
        SessionWriteView::Save(record) => kept.insert(record.id, record),
    }
}

/// The token a client holds after a plan has been carried out, given the
/// cookie it sent: the token written, nothing if told to drop the cookie, else
/// what it held before.
pub open spec fn cookie_after(plan: SessionPlanView, sent: Option<i128>, minted: i128) -> Option<
    i128,
> {
    if plan.clear_cookie {
        None
    } else {
        match plan.write {
            SessionWriteView::Nothing => sent,
            SessionWriteView::Create { .. } => Some(minted),
            SessionWriteView::Save(record) => Some(record.id),
        }
    }
}

/// A record that has expired resolves to nothing, whatever cookie is shown
/// and although the record is still there.
pub proof fn lemma_expired_record_is_anonymous(
    cookie: Option<i128>,
    record: SessionRecordView,
    now: i64,
)
    requires
        record.expiry_date <= now,
    ensures
        resolved(cookie, Some(record), now) == SessionView::anonymous(),
        resolved(cookie, Some(record), now).user_id().is_none(),
{
}

/// A session written at `written` and not written since can no longer be
/// resolved once `window` seconds have passed, though nobody logged out; until
/// then it resolves to the data that was written.
pub proof fn lemma_inactivity_expires(
    store: Map<i128, SessionRecordView>,
    before: SessionView,
    after: SessionView,
    cookie_sent: bool,
    written: i64,
    window: i64,
    minted: i128,
    now: i64,
)
    requires
        planned(before, after, cookie_sent, false, written, window).write
            != SessionWriteView::Nothing,
    ensures
        ({
            let plan = planned(before, after, cookie_sent, false, written, window);
            let store2 = store_after(store, plan, minted);
            let cookie = cookie_after(plan, before.id, minted);
            let later = resolved(cookie, store_load(store2, cookie), now);
            &&& now - written >= window ==> later == SessionView::anonymous()
            &&& now - written < window && written + window <= i64::MAX ==> later.id == cookie
                && later.data == after.data
        }),
{
}

/// After a logout the token no longer resolves to an identity, at any later
/// time, and the client is told to drop its cookie. Logging out again with the
/// same token plans no write and no deletion.
pub proof fn lemma_logout_invalidates(
    store: Map<i128, SessionRecordView>,
    token: i128,
    now: i64,
    window: i64,
    minted: i128,
    later: i64,
)
    ensures
        ({
            let cookie = Some(token);
            let before = resolved(cookie, store_load(store, cookie), now);
            let plan = planned(before, SessionView::anonymous(), true, false, now, window);
            let store2 = store_after(store, plan, minted);
            let again = resolved(cookie, store_load(store2, cookie), later);
            let second = planned(again, SessionView::anonymous(), true, false, later, window);
            &&& plan.write == SessionWriteView::Nothing
            &&& plan.clear_cookie
            &&& resolves(cookie, store_load(store, cookie), now) ==> plan.invalidate == cookie
                && !store2.contains_key(token)
            &&& later >= now ==> again == SessionView::anonymous() && again.user_id().is_none()
            &&& later >= now ==> second == SessionPlanView {
                invalidate: None,
                write: SessionWriteView::Nothing,
                clear_cookie: true,
            } && store_after(store2, second, minted) == store2
        }),
{
}

/// A request that leaves its session as it found it causes no store write and
/// no deletion.
pub proof fn lemma_untouched_session_is_not_written(
    session: SessionView,
    cookie_sent: bool,
    server_error: bool,
    now: i64,
    window: i64,
)
    ensures
        ({
            let plan = planned(session, session, cookie_sent, server_error, now, window);
            &&& plan.write == SessionWriteView::Nothing
            &&& plan.invalidate.is_none()
        }),
{
}

/// A session made a user's own is written as a whole: the record holds the
/// user's id and every other key the session held, and the token the client
/// is left with resolves to that user for as long as the window lasts.
pub proof fn lemma_login_persists(
    store: Map<i128, SessionRecordView>,
    before: SessionView,
    user: Seq<char>,
    cookie_sent: bool,
    now: i64,
    window: i64,
    minted: i128,
    later: i64,
)
    requires
        before.user_id() != Some(user),
        now <= later,
        later - now < window,
        now + window <= i64::MAX,
    ensures
        ({
            let after = SessionView { id: before.id, data: before.data.insert(user_id_key(), user) };
            let plan = planned(before, after, cookie_sent, false, now, window);
            let store2 = store_after(store, plan, minted);
            let cookie = cookie_after(plan, before.id, minted);
            let next = resolved(cookie, store_load(store2, cookie), later);
            &&& cookie is Some
            &&& next.user_id() == Some(user)
            &&& forall|key: Seq<char>|
                key != user_id_key() ==> map_get(next.data, key) == map_get(before.data, key)
        }),
{
    let after = SessionView { id: before.id, data: before.data.insert(user_id_key(), user) };
    assert(after.data.contains_key(user_id_key()));
    assert(after.data != before.data);
    assert(after.data != Map::<Seq<char>, Seq<char>>::empty());
}

} // verus!
