//! The session of one request, from the cookie to what the handler leaves.

use vstd::prelude::*;

use crate::api::error::ApiError;
use crate::session::entries::{
    entries_map, find, lemma_entries_map_keys, lemma_without_key_removes, map_get, strip,
    SessionEntry,
};
use crate::text::opt_text;

verus! {

/// The key under which a session holds the id of its authenticated user.
pub open spec fn user_id_key() -> Seq<char> {
    "user_id"@
}

/// A session as the store keeps it.
#[derive(Debug, Clone, PartialEq, Eq)]
pub struct SessionRecord {
    /// The token the record is stored under.
    pub id: i128,
    pub data: Vec<SessionEntry>,
    /// Unix time, in seconds, from which the record no longer counts.
    pub expiry_date: i64,
}

/// A [`SessionRecord`] as mathematics sees it.
pub struct SessionRecordView {
    pub id: i128,
    pub data: Map<Seq<char>, Seq<char>>,
    pub expiry_date: i64,
}

impl View for SessionRecord {
    type V = SessionRecordView;

    open spec fn view(&self) -> SessionRecordView {
        SessionRecordView {
            id: self.id,
            data: entries_map(self.data@),
            expiry_date: self.expiry_date,
        }
    }
}

/// One key of a record as the store holds it. The store can hold values of any
/// shape; a session holds text, so a value that is not text comes as `None`.
#[derive(Debug, Clone, PartialEq, Eq)]
pub struct StoredEntry {
    pub key: String,
    pub value: Option<String>,
}

/// Whether every stored value is text.
pub open spec fn all_text(entries: Seq<StoredEntry>) -> bool {
    forall|i: int| 0 <= i < entries.len() ==> (#[trigger] entries[i]).value is Some
}

/// The session entries that stored entries of text stand for, in their order.
pub open spec fn texts(entries: Seq<StoredEntry>) -> Seq<SessionEntry> {
    Seq::new(
        entries.len(),
        |i: int| SessionEntry { key: entries[i].key, value: entries[i].value->0 },
    )
}

impl SessionRecord {
    /// Reads a record as the store holds it. A record with a value that is
    /// not text was not written by this library and is a session failure;
    /// any other record is taken as it is.
    pub fn from_stored(id: i128, entries: Vec<StoredEntry>, expiry_date: i64) -> (r: Result<
        SessionRecord,
        ApiError,
    >)
        ensures
            match r {
                Ok(record) => {
                    &&& all_text(entries@)
                    &&& record.id == id
                    &&& record.data@ == texts(entries@)
                    &&& record.expiry_date == expiry_date
                },
                Err(e) => !all_text(entries@) && e == ApiError::Session,
            },
    {
        let mut data: Vec<SessionEntry> = Vec::new();
        for entry in it: entries
            invariant
                data@.len() == it.index(),
                forall|j: int|
                    0 <= j < it.index() ==> (#[trigger] it.seq()[j]).value is Some && data@[j] == (
                    SessionEntry { key: it.seq()[j].key, value: it.seq()[j].value->0 }),
        {
            match entry.value {
                Some(value) => data.push(SessionEntry { key: entry.key, value }),
                None => {
                    return Err(ApiError::Session);
                },
            }
        }
        proof {
            assert(data@ =~= texts(entries@));
        }
        Ok(SessionRecord { id, data, expiry_date })
    }
}

/// The view of a record that may be absent.
pub open spec fn opt_record(record: Option<SessionRecord>) -> Option<SessionRecordView> {
    match record {
        Some(r) => Some(r@),
        None => None,
    }
}

/// The session of one request: the token it is stored under, if it is stored
/// at all, and the data a handler reads and writes.
#[derive(Debug, Clone, PartialEq, Eq)]
pub struct SessionContext {
    /// `None` for a session that has no stored record.
    pub id: Option<i128>,
    pub data: Vec<SessionEntry>,
}

/// A [`SessionContext`] as mathematics sees it.
pub struct SessionView {
    pub id: Option<i128>,
    pub data: Map<Seq<char>, Seq<char>>,
}

impl SessionView {
    /// The session of a client nothing is known about.
    pub open spec fn anonymous() -> SessionView {
        SessionView { id: None, data: Map::empty() }
    }

    /// The id of the authenticated user, if there is one.
    pub open spec fn user_id(self) -> Option<Seq<char>> {
        map_get(self.data, user_id_key())
    }
}

impl View for SessionContext {
    type V = SessionView;

    open spec fn view(&self) -> SessionView {
        SessionView { id: self.id, data: entries_map(self.data@) }
    }
}

/// Whether a cookie and the record found for it make a live session at `now`:
/// the record is the one stored under the cookie's token and has not expired.
pub open spec fn resolves(cookie: Option<i128>, record: Option<SessionRecordView>, now: i64) -> bool {
    &&& cookie matches Some(token)
    &&& record matches Some(rec)
    &&& rec.id == token
    &&& rec.expiry_date > now
}

/// The session a request starts with.
pub open spec fn resolved(
    cookie: Option<i128>,
    record: Option<SessionRecordView>,
    now: i64,
) -> SessionView {
    if resolves(cookie, record, now) {
        SessionView { id: cookie, data: record->0.data }
    } else {
        SessionView::anonymous()
    }
}

impl SessionContext {
    /// A session with no stored record and no data.
    pub fn anonymous() -> (ctx: SessionContext)
        ensures
            ctx@ == SessionView::anonymous(),
            ctx.data@.len() == 0,
    {
        SessionContext { id: None, data: Vec::new() }
    }

    /// Starts a request's session from the cookie it carried and the record
    /// the store found under that token.
    ///
    /// Without a cookie, without a record, with a record for another token or
    /// with one that has expired by `now`, the session starts anonymous: no
    /// token, no data.
    pub fn resolve(cookie: Option<i128>, record: Option<SessionRecord>, now: i64) -> (ctx:
        SessionContext)
        ensures
            ctx@ == resolved(cookie, opt_record(record), now),
            !resolves(cookie, opt_record(record), now) ==> ctx.data@.len() == 0,
            resolves(cookie, opt_record(record), now) ==> ctx.data == record->0.data,
    {
        match (cookie, record) {
            (Some(token), Some(rec)) => {
                if rec.id == token && rec.expiry_date > now {
                    SessionContext { id: Some(token), data: rec.data }
                } else {
                    SessionContext::anonymous()
                }
            },
            _ => SessionContext::anonymous(),
        }
    }

    /// The value held under `key`.
    pub fn get(&self, key: &str) -> (value: Option<String>)
        ensures
            opt_text(value) == map_get(self@.data, key@),
    {
        match find(&self.data, key) {
            Some(value) => Some(value.clone()),
            None => None,
        }
    }

    /// Puts `value` under `key`, replacing what was there.
    pub fn insert(&mut self, key: &str, value: String)
        ensures
            final(self).id == old(self).id,
            final(self)@.data == old(self)@.data.insert(key@, value@),
    {
        proof {
            lemma_without_key_removes(self.data@, key@);
        }
        strip(&mut self.data, key);
        let ghost stripped = self.data@;
        self.data.push(SessionEntry { key: key.to_owned(), value });
        proof {
            assert(self.data@.drop_last() =~= stripped);
            assert(self@.data =~= old(self)@.data.insert(key@, value@));
        }
    }

    /// Takes `key` out of the session and returns what it held.
    pub fn remove(&mut self, key: &str) -> (value: Option<String>)
        ensures
            final(self).id == old(self).id,
            final(self)@.data == old(self)@.data.remove(key@),
            opt_text(value) == map_get(old(self)@.data, key@),
    {
        let value = self.get(key);
        proof {
            lemma_without_key_removes(self.data@, key@);
        }
        strip(&mut self.data, key);
        value
    }

    /// Takes every key out of the session. The stored record, if there is
    /// one, stays the session's own and will be written back empty.
    pub fn clear(&mut self)
        ensures
            final(self).id == old(self).id,
            final(self)@.data == Map::<Seq<char>, Seq<char>>::empty(),
            final(self).data@.len() == 0,
    {
        self.data.clear();
    }

    /// Gives the session up: every key goes, and the session lets go of its
    /// stored record, which the plan made afterwards will invalidate.
    pub fn delete(&mut self)
        ensures
            final(self)@ == SessionView::anonymous(),
            final(self).data@.len() == 0,
    {
        self.id = None;
        self.data.clear();
    }

    /// Whether the session has neither a stored record nor data.
    pub fn is_empty(&self) -> (empty: bool)
        ensures
            empty == (self@ == SessionView::anonymous()),
    {
        proof {
            if self.data@.len() > 0 {
                lemma_entries_map_keys(self.data@, self.data@[0].key@);
                assert(self@.data.contains_key(self.data@[0].key@));
            }
        }
        self.id.is_none() && self.data.len() == 0
    }

    /// The id of the user this session is authenticated as.
    pub fn user_id(&self) -> (id: Option<String>)
        ensures
            opt_text(id) == self@.user_id(),
    {
        self.get("user_id")
    }

    /// Makes this the session of the user `id`.
    pub fn set_user_id(&mut self, id: String)
        ensures
            final(self).id == old(self).id,
            final(self)@.data == old(self)@.data.insert(user_id_key(), id@),
            final(self)@.user_id() == Some(id@),
    {
        self.insert("user_id", id);
    }
}

} // verus!
