use vstd::prelude::*;

use crate::error::StoreError;
use crate::text::str_equal;

verus! {

/// Lifetime of a session: three hours, in seconds. Sessions are never
/// renewed; each one lapses this long after it was created.
pub const SESSION_TTL_SECS: u64 = 10800;

/// One stored session.
#[derive(Debug, Clone)]
pub struct SessionRecord {
    pub token: String,
    pub user_id: i32,
    /// First second, on the store's clock, at which the session is gone.
    pub expires_at: u64,
}

/// An in-process session store with the cache's semantics: set with a
/// fixed expiry, later sets of a token shadow earlier ones, and an entry is
/// absent from its expiry on.
pub struct SessionTable {
    records: Vec<SessionRecord>,
}

/// The newest entry stored under `token`: its user id and its expiry.
pub open spec fn latest_entry(v: Seq<(Seq<char>, i32, u64)>, token: Seq<char>) -> Option<(i32, u64)>
    decreases v.len(),
{
    if v.len() == 0 {
        None
    } else if v.last().0 == token {
        Some((v.last().1, v.last().2))
    } else {
        latest_entry(v.drop_last(), token)
    }
}

/// What resolving `token` at time `now` gives.
pub open spec fn resolve_at(v: Seq<(Seq<char>, i32, u64)>, token: Seq<char>, now: u64) -> Result<i32, StoreError> {
    match latest_entry(v, token) {
        Some(e) => if now < e.1 {
            Ok(e.0)
        } else {
            Err(StoreError::NotFound)
        },
        None => Err(StoreError::NotFound),
    }
}

/// The table after storing `token` for `user_id` at time `now`.
pub open spec fn after_create(v: Seq<(Seq<char>, i32, u64)>, token: Seq<char>, user_id: i32, now: u64) -> Seq<(Seq<char>, i32, u64)> {
    v.push((token, user_id, (now + SESSION_TTL_SECS) as u64))
}

impl View for SessionTable {
    type V = Seq<(Seq<char>, i32, u64)>;

    closed spec fn view(&self) -> Seq<(Seq<char>, i32, u64)> {
        self.records@.map_values(|r: SessionRecord| (r.token@, r.user_id, r.expires_at))
    }
}

impl SessionTable {
    pub fn new() -> (r: SessionTable)
        ensures
            r@ == Seq::<(Seq<char>, i32, u64)>::empty(),
    {
        let t = SessionTable { records: Vec::new() };
        assert(t@ =~= Seq::<(Seq<char>, i32, u64)>::empty());
        t
    }

    /// Stores `token` for `user_id`, expiring `SESSION_TTL_SECS` after `now`.
    pub fn create(&mut self, token: String, user_id: i32, now: u64)
        requires
            now <= u64::MAX - SESSION_TTL_SECS,
        ensures
            final(self)@ == after_create(old(self)@, token@, user_id, now),
    {
        let expires_at = now + SESSION_TTL_SECS;
        let ghost tv = token@;
        self.records.push(SessionRecord { token, user_id, expires_at });
        assert(self@ =~= after_create(old(self)@, tv, user_id, now));
    }

    /// The user id of the live session `token` at time `now`; `NotFound`
    /// for a token never stored or already expired.
    pub fn resolve(&self, token: &str, now: u64) -> (r: Result<i32, StoreError>)
        ensures
            r == resolve_at(self@, token@, now),
    {
        let mut i: usize = self.records.len();
        assert(self@.take(i as int) =~= self@);
        while i > 0
            invariant
                i <= self.records@.len(),
                latest_entry(self@, token@) == latest_entry(self@.take(i as int), token@),
            decreases i,
        {
            let rec = &self.records[i - 1];
            assert(self@.take(i as int).drop_last() == self@.take(i - 1));
            if str_equal(rec.token.as_str(), token) {
                if now < rec.expires_at {
                    return Ok(rec.user_id);
                } else {
                    return Err(StoreError::NotFound);
                }
            }
            i = i - 1;
        }
        Err(StoreError::NotFound)
    }
}

/// A session resolves to the user it was created for until its lifetime has
/// passed, and to `NotFound` from then on, whatever else the table holds.
pub proof fn lemma_session_lifetime(
    v: Seq<(Seq<char>, i32, u64)>,
    token: Seq<char>,
    user_id: i32,
    issued: u64,
    now: u64,
)
    requires
        issued <= u64::MAX - SESSION_TTL_SECS,
    ensures
        now < issued + SESSION_TTL_SECS ==> resolve_at(after_create(v, token, user_id, issued), token, now) == Ok::<i32, StoreError>(user_id),
        now >= issued + SESSION_TTL_SECS ==> resolve_at(after_create(v, token, user_id, issued), token, now) == Err::<i32, StoreError>(StoreError::NotFound),
{
    let w = after_create(v, token, user_id, issued);
    assert(w.last() == (token, user_id, (issued + SESSION_TTL_SECS) as u64));
}

/// Creating a session leaves every other token as it was.
pub proof fn lemma_session_independent(
    v: Seq<(Seq<char>, i32, u64)>,
    token: Seq<char>,
    other: Seq<char>,
    user_id: i32,
    issued: u64,
    now: u64,
)
    requires
        token != other,
    ensures
        resolve_at(after_create(v, token, user_id, issued), other, now) == resolve_at(v, other, now),
{
    assert(after_create(v, token, user_id, issued).drop_last() == v);
}

} // verus!
