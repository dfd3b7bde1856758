//! The session store: a process-wide map from opaque token to session,
//! with a sliding 48-hour expiry. A session is copied out to callers; the
//! store keeps the only mutable copy.

use vstd::prelude::*;
use std::collections::HashMap;
use crate::models::Session;
use crate::user::UserData;

verus! {

broadcast use vstd::std_specs::hash::group_hash_axioms;

/// A session dies after 48 hours without an authenticated request.
pub const SESSION_TTL_SECONDS: i64 = 48 * 3600;

/// Why a token failed to resolve. An unknown token is `Invalid`; a known
/// one past its expiry window is `Expired` (and the entry is evicted).
#[derive(Clone, Copy, Debug, PartialEq, Eq, Structural)]
pub enum SessionError {
    Invalid,
    Expired,
}

/// Whether a session has sat unused for the full expiry window at time
/// `now`.
pub open spec fn session_expired(s: Session, now: i64) -> bool {
    now - s.last_active >= SESSION_TTL_SECONDS
}

/// What resolving `token` at time `now` does to a session map: the outcome
/// handed to the caller, and the map afterwards.
pub open spec fn spec_resolve(m: Map<u128, Session>, token: u128, now: i64) -> (Result<
    Session,
    SessionError,
>, Map<u128, Session>) {
    if !m.contains_key(token) {
        (Err(SessionError::Invalid), m)
    } else if session_expired(m[token], now) {
        (Err(SessionError::Expired), m.remove(token))
    } else {
        let refreshed = Session {
            session_id: m[token].session_id,
            user_data: m[token].user_data,
            last_active: now,
        };
        (Ok(refreshed), m.insert(token, refreshed))
    }
}

/// An expired token is evicted by the resolution that reports it, so every
/// later lookup of the same token fails as `Invalid`, not `Expired` again.
pub proof fn lemma_expired_token_then_invalid(
    m: Map<u128, Session>,
    token: u128,
    now: i64,
    later: i64,
)
    requires
        spec_resolve(m, token, now).0 == Err::<Session, SessionError>(SessionError::Expired),
    ensures
        spec_resolve(spec_resolve(m, token, now).1, token, later).0 == Err::<Session, SessionError>(
            SessionError::Invalid,
        ),
{
}

/// The process-wide session map.
pub struct SessionStore {
    pub sessions: HashMap<u128, Session>,
}

impl SessionStore {
    pub fn new() -> (r: Self)
        ensures
            r.sessions@ == Map::<u128, Session>::empty(),
    {
        SessionStore { sessions: HashMap::new() }
    }

    /// Bind `token` to a fresh session for `user_data`, stamped `now`.
    /// An existing binding of the same token is replaced.
    pub fn establish(&mut self, token: u128, user_data: UserData, now: i64) -> (r: Session)
        ensures
            r == (Session { session_id: token, user_data, last_active: now }),
            final(self).sessions@ == old(self).sessions@.insert(token, r),
    {
        let s = Session::with_time(token, user_data, now);
        let r = s.clone();
        self.sessions.insert(token, s);
        r
    }

    /// The single authorization primitive: look the token up, evict it if
    /// it has expired, otherwise slide its window to `now` and hand back a
    /// copy of the refreshed session.
    pub fn resolve(&mut self, token: u128, now: i64) -> (r: Result<Session, SessionError>)
        ensures
            r == spec_resolve(old(self).sessions@, token, now).0,
            final(self).sessions@ == spec_resolve(old(self).sessions@, token, now).1,
    {
        let found = match self.sessions.get(&token) {
            None => {
                return Err(SessionError::Invalid);
            },
            Some(s) => s.clone(),
        };
        if now as i128 - found.last_active as i128 >= SESSION_TTL_SECONDS as i128 {
            self.sessions.remove(&token);
            return Err(SessionError::Expired);
        }
        let refreshed = Session {
            session_id: found.session_id,
            user_data: found.user_data,
            last_active: now,
        };
        self.sessions.insert(token, refreshed.clone());
        Ok(refreshed)
    }

    /// Drop the token's binding. Idempotent: removing an unknown token does
    /// nothing and is no error.
    pub fn logout(&mut self, token: u128)
        ensures
            final(self).sessions@ == old(self).sessions@.remove(token),
    {
        self.sessions.remove(&token);
    }

    /// Whether the token is currently bound, without touching the entry.
    pub fn token_known(&self, token: u128) -> (r: bool)
        ensures
            r == self.sessions@.contains_key(token),
    {
        self.sessions.contains_key(&token)
    }
}

} // verus!
