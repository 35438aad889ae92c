//! The guarantees of the session lifecycle, stated once and proved,
//! over the abstract session table (token to owning user and expiry)
//! and the abstract user table that the executable operations are
//! specified against.

use vstd::prelude::*;

use crate::auth::auth_decision;
use crate::auth::store_after_auth;
use crate::auth::AuthResult;
use crate::session::expiry_at;
use crate::store::SessionStore;
use crate::store::UserStore;
use crate::user::User;

verus! {

/// A token bound to a session whose expiry lies strictly in the
/// future authenticates as the owning user — a user whose id is the
/// session's `user_id` — and the store is left untouched.
pub proof fn lemma_authenticate_valid(sessions: SessionStore, users: UserStore, t: Seq<char>, now: i64)
    requires
        sessions.wf(),
        users.wf(),
        sessions.as_map().dom().contains(t),
        sessions.as_map()[t].1 > now,
        users.contains_id(sessions.as_map()[t].0),
    ensures
        auth_decision(sessions.as_map(), users.id_map(), Some(t), now)
            == AuthResult::Authenticated(users.user_of(sessions.as_map()[t].0)),
        users.user_of(sessions.as_map()[t].0).id == sessions.as_map()[t].0,
        store_after_auth(sessions.as_map(), Some(t), now) == sessions.as_map(),
{
    let uid = sessions.as_map()[t].0;
    let i = users.index_of_id(uid);
    assert(0 <= i < users.rows().len() && users.rows()[i].id == uid);
}

/// A token bound to a session whose expiry has passed is reported
/// `Expired`, and a subsequent lookup of that token finds no row.
pub proof fn lemma_authenticate_expired(
    m: Map<Seq<char>, (i64, i64)>,
    users: Map<i64, User>,
    t: Seq<char>,
    now: i64,
)
    requires
        m.dom().contains(t),
        m[t].1 <= now,
    ensures
        auth_decision(m, users, Some(t), now) == AuthResult::Expired,
        !store_after_auth(m, Some(t), now).dom().contains(t),
{
}

/// An absent or unknown token is `Unauthenticated`, and the store is
/// not mutated.
pub proof fn lemma_authenticate_unknown(
    m: Map<Seq<char>, (i64, i64)>,
    users: Map<i64, User>,
    token: Option<Seq<char>>,
    now: i64,
)
    requires
        match token {
            None => true,
            Some(t) => !m.dom().contains(t),
        },
    ensures
        auth_decision(m, users, token, now) == AuthResult::Unauthenticated,
        store_after_auth(m, token, now) == m,
{
}

/// A session created at `now` with a positive time-to-live for an
/// existing user authenticates immediately as that user.
pub proof fn lemma_create_then_authenticate(
    m: Map<Seq<char>, (i64, i64)>,
    users: Map<i64, User>,
    t: Seq<char>,
    uid: i64,
    now: i64,
    ttl: i64,
)
    requires
        ttl >= 1,
        now < i64::MAX,
        users.dom().contains(uid),
    ensures
        auth_decision(m.insert(t, (uid, expiry_at(now, ttl))), users, Some(t), now)
            == AuthResult::Authenticated(users[uid]),
{
    assert(expiry_at(now, ttl) > now);
}

/// After a token is destroyed, authenticating with it is
/// `Unauthenticated`, regardless of the current time.
pub proof fn lemma_destroy_then_authenticate(
    m: Map<Seq<char>, (i64, i64)>,
    users: Map<i64, User>,
    t: Seq<char>,
    now: i64,
)
    ensures
        auth_decision(m.remove(t), users, Some(t), now) == AuthResult::Unauthenticated,
{
}

/// Destroying a session twice leaves the same store as destroying it
/// once: the second call finds nothing to do and is no error.
pub proof fn lemma_destroy_idempotent(m: Map<Seq<char>, (i64, i64)>, t: Seq<char>)
    ensures
        m.remove(t).remove(t) == m.remove(t),
{
    assert(m.remove(t).remove(t) =~= m.remove(t));
}

} // verus!
