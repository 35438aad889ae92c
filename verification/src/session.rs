//! Session records.
//!
//! A session row binds an unguessable token to the owning user and an
//! absolute expiry time, measured in seconds since the Unix epoch. A
//! row is live only while `now < expires_at`; expiry is absolute from
//! creation, with no renewal.

use vstd::prelude::*;

verus! {

/// Time-to-live of a freshly created session, in seconds (24 hours).
pub const SESSION_TTL_SECONDS: i64 = 24 * 60 * 60;

/// A persisted session row.
#[derive(Debug, Clone)]
pub struct Session {
    pub id: String,
    pub user_id: i64,
    pub expires_at: i64,
}

/// The absolute expiry of a session created at `now` with the given
/// time-to-live, saturating at the largest representable time.
pub open spec fn expiry_at(now: i64, ttl: i64) -> i64 {
    if now + ttl > i64::MAX {
        i64::MAX
    } else {
        (now + ttl) as i64
    }
}

impl Session {
    /// Relies on `uuid::Uuid::new_v4` and its `Display` form: a random
    /// version-4 token rendered in the 36-character hyphenated format.
    /// Nothing is assumed beyond the length of every outcome.
    #[verifier::external_body]
    pub fn generate_id() -> (r: String)
        ensures
            r@.len() == 36,
    {
        uuid::Uuid::new_v4().to_string()
    }

    /// The expiry for a session created at `now` with the default
    /// time-to-live.
    pub fn generate_expiry(now: i64) -> (r: i64)
        ensures
            r == expiry_at(now, SESSION_TTL_SECONDS),
    {
        Session::expiry_after(now, SESSION_TTL_SECONDS)
    }

    /// The expiry for a session created at `now` with time-to-live
    /// `ttl`, saturating instead of overflowing.
    pub fn expiry_after(now: i64, ttl: i64) -> (r: i64)
        requires
            ttl >= 0,
        ensures
            r == expiry_at(now, ttl),
    {
        if now > i64::MAX - ttl {
            i64::MAX
        } else {
            now + ttl
        }
    }

    /// An equal copy of this session row.
    pub fn duplicate(&self) -> (r: Session)
        ensures
            r == *self,
    {
        let r = Session { id: self.id.clone(), user_id: self.user_id, expires_at: self.expires_at };
        r
    }
}

} // verus!
