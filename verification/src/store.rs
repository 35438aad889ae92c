//! The persistent stores, modeled as in-memory tables.
//!
//! The session store owns the session rows and is the only shared
//! mutable state of the authenticator; its abstract content is a map
//! from token to `(owning user, expiry)`. The credential store owns
//! the user rows, keyed both by id and by username, each unique.

use vstd::prelude::*;

use crate::error::AppError;
use crate::session::Session;
use crate::strutil::str_eq;
use crate::user::User;

verus! {

/// The store of session rows, keyed by token.
pub struct SessionStore {
    sessions: Vec<Session>,
}

/// `m` without the sessions owned by `uid`.
pub open spec fn purge_user_sessions(m: Map<Seq<char>, (i64, i64)>, uid: i64) -> Map<
    Seq<char>,
    (i64, i64),
> {
    Map::new(|t: Seq<char>| m.dom().contains(t) && m[t].0 != uid, |t: Seq<char>| m[t])
}

impl SessionStore {
    /// The rows of the store, in insertion order.
    pub closed spec fn rows(self) -> Seq<Session> {
        self.sessions@
    }

    /// Tokens are unique across rows.
    pub open spec fn wf(self) -> bool {
        forall|i: int, j: int|
            0 <= i < j < self.rows().len() ==> self.rows()[i].id@ != self.rows()[j].id@
    }

    /// Whether some row carries token `t`.
    pub open spec fn contains_token(self, t: Seq<char>) -> bool {
        exists|i: int| 0 <= i < self.rows().len() && self.rows()[i].id@ == t
    }

    /// The index of the row carrying token `t`.
    pub open spec fn index_of(self, t: Seq<char>) -> int {
        choose|i: int| 0 <= i < self.rows().len() && self.rows()[i].id@ == t
    }

    /// The row carrying token `t`.
    pub open spec fn row(self, t: Seq<char>) -> Session {
        self.rows()[self.index_of(t)]
    }

    /// The abstract content: token to `(owning user, expiry)`.
    pub open spec fn as_map(self) -> Map<Seq<char>, (i64, i64)> {
        Map::new(
            |t: Seq<char>| self.contains_token(t),
            |t: Seq<char>| (self.row(t).user_id, self.row(t).expires_at),
        )
    }

    /// An empty session store.
    pub fn new() -> (s: SessionStore)
        ensures
            s.wf(),
            s.rows().len() == 0,
            s.as_map() == Map::<Seq<char>, (i64, i64)>::empty(),
    {
        let s = SessionStore { sessions: Vec::new() };
        proof {
            assert(s.as_map() =~= Map::<Seq<char>, (i64, i64)>::empty());
        }
        s
    }

    /// The number of rows.
    pub fn len(&self) -> (n: usize)
        ensures
            n == self.rows().len(),
    {
        self.sessions.len()
    }

    /// Looks a session up by token without touching the store.
    pub fn find(&self, token: &str) -> (r: Option<&Session>)
        requires
            self.wf(),
        ensures
            match r {
                Some(sess) => self.contains_token(token@) && *sess == self.row(token@)
                    && sess.id@ == token@,
                None => !self.contains_token(token@),
            },
    {
        let n = self.sessions.len();
        let mut i: usize = 0;
        while i < n
            invariant
                self.wf(),
                0 <= i <= n,
                n == self.rows().len(),
                forall|j: int| 0 <= j < i ==> self.rows()[j].id@ != token@,
            decreases n - i,
        {
            if str_eq(self.sessions[i].id.as_str(), token) {
                proof {
                    lemma_session_index_unique(*self, token@, i as int);
                }
                return Some(&self.sessions[i]);
            }
            i = i + 1;
        }
        None
    }

    /// Inserts a fresh session row; a row with the same token already
    /// present is reported as a typed conflict and leaves the store
    /// unchanged.
    pub fn insert(&mut self, sess: Session) -> (r: Result<(), AppError>)
        requires
            old(self).wf(),
        ensures
            final(self).wf(),
            match r {
                Ok(()) => !old(self).contains_token(sess.id@) && final(self).as_map() == old(
                    self,
                ).as_map().insert(sess.id@, (sess.user_id, sess.expires_at)),
                Err(e) => old(self).contains_token(sess.id@) && final(self).as_map() == old(
                    self,
                ).as_map() && (e matches AppError::DuplicateEntry(_)),
            },
    {
        if self.find(sess.id.as_str()).is_some() {
            proof {
                assert(self.as_map() =~= old(self).as_map());
            }
            return Err(AppError::DuplicateEntry("session".to_owned()));
        }
        let ghost pre = *self;
        let ghost s = sess;
        self.sessions.push(sess);
        proof {
            let n = pre.rows().len() as int;
            assert(self.rows() =~= pre.rows().push(s));
            assert forall|t: Seq<char>| #[trigger] self.contains_token(t) implies (
            pre.contains_token(t) || t == s.id@) by {
                let i = choose|i: int| 0 <= i < self.rows().len() && self.rows()[i].id@ == t;
                if i < n {
                    assert(pre.rows()[i].id@ == t);
                }
            }
            assert forall|t: Seq<char>| pre.contains_token(t) implies #[trigger] self.contains_token(
                t,
            ) && self.row(t) == pre.row(t) by {
                let i = pre.index_of(t);
                assert(pre.rows()[i].id@ == t);
                assert(self.rows()[i].id@ == t);
                lemma_session_index_unique(*self, t, i);
                lemma_session_index_unique(pre, t, i);
            }
            assert(self.rows()[n].id@ == s.id@);
            lemma_session_index_unique(*self, s.id@, n);
            assert(self.as_map() =~= pre.as_map().insert(s.id@, (s.user_id, s.expires_at)));
        }
        Ok(())
    }

    /// Deletes the row carrying `token`, if present; reports whether a
    /// row was deleted. Absence of a matching row is not an error.
    pub fn remove(&mut self, token: &str) -> (r: bool)
        requires
            old(self).wf(),
        ensures
            final(self).wf(),
            r == old(self).contains_token(token@),
            final(self).as_map() == old(self).as_map().remove(token@),
            !final(self).contains_token(token@),
    {
        let n = self.sessions.len();
        let mut i: usize = 0;
        while i < n
            invariant
                old(self) == self,
                self.wf(),
                0 <= i <= n,
                n == self.rows().len(),
                forall|j: int| 0 <= j < i ==> self.rows()[j].id@ != token@,
            decreases n - i,
        {
            if str_eq(self.sessions[i].id.as_str(), token) {
                let ghost pre = *self;
                self.sessions.remove(i);
                proof {
                    lemma_session_index_unique(pre, token@, i as int);
                    lemma_session_remove_at(pre, *self, i as int);
                }
                return true;
            }
            i = i + 1;
        }
        proof {
            assert(self.as_map() =~= old(self).as_map().remove(token@));
        }
        false
    }

    /// Deletes every session owned by `uid` (cascade on user
    /// deletion).
    pub fn remove_user_sessions(&mut self, uid: i64)
        requires
            old(self).wf(),
        ensures
            final(self).wf(),
            final(self).as_map() == purge_user_sessions(old(self).as_map(), uid),
    {
        let n = self.sessions.len();
        let mut kept: Vec<Session> = Vec::new();
        let mut i: usize = 0;
        while i < n
            invariant
                self == old(self),
                self.wf(),
                0 <= i <= n,
                n == self.rows().len(),
                keep_inv(self.rows(), kept@, i as int, uid),
            decreases n - i,
        {
            let ghost rows = self.rows();
            let ghost kept0 = kept@;
            if self.sessions[i].user_id != uid {
                kept.push(self.sessions[i].duplicate());
                proof {
                    lemma_keep_step(rows, kept0, i as int, uid);
                }
            } else {
                proof {
                    lemma_keep_skip(rows, kept0, i as int, uid);
                }
            }
            i = i + 1;
        }
        let ghost pre = *self;
        self.sessions = kept;
        proof {
            lemma_session_keep_subset(pre, *self, uid);
        }
    }
}

/// The rows of `kept` are exactly the first `i` rows of `rows` whose
/// owner is not `uid`, each appearing once.
spec fn keep_inv(rows: Seq<Session>, kept: Seq<Session>, i: int, uid: i64) -> bool {
    &&& forall|k1: int, k2: int| 0 <= k1 < k2 < kept.len() ==> kept[k1].id@ != kept[k2].id@
    &&& forall|k: int| 0 <= k < kept.len() ==> (#[trigger] kept[k]).user_id != uid
    &&& forall|k: int|
        #![trigger kept[k]]
        0 <= k < kept.len() ==> exists|j: int| 0 <= j < i && kept[k] == #[trigger] rows[j]
    &&& forall|j: int|
        #![trigger rows[j]]
        0 <= j < i && rows[j].user_id != uid ==> exists|k: int|
            0 <= k < kept.len() && #[trigger] kept[k] == rows[j]
}

/// Keeping a row not owned by `uid` preserves the filtering invariant.
proof fn lemma_keep_step(rows: Seq<Session>, kept: Seq<Session>, i: int, uid: i64)
    requires
        forall|a: int, b: int| 0 <= a < b < rows.len() ==> rows[a].id@ != rows[b].id@,
        0 <= i < rows.len(),
        keep_inv(rows, kept, i, uid),
        rows[i].user_id != uid,
    ensures
        keep_inv(rows, kept.push(rows[i]), i + 1, uid),
{
    let kept1 = kept.push(rows[i]);
    let ki = kept.len() as int;
    assert(kept1[ki] == rows[i]);
    assert forall|k1: int, k2: int| 0 <= k1 < k2 < kept1.len() implies kept1[k1].id@
        != kept1[k2].id@ by {
        if k2 == ki {
            assert(kept1[k1] == kept[k1]);
            let j = choose|j: int| 0 <= j < i && kept[k1] == #[trigger] rows[j];
            assert(rows[j].id@ != rows[i].id@);
        } else {
            assert(kept1[k1] == kept[k1]);
            assert(kept1[k2] == kept[k2]);
        }
    }
    assert forall|k: int| #![trigger kept1[k]] 0 <= k < kept1.len() implies kept1[k].user_id != uid
        && exists|j: int| 0 <= j < i + 1 && kept1[k] == #[trigger] rows[j] by {
        if k < ki {
            assert(kept1[k] == kept[k]);
            let j = choose|j: int| 0 <= j < i && kept[k] == #[trigger] rows[j];
            assert(0 <= j < i + 1 && kept1[k] == rows[j]);
        } else {
            assert(kept1[k] == rows[i]);
        }
    }
    assert forall|j: int|
        #![trigger rows[j]]
        0 <= j < i + 1 && rows[j].user_id != uid implies exists|k: int|
            0 <= k < kept1.len() && #[trigger] kept1[k] == rows[j] by {
        if j < i {
            let k = choose|k: int| 0 <= k < kept.len() && #[trigger] kept[k] == rows[j];
            assert(kept1[k] == rows[j]);
        } else {
            assert(kept1[ki] == rows[j]);
        }
    }
}

/// Skipping a row owned by `uid` preserves the filtering invariant.
proof fn lemma_keep_skip(rows: Seq<Session>, kept: Seq<Session>, i: int, uid: i64)
    requires
        0 <= i < rows.len(),
        keep_inv(rows, kept, i, uid),
        rows[i].user_id == uid,
    ensures
        keep_inv(rows, kept, i + 1, uid),
{
    assert forall|j: int|
        #![trigger rows[j]]
        0 <= j < i + 1 && rows[j].user_id != uid implies exists|k: int|
            0 <= k < kept.len() && #[trigger] kept[k] == rows[j] by {
        assert(j < i);
        let k = choose|k: int| 0 <= k < kept.len() && #[trigger] kept[k] == rows[j];
        assert(kept[k] == rows[j]);
    }
}

/// A store whose rows are exactly the rows of `pre` not owned by
/// `uid` has the purged abstract map of `pre`.
proof fn lemma_session_keep_subset(pre: SessionStore, post: SessionStore, uid: i64)
    requires
        pre.wf(),
        keep_inv(pre.rows(), post.rows(), pre.rows().len() as int, uid),
    ensures
        post.wf(),
        post.as_map() == purge_user_sessions(pre.as_map(), uid),
{
    assert forall|t: Seq<char>| #[trigger] post.contains_token(t) implies pre.contains_token(t)
        && pre.row(t).user_id != uid && post.row(t) == pre.row(t) by {
        let k = post.index_of(t);
        assert(post.rows()[k].id@ == t);
        let j = choose|j: int|
            0 <= j < pre.rows().len() && post.rows()[k] == #[trigger] pre.rows()[j];
        assert(pre.rows()[j].id@ == t);
        lemma_session_index_unique(pre, t, j);
        lemma_session_index_unique(post, t, k);
    }
    assert forall|t: Seq<char>|
        pre.contains_token(t) && #[trigger] pre.as_map()[t].0 != uid implies post.contains_token(
        t,
    ) by {
        let j = pre.index_of(t);
        assert(pre.rows()[j].id@ == t);
        assert(pre.rows()[j].user_id != uid);
        let k = choose|k: int|
            0 <= k < post.rows().len() && #[trigger] post.rows()[k] == pre.rows()[j];
        assert(post.rows()[k].id@ == t);
    }
    assert(post.as_map() =~= purge_user_sessions(pre.as_map(), uid));
}

/// In a well-formed store, any index whose row carries `t` is the
/// index that the abstract lookup selects.
proof fn lemma_session_index_unique(st: SessionStore, t: Seq<char>, i: int)
    requires
        st.wf(),
        0 <= i < st.rows().len(),
        st.rows()[i].id@ == t,
    ensures
        st.contains_token(t),
        st.index_of(t) == i,
        st.row(t) == st.rows()[i],
{
    assert(st.contains_token(t));
    let k = st.index_of(t);
    assert(0 <= k < st.rows().len() && st.rows()[k].id@ == t);
    if k != i {
        assert(st.rows()[k].id@ != st.rows()[i].id@);
    }
}

/// Removing the row at the index of token `t` removes exactly `t` from
/// the abstract map.
proof fn lemma_session_remove_at(pre: SessionStore, post: SessionStore, i: int)
    requires
        pre.wf(),
        0 <= i < pre.rows().len(),
        post.rows() == pre.rows().remove(i),
    ensures
        post.wf(),
        post.as_map() == pre.as_map().remove(pre.rows()[i].id@),
        !post.contains_token(pre.rows()[i].id@),
{
    let t = pre.rows()[i].id@;
    let n = pre.rows().len() as int;
    assert forall|a: int, b: int| 0 <= a < b < post.rows().len() implies #[trigger] post.rows()[a].id@
        != #[trigger] post.rows()[b].id@ by {
        let a0 = if a < i { a } else { a + 1 };
        let b0 = if b < i { b } else { b + 1 };
        assert(post.rows()[a] == pre.rows()[a0]);
        assert(post.rows()[b] == pre.rows()[b0]);
    }
    assert forall|u: Seq<char>| #[trigger] post.contains_token(u) implies pre.contains_token(u) && u
        != t && post.row(u) == pre.row(u) by {
        let k = post.index_of(u);
        assert(post.rows()[k].id@ == u);
        let k0 = if k < i { k } else { k + 1 };
        assert(post.rows()[k] == pre.rows()[k0]);
        lemma_session_index_unique(pre, u, k0);
        if u == t {
            assert(pre.index_of(u) == i);
        }
        lemma_session_index_unique(post, u, k);
    }
    assert forall|u: Seq<char>| pre.contains_token(u) && u != t implies #[trigger] post.contains_token(
        u,
    ) by {
        let j = pre.index_of(u);
        assert(pre.rows()[j].id@ == u);
        if j != i {
            let j1 = if j < i { j } else { j - 1 };
            assert(post.rows()[j1] == pre.rows()[j]);
        }
    }
    if post.contains_token(t) {
        assert(false);
    }
    assert(post.as_map() =~= pre.as_map().remove(t));
}

/// The store of user accounts, keyed by id; usernames are unique too.
pub struct UserStore {
    users: Vec<User>,
}

impl UserStore {
    /// The rows of the store, in insertion order.
    pub closed spec fn rows(self) -> Seq<User> {
        self.users@
    }

    /// Ids and usernames are each unique across rows.
    pub open spec fn wf(self) -> bool {
        forall|i: int, j: int|
            0 <= i < j < self.rows().len() ==> self.rows()[i].id != self.rows()[j].id
                && self.rows()[i].username@ != self.rows()[j].username@
    }

    /// Whether some account has id `uid`.
    pub open spec fn contains_id(self, uid: i64) -> bool {
        exists|i: int| 0 <= i < self.rows().len() && self.rows()[i].id == uid
    }

    /// The index of the account with id `uid`.
    pub open spec fn index_of_id(self, uid: i64) -> int {
        choose|i: int| 0 <= i < self.rows().len() && self.rows()[i].id == uid
    }

    /// The account with id `uid`.
    pub open spec fn user_of(self, uid: i64) -> User {
        self.rows()[self.index_of_id(uid)]
    }

    /// Whether some account carries username `n`.
    pub open spec fn contains_username(self, n: Seq<char>) -> bool {
        exists|i: int| 0 <= i < self.rows().len() && self.rows()[i].username@ == n
    }

    /// The index of the account with username `n`.
    pub open spec fn index_of_username(self, n: Seq<char>) -> int {
        choose|i: int| 0 <= i < self.rows().len() && self.rows()[i].username@ == n
    }

    /// The account with username `n`.
    pub open spec fn user_by_name(self, n: Seq<char>) -> User {
        self.rows()[self.index_of_username(n)]
    }

    /// The abstract content: id to account.
    pub open spec fn id_map(self) -> Map<i64, User> {
        Map::new(|uid: i64| self.contains_id(uid), |uid: i64| self.user_of(uid))
    }

    /// An empty credential store.
    pub fn new() -> (s: UserStore)
        ensures
            s.wf(),
            s.rows().len() == 0,
            s.id_map() == Map::<i64, User>::empty(),
    {
        let s = UserStore { users: Vec::new() };
        proof {
            assert(s.id_map() =~= Map::<i64, User>::empty());
        }
        s
    }

    /// The number of accounts; a store with none is freshly
    /// bootstrapped.
    pub fn count(&self) -> (n: usize)
        ensures
            n == self.rows().len(),
    {
        self.users.len()
    }

    /// Looks an account up by id.
    pub fn find_by_id(&self, uid: i64) -> (r: Option<&User>)
        requires
            self.wf(),
        ensures
            match r {
                Some(u) => self.contains_id(uid) && *u == self.user_of(uid) && u.id == uid,
                None => !self.contains_id(uid),
            },
    {
        let n = self.users.len();
        let mut i: usize = 0;
        while i < n
            invariant
                self.wf(),
                0 <= i <= n,
                n == self.rows().len(),
                forall|j: int| 0 <= j < i ==> self.rows()[j].id != uid,
            decreases n - i,
        {
            if self.users[i].id == uid {
                proof {
                    lemma_user_id_index_unique(*self, uid, i as int);
                }
                return Some(&self.users[i]);
            }
            i = i + 1;
        }
        None
    }

    /// Looks an account up by username (exact, case-sensitive match,
    /// as stored).
    pub fn find_by_username(&self, name: &str) -> (r: Option<&User>)
        requires
            self.wf(),
        ensures
            match r {
                Some(u) => self.contains_username(name@) && *u == self.user_by_name(name@)
                    && u.username@ == name@ && self.contains_id(u.id) && self.user_of(u.id) == *u,
                None => !self.contains_username(name@),
            },
    {
        let n = self.users.len();
        let mut i: usize = 0;
        while i < n
            invariant
                self.wf(),
                0 <= i <= n,
                n == self.rows().len(),
                forall|j: int| 0 <= j < i ==> self.rows()[j].username@ != name@,
            decreases n - i,
        {
            if str_eq(self.users[i].username.as_str(), name) {
                proof {
                    lemma_user_name_index_unique(*self, name@, i as int);
                    lemma_user_id_index_unique(*self, self.rows()[i as int].id, i as int);
                }
                return Some(&self.users[i]);
            }
            i = i + 1;
        }
        None
    }

    /// Inserts a new account. A clash on username or on id is reported
    /// as a typed conflict naming the field, and leaves the store
    /// unchanged; the store itself enforces uniqueness, so callers
    /// never classify driver errors by their message text.
    pub fn insert(&mut self, user: User) -> (r: Result<(), AppError>)
        requires
            old(self).wf(),
        ensures
            final(self).wf(),
            match r {
                Ok(()) => !old(self).contains_username(user.username@)
                    && !old(self).contains_id(user.id)
                    && final(self).id_map() == old(self).id_map().insert(user.id, user)
                    && final(self).rows() == old(self).rows().push(user)
                    && final(self).contains_username(user.username@),
                Err(e) => *final(self) == *old(self) && (e matches AppError::DuplicateEntry(f)
                    && ((f@ == "username"@ && old(self).contains_username(user.username@)) || (f@
                    == "id"@ && !old(self).contains_username(user.username@) && old(
                    self,
                ).contains_id(user.id)))),
            },
    {
        if self.find_by_username(user.username.as_str()).is_some() {
            return Err(AppError::DuplicateEntry("username".to_owned()));
        }
        if self.find_by_id(user.id).is_some() {
            return Err(AppError::DuplicateEntry("id".to_owned()));
        }
        let ghost pre = *self;
        let ghost u = user;
        self.users.push(user);
        proof {
            let n = pre.rows().len() as int;
            assert(self.rows() =~= pre.rows().push(u));
            assert forall|v: i64| #[trigger] self.contains_id(v) implies (pre.contains_id(v) || v
                == u.id) by {
                let i = choose|i: int| 0 <= i < self.rows().len() && self.rows()[i].id == v;
                if i < n {
                    assert(pre.rows()[i].id == v);
                }
            }
            assert forall|v: i64| pre.contains_id(v) implies #[trigger] self.contains_id(v)
                && self.user_of(v) == pre.user_of(v) by {
                let i = pre.index_of_id(v);
                assert(pre.rows()[i].id == v);
                assert(self.rows()[i].id == v);
                lemma_user_id_index_unique(*self, v, i);
                lemma_user_id_index_unique(pre, v, i);
            }
            assert(self.rows()[n].id == u.id);
            assert(self.rows()[n].username@ == u.username@);
            lemma_user_id_index_unique(*self, u.id, n);
            assert(self.id_map() =~= pre.id_map().insert(u.id, u));
        }
        Ok(())
    }

    /// Deletes the account with id `uid`, if present; reports whether
    /// an account was deleted.
    pub fn remove_by_id(&mut self, uid: i64) -> (r: bool)
        requires
            old(self).wf(),
        ensures
            final(self).wf(),
            r == old(self).contains_id(uid),
            final(self).id_map() == old(self).id_map().remove(uid),
            !final(self).contains_id(uid),
    {
        let n = self.users.len();
        let mut i: usize = 0;
        while i < n
            invariant
                old(self) == self,
                self.wf(),
                0 <= i <= n,
                n == self.rows().len(),
                forall|j: int| 0 <= j < i ==> self.rows()[j].id != uid,
            decreases n - i,
        {
            if self.users[i].id == uid {
                let ghost pre = *self;
                self.users.remove(i);
                proof {
                    lemma_user_id_index_unique(pre, uid, i as int);
                    lemma_user_remove_at(pre, *self, i as int);
                }
                return true;
            }
            i = i + 1;
        }
        proof {
            assert(self.id_map() =~= old(self).id_map().remove(uid));
        }
        false
    }
}

/// In a well-formed user store, any index whose row has id `uid` is
/// the index that the abstract lookup selects.
proof fn lemma_user_id_index_unique(st: UserStore, uid: i64, i: int)
    requires
        st.wf(),
        0 <= i < st.rows().len(),
        st.rows()[i].id == uid,
    ensures
        st.contains_id(uid),
        st.index_of_id(uid) == i,
        st.user_of(uid) == st.rows()[i],
{
    assert(st.contains_id(uid));
    let k = st.index_of_id(uid);
    assert(0 <= k < st.rows().len() && st.rows()[k].id == uid);
    if k != i {
        assert(st.rows()[k].id != st.rows()[i].id);
    }
}

/// In a well-formed user store, any index whose row has username `n`
/// is the index that the abstract lookup selects.
proof fn lemma_user_name_index_unique(st: UserStore, n: Seq<char>, i: int)
    requires
        st.wf(),
        0 <= i < st.rows().len(),
        st.rows()[i].username@ == n,
    ensures
        st.contains_username(n),
        st.index_of_username(n) == i,
        st.user_by_name(n) == st.rows()[i],
{
    assert(st.contains_username(n));
    let k = st.index_of_username(n);
    assert(0 <= k < st.rows().len() && st.rows()[k].username@ == n);
    if k != i {
        assert(st.rows()[k].username@ != st.rows()[i].username@);
    }
}

/// Removing the row at the index of id `uid` removes exactly `uid`
/// from the abstract map.
proof fn lemma_user_remove_at(pre: UserStore, post: UserStore, i: int)
    requires
        pre.wf(),
        0 <= i < pre.rows().len(),
        post.rows() == pre.rows().remove(i),
    ensures
        post.wf(),
        post.id_map() == pre.id_map().remove(pre.rows()[i].id),
        !post.contains_id(pre.rows()[i].id),
{
    let uid = pre.rows()[i].id;
    assert forall|a: int, b: int| 0 <= a < b < post.rows().len() implies #[trigger] post.rows()[a].id
        != #[trigger] post.rows()[b].id && post.rows()[a].username@ != post.rows()[b].username@ by {
        let a0 = if a < i { a } else { a + 1 };
        let b0 = if b < i { b } else { b + 1 };
        assert(post.rows()[a] == pre.rows()[a0]);
        assert(post.rows()[b] == pre.rows()[b0]);
    }
    assert forall|v: i64| #[trigger] post.contains_id(v) implies pre.contains_id(v) && v != uid
        && post.user_of(v) == pre.user_of(v) by {
        let k = post.index_of_id(v);
        assert(post.rows()[k].id == v);
        let k0 = if k < i { k } else { k + 1 };
        assert(post.rows()[k] == pre.rows()[k0]);
        lemma_user_id_index_unique(pre, v, k0);
        if v == uid {
            assert(pre.index_of_id(v) == i);
        }
        lemma_user_id_index_unique(post, v, k);
    }
    assert forall|v: i64| pre.contains_id(v) && v != uid implies #[trigger] post.contains_id(v) by {
        let j = pre.index_of_id(v);
        assert(pre.rows()[j].id == v);
        if j != i {
            let j1 = if j < i { j } else { j - 1 };
            assert(post.rows()[j1] == pre.rows()[j]);
        }
    }
    if post.contains_id(uid) {
        assert(false);
    }
    assert(post.id_map() =~= pre.id_map().remove(uid));
}

} // verus!
