//! The session authenticator and the authorization gate.
//!
//! Every operation takes the session token and the current time as
//! explicit arguments; nothing is read from ambient globals. A session
//! row is meaningful only while `now < expires_at`; an expired row
//! encountered during authentication is lazily deleted. Per session
//! row the transitions are `Active` to `Expired` by time alone,
//! and either to `Deleted` by logout or lazy cleanup; there is no
//! renewal or sliding expiry.

use vstd::prelude::*;

use crate::error::AppError;
use crate::password::bcrypt_verdict;
use crate::password::verify_password;
use crate::session::expiry_at;
use crate::session::Session;
use crate::store::purge_user_sessions;
use crate::store::SessionStore;
use crate::store::UserStore;
use crate::user::User;
use crate::user::UserRole;

verus! {

/// The outcome of authenticating a request.
#[derive(Debug)]
pub enum AuthResult {
    /// A live session resolved to its owning user.
    Authenticated(User),
    /// No token, an unknown token, or an orphaned session.
    Unauthenticated,
    /// A matching session exists but its expiry has passed.
    Expired,
}

/// The characters of an optional token.
pub open spec fn token_view(token: Option<&str>) -> Option<Seq<char>> {
    match token {
        Some(t) => Some(t@),
        None => None,
    }
}

/// What authentication decides, given the session table `m` (token to
/// owning user and expiry), the user table, the presented token and
/// the current time.
pub open spec fn auth_decision(
    m: Map<Seq<char>, (i64, i64)>,
    users: Map<i64, User>,
    token: Option<Seq<char>>,
    now: i64,
) -> AuthResult {
    match token {
        None => AuthResult::Unauthenticated,
        Some(t) => if !m.dom().contains(t) {
            AuthResult::Unauthenticated
        } else if m[t].1 <= now {
            AuthResult::Expired
        } else if users.dom().contains(m[t].0) {
            AuthResult::Authenticated(users[m[t].0])
        } else {
            AuthResult::Unauthenticated
        },
    }
}

/// The session table after authentication: lazy cleanup deletes an
/// expired row that was presented, and nothing else.
pub open spec fn store_after_auth(
    m: Map<Seq<char>, (i64, i64)>,
    token: Option<Seq<char>>,
    now: i64,
) -> Map<Seq<char>, (i64, i64)> {
    match token {
        None => m,
        Some(t) => if m.dom().contains(t) && m[t].1 <= now {
            m.remove(t)
        } else {
            m
        },
    }
}

/// Decides whether a request is authenticated and, if so, resolves the
/// acting user. An expired row that was presented is deleted (lazy
/// cleanup); a missing token, an unknown token and an orphaned session
/// are `Unauthenticated`, kept distinct from `Expired`.
pub fn authenticate(
    sessions: &mut SessionStore,
    users: &UserStore,
    token: Option<&str>,
    now: i64,
) -> (r: AuthResult)
    requires
        old(sessions).wf(),
        users.wf(),
    ensures
        final(sessions).wf(),
        r == auth_decision(old(sessions).as_map(), users.id_map(), token_view(token), now),
        final(sessions).as_map() == store_after_auth(
            old(sessions).as_map(),
            token_view(token),
            now,
        ),
{
    match token {
        None => AuthResult::Unauthenticated,
        Some(t) => {
            let found: Option<(i64, i64)> = match sessions.find(t) {
                Some(sess) => Some((sess.user_id, sess.expires_at)),
                None => None,
            };
            match found {
                None => AuthResult::Unauthenticated,
                Some((uid, exp)) => {
                    if exp <= now {
                        // Lazy cleanup of the dead row.
                        sessions.remove(t);
                        AuthResult::Expired
                    } else {
                        match users.find_by_id(uid) {
                            Some(u) => AuthResult::Authenticated(u.duplicate()),
                            None => AuthResult::Unauthenticated,
                        }
                    }
                },
            }
        },
    }
}

/// Resolves the acting user of a request without touching the store:
/// `Some` exactly when the token names a live session whose owner
/// still exists.
pub fn get_current_user(
    sessions: &SessionStore,
    users: &UserStore,
    token: Option<&str>,
    now: i64,
) -> (r: Option<User>)
    requires
        sessions.wf(),
        users.wf(),
    ensures
        r == (match auth_decision(sessions.as_map(), users.id_map(), token_view(token), now) {
            AuthResult::Authenticated(u) => Some(u),
            AuthResult::Unauthenticated => None::<User>,
            AuthResult::Expired => None::<User>,
        }),
{
    match token {
        None => None,
        Some(t) => {
            let found: Option<(i64, i64)> = match sessions.find(t) {
                Some(sess) => Some((sess.user_id, sess.expires_at)),
                None => None,
            };
            match found {
                None => None,
                Some((uid, exp)) => {
                    if exp <= now {
                        None
                    } else {
                        match users.find_by_id(uid) {
                            Some(u) => Some(u.duplicate()),
                            None => None,
                        }
                    }
                },
            }
        },
    }
}

/// Persists a new session for `user_id` under the given token, with
/// `expires_at = now + ttl` (saturating). A token already present is a
/// conflict and leaves the store unchanged.
pub fn create_session(
    sessions: &mut SessionStore,
    user_id: i64,
    token: &str,
    now: i64,
    ttl: i64,
) -> (r: Result<(), AppError>)
    requires
        old(sessions).wf(),
        ttl >= 0,
    ensures
        final(sessions).wf(),
        match r {
            Ok(()) => !old(sessions).contains_token(token@) && final(sessions).as_map() == old(
                sessions,
            ).as_map().insert(token@, (user_id, expiry_at(now, ttl))),
            Err(e) => old(sessions).contains_token(token@) && final(sessions).as_map() == old(
                sessions,
            ).as_map() && (e matches AppError::DuplicateEntry(_)),
        },
{
    let sess = Session { id: token.to_owned(), user_id, expires_at: Session::expiry_after(now, ttl) };
    sessions.insert(sess)
}

/// Deletes the session matching `token` if present; absence of a
/// matching row is not an error, so a second call with the same token
/// also succeeds.
pub fn destroy_session(sessions: &mut SessionStore, token: &str)
    requires
        old(sessions).wf(),
    ensures
        final(sessions).wf(),
        final(sessions).as_map() == old(sessions).as_map().remove(token@),
        !final(sessions).contains_token(token@),
{
    let _removed = sessions.remove(token);
}

/// Handles a login attempt: resolves the username, verifies the
/// password through the hashing primitive, and on success persists a
/// session under the given token. A wrong username and a wrong
/// password fail alike, with nothing revealed about which.
pub fn login(
    users: &UserStore,
    sessions: &mut SessionStore,
    username: &str,
    password: &str,
    token: &str,
    now: i64,
    ttl: i64,
) -> (r: Result<User, AppError>)
    requires
        users.wf(),
        old(sessions).wf(),
        ttl >= 0,
    ensures
        final(sessions).wf(),
        match r {
            Ok(u) => users.contains_username(username@) && u == users.user_by_name(username@)
                && bcrypt_verdict(password@, u.password_hash@) == Some(true) && !old(
                sessions,
            ).contains_token(token@) && final(sessions).as_map() == old(
                sessions,
            ).as_map().insert(token@, (u.id, expiry_at(now, ttl))),
            Err(e) => final(sessions).as_map() == old(sessions).as_map() && match e {
                AppError::Unauthorized => !users.contains_username(username@) || bcrypt_verdict(
                    password@,
                    users.user_by_name(username@).password_hash@,
                ) != Some(true),
                AppError::Internal(_) => users.contains_username(username@) && bcrypt_verdict(
                    password@,
                    users.user_by_name(username@).password_hash@,
                ) == Some(true) && old(sessions).contains_token(token@),
                _ => false,
            },
        },
{
    match users.find_by_username(username) {
        None => Err(AppError::Unauthorized),
        Some(found) => {
            let password_ok = match verify_password(password, found.password_hash.as_str()) {
                Ok(b) => b,
                Err(_) => false,
            };
            if password_ok {
                let user = found.duplicate();
                match create_session(sessions, user.id, token, now, ttl) {
                    Ok(()) => Ok(user),
                    Err(_) => Err(AppError::Internal("session token collision".to_owned())),
                }
            } else {
                Err(AppError::Unauthorized)
            }
        },
    }
}

/// Enforces a role requirement by exact match on the stored role
/// string: there is no hierarchy, no case folding, and the admin role
/// does not count as the plain user role.
pub fn require_role(user: &User, role: UserRole) -> (r: Result<(), AppError>)
    ensures
        match r {
            Ok(()) => user.role@ == role.spec_as_str(),
            Err(e) => user.role@ != role.spec_as_str() && (e matches AppError::Forbidden),
        },
{
    if crate::strutil::str_eq(user.role.as_str(), role.as_str()) {
        Ok(())
    } else {
        Err(AppError::Forbidden)
    }
}

/// Composes authentication with the role gate: an unauthenticated
/// request is rejected before the role is looked at, an expired
/// session is reported as such, and an authenticated user with the
/// wrong role is forbidden.
pub fn require_authenticated_role(auth: &AuthResult, role: UserRole) -> (r: Result<User, AppError>)
    ensures
        match r {
            Ok(u) => (*auth matches AuthResult::Authenticated(a) && u == a) && u.role@
                == role.spec_as_str(),
            Err(e) => match *auth {
                AuthResult::Authenticated(a) => a.role@ != role.spec_as_str() && (
                e matches AppError::Forbidden),
                AuthResult::Unauthenticated => e matches AppError::Unauthorized,
                AuthResult::Expired => e matches AppError::SessionExpired,
            },
        },
{
    match auth {
        AuthResult::Authenticated(user) => {
            match require_role(user, role) {
                Ok(()) => Ok(user.duplicate()),
                Err(e) => Err(e),
            }
        },
        AuthResult::Unauthenticated => Err(AppError::Unauthorized),
        AuthResult::Expired => Err(AppError::SessionExpired),
    }
}

/// Admits only an authenticated user whose stored role string is
/// exactly `admin`; anything short of an authenticated session is
/// rejected as unauthorized.
pub fn require_admin(auth: &AuthResult) -> (r: Result<User, AppError>)
    ensures
        match r {
            Ok(u) => (*auth matches AuthResult::Authenticated(a) && u == a) && u.spec_is_admin(),
            Err(e) => match *auth {
                AuthResult::Authenticated(a) => !a.spec_is_admin() && (
                e matches AppError::Forbidden),
                AuthResult::Unauthenticated => e matches AppError::Unauthorized,
                AuthResult::Expired => e matches AppError::Unauthorized,
            },
        },
{
    match auth {
        AuthResult::Authenticated(user) => {
            if user.is_admin() {
                Ok(user.duplicate())
            } else {
                Err(AppError::Forbidden)
            }
        },
        AuthResult::Unauthenticated => Err(AppError::Unauthorized),
        AuthResult::Expired => Err(AppError::Unauthorized),
    }
}

/// Deletes the account `target_id` on behalf of `actor`. Only an
/// admin may delete accounts, and never their own: both refusals
/// happen before any store mutation. Deletion cascades to the target's
/// sessions. The returned name feeds the confirmation message.
pub fn delete_user(
    users: &mut UserStore,
    sessions: &mut SessionStore,
    actor: &User,
    target_id: i64,
) -> (r: Result<String, AppError>)
    requires
        old(users).wf(),
        old(sessions).wf(),
    ensures
        final(users).wf(),
        final(sessions).wf(),
        match r {
            Ok(name) => actor.spec_is_admin() && actor.id != target_id && final(users).id_map()
                == old(users).id_map().remove(target_id) && final(sessions).as_map()
                == purge_user_sessions(old(sessions).as_map(), target_id) && name@ == (
            if old(users).contains_id(target_id) {
                old(users).user_of(target_id).full_name@
            } else {
                "کاربر"@
            }),
            Err(e) => *final(users) == *old(users) && *final(sessions) == *old(sessions) && match e {
                AppError::Forbidden => !actor.spec_is_admin(),
                AppError::BadRequest(_) => actor.spec_is_admin() && actor.id == target_id,
                _ => false,
            },
        },
{
    if !actor.is_admin() {
        return Err(AppError::Forbidden);
    }
    if actor.id == target_id {
        // Self-protection: an admin may not delete their own account.
        return Err(AppError::BadRequest("Cannot delete yourself".to_owned()));
    }
    let name: String = match users.find_by_id(target_id) {
        Some(u) => u.full_name.clone(),
        None => "کاربر".to_owned(),
    };
    let _existed = users.remove_by_id(target_id);
    sessions.remove_user_sessions(target_id);
    Ok(name)
}

/// Whether the credential store is freshly bootstrapped, in which case
/// a default admin account is to be created.
pub fn needs_default_admin(users: &UserStore) -> (r: bool)
    ensures
        r == (users.rows().len() == 0),
{
    users.count() == 0
}

/// The default admin account created on first run, from a digest of
/// its well-known initial password.
pub fn default_admin(password_hash: String, created_at: String) -> (u: User)
    ensures
        u.id == 1,
        u.username@ == "admin"@,
        u.password_hash == password_hash,
        u.full_name@ == "مدیر سیستم"@,
        u.role@ == "admin"@,
        u.created_at == created_at,
{
    User {
        id: 1,
        username: "admin".to_owned(),
        password_hash,
        full_name: "مدیر سیستم".to_owned(),
        role: "admin".to_owned(),
        created_at,
    }
}

/// Validates the role field of a user-creation form: only the two
/// role names are accepted, by exact match.
pub fn validate_user_form(form: &crate::user::UserForm) -> (r: Result<(), AppError>)
    ensures
        match r {
            Ok(()) => form.role@ == "admin"@ || form.role@ == "user"@,
            Err(e) => form.role@ != "admin"@ && form.role@ != "user"@ && (
            e matches AppError::BadRequest(_)),
        },
{
    if crate::strutil::str_eq(form.role.as_str(), "admin") || crate::strutil::str_eq(
        form.role.as_str(),
        "user",
    ) {
        Ok(())
    } else {
        Err(AppError::BadRequest("Invalid role".to_owned()))
    }
}

/// Creates a user account from a submitted form: the role is checked,
/// the password is hashed, and the account is inserted with username
/// uniqueness enforced by the store. A taken username is reported as
/// a request error, as the login boundary words it.
pub fn add_user(
    users: &mut UserStore,
    form: &crate::user::UserForm,
    id: i64,
    created_at: String,
) -> (r: Result<User, AppError>)
    requires
        old(users).wf(),
    ensures
        final(users).wf(),
        match r {
            Ok(u) => (form.role@ == "admin"@ || form.role@ == "user"@) && u.id == id
                && u.username@ == form.username@ && u.full_name@ == form.full_name@ && u.role@
                == form.role@ && bcrypt_verdict(form.password@, u.password_hash@) == Some(true)
                && !old(users).contains_username(form.username@) && !old(users).contains_id(id)
                && final(users).id_map() == old(users).id_map().insert(id, u),
            Err(e) => *final(users) == *old(users) && match e {
                AppError::BadRequest(_) => (form.role@ != "admin"@ && form.role@ != "user"@) || old(
                    users,
                ).contains_username(form.username@),
                AppError::Bcrypt(_) => form.role@ == "admin"@ || form.role@ == "user"@,
                AppError::DuplicateEntry(f) => (form.role@ == "admin"@ || form.role@ == "user"@)
                    && f@ == "id"@ && !old(users).contains_username(form.username@) && old(
                    users,
                ).contains_id(id),
                _ => false,
            },
        },
{
    if let Err(e) = validate_user_form(form) {
        return Err(e);
    }
    let password_hash = match crate::password::hash_password(form.password.as_str()) {
        Ok(h) => h,
        Err(e) => {
            return Err(e);
        },
    };
    let user = User {
        id,
        username: form.username.clone(),
        password_hash,
        full_name: form.full_name.clone(),
        role: form.role.clone(),
        created_at,
    };
    let result = user.duplicate();
    match users.insert(user) {
        Ok(()) => Ok(result),
        Err(e) => match e {
            AppError::DuplicateEntry(field) => {
                proof {
                    reveal_strlit("username");
                    reveal_strlit("id");
                    assert("username"@.len() == 8);
                    assert("id"@.len() == 2);
                }
                if crate::strutil::str_eq(field.as_str(), "username") {
                    Err(AppError::BadRequest("Username already exists".to_owned()))
                } else {
                    Err(AppError::DuplicateEntry(field))
                }
            },
            other => Err(other),
        },
    }
}

/// What a request pipeline's session lookup came back with, when the
/// store is remote and can fail.
pub enum SessionLookup {
    /// The store could not be reached; the driver's message, for the
    /// server-side log only.
    StoreError(String),
    /// No row carries the presented token.
    Missing,
    /// The row carrying the presented token.
    Found(Session),
}

/// Decides a protected request from the outcome of the session
/// lookup. A storage failure surfaces as an internal error — never as
/// a missing or invalid session, so an outage cannot look like a mass
/// logout — while a live row admits the request. A caller receiving
/// the expired verdict performs the lazy cleanup of the dead row.
pub fn check_session_lookup(lookup: SessionLookup, now: i64) -> (r: Result<Session, AppError>)
    ensures
        match lookup {
            SessionLookup::StoreError(_) => r matches Err(e) && (e matches AppError::Internal(_)),
            SessionLookup::Missing => r matches Err(e) && (e matches AppError::Unauthorized),
            SessionLookup::Found(s) => if s.expires_at <= now {
                r matches Err(e) && (e matches AppError::SessionExpired)
            } else {
                r matches Ok(row) && row == s
            },
        },
{
    match lookup {
        SessionLookup::StoreError(_) => {
            Err(AppError::Internal("خطا در بررسی احراز هویت".to_owned()))
        },
        SessionLookup::Missing => Err(AppError::Unauthorized),
        SessionLookup::Found(row) => {
            if row.expires_at <= now {
                Err(AppError::SessionExpired)
            } else {
                Ok(row)
            }
        },
    }
}

/// What a login boundary's credential lookup came back with, when the
/// store is remote and can fail.
pub enum UserLookup {
    /// The store could not be reached; the driver's message, for the
    /// server-side log only.
    StoreError(String),
    /// No account carries the presented username.
    Missing,
    /// The account carrying the presented username.
    Found(User),
}

/// Decides a login attempt from the outcome of the credential lookup.
/// A storage failure surfaces as an internal error — never as bad
/// credentials, so an outage cannot masquerade as a failed login —
/// while a missing username fails exactly as a wrong password does,
/// revealing nothing. The account handed back still has its password
/// verified by the caller.
pub fn check_user_lookup(lookup: UserLookup) -> (r: Result<User, AppError>)
    ensures
        match lookup {
            UserLookup::StoreError(_) => r matches Err(e) && (e matches AppError::Internal(_)),
            UserLookup::Missing => r matches Err(e) && (e matches AppError::Unauthorized),
            UserLookup::Found(u) => r matches Ok(row) && row == u,
        },
{
    match lookup {
        UserLookup::StoreError(_) => {
            Err(AppError::Internal("خطا در بررسی احراز هویت".to_owned()))
        },
        UserLookup::Missing => Err(AppError::Unauthorized),
        UserLookup::Found(user) => Ok(user),
    }
}

} // verus!
