use rumiland::auth::{
    add_user, authenticate, check_session_lookup, create_session, default_admin, delete_user,
    destroy_session, get_current_user, login, needs_default_admin, require_admin,
    check_user_lookup, require_authenticated_role, require_role, validate_user_form, AuthResult,
    SessionLookup, UserLookup,
};
use rumiland::error::AppError;
use rumiland::password::{hash_password, verify_password};
use rumiland::session::Session;
use rumiland::store::{SessionStore, UserStore};
use rumiland::user::{User, UserForm, UserRole};

fn make_user(id: i64, username: &str, password_hash: &str, role: &str) -> User {
    User {
        id,
        username: username.to_string(),
        password_hash: password_hash.to_string(),
        full_name: format!("{} full name", username),
        role: role.to_string(),
        created_at: "2024-01-01 00:00:00".to_string(),
    }
}

fn seeded_stores() -> (UserStore, SessionStore) {
    let mut users = UserStore::new();
    users
        .insert(make_user(1, "admin", &hash_password("admin123").unwrap(), "admin"))
        .unwrap();
    users
        .insert(make_user(2, "reza", &hash_password("secret").unwrap(), "user"))
        .unwrap();
    (users, SessionStore::new())
}

#[test]
fn test_password_hashing() {
    let password = "test_password";
    let hashed = bcrypt::hash(password, bcrypt::DEFAULT_COST).unwrap();

    assert!(bcrypt::verify(password, &hashed).unwrap());
    assert!(!bcrypt::verify("wrong_password", &hashed).unwrap());
}

#[test]
fn test_password_wrapper_roundtrip() {
    let digest = hash_password("pw").unwrap();
    assert!(verify_password("pw", &digest).unwrap());
    assert!(!verify_password("other", &digest).unwrap());
    // A malformed digest is an error, not a silent mismatch.
    assert!(matches!(
        verify_password("pw", "not a bcrypt hash"),
        Err(AppError::Bcrypt(_))
    ));
}

#[test]
fn test_authenticate_valid_session() {
    // A token bound to an unexpired session authenticates as the
    // owning user.
    let (users, mut sessions) = seeded_stores();
    create_session(&mut sessions, 1, "tok-1", 1000, 3600).unwrap();
    match authenticate(&mut sessions, &users, Some("tok-1"), 1000) {
        AuthResult::Authenticated(u) => {
            assert_eq!(u.id, 1);
            assert_eq!(u.username, "admin");
        }
        other => panic!("expected Authenticated, got {:?}", other),
    }
    // The store was not mutated.
    assert_eq!(sessions.len(), 1);
}

#[test]
fn test_authenticate_expired_session_removed() {
    // An expired session is reported Expired and lazily deleted.
    let (users, mut sessions) = seeded_stores();
    create_session(&mut sessions, 1, "tok-exp", 1000, 3600).unwrap();
    assert!(matches!(
        authenticate(&mut sessions, &users, Some("tok-exp"), 5000),
        AuthResult::Expired
    ));
    // A subsequent lookup of the same token finds no row.
    assert_eq!(sessions.len(), 0);
    assert!(matches!(
        authenticate(&mut sessions, &users, Some("tok-exp"), 5000),
        AuthResult::Unauthenticated
    ));
}

#[test]
fn test_authenticate_absent_and_unknown_tokens() {
    // Absent or unknown tokens are Unauthenticated and the store is
    // not mutated.
    let (users, mut sessions) = seeded_stores();
    create_session(&mut sessions, 1, "tok-a", 1000, 3600).unwrap();
    assert!(matches!(
        authenticate(&mut sessions, &users, None, 1000),
        AuthResult::Unauthenticated
    ));
    assert!(matches!(
        authenticate(&mut sessions, &users, Some("no-such"), 1000),
        AuthResult::Unauthenticated
    ));
    assert_eq!(sessions.len(), 1);
}

#[test]
fn test_authenticate_orphaned_session() {
    // A session whose owner no longer exists is Unauthenticated.
    let (users, mut sessions) = seeded_stores();
    create_session(&mut sessions, 99, "tok-orphan", 1000, 3600).unwrap();
    assert!(matches!(
        authenticate(&mut sessions, &users, Some("tok-orphan"), 1000),
        AuthResult::Unauthenticated
    ));
}

#[test]
fn test_create_then_authenticate() {
    // create_session followed immediately by authenticate at the
    // creation time returns the same user.
    let (users, mut sessions) = seeded_stores();
    let token = Session::generate_id();
    assert_eq!(token.chars().count(), 36);
    create_session(&mut sessions, 2, &token, 7777, 24 * 60 * 60).unwrap();
    match authenticate(&mut sessions, &users, Some(&token), 7777) {
        AuthResult::Authenticated(u) => assert_eq!(u.id, 2),
        other => panic!("expected Authenticated, got {:?}", other),
    }
}

#[test]
fn test_session_expiry_after_24_hours() {
    // A session created at T with a 24-hour TTL, queried at
    // T + 24h + 1s, is Expired and removed.
    let (users, mut sessions) = seeded_stores();
    let t: i64 = 1_700_000_000;
    create_session(&mut sessions, 1, "day-token", t, 24 * 60 * 60).unwrap();
    assert!(matches!(
        authenticate(&mut sessions, &users, Some("day-token"), t + 24 * 60 * 60 + 1),
        AuthResult::Expired
    ));
    assert_eq!(sessions.len(), 0);
}

#[test]
fn test_destroy_then_authenticate() {
    // After destroy_session, the token is Unauthenticated whatever
    // the time.
    let (users, mut sessions) = seeded_stores();
    create_session(&mut sessions, 1, "bye", 1000, 3600).unwrap();
    destroy_session(&mut sessions, "bye");
    assert!(matches!(
        authenticate(&mut sessions, &users, Some("bye"), 0),
        AuthResult::Unauthenticated
    ));
    assert!(matches!(
        authenticate(&mut sessions, &users, Some("bye"), i64::MAX),
        AuthResult::Unauthenticated
    ));
}

#[test]
fn test_destroy_session_idempotent() {
    // Destroying twice produces no error on the second call.
    let (_, mut sessions) = seeded_stores();
    create_session(&mut sessions, 1, "twice", 1000, 3600).unwrap();
    destroy_session(&mut sessions, "twice");
    destroy_session(&mut sessions, "twice");
    assert_eq!(sessions.len(), 0);
}

#[test]
fn test_create_session_duplicate_token() {
    let (_, mut sessions) = seeded_stores();
    create_session(&mut sessions, 1, "dup", 1000, 3600).unwrap();
    assert!(matches!(
        create_session(&mut sessions, 2, "dup", 1000, 3600),
        Err(AppError::DuplicateEntry(_))
    ));
    assert_eq!(sessions.len(), 1);
}

#[test]
fn test_login_scenario() {
    // Login with username "admin", password "admin123" against a
    // store seeded with that user's hash succeeds, and a request
    // bearing the issued token authenticates.
    let (users, mut sessions) = seeded_stores();
    let token = Session::generate_id();
    let now: i64 = 1_700_000_000;
    let user = login(&users, &mut sessions, "admin", "admin123", &token, now, 24 * 60 * 60)
        .unwrap();
    assert_eq!(user.username, "admin");
    match authenticate(&mut sessions, &users, Some(&token), now) {
        AuthResult::Authenticated(u) => assert_eq!(u.id, user.id),
        other => panic!("expected Authenticated, got {:?}", other),
    }
}

#[test]
fn test_login_failures() {
    let (users, mut sessions) = seeded_stores();
    assert!(matches!(
        login(&users, &mut sessions, "admin", "wrong", "t1", 0, 3600),
        Err(AppError::Unauthorized)
    ));
    assert!(matches!(
        login(&users, &mut sessions, "nobody", "admin123", "t2", 0, 3600),
        Err(AppError::Unauthorized)
    ));
    assert_eq!(sessions.len(), 0);
}

#[test]
fn test_login_token_collision() {
    let (users, mut sessions) = seeded_stores();
    create_session(&mut sessions, 2, "same-token", 0, 3600).unwrap();
    assert!(matches!(
        login(&users, &mut sessions, "admin", "admin123", "same-token", 0, 3600),
        Err(AppError::Internal(_))
    ));
}

#[test]
fn test_get_current_user() {
    let (users, mut sessions) = seeded_stores();
    create_session(&mut sessions, 2, "cur", 1000, 3600).unwrap();
    let u = get_current_user(&sessions, &users, Some("cur"), 1000).unwrap();
    assert_eq!(u.username, "reza");
    assert!(get_current_user(&sessions, &users, Some("cur"), 10_000).is_none());
    assert!(get_current_user(&sessions, &users, None, 1000).is_none());
    // The read-only lookup does not delete the expired row.
    assert_eq!(sessions.len(), 1);
}

#[test]
fn test_require_role_exact_match() {
    // The role gate is exact: admin is not implicitly a user.
    let admin = make_user(1, "a", "h", "admin");
    let plain = make_user(2, "b", "h", "user");
    assert!(require_role(&admin, UserRole::Admin).is_ok());
    assert!(require_role(&plain, UserRole::User).is_ok());
    assert!(matches!(
        require_role(&admin, UserRole::User),
        Err(AppError::Forbidden)
    ));
    assert!(matches!(
        require_role(&plain, UserRole::Admin),
        Err(AppError::Forbidden)
    ));
    // Exact match means no case folding either: a stored role that is
    // not literally the role's name is refused.
    let shouting = make_user(3, "c", "h", "ADMIN");
    assert!(matches!(
        require_role(&shouting, UserRole::Admin),
        Err(AppError::Forbidden)
    ));
}

#[test]
fn test_require_authenticated_role() {
    let admin = make_user(1, "a", "h", "admin");
    let ok = require_authenticated_role(&AuthResult::Authenticated(admin.clone()), UserRole::Admin)
        .unwrap();
    assert_eq!(ok.id, 1);
    assert!(matches!(
        require_authenticated_role(&AuthResult::Unauthenticated, UserRole::Admin),
        Err(AppError::Unauthorized)
    ));
    assert!(matches!(
        require_authenticated_role(&AuthResult::Expired, UserRole::Admin),
        Err(AppError::SessionExpired)
    ));
    assert!(matches!(
        require_authenticated_role(&AuthResult::Authenticated(admin), UserRole::User),
        Err(AppError::Forbidden)
    ));
}

#[test]
fn test_require_admin() {
    let admin = make_user(1, "a", "h", "admin");
    let plain = make_user(2, "b", "h", "user");
    assert!(require_admin(&AuthResult::Authenticated(admin)).is_ok());
    assert!(matches!(
        require_admin(&AuthResult::Authenticated(plain)),
        Err(AppError::Forbidden)
    ));
    assert!(matches!(
        require_admin(&AuthResult::Expired),
        Err(AppError::Unauthorized)
    ));
}

#[test]
fn test_delete_user_self_guard() {
    // An admin deleting their own account is rejected before any
    // store mutation.
    let (mut users, mut sessions) = seeded_stores();
    create_session(&mut sessions, 1, "s1", 0, 3600).unwrap();
    let admin = get_current_user(&sessions, &users, Some("s1"), 0).unwrap();
    assert!(matches!(
        delete_user(&mut users, &mut sessions, &admin, admin.id),
        Err(AppError::BadRequest(_))
    ));
    assert_eq!(users.count(), 2);
    assert_eq!(sessions.len(), 1);
}

#[test]
fn test_delete_user_cascades_sessions() {
    let (mut users, mut sessions) = seeded_stores();
    let admin = make_user(1, "admin", "h", "admin");
    create_session(&mut sessions, 2, "r1", 0, 3600).unwrap();
    create_session(&mut sessions, 2, "r2", 0, 3600).unwrap();
    create_session(&mut sessions, 1, "a1", 0, 3600).unwrap();
    let name = delete_user(&mut users, &mut sessions, &admin, 2).unwrap();
    assert_eq!(name, "reza full name");
    assert_eq!(users.count(), 1);
    // Only the admin's own session survives.
    assert_eq!(sessions.len(), 1);
    assert!(matches!(
        authenticate(&mut sessions, &users, Some("r1"), 0),
        AuthResult::Unauthenticated
    ));
}

#[test]
fn test_delete_user_requires_admin() {
    let (mut users, mut sessions) = seeded_stores();
    let plain = make_user(2, "reza", "h", "user");
    assert!(matches!(
        delete_user(&mut users, &mut sessions, &plain, 1),
        Err(AppError::Forbidden)
    ));
    assert_eq!(users.count(), 2);
}

#[test]
fn test_default_admin_bootstrap() {
    let users = UserStore::new();
    assert!(needs_default_admin(&users));
    let admin = default_admin(
        hash_password("admin123").unwrap(),
        "2024-01-01 00:00:00".to_string(),
    );
    assert_eq!(admin.username, "admin");
    assert_eq!(admin.role, "admin");
    assert!(admin.is_admin());
    let mut users = users;
    users.insert(admin).unwrap();
    assert!(!needs_default_admin(&users));
}

#[test]
fn test_user_store_duplicate_username() {
    let mut users = UserStore::new();
    users.insert(make_user(1, "sara", "h", "user")).unwrap();
    match users.insert(make_user(2, "sara", "h", "user")) {
        Err(AppError::DuplicateEntry(field)) => assert_eq!(field, "username"),
        other => panic!("expected DuplicateEntry, got {:?}", other),
    }
    assert_eq!(users.count(), 1);
}

#[test]
fn test_validate_user_form() {
    let good = UserForm {
        username: "x".to_string(),
        password: "p".to_string(),
        full_name: "X".to_string(),
        role: "user".to_string(),
    };
    assert!(validate_user_form(&good).is_ok());
    let bad = UserForm {
        username: "x".to_string(),
        password: "p".to_string(),
        full_name: "X".to_string(),
        role: "root".to_string(),
    };
    assert!(matches!(
        validate_user_form(&bad),
        Err(AppError::BadRequest(_))
    ));
}

#[test]
fn test_role_parsing() {
    assert_eq!(UserRole::from_str("admin"), Some(UserRole::Admin));
    assert_eq!(UserRole::from_str("ADMIN"), Some(UserRole::Admin));
    assert_eq!(UserRole::from_str("User"), Some(UserRole::User));
    assert_eq!(UserRole::from_str("guest"), None);
    assert_eq!(UserRole::Admin.as_str(), "admin");
    assert_eq!(UserRole::User.as_str(), "user");
    assert_eq!(UserRole::Admin.display_persian(), "مدیر");
    assert_eq!(UserRole::User.display_persian(), "کاربر");
    let u = make_user(1, "x", "h", "Admin");
    assert_eq!(u.role_enum(), UserRole::Admin);
    assert!(!u.is_admin()); // stored role string is not exactly "admin"
    let v = make_user(2, "y", "h", "whatever");
    assert_eq!(v.role_enum(), UserRole::User);
}

#[test]
fn test_session_expiry_saturates() {
    assert_eq!(Session::generate_expiry(0), 24 * 60 * 60);
    assert_eq!(Session::generate_expiry(i64::MAX - 10), i64::MAX);
    assert_eq!(Session::expiry_after(100, 0), 100);
}

#[test]
fn test_add_user() {
    let (mut users, _) = seeded_stores();
    let form = UserForm {
        username: "sara".to_string(),
        password: "pw".to_string(),
        full_name: "Sara".to_string(),
        role: "user".to_string(),
    };
    let u = add_user(&mut users, &form, 3, "2024-01-01 00:00:00".to_string()).unwrap();
    assert_eq!(u.username, "sara");
    assert!(verify_password("pw", &u.password_hash).unwrap());
    assert_eq!(users.count(), 3);

    // A taken username is a request error, as the boundary words it.
    match add_user(&mut users, &form, 4, "2024-01-01 00:00:00".to_string()) {
        Err(AppError::BadRequest(msg)) => assert_eq!(msg, "Username already exists"),
        other => panic!("expected BadRequest, got {:?}", other),
    }

    // An invalid role is rejected before anything is stored.
    let bad_role = UserForm {
        username: "nima".to_string(),
        password: "pw".to_string(),
        full_name: "Nima".to_string(),
        role: "root".to_string(),
    };
    assert!(matches!(
        add_user(&mut users, &bad_role, 5, String::new()),
        Err(AppError::BadRequest(_))
    ));

    // A taken id is a typed conflict.
    let new_name = UserForm {
        username: "nima".to_string(),
        password: "pw".to_string(),
        full_name: "Nima".to_string(),
        role: "user".to_string(),
    };
    match add_user(&mut users, &new_name, 1, String::new()) {
        Err(AppError::DuplicateEntry(field)) => assert_eq!(field, "id"),
        other => panic!("expected DuplicateEntry, got {:?}", other),
    }
    assert_eq!(users.count(), 3);
}

#[test]
fn test_check_session_lookup() {
    // A storage failure is an internal error, never mistaken for a
    // missing cookie.
    assert!(matches!(
        check_session_lookup(SessionLookup::StoreError("timeout".to_string()), 0),
        Err(AppError::Internal(_))
    ));
    assert!(matches!(
        check_session_lookup(SessionLookup::Missing, 0),
        Err(AppError::Unauthorized)
    ));
    let row = Session {
        id: "tok".to_string(),
        user_id: 1,
        expires_at: 100,
    };
    match check_session_lookup(SessionLookup::Found(row.clone()), 50) {
        Ok(s) => assert_eq!(s.user_id, 1),
        other => panic!("expected Ok, got {:?}", other),
    }
    assert!(matches!(
        check_session_lookup(SessionLookup::Found(row), 100),
        Err(AppError::SessionExpired)
    ));
}

#[test]
fn test_check_user_lookup() {
    // A storage failure during the credential lookup is an internal
    // error, never mistaken for bad credentials.
    assert!(matches!(
        check_user_lookup(UserLookup::StoreError("timeout".to_string())),
        Err(AppError::Internal(_))
    ));
    // A missing username fails exactly as a wrong password does.
    assert!(matches!(
        check_user_lookup(UserLookup::Missing),
        Err(AppError::Unauthorized)
    ));
    let account = make_user(1, "admin", "h", "admin");
    let row = check_user_lookup(UserLookup::Found(account)).unwrap();
    assert_eq!(row.username, "admin");
}
