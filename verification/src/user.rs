//! User accounts and their roles.
//!
//! A role is a coarse permission tag, `admin` or `user`, stored as a
//! string on the account row and checked by exact match.

use vstd::prelude::*;

use crate::strutil::lower_of;
use crate::strutil::str_eq;
use crate::strutil::to_lowercase_str;

verus! {

/// A persisted user account.
#[derive(Debug, Clone)]
pub struct User {
    pub id: i64,
    pub username: String,
    pub password_hash: String,
    pub full_name: String,
    pub role: String,
    pub created_at: String,
}

/// The two roles of the system.
#[derive(Debug, Clone, Copy, PartialEq, Eq, Structural)]
pub enum UserRole {
    Admin,
    User,
}

impl UserRole {
    /// The role that `s` names, compared case-insensitively.
    pub open spec fn spec_from_str(s: Seq<char>) -> Option<UserRole> {
        if lower_of(s) == "admin"@ {
            Some(UserRole::Admin)
        } else if lower_of(s) == "user"@ {
            Some(UserRole::User)
        } else {
            None
        }
    }

    /// Parses a role name, case-insensitively.
    pub fn from_str(s: &str) -> (r: Option<UserRole>)
        ensures
            r == UserRole::spec_from_str(s@),
    {
        let low = to_lowercase_str(s);
        if str_eq(low.as_str(), "admin") {
            Some(UserRole::Admin)
        } else if str_eq(low.as_str(), "user") {
            Some(UserRole::User)
        } else {
            None
        }
    }

    /// The storage name of the role.
    pub open spec fn spec_as_str(self) -> Seq<char> {
        match self {
            UserRole::Admin => "admin"@,
            UserRole::User => "user"@,
        }
    }

    /// The name under which the role is stored.
    pub fn as_str(&self) -> (r: &'static str)
        ensures
            r@ == self.spec_as_str(),
    {
        match self {
            UserRole::Admin => "admin",
            UserRole::User => "user",
        }
    }

    /// The Persian display name of the role.
    pub open spec fn spec_display_persian(self) -> Seq<char> {
        match self {
            UserRole::Admin => "مدیر"@,
            UserRole::User => "کاربر"@,
        }
    }

    /// The Persian display name of the role.
    pub fn display_persian(&self) -> (r: &'static str)
        ensures
            r@ == self.spec_display_persian(),
    {
        match self {
            UserRole::Admin => "مدیر",
            UserRole::User => "کاربر",
        }
    }
}

impl User {
    /// Whether the stored role string is exactly `admin`.
    pub open spec fn spec_is_admin(self) -> bool {
        self.role@ == "admin"@
    }

    /// Whether this account has the admin role.
    pub fn is_admin(&self) -> (r: bool)
        ensures
            r == self.spec_is_admin(),
    {
        str_eq(self.role.as_str(), "admin")
    }

    /// The role of this account; an unrecognized role string counts as
    /// the plain user role.
    pub open spec fn spec_role_enum(self) -> UserRole {
        if lower_of(self.role@) == "admin"@ {
            UserRole::Admin
        } else {
            UserRole::User
        }
    }

    /// The role of this account, defaulting to the plain user role.
    pub fn role_enum(&self) -> (r: UserRole)
        ensures
            r == self.spec_role_enum(),
    {
        match UserRole::from_str(self.role.as_str()) {
            Some(role) => role,
            None => UserRole::User,
        }
    }

    /// An equal copy of this account record.
    pub fn duplicate(&self) -> (r: User)
        ensures
            r == *self,
    {
        let r = User {
            id: self.id,
            username: self.username.clone(),
            password_hash: self.password_hash.clone(),
            full_name: self.full_name.clone(),
            role: self.role.clone(),
            created_at: self.created_at.clone(),
        };
        r
    }
}

/// Credentials presented at the login boundary.
#[derive(Debug)]
pub struct LoginForm {
    pub username: String,
    pub password: String,
}

/// Form data for creating a user account.
#[derive(Debug)]
pub struct UserForm {
    pub username: String,
    pub password: String,
    pub full_name: String,
    pub role: String,
}

} // verus!
