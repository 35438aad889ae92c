//! Core logic of a small server-rendered CRM: session-cookie
//! authentication with absolute expiry and lazy cleanup, role-based
//! authorization, credential and session stores, and the pure
//! validation and localization helpers (Iranian phone numbers, email
//! addresses, Persian digits, Jalali dates) that the request handlers
//! rely on.

use vstd::prelude::*;

pub mod auth;
pub mod city;
pub mod config;
pub mod customer;
pub mod dates;
pub mod email;
pub mod error;
pub mod flash;
pub mod laws;
pub mod localization;
pub mod password;
pub mod phone;
pub mod product;
pub mod session;
pub mod store;
pub mod strutil;
pub mod templates;
pub mod transactions;
pub mod user;

pub use config::Config;
pub use customer::{Customer, CustomerForm};
pub use error::{AppError, AppResult};
pub use user::{LoginForm, User, UserForm, UserRole};

verus! {

} // verus!
