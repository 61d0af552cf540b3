//! A minimal credential-management library: it registers user accounts
//! against a uniqueness-enforcing store, verifies credentials at login,
//! and issues bearer tokens asserting identity. Password hashing and
//! token signing are done by bcrypt and HS256 JWTs; every decision
//! around those calls is verified.

pub mod auth;
pub mod config;
pub mod errors;
pub mod hashing;
pub mod ids;
pub mod store;
pub mod token;
pub mod user;
