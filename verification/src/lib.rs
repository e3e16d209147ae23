//! A password-manager server core built around an augmented PAKE.
//!
//! The server never observes a user's password: registration stores an
//! oblivious password file, login derives a shared session key, and every
//! authenticated request is bound to its session by an HMAC signature over
//! `verb|uri|timestamp` together with a freshness window.

pub mod authentication;
pub mod config;
pub mod crypto;
pub mod domain;
pub mod errors;
pub mod ports;
pub mod requests;
pub mod session;
pub mod str_map;
pub mod timestamp;
pub mod vault_store;
