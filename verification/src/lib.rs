//! Server-side core of an OAuth2 authorization-code login with PKCE.
//!
//! The crate keeps, per session, the material of an in-flight login attempt
//! (anti-forgery state token and PKCE verifier), builds the redirect to the
//! authorization endpoint, validates the callback against the stored state,
//! and promotes the session to authenticated once the code has been exchanged
//! for tokens.  The network calls themselves (token exchange, revocation) are
//! the caller's: the library decides what to send and what each reply means.

pub mod b64;
pub mod config;
pub mod errors;
pub mod flow;
pub mod pkce;
pub mod session;
pub mod strutil;
pub mod urlenc;
