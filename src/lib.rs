//! Identity and session core of a small authentication service: password
//! hashing and login checks, session-token issuance, and the resolution of a
//! token back to its owning identity under expiry and revocation rules.
//!
//! Storage is not part of this crate. Each operation that talks to the store
//! is split into steps: the caller runs the query and hands its outcome to the
//! step functions here, which decide what happens next.

mod outside;
pub mod session;
pub mod user;
