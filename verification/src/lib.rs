//! Authentication and registration core of a tournament-registration server.
//!
//! Visitors authenticate against an OAuth identity provider (with CSRF and
//! PKCE protection), obtain a tamper-evident session credential, and register
//! for the event while the configured time window is open; a single configured
//! administrator reviews the entries.  Everything here is the decision core:
//! page rendering, HTTP routing and durable storage live outside and consume
//! the values this crate produces.

pub mod config;
pub mod handlers;
pub mod oauth;
pub mod phase;
pub mod random;
pub mod registry;
pub mod session;
pub mod token;
