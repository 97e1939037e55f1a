//! Origin authorization for a small JSON API.
//!
//! The heart of the crate is the pattern compiler and origin matcher in
//! [`cors`]: configuration strings such as `https://example.com`,
//! `https://localhost` or `https://*.example.com` are compiled into
//! canonical [`cors::AllowedOrigin`] patterns, and each incoming `Origin`
//! header is checked against the compiled set.

pub mod api;
pub mod configs;
pub mod cors;
pub mod errors;
pub mod laws;
pub mod letter;
pub mod models;
pub mod requests;
pub mod responses;
pub mod text;
pub mod validation;
pub mod weburl;
