//! Client-side logic for an OAuth-style (PKCE) authorization flow against a
//! fixed token service: authorization-URL construction, JSON request-body
//! framing, and the bounded retry policy with its error classification.
//!
//! The crate holds no transport of its own.  A caller performs the HTTP
//! round-trips and browser launches, feeds each outcome to the retry state
//! machine as an [`retry::Event`], and carries out the [`retry::Action`] the
//! machine returns.

pub mod client;
pub mod json;
pub mod percent;
pub mod retry;
pub mod text;
