//! Service-boundary authentication: bearer-credential extraction, token
//! verification against a rotating public-key set, failure classification,
//! and a standardized success/error response envelope.
//!
//! - [`extract`] pulls a bearer-token candidate out of a request, with the
//!   header-over-query precedence rule.
//! - [`keycloak`] verifies a candidate against the key set and decodes its
//!   payload; [`json`] models the decoded JSON document and [`claims`]
//!   extracts the typed claims record from it.
//! - [`classify`] maps failures to observability severities and to the one
//!   uniform caller-visible result, 401.
//! - [`middleware`] orchestrates the per-request pipeline and
//!   short-circuits rejections.
//! - [`jsonrpc`] builds the success/error envelopes and [`wire`] renders
//!   them to bytes, with a proved round trip for the success frame.
//! - [`client`] is a verified model of the browser-side adapter state.

pub mod claims;
pub mod classify;
pub mod client;
pub mod extract;
pub mod json;
pub mod jsonrpc;
pub mod keycloak;
pub mod middleware;
pub mod wire;
