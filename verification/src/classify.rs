//! Failure classification.
//!
//! Every rejection maps to an observability severity, used only for logs
//! and metrics, and to one uniform caller-visible result: 401 Unauthorized.
//! The caller never learns why verification failed, so the verifier cannot
//! be probed as an oracle.

use vstd::prelude::*;

use crate::jsonrpc::{fresh_error, JSONRPCError};

verus! {

/// How a credential was rejected.
#[derive(Debug, Clone, Copy, PartialEq, Eq, Structural)]
pub enum AuthFailureKind {
    /// The `Authorization` header had an unrecognized scheme or no value.
    InvalidHeader,
    /// The token does not have a valid shape.
    InvalidToken,
    /// The token's signature is valid but the token has expired.
    ExpiredSignature,
    /// The token's audience does not match the expected audience.
    InvalidAudience,
    /// The token's issuer does not match the expected issuer.
    InvalidIssuer,
    /// The token's signature does not match.
    InvalidSignature,
    /// The token is not yet valid.
    ImmatureSignature,
    /// A segment of the token is not valid base64.
    MalformedBase64,
    /// Any other decoding failure: these indicate a configuration or
    /// implementation defect rather than a hostile or confused caller.
    Other,
}

/// Observability severity of a rejection; never visible to the caller.
#[derive(Debug, Clone, Copy, PartialEq, Eq, Structural)]
pub enum Severity {
    /// User-scale, expected failures.
    Low,
    /// Potential tampering or integrity concerns.
    Elevated,
    /// Configuration or implementation defects.
    High,
}

/// The severity bucket of each failure kind.  Malformed requests and
/// syntactically invalid or expired tokens are user-scale; signature,
/// audience, issuer, maturity and encoding failures hint at tampering;
/// everything else is a defect on our side.
pub open spec fn spec_severity(k: AuthFailureKind) -> Severity {
    match k {
        AuthFailureKind::InvalidHeader => Severity::Low,
        AuthFailureKind::InvalidToken => Severity::Low,
        AuthFailureKind::ExpiredSignature => Severity::Low,
        AuthFailureKind::InvalidAudience => Severity::Elevated,
        AuthFailureKind::InvalidIssuer => Severity::Elevated,
        AuthFailureKind::InvalidSignature => Severity::Elevated,
        AuthFailureKind::ImmatureSignature => Severity::Elevated,
        AuthFailureKind::MalformedBase64 => Severity::Elevated,
        AuthFailureKind::Other => Severity::High,
    }
}

/// Map a failure kind to its observability severity.
pub fn severity_of(k: AuthFailureKind) -> (r: Severity)
    ensures
        r == spec_severity(k),
{
    match k {
        AuthFailureKind::InvalidHeader => Severity::Low,
        AuthFailureKind::InvalidToken => Severity::Low,
        AuthFailureKind::ExpiredSignature => Severity::Low,
        AuthFailureKind::InvalidAudience => Severity::Elevated,
        AuthFailureKind::InvalidIssuer => Severity::Elevated,
        AuthFailureKind::InvalidSignature => Severity::Elevated,
        AuthFailureKind::ImmatureSignature => Severity::Elevated,
        AuthFailureKind::MalformedBase64 => Severity::Elevated,
        AuthFailureKind::Other => Severity::High,
    }
}

/// The uniform caller-visible result of any rejection: a fresh 401
/// Unauthorized envelope.  The contract does not depend on the failure
/// kind, so the response can carry no signal about why verification failed.
pub fn rejection_error(_kind: AuthFailureKind) -> (r: JSONRPCError<()>)
    ensures
        fresh_error(r, 401, ()),
{
    JSONRPCError::unauthorized(())
}

/// Severity is purely for operators: any two rejections, whatever their
/// kinds and severities, produce the same caller-visible envelope.
pub proof fn lemma_rejection_uniform(r1: JSONRPCError<()>, r2: JSONRPCError<()>)
    requires
        fresh_error(r1, 401, ()),
        fresh_error(r2, 401, ()),
    ensures
        r1.http_code == r2.http_code,
        r1.error.code == r2.error.code,
        r1.error.message@ == r2.error.message@,
        r1.id == r2.id,
{
}

} // verus!
