//! The identity middleware: extract, verify, classify, then attach an
//! identity context and forward — or short-circuit with a 401 envelope.
//!
//! The short-circuit is the key failure-handling contract: a rejected
//! credential never yields a `Forward` decision, so no downstream handler
//! ever observes such a request.

use vstd::prelude::*;

use crate::claims::{claims_match, wf_claims_json, KeycloakClaims};
use crate::classify::{rejection_error, AuthFailureKind};
use crate::extract::{extract_credential, spec_extract, view_opt, AuthErrors};
use crate::jsonrpc::{fresh_error, JSONRPCError, JSONRPCSuccess};
use crate::keycloak::{from_request, payload_json_of, verify_token, ValidationPolicy, JWKS};

verus! {

/// The claims record is exactly the payload of the candidate that
/// extraction yields for this header and query: the extracted token's
/// payload is well-formed and every field of the record equals the
/// corresponding member.
pub open spec fn claims_are_extracted_payload(
    header: Option<Seq<char>>,
    query: Option<Seq<char>>,
    c: KeycloakClaims,
) -> bool {
    let ex = spec_extract(header, query);
    &&& ex is Ok
    &&& wf_claims_json(payload_json_of(ex->Ok_0.0))
    &&& claims_match(payload_json_of(ex->Ok_0.0)->Obj_0, c)
}

/// The result of evaluating a request's credential: exactly one of these
/// is produced per request.
pub enum VerificationOutcome {
    /// The request carried no credential at all; not an error.
    Anonymous,
    /// A credential was present and verified.
    Authenticated(KeycloakClaims),
    /// A credential was present and rejected.
    Rejected(AuthFailureKind),
}

/// The user who did the request: the identity context attached to every
/// forwarded request.  `None` means the request was anonymous.
pub struct RequestActor(pub Option<KeycloakClaims>);

/// What the middleware decides to do with a request.
pub enum MiddlewareDecision {
    /// Attach this identity context and invoke the next stage in the chain.
    Forward(RequestActor),
    /// Do not invoke the next stage; render this envelope immediately.
    /// The failure kind is carried only for the operator's logs.
    Respond(JSONRPCError<()>, AuthFailureKind),
}

/// Evaluate a request's credential: extract it, then verify it against the
/// first key of the key set.
///
/// The outcome is `Anonymous` exactly when neither header nor query
/// carries a credential, `Rejected(InvalidHeader)` exactly on a malformed
/// header, and otherwise reflects verification of the extracted candidate.
pub fn evaluate_request(
    header: Option<&str>,
    query: Option<&str>,
    keys: &JWKS,
    policy: &ValidationPolicy,
) -> (r: VerificationOutcome)
    requires
        keys.wf(),
    ensures
        (r is Anonymous) == (spec_extract(view_opt(header), view_opt(query)) matches Err(e)
            && e is EmptyHeader),
        (r matches VerificationOutcome::Rejected(k) && k is InvalidHeader) == (spec_extract(
            view_opt(header),
            view_opt(query),
        ) matches Err(e) && e is InvalidHeader),
        r matches VerificationOutcome::Authenticated(c) ==> claims_are_extracted_payload(
            view_opt(header),
            view_opt(query),
            c,
        ),
{
    match extract_credential(header, query) {
        Ok(cred) => {
            let key = &keys.keys[0];
            match verify_token(cred.token.as_str(), key, policy) {
                Ok(claims) => VerificationOutcome::Authenticated(claims),
                Err(kind) => VerificationOutcome::Rejected(kind),
            }
        },
        Err(e) => match e {
            AuthErrors::EmptyHeader => VerificationOutcome::Anonymous,
            _ => VerificationOutcome::Rejected(AuthFailureKind::InvalidHeader),
        },
    }
}

/// The `Result`-shaped middleware core, as handlers see it: `Ok(None)` for
/// an anonymous request, `Ok(Some(claims))` for a verified one, and a
/// fresh 401 envelope for every rejection.
pub fn inner_auth_middleware(
    header: Option<&str>,
    query: Option<&str>,
    keys: &JWKS,
    policy: &ValidationPolicy,
) -> (r: Result<Option<KeycloakClaims>, JSONRPCError<()>>)
    requires
        keys.wf(),
    ensures
        r matches Err(e) ==> fresh_error(e, 401, ()),
        (r matches Ok(o) && o is None) == (spec_extract(view_opt(header), view_opt(query))
            matches Err(e) && e is EmptyHeader),
        (spec_extract(view_opt(header), view_opt(query)) matches Err(e) && e is InvalidHeader)
            ==> r is Err,
        r matches Ok(o) ==> (o matches Some(c) ==> claims_are_extracted_payload(
            view_opt(header),
            view_opt(query),
            c,
        )),
{
    match from_request(header, query, keys, policy) {
        Ok(claims) => Ok(Some(claims)),
        Err(AuthErrors::EmptyHeader) => Ok(None),
        Err(_) => Err(JSONRPCError::unauthorized(())),
    }
}

/// Run the middleware and decide the request's fate.
///
/// On `Anonymous` or `Authenticated` the request is forwarded with its
/// identity context attached; on `Rejected` the chain is short-circuited
/// with a fresh 401 envelope, and never forwarded.
pub fn auth_middleware(
    header: Option<&str>,
    query: Option<&str>,
    keys: &JWKS,
    policy: &ValidationPolicy,
) -> (d: MiddlewareDecision)
    requires
        keys.wf(),
    ensures
        d matches MiddlewareDecision::Respond(envelope, kind) ==> fresh_error(envelope, 401, ())
            && !(spec_extract(view_opt(header), view_opt(query)) matches Err(e)
            && e is EmptyHeader),
        (d matches MiddlewareDecision::Forward(actor) && actor.0 is None) == (spec_extract(
            view_opt(header),
            view_opt(query),
        ) matches Err(e) && e is EmptyHeader),
        (spec_extract(view_opt(header), view_opt(query)) matches Err(e) && e is InvalidHeader)
            ==> d is Respond,
        d matches MiddlewareDecision::Forward(actor) ==> (actor.0 matches Some(c)
            ==> claims_are_extracted_payload(view_opt(header), view_opt(query), c)),
{
    match evaluate_request(header, query, keys, policy) {
        VerificationOutcome::Anonymous => MiddlewareDecision::Forward(RequestActor(None)),
        VerificationOutcome::Authenticated(claims) => MiddlewareDecision::Forward(
            RequestActor(Some(claims)),
        ),
        VerificationOutcome::Rejected(kind) => MiddlewareDecision::Respond(
            rejection_error(kind),
            kind,
        ),
    }
}

/// The demonstration handler: it requires an identity.
///
/// An anonymous request gets a fresh 403 Forbidden envelope — deciding
/// that identity is required is the handler's job, not the middleware's —
/// and an authenticated one gets a 200 success envelope carrying its own
/// claims back.
pub fn handler(actor: RequestActor) -> (r: Result<
    JSONRPCSuccess<KeycloakClaims>,
    JSONRPCError<()>,
>)
    ensures
        (r is Err) == (actor.0 is None),
        r matches Err(e) ==> fresh_error(e, 403, ()),
        r matches Ok(s) ==> (actor.0 matches Some(c) && s.result == c && s.http_code == 200
            && s.id is None),
{
    match actor.0 {
        Some(claims) => Ok(JSONRPCSuccess::ok(claims)),
        None => Err(JSONRPCError::forbidden(())),
    }
}

} // verus!
