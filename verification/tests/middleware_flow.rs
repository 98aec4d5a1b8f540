use authgate::classify::AuthFailureKind;
use authgate::keycloak::{ValidationPolicy, JWK, JWKS};
use authgate::middleware::{
    auth_middleware, evaluate_request, handler, inner_auth_middleware, MiddlewareDecision,
    RequestActor, VerificationOutcome,
};

fn dummy_jwks() -> JWKS {
    JWKS {
        keys: vec![JWK {
            kid: String::from("k"),
            kty: String::from("RSA"),
            alg: String::from("RS256"),
            _use: String::from("sig"),
            // Any well-formed base64url material will do: these tests never
            // reach signature verification with a correct signature.
            n: String::from("AQAB"),
            e: String::from("AQAB"),
            x5c: vec![],
            x5t: String::from(""),
        }],
    }
}

fn open_policy() -> ValidationPolicy {
    ValidationPolicy { issuer: None, audience: None }
}

#[test]
fn anonymous_request_is_forwarded_without_identity() {
    let d = auth_middleware(None, None, &dummy_jwks(), &open_policy());
    match d {
        MiddlewareDecision::Forward(actor) => assert!(actor.0.is_none()),
        MiddlewareDecision::Respond(_, _) => panic!("anonymous requests are not errors"),
    }
}

#[test]
fn handler_requires_identity_with_403() {
    let err = handler(RequestActor(None)).unwrap_err();
    assert_eq!(err.http_code, 403);
    assert_eq!(err.error.code, 403);
    assert_eq!(err.error.message, "Forbidden");
}

#[test]
fn non_bearer_scheme_is_rejected_with_401() {
    // The query carries a credential, but once a header is present it is
    // never consulted.
    let d = auth_middleware(
        Some("Basic dXNlcjpwdw=="),
        Some("would-be-token"),
        &dummy_jwks(),
        &open_policy(),
    );
    match d {
        MiddlewareDecision::Respond(envelope, kind) => {
            assert_eq!(envelope.http_code, 401);
            assert_eq!(envelope.error.code, 401);
            assert_eq!(envelope.error.message, "Unauthorized");
            assert_eq!(kind, AuthFailureKind::InvalidHeader);
        },
        MiddlewareDecision::Forward(_) => panic!("a malformed header must short-circuit"),
    }
}

#[test]
fn blank_header_is_rejected_with_401() {
    // A present-but-empty header is malformed, not anonymous, and the
    // query parameter stays out of play.
    let d = auth_middleware(Some(""), Some("would-be-token"), &dummy_jwks(), &open_policy());
    match d {
        MiddlewareDecision::Respond(envelope, kind) => {
            assert_eq!(envelope.http_code, 401);
            assert_eq!(kind, AuthFailureKind::InvalidHeader);
        },
        MiddlewareDecision::Forward(_) => panic!("a blank header must short-circuit"),
    }
}

#[test]
fn bearer_garbage_token_is_rejected_with_401() {
    let d = auth_middleware(Some("Bearer not-a-jwt"), None, &dummy_jwks(), &open_policy());
    match d {
        MiddlewareDecision::Respond(envelope, kind) => {
            assert_eq!(envelope.http_code, 401);
            assert!(kind != AuthFailureKind::InvalidHeader);
        },
        MiddlewareDecision::Forward(_) => panic!("a bad token must short-circuit"),
    }
}

#[test]
fn evaluate_request_outcomes() {
    let r = evaluate_request(None, None, &dummy_jwks(), &open_policy());
    assert!(matches!(r, VerificationOutcome::Anonymous));
    let r = evaluate_request(Some("Token abc"), None, &dummy_jwks(), &open_policy());
    assert!(matches!(r, VerificationOutcome::Rejected(AuthFailureKind::InvalidHeader)));
    let r = evaluate_request(None, Some("junk"), &dummy_jwks(), &open_policy());
    assert!(matches!(r, VerificationOutcome::Rejected(_)));
}

#[test]
fn inner_middleware_shapes() {
    let r = inner_auth_middleware(None, None, &dummy_jwks(), &open_policy());
    assert!(matches!(r, Ok(None)));
    let err = inner_auth_middleware(Some("Digest abc"), None, &dummy_jwks(), &open_policy())
        .unwrap_err();
    assert_eq!(err.http_code, 401);
    assert_eq!(err.error.message, "Unauthorized");
    let err = inner_auth_middleware(None, Some("junk"), &dummy_jwks(), &open_policy())
        .unwrap_err();
    assert_eq!(err.http_code, 401);
}
