//! Token verification against the key set.
//!
//! A token candidate is verified with RSA/SHA-256 against a key of the
//! process-lifetime key set, its registered claims are validated per the
//! configured policy, and its payload is decoded into [`KeycloakClaims`].
//! The signature check and claim validation are done by the `jsonwebtoken`
//! crate behind the trusted items below; everything around them — key
//! selection, claim extraction, failure mapping — is verified.

use vstd::prelude::*;

use crate::claims::{claims_match, extract_claims, wf_claims_json, KeycloakClaims};
use crate::classify::AuthFailureKind;
use crate::extract::{extract_credential, spec_extract, view_opt, AuthErrors};
use crate::json::{json_of, JsonModel};

verus! {

/// The user who did the request.
#[derive(Debug, Clone, Copy, PartialEq, Eq, Structural)]
pub struct User {}

/// One public-key record of the key set: key identifier, algorithm, and
/// RSA modulus/exponent material (base64url-encoded).
#[derive(Clone, Debug)]
pub struct JWK {
    /// Key identifier.
    pub kid: String,
    /// Key type (`RSA`).
    pub kty: String,
    /// Algorithm (`RS256`).
    pub alg: String,
    /// Intended use of the key (`sig`).
    pub _use: String,
    /// RSA modulus, base64url-encoded.
    pub n: String,
    /// RSA public exponent, base64url-encoded.
    pub e: String,
    /// X.509 certificate chain.
    pub x5c: Vec<String>,
    /// X.509 certificate thumbprint.
    pub x5t: String,
}

/// The key set: an immutable, process-lifetime collection of public keys,
/// loaded once at startup and shared read-only across all requests.
#[derive(Clone, Debug)]
pub struct JWKS {
    /// The public keys, in the order the identity provider published them.
    pub keys: Vec<JWK>,
}

impl JWKS {
    /// The startup invariant: the key set is non-empty.
    pub open spec fn wf(&self) -> bool {
        self.keys@.len() > 0
    }

    /// Identifier-keyed lookup: the first key whose identifier equals
    /// `kid`, or `None` when no key matches.  Key rotation needs this in
    /// place of the first-entry selection the service has always used.
    pub fn key_for(&self, kid: &str) -> (r: Option<&JWK>)
        ensures
            (r is Some) == (exists|i: int|
                0 <= i < self.keys@.len() && (#[trigger] self.keys@[i].kid@) == kid@),
            r matches Some(k) ==> exists|i: int|
                0 <= i < self.keys@.len() && (#[trigger] self.keys@[i]) == *k && self.keys@[i].kid@
                    == kid@ && (forall|j: int| 0 <= j < i ==> self.keys@[j].kid@ != kid@),
    {
        let n = self.keys.len();
        let mut i: usize = 0;
        while i < n
            invariant
                n == self.keys@.len(),
                0 <= i <= n,
                forall|j: int| 0 <= j < i ==> (#[trigger] self.keys@[j].kid@) != kid@,
            decreases n - i,
        {
            if str_eq(self.keys[i].kid.as_str(), kid) {
                return Some(&self.keys[i]);
            }
            i = i + 1;
        }
        None
    }
}

/// Whether two strings hold the same characters.
fn str_eq(a: &str, b: &str) -> (r: bool)
    ensures
        r == (a@ == b@),
{
    let an = a.unicode_len();
    let bn = b.unicode_len();
    if an != bn {
        return false;
    }
    let mut i: usize = 0;
    while i < an
        invariant
            an == a@.len(),
            bn == b@.len(),
            an == bn,
            0 <= i <= an,
            forall|j: int| 0 <= j < i ==> a@[j] == b@[j],
        decreases an - i,
    {
        if a.get_char(i) != b.get_char(i) {
            return false;
        }
        i = i + 1;
    }
    proof {
        assert(a@ =~= b@);
    }
    true
}

/// The registered-claim validation policy: which issuer and audience, if
/// any, a token must name.  Expiry is always validated.
pub struct ValidationPolicy {
    /// The expected issuer, if issuer validation is wanted.
    pub issuer: Option<String>,
    /// The expected audience, if audience validation is wanted.
    pub audience: Option<String>,
}

/// Declares `jsonwebtoken::errors::Error`, the decoder's error type, so
/// that the decoding wrapper can return it; it stays opaque and is only
/// ever handed to `failure_kind_of`.
#[verifier::external_type_specification]
#[verifier::external_body]
pub struct ExJwtError(jsonwebtoken::errors::Error);

/// The JSON document in a token's payload segment: what
/// `jsonwebtoken::decode` deserializes and hands back on success.  Whether
/// decoding succeeds depends on the key, the policy and the clock, but the
/// value on success is a function of the token text alone.
pub uninterp spec fn payload_json_of(token: Seq<char>) -> JsonModel;

/// Relies on `jsonwebtoken::decode` with `Algorithm::RS256`: it verifies
/// the token's signature against the RSA public key given by the modulus
/// and exponent (via `DecodingKey::from_rsa_components`), validates the
/// registered claims — expiry always, issuer and audience when the policy
/// names them, and audience not at all when it does not (via
/// `Validation`) — and deserializes the payload.  Success also depends on
/// the clock, so success is not promised; but the value returned on
/// success is the token's own payload, named by `payload_json_of`.
#[verifier::external_body]
fn jwt_decode_rs256(token: &str, n: &str, e: &str, iss: Option<&str>, aud: Option<&str>) -> (r:
    Result<serde_json::Value, jsonwebtoken::errors::Error>)
    ensures
        r matches Ok(v) ==> json_of(v) == payload_json_of(token@),
{
    let key = match jsonwebtoken::DecodingKey::from_rsa_components(n, e) {
        Ok(k) => k,
        Err(err) => return Err(err),
    };
    let mut validation = jsonwebtoken::Validation::new(jsonwebtoken::Algorithm::RS256);
    if let Some(iss) = iss {
        validation.set_issuer(&[iss]);
    }
    validation.validate_aud = aud.is_some();
    if let Some(aud) = aud {
        validation.set_audience(&[aud]);
    }
    jsonwebtoken::decode::<serde_json::Value>(token, &key, &validation).map(|d| d.claims)
}

/// Relies on `jsonwebtoken::errors::Error::kind` to tell the failure
/// classes apart; each named class maps to its own kind, every other class
/// to `Other`.  No arm yields `InvalidHeader`, which belongs to extraction.
#[verifier::external_body]
fn failure_kind_of(err: &jsonwebtoken::errors::Error) -> (k: AuthFailureKind)
    ensures
        !(k is InvalidHeader),
{
    match err.kind() {
        jsonwebtoken::errors::ErrorKind::InvalidToken => AuthFailureKind::InvalidToken,
        jsonwebtoken::errors::ErrorKind::ExpiredSignature => AuthFailureKind::ExpiredSignature,
        jsonwebtoken::errors::ErrorKind::InvalidAudience => AuthFailureKind::InvalidAudience,
        jsonwebtoken::errors::ErrorKind::InvalidIssuer => AuthFailureKind::InvalidIssuer,
        jsonwebtoken::errors::ErrorKind::InvalidSignature => AuthFailureKind::InvalidSignature,
        jsonwebtoken::errors::ErrorKind::ImmatureSignature => AuthFailureKind::ImmatureSignature,
        jsonwebtoken::errors::ErrorKind::Base64(_) => AuthFailureKind::MalformedBase64,
        _ => AuthFailureKind::Other,
    }
}

/// Verify one token candidate against one key of the key set.
///
/// On success the token's own payload is a well-formed claims document and
/// every field of the returned record equals the corresponding payload
/// member — nothing invented, nothing dropped; on failure the kind
/// classifies what went wrong and is never `InvalidHeader`.
pub fn verify_token(token: &str, key: &JWK, policy: &ValidationPolicy) -> (r: Result<
    KeycloakClaims,
    AuthFailureKind,
>)
    ensures
        r matches Ok(c) ==> wf_claims_json(payload_json_of(token@)) && claims_match(
            payload_json_of(token@)->Obj_0,
            c,
        ),
        r matches Err(k) ==> !(k is InvalidHeader),
{
    let iss = match &policy.issuer {
        Some(s) => Some(s.as_str()),
        None => None,
    };
    let aud = match &policy.audience {
        Some(s) => Some(s.as_str()),
        None => None,
    };
    match jwt_decode_rs256(token, key.n.as_str(), key.e.as_str(), iss, aud) {
        Ok(v) => match extract_claims(&v) {
            Some(c) => {
                proof {
                    assert(wf_claims_json(json_of(v)) && claims_match(json_of(v)->Obj_0, c));
                }
                Ok(c)
            },
            // The payload does not deserialize into the claims record: a
            // defect-class failure, as a deserialization error would be.
            None => Err(AuthFailureKind::Other),
        },
        Err(err) => Err(failure_kind_of(&err)),
    }
}

/// Extract a credential from a request's `Authorization` header value and
/// `access_token` query parameter, and verify it against the first key of
/// the key set — the service's historical selection rule; rotation-aware
/// callers can pick the key with [`JWKS::key_for`] and call
/// [`verify_token`] themselves.
///
/// Extraction failures come back as they are: `EmptyHeader` when neither
/// header nor query carries a credential (anonymous, not an error), and
/// `InvalidHeader` for a malformed header.  Every verification failure
/// comes back as `InvalidToken`.  On success the returned claims are
/// exactly the payload of the extracted candidate token.
pub fn from_request(
    header: Option<&str>,
    query: Option<&str>,
    keys: &JWKS,
    policy: &ValidationPolicy,
) -> (r: Result<KeycloakClaims, AuthErrors>)
    requires
        keys.wf(),
    ensures
        spec_extract(view_opt(header), view_opt(query)) matches Err(e) ==> r == Err::<
            KeycloakClaims,
            AuthErrors,
        >(e),
        r matches Err(e) ==> (if e is InvalidToken {
            spec_extract(view_opt(header), view_opt(query)) is Ok
        } else {
            spec_extract(view_opt(header), view_opt(query)) == Err::<
                (Seq<char>, crate::extract::CredentialSource),
                AuthErrors,
            >(e)
        }),
        r matches Ok(c) ==> ({
            let ex = spec_extract(view_opt(header), view_opt(query));
            &&& ex is Ok
            &&& wf_claims_json(payload_json_of(ex->Ok_0.0))
            &&& claims_match(payload_json_of(ex->Ok_0.0)->Obj_0, c)
        }),
{
    match extract_credential(header, query) {
        Ok(cred) => {
            let key = &keys.keys[0];
            match verify_token(cred.token.as_str(), key, policy) {
                Ok(claims) => Ok(claims),
                Err(_) => Err(AuthErrors::InvalidToken),
            }
        },
        Err(e) => Err(e),
    }
}

} // verus!
