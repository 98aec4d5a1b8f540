//! The strongly-typed claims record decoded from a verified token payload,
//! and its verified extraction from the abstract JSON document.
//!
//! Identifier claims that are UUIDs on the wire (`jti`, `nonce`,
//! `session_state`, `sub`) are held in their canonical text form.

use vstd::prelude::*;

use crate::json::{
    json_of, value_as_array, value_as_bool, value_as_str, value_as_u64, value_get, value_is_null,
    JsonModel,
};

verus! {

/// The realm-level role names of a token.
#[derive(Clone, Debug)]
pub struct KeycloakRealmAccess {
    /// The role names.
    pub roles: Vec<String>,
}

/// The payload of a verified token, as a structured record.
#[derive(Clone, Debug)]
pub struct KeycloakClaims {
    /// Authentication context class reference.
    pub acr: String,
    /// The origins the token may be used from (the `allowed-origins` member).
    pub allowed_origins: Vec<String>,
    /// Audience.
    pub aud: String,
    /// When the authentication happened, as seconds since the epoch.
    pub auth_time: u32,
    /// Authorized party.
    pub azp: String,
    /// E-mail address, if the profile carries one.
    pub email: Option<String>,
    /// Whether the e-mail address was verified.
    pub email_verified: bool,
    /// Expiry, as seconds since the epoch.
    pub exp: u32,
    /// Family name, if the profile carries one.
    pub family_name: Option<String>,
    /// Given name, if the profile carries one.
    pub given_name: Option<String>,
    /// When the token was issued, as seconds since the epoch.
    pub iat: u32,
    /// Issuer.
    pub iss: String,
    /// Token identifier (a UUID in text form).
    pub jti: String,
    /// Display name, if the profile carries one.
    pub name: Option<String>,
    /// Nonce (a UUID in text form).
    pub nonce: String,
    /// Preferred username.
    pub preferred_username: String,
    /// Realm-level roles.
    pub realm_access: KeycloakRealmAccess,
    /// Session identifier (a UUID in text form).
    pub session_state: String,
    /// Subject identifier (a UUID in text form).
    pub sub: String,
    /// Token type.
    pub typ: String,
}

/// The object has a string member under this name.
pub open spec fn has_str(m: Map<Seq<char>, JsonModel>, k: Seq<char>) -> bool {
    m.contains_key(k) && m[k] is Str
}

/// The object has a number member under this name that fits in a `u32`.
pub open spec fn has_u32(m: Map<Seq<char>, JsonModel>, k: Seq<char>) -> bool {
    m.contains_key(k) && m[k] is UInt && m[k]->UInt_0 <= 0xffff_ffffu64
}

/// The object has a boolean member under this name.
pub open spec fn has_bool(m: Map<Seq<char>, JsonModel>, k: Seq<char>) -> bool {
    m.contains_key(k) && m[k] is Bool
}

/// The member under this name is absent, `null`, or a string: the three
/// shapes an optional profile field accepts.
pub open spec fn opt_str_ok(m: Map<Seq<char>, JsonModel>, k: Seq<char>) -> bool {
    !m.contains_key(k) || m[k] is Null || m[k] is Str
}

/// The object has an array member under this name holding only strings.
pub open spec fn has_str_arr(m: Map<Seq<char>, JsonModel>, k: Seq<char>) -> bool {
    &&& m.contains_key(k)
    &&& m[k] is Arr
    &&& forall|i: int| 0 <= i < m[k]->Arr_0.len() ==> #[trigger] m[k]->Arr_0[i] is Str
}

/// The object has a `realm_access` object member with a string-array
/// `roles` member.
pub open spec fn realm_access_ok(m: Map<Seq<char>, JsonModel>) -> bool {
    &&& m.contains_key("realm_access"@)
    &&& m["realm_access"@] is Obj
    &&& has_str_arr(m["realm_access"@]->Obj_0, "roles"@)
}

/// The roles array inside the `realm_access` member.
pub open spec fn realm_roles(m: Map<Seq<char>, JsonModel>) -> Seq<JsonModel> {
    m["realm_access"@]->Obj_0["roles"@]->Arr_0
}

/// A vector of strings equals a JSON array of strings, element by element.
pub open spec fn str_seq_match(v: Seq<String>, a: Seq<JsonModel>) -> bool {
    &&& v.len() == a.len()
    &&& forall|i: int| 0 <= i < a.len() ==> #[trigger] v[i]@ == a[i]->Str_0
}

/// An optional field equals the member under this name: present and a
/// string gives `Some` of it, absent or `null` gives `None`.
pub open spec fn opt_str_match(o: Option<String>, m: Map<Seq<char>, JsonModel>, k: Seq<char>) -> bool {
    if m.contains_key(k) && m[k] is Str {
        o matches Some(s) && s@ == m[k]->Str_0
    } else {
        o is None
    }
}

/// The payload object carries every member the claims record requires, with
/// the right type.
pub open spec fn wf_claims_obj(m: Map<Seq<char>, JsonModel>) -> bool {
    &&& has_str(m, "acr"@)
    &&& has_str_arr(m, "allowed-origins"@)
    &&& has_str(m, "aud"@)
    &&& has_u32(m, "auth_time"@)
    &&& has_str(m, "azp"@)
    &&& opt_str_ok(m, "email"@)
    &&& has_bool(m, "email_verified"@)
    &&& has_u32(m, "exp"@)
    &&& opt_str_ok(m, "family_name"@)
    &&& opt_str_ok(m, "given_name"@)
    &&& has_u32(m, "iat"@)
    &&& has_str(m, "iss"@)
    &&& has_str(m, "jti"@)
    &&& opt_str_ok(m, "name"@)
    &&& has_str(m, "nonce"@)
    &&& has_str(m, "preferred_username"@)
    &&& realm_access_ok(m)
    &&& has_str(m, "session_state"@)
    &&& has_str(m, "sub"@)
    &&& has_str(m, "typ"@)
}

/// A JSON document is a well-formed claims payload.
pub open spec fn wf_claims_json(j: JsonModel) -> bool {
    j is Obj && wf_claims_obj(j->Obj_0)
}

/// Every field of the claims record equals the corresponding member of the
/// payload object.
pub open spec fn claims_match(m: Map<Seq<char>, JsonModel>, c: KeycloakClaims) -> bool {
    &&& c.acr@ == m["acr"@]->Str_0
    &&& str_seq_match(c.allowed_origins@, m["allowed-origins"@]->Arr_0)
    &&& c.aud@ == m["aud"@]->Str_0
    &&& c.auth_time == m["auth_time"@]->UInt_0
    &&& c.azp@ == m["azp"@]->Str_0
    &&& opt_str_match(c.email, m, "email"@)
    &&& c.email_verified == m["email_verified"@]->Bool_0
    &&& c.exp == m["exp"@]->UInt_0
    &&& opt_str_match(c.family_name, m, "family_name"@)
    &&& opt_str_match(c.given_name, m, "given_name"@)
    &&& c.iat == m["iat"@]->UInt_0
    &&& c.iss@ == m["iss"@]->Str_0
    &&& c.jti@ == m["jti"@]->Str_0
    &&& opt_str_match(c.name, m, "name"@)
    &&& c.nonce@ == m["nonce"@]->Str_0
    &&& c.preferred_username@ == m["preferred_username"@]->Str_0
    &&& str_seq_match(c.realm_access.roles@, realm_roles(m))
    &&& c.session_state@ == m["session_state"@]->Str_0
    &&& c.sub@ == m["sub"@]->Str_0
    &&& c.typ@ == m["typ"@]->Str_0
}

/// Read a required string member.
fn get_field_str(v: &serde_json::Value, key: &str) -> (r: Option<String>)
    ensures
        (r is Some) == (json_of(*v) matches JsonModel::Obj(m) && has_str(m, key@)),
        r matches Some(s) ==> s@ == json_of(*v)->Obj_0[key@]->Str_0,
{
    match value_get(v, key) {
        Some(f) => match value_as_str(f) {
            Some(s) => Some(String::from_str(s)),
            None => None,
        },
        None => None,
    }
}

/// Read a required number member that must fit in a `u32`.
fn get_field_u32(v: &serde_json::Value, key: &str) -> (r: Option<u32>)
    ensures
        (r is Some) == (json_of(*v) matches JsonModel::Obj(m) && has_u32(m, key@)),
        r matches Some(n) ==> n == json_of(*v)->Obj_0[key@]->UInt_0,
{
    match value_get(v, key) {
        Some(f) => match value_as_u64(f) {
            Some(n) => if n <= 0xffff_ffff {
                Some(n as u32)
            } else {
                None
            },
            None => None,
        },
        None => None,
    }
}

/// Read a required boolean member.
fn get_field_bool(v: &serde_json::Value, key: &str) -> (r: Option<bool>)
    ensures
        (r is Some) == (json_of(*v) matches JsonModel::Obj(m) && has_bool(m, key@)),
        r matches Some(b) ==> b == json_of(*v)->Obj_0[key@]->Bool_0,
{
    match value_get(v, key) {
        Some(f) => value_as_bool(f),
        None => None,
    }
}

/// Read an optional string member: absent or `null` is `None`, a string is
/// `Some`, anything else is a malformed payload.
fn get_field_opt_str(v: &serde_json::Value, key: &str) -> (r: Option<Option<String>>)
    ensures
        json_of(*v) matches JsonModel::Obj(m) ==> {
            &&& (r is Some) == opt_str_ok(m, key@)
            &&& (r matches Some(o) ==> opt_str_match(o, m, key@))
        },
{
    match value_get(v, key) {
        Some(f) => match value_as_str(f) {
            Some(s) => Some(Some(String::from_str(s))),
            None => if value_is_null(f) {
                Some(None)
            } else {
                None
            },
        },
        None => Some(None),
    }
}

/// Read a required array-of-strings member.
fn get_field_str_arr(v: &serde_json::Value, key: &str) -> (r: Option<Vec<String>>)
    ensures
        (r is Some) == (json_of(*v) matches JsonModel::Obj(m) && has_str_arr(m, key@)),
        r matches Some(vs) ==> str_seq_match(vs@, json_of(*v)->Obj_0[key@]->Arr_0),
{
    let arr = match value_get(v, key) {
        Some(f) => match value_as_array(f) {
            Some(a) => a,
            None => {
                return None;
            },
        },
        None => {
            return None;
        },
    };
    let ghost elems = json_of(*v)->Obj_0[key@]->Arr_0;
    let mut out: Vec<String> = Vec::new();
    let n = arr.len();
    let mut i: usize = 0;
    while i < n
        invariant
            n == arr@.len(),
            n == elems.len(),
            0 <= i <= n,
            json_of(*v) is Obj,
            json_of(*v)->Obj_0.contains_key(key@),
            json_of(*v)->Obj_0[key@] is Arr,
            elems == json_of(*v)->Obj_0[key@]->Arr_0,
            forall|j: int| 0 <= j < n ==> #[trigger] json_of(arr@[j]) == elems[j],
            out@.len() == i,
            forall|j: int| 0 <= j < i ==> #[trigger] elems[j] is Str,
            forall|j: int| 0 <= j < i ==> #[trigger] out@[j]@ == elems[j]->Str_0,
        decreases n - i,
    {
        match value_as_str(&arr[i]) {
            Some(s) => {
                out.push(String::from_str(s));
            },
            None => {
                proof {
                    assert(!(json_of(*v)->Obj_0[key@]->Arr_0[i as int] is Str));
                }
                return None;
            },
        }
        i = i + 1;
    }
    Some(out)
}

/// Read the `realm_access` object and its `roles` array.
fn get_realm_access(v: &serde_json::Value) -> (r: Option<KeycloakRealmAccess>)
    ensures
        (r is Some) == (json_of(*v) matches JsonModel::Obj(m) && realm_access_ok(m)),
        r matches Some(ra) ==> str_seq_match(ra.roles@, realm_roles(json_of(*v)->Obj_0)),
{
    match value_get(v, "realm_access") {
        Some(inner) => match get_field_str_arr(inner, "roles") {
            Some(roles) => Some(KeycloakRealmAccess { roles }),
            None => None,
        },
        None => None,
    }
}

/// Extract the structured claims record from a decoded token payload.
///
/// Succeeds exactly on well-formed payloads, and then every field of the
/// record equals the corresponding payload member.
pub fn extract_claims(v: &serde_json::Value) -> (r: Option<KeycloakClaims>)
    ensures
        (r is Some) == wf_claims_json(json_of(*v)),
        r matches Some(c) ==> claims_match(json_of(*v)->Obj_0, c),
{
    let acr = match get_field_str(v, "acr") {
        Some(x) => x,
        None => {
            return None;
        },
    };
    let allowed_origins = match get_field_str_arr(v, "allowed-origins") {
        Some(x) => x,
        None => {
            return None;
        },
    };
    let aud = match get_field_str(v, "aud") {
        Some(x) => x,
        None => {
            return None;
        },
    };
    let auth_time = match get_field_u32(v, "auth_time") {
        Some(x) => x,
        None => {
            return None;
        },
    };
    let azp = match get_field_str(v, "azp") {
        Some(x) => x,
        None => {
            return None;
        },
    };
    let email = match get_field_opt_str(v, "email") {
        Some(x) => x,
        None => {
            return None;
        },
    };
    let email_verified = match get_field_bool(v, "email_verified") {
        Some(x) => x,
        None => {
            return None;
        },
    };
    let exp = match get_field_u32(v, "exp") {
        Some(x) => x,
        None => {
            return None;
        },
    };
    let family_name = match get_field_opt_str(v, "family_name") {
        Some(x) => x,
        None => {
            return None;
        },
    };
    let given_name = match get_field_opt_str(v, "given_name") {
        Some(x) => x,
        None => {
            return None;
        },
    };
    let iat = match get_field_u32(v, "iat") {
        Some(x) => x,
        None => {
            return None;
        },
    };
    let iss = match get_field_str(v, "iss") {
        Some(x) => x,
        None => {
            return None;
        },
    };
    let jti = match get_field_str(v, "jti") {
        Some(x) => x,
        None => {
            return None;
        },
    };
    let name = match get_field_opt_str(v, "name") {
        Some(x) => x,
        None => {
            return None;
        },
    };
    let nonce = match get_field_str(v, "nonce") {
        Some(x) => x,
        None => {
            return None;
        },
    };
    let preferred_username = match get_field_str(v, "preferred_username") {
        Some(x) => x,
        None => {
            return None;
        },
    };
    let realm_access = match get_realm_access(v) {
        Some(x) => x,
        None => {
            return None;
        },
    };
    let session_state = match get_field_str(v, "session_state") {
        Some(x) => x,
        None => {
            return None;
        },
    };
    let sub = match get_field_str(v, "sub") {
        Some(x) => x,
        None => {
            return None;
        },
    };
    let typ = match get_field_str(v, "typ") {
        Some(x) => x,
        None => {
            return None;
        },
    };
    Some(KeycloakClaims {
        acr,
        allowed_origins,
        aud,
        auth_time,
        azp,
        email,
        email_verified,
        exp,
        family_name,
        given_name,
        iat,
        iss,
        jti,
        name,
        nonce,
        preferred_username,
        realm_access,
        session_state,
        sub,
        typ,
    })
}

} // verus!
