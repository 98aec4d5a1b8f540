//! A snapshot of the identity-provider adapter's state, as the browser
//! side of the application sees it.
//!
//! The real adapter lives outside the process boundary; the surrounding
//! glue fills this record from it (tokens, clock, skew) and the logic
//! here — notably the token-expiry check — is verified over the snapshot.

use vstd::prelude::*;

verus! {

/// Connection settings of the identity-provider adapter.
pub struct KeycloakConfig {
    /// Base URL of the identity provider.
    pub url: String,
    /// The realm to authenticate against.
    pub realm: String,
    /// The client identifier registered with the realm.
    pub client_id: String,
}

/// The realm-level role names of the adapter's parsed token.
pub struct RealmAccess {
    /// The role names.
    pub roles: Vec<String>,
}

/// A user profile loaded from the identity provider, generic over the
/// application-defined attribute record.
pub struct UserProfile<A> {
    /// Username.
    pub username: String,
    /// Whether the e-mail address was verified.
    pub email_verified: bool,
    /// Application-defined attributes.
    pub attributes: A,
    /// First name, if the profile carries one.
    pub first_name: Option<String>,
    /// Last name, if the profile carries one.
    pub last_name: Option<String>,
    /// E-mail address, if the profile carries one.
    pub email: Option<String>,
}

/// The adapter-state snapshot.
pub struct Keycloak {
    /// The connection settings the adapter was created with.
    pub config: KeycloakConfig,
    /// Whether the user is currently authenticated.
    pub authenticated: bool,
    /// The raw access token, when one is held.
    pub token: Option<String>,
    /// Expiry of the access token, as seconds since the epoch.
    pub token_exp: u32,
    /// The raw identity token, when one is held.
    pub id_token: Option<String>,
    /// The raw refresh token, when one is held.
    pub refresh_token: Option<String>,
    /// The adapter's clock, as seconds since the epoch.
    pub current_time: u32,
    /// Estimated skew between the adapter's clock and the provider's, in
    /// seconds.
    pub time_skew: u32,
    /// The configured response mode, when one is set.
    pub response_mode: Option<String>,
    /// The configured authentication flow.
    pub flow: String,
    /// The configured response type.
    pub response_type: String,
}

/// The access token is expired when, corrected by the clock skew, it does
/// not stay valid for at least `min_validity` more seconds.  An absent
/// token is never valid.
pub open spec fn spec_token_expired(k: Keycloak, min_validity: u32) -> bool {
    k.token is None || k.token_exp + k.time_skew < k.current_time + min_validity
}

impl Keycloak {
    /// A fresh adapter snapshot: not authenticated, holding no tokens.
    pub fn new(config: KeycloakConfig) -> (r: Self)
        ensures
            r.config == config,
            !r.authenticated,
            r.token is None,
            r.id_token is None,
            r.refresh_token is None,
            r.token_exp == 0,
            r.current_time == 0,
            r.time_skew == 0,
            r.response_mode is None,
            r.flow@ == "standard"@,
            r.response_type@ == "code"@,
    {
        Keycloak {
            config,
            authenticated: false,
            token: None,
            token_exp: 0,
            id_token: None,
            refresh_token: None,
            current_time: 0,
            time_skew: 0,
            response_mode: None,
            flow: String::from_str("standard"),
            response_type: String::from_str("code"),
        }
    }

    /// Whether the access token is expired, or will expire within the next
    /// `min_validity` seconds.
    pub fn is_token_expired(&self, min_validity: u32) -> (r: bool)
        ensures
            r == spec_token_expired(*self, min_validity),
    {
        match &self.token {
            None => true,
            Some(_) => {
                let valid_until: u64 = self.token_exp as u64 + self.time_skew as u64;
                let needed_until: u64 = self.current_time as u64 + min_validity as u64;
                valid_until < needed_until
            },
        }
    }

    /// Whether the user is currently authenticated.
    pub fn authenticated(&self) -> (r: bool)
        ensures
            r == self.authenticated,
    {
        self.authenticated
    }

    /// The raw access token, when one is held.
    pub fn token(&self) -> (r: Option<String>)
        ensures
            r == self.token,
    {
        match &self.token {
            Some(t) => Some(t.clone()),
            None => None,
        }
    }

    /// The raw identity token, when one is held.
    pub fn id_token(&self) -> (r: Option<String>)
        ensures
            r == self.id_token,
    {
        match &self.id_token {
            Some(t) => Some(t.clone()),
            None => None,
        }
    }

    /// The raw refresh token, when one is held.
    pub fn refresh_token(&self) -> (r: Option<String>)
        ensures
            r == self.refresh_token,
    {
        match &self.refresh_token {
            Some(t) => Some(t.clone()),
            None => None,
        }
    }

    /// The estimated clock skew, in seconds.
    pub fn time_skew(&self) -> (r: u32)
        ensures
            r == self.time_skew,
    {
        self.time_skew
    }

    /// The configured response mode, when one is set.
    pub fn response_mode(&self) -> (r: Option<String>)
        ensures
            r == self.response_mode,
    {
        match &self.response_mode {
            Some(m) => Some(m.clone()),
            None => None,
        }
    }

    /// The configured authentication flow.
    pub fn flow(&self) -> (r: String)
        ensures
            r == self.flow,
    {
        self.flow.clone()
    }

    /// The configured response type.
    pub fn response_type(&self) -> (r: String)
        ensures
            r == self.response_type,
    {
        self.response_type.clone()
    }
}

} // verus!
