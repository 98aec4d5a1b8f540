//! Credential extraction.
//!
//! Pulls a bearer-token candidate out of a request, from the
//! `Authorization` header or, only when no header is present at all, from
//! the `access_token` query parameter.  The header always takes
//! precedence: once a header is supplied, the query parameter is never
//! consulted, even if the header is malformed or blank.

use vstd::prelude::*;

verus! {

/// List of errors that can occur when looking for a credential.
///
/// Authorization headers must be in the following format:
/// `Authorization: Bearer <JWT>`
#[derive(Debug, Clone, Copy, PartialEq, Eq, Structural)]
pub enum AuthErrors {
    /// The authorization header was not provided
    EmptyHeader,
    /// The authorization header is formatted incorrectly or otherwise invalid
    InvalidHeader,
    /// The decoded token data is invalid
    InvalidToken,
}

/// Where a credential candidate came from.
#[derive(Debug, Clone, Copy, PartialEq, Eq, Structural)]
pub enum CredentialSource {
    /// The `Authorization` header.
    Header,
    /// The `access_token` query parameter.
    Query,
}

/// A credential candidate: the raw token value and the source it came from.
pub struct Credential {
    /// The raw token value.
    pub token: String,
    /// Whether it came from the header or the query string.
    pub source: CredentialSource,
}

/// The ASCII whitespace characters, as `split_ascii_whitespace` sees them.
pub open spec fn is_ascii_ws(c: char) -> bool {
    c == ' ' || c == '\t' || c == '\n' || c == '\u{000C}' || c == '\r'
}

/// First index at or after `i` holding a non-whitespace character.
pub open spec fn skip_ws(s: Seq<char>, i: int) -> int
    decreases s.len() - i,
{
    if 0 <= i < s.len() && is_ascii_ws(s[i]) {
        skip_ws(s, i + 1)
    } else {
        i
    }
}

/// First index at or after `i` holding a whitespace character.
pub open spec fn skip_tok(s: Seq<char>, i: int) -> int
    decreases s.len() - i,
{
    if 0 <= i < s.len() && !is_ascii_ws(s[i]) {
        skip_tok(s, i + 1)
    } else {
        i
    }
}

/// The first two whitespace-separated tokens of a header value: the scheme
/// and the value.  A blank (or empty) header has no scheme at all.
pub open spec fn header_parts(s: Seq<char>) -> (Option<Seq<char>>, Option<Seq<char>>) {
    let a = skip_ws(s, 0);
    if a >= s.len() {
        (None, None)
    } else {
        let b = skip_tok(s, a);
        let c = skip_ws(s, b);
        if c >= s.len() {
            (Some(s.subrange(a, b)), None)
        } else {
            (Some(s.subrange(a, b)), Some(s.subrange(c, skip_tok(s, c))))
        }
    }
}

/// Case-insensitive comparison of a scheme against `bearer`.
pub open spec fn spec_is_bearer(s: Seq<char>) -> bool {
    &&& s.len() == 6
    &&& (s[0] == 'b' || s[0] == 'B')
    &&& (s[1] == 'e' || s[1] == 'E')
    &&& (s[2] == 'a' || s[2] == 'A')
    &&& (s[3] == 'r' || s[3] == 'R')
    &&& (s[4] == 'e' || s[4] == 'E')
    &&& (s[5] == 'r' || s[5] == 'R')
}

/// The query-parameter fallback: its presence yields a candidate, its
/// absence is anonymous (`EmptyHeader`), not an error.
pub open spec fn spec_extract_query(query: Option<Seq<char>>) -> Result<
    (Seq<char>, CredentialSource),
    AuthErrors,
> {
    match query {
        Some(q) => Ok((q, CredentialSource::Query)),
        None => Err(AuthErrors::EmptyHeader),
    }
}

/// The full extraction rule, in precedence order.  A header with a
/// recognized `bearer` scheme yields its value (a missing value is a hard
/// failure); a header with any other scheme, or with no scheme token at
/// all (empty or all-whitespace), is a hard failure — once a header is
/// present the query parameter is never consulted; only a missing header
/// falls back to the query parameter.
pub open spec fn spec_extract(header: Option<Seq<char>>, query: Option<Seq<char>>) -> Result<
    (Seq<char>, CredentialSource),
    AuthErrors,
> {
    match header {
        Some(h) => {
            let (scheme, value) = header_parts(h);
            match scheme {
                Some(sch) => if spec_is_bearer(sch) {
                    match value {
                        Some(v) => Ok((v, CredentialSource::Header)),
                        None => Err(AuthErrors::InvalidHeader),
                    }
                } else {
                    Err(AuthErrors::InvalidHeader)
                },
                None => Err(AuthErrors::InvalidHeader),
            }
        },
        None => spec_extract_query(query),
    }
}

/// View of an optional string.
pub open spec fn view_opt(s: Option<&str>) -> Option<Seq<char>> {
    match s {
        Some(s) => Some(s@),
        None => None,
    }
}

/// With neither header nor query credential, the outcome is anonymous:
/// extraction yields `EmptyHeader`, which is not an error.
pub proof fn lemma_no_credential_anonymous()
    ensures
        spec_extract(None, None) == Err::<(Seq<char>, CredentialSource), AuthErrors>(
            AuthErrors::EmptyHeader,
        ),
{
}

/// A header with any scheme other than `bearer` is a hard rejection,
/// whatever the query parameter holds — even a valid token there is never
/// consulted.
pub proof fn lemma_non_bearer_rejected(h: Seq<char>, q: Option<Seq<char>>)
    requires
        header_parts(h).0 matches Some(sch) && !spec_is_bearer(sch),
    ensures
        spec_extract(Some(h), q) == Err::<(Seq<char>, CredentialSource), AuthErrors>(
            AuthErrors::InvalidHeader,
        ),
{
}

/// Once a header is present — well-formed, malformed or blank — the query
/// parameter is out of play: extraction gives the same result whatever the
/// query holds.
pub proof fn lemma_header_precedence(h: Seq<char>, q1: Option<Seq<char>>, q2: Option<Seq<char>>)
    ensures
        spec_extract(Some(h), q1) == spec_extract(Some(h), q2),
{
}

/// A header with no scheme token (empty or all-whitespace) is a hard
/// rejection, never a fall-through to the query parameter.
pub proof fn lemma_blank_header_rejected(h: Seq<char>, q: Option<Seq<char>>)
    requires
        header_parts(h).0 is None,
    ensures
        spec_extract(Some(h), q) == Err::<(Seq<char>, CredentialSource), AuthErrors>(
            AuthErrors::InvalidHeader,
        ),
{
}

/// Extraction itself never judges a token: its only failures are the
/// missing credential (`EmptyHeader`) and the malformed header
/// (`InvalidHeader`); `InvalidToken` belongs to verification.
pub proof fn lemma_extract_never_invalid_token(h: Option<Seq<char>>, q: Option<Seq<char>>)
    ensures
        spec_extract(h, q) matches Err(e) ==> !(e is InvalidToken),
{
}

/// A well-formed bearer header yields exactly its value as the candidate,
/// marked as coming from the header.
pub proof fn lemma_bearer_header_wins(h: Seq<char>, q: Option<Seq<char>>)
    requires
        header_parts(h).0 matches Some(sch) && spec_is_bearer(sch),
        header_parts(h).1 is Some,
    ensures
        spec_extract(Some(h), q) == Ok::<(Seq<char>, CredentialSource), AuthErrors>(
            (header_parts(h).1->Some_0, CredentialSource::Header),
        ),
{
}

proof fn lemma_skip_ws_end(s: Seq<char>, i: int, a: int)
    requires
        0 <= i <= a <= s.len(),
        forall|j: int| i <= j < a ==> is_ascii_ws(s[j]),
        a == s.len() || !is_ascii_ws(s[a]),
    ensures
        skip_ws(s, i) == a,
    decreases a - i,
{
    if i < a {
        lemma_skip_ws_end(s, i + 1, a);
    }
}

proof fn lemma_skip_tok_end(s: Seq<char>, i: int, a: int)
    requires
        0 <= i <= a <= s.len(),
        forall|j: int| i <= j < a ==> !is_ascii_ws(s[j]),
        a == s.len() || is_ascii_ws(s[a]),
    ensures
        skip_tok(s, i) == a,
    decreases a - i,
{
    if i < a {
        lemma_skip_tok_end(s, i + 1, a);
    }
}

/// Whether a character is ASCII whitespace.
fn is_ws_char(c: char) -> (r: bool)
    ensures
        r == is_ascii_ws(c),
{
    c == ' ' || c == '\t' || c == '\n' || c == '\u{000C}' || c == '\r'
}

/// First index at or after `i` holding a non-whitespace character.
fn find_skip_ws(s: &str, i: usize) -> (r: usize)
    requires
        i <= s@.len(),
    ensures
        r == skip_ws(s@, i as int),
        i <= r <= s@.len(),
{
    let len = s.unicode_len();
    let mut a = i;
    while a < len && is_ws_char(s.get_char(a))
        invariant
            i <= a <= len,
            len == s@.len(),
            forall|j: int| i <= j < a ==> is_ascii_ws(s@[j]),
        decreases len - a,
    {
        a = a + 1;
    }
    proof {
        lemma_skip_ws_end(s@, i as int, a as int);
    }
    a
}

/// First index at or after `i` holding a whitespace character.
fn find_skip_tok(s: &str, i: usize) -> (r: usize)
    requires
        i <= s@.len(),
    ensures
        r == skip_tok(s@, i as int),
        i <= r <= s@.len(),
{
    let len = s.unicode_len();
    let mut a = i;
    while a < len && !is_ws_char(s.get_char(a))
        invariant
            i <= a <= len,
            len == s@.len(),
            forall|j: int| i <= j < a ==> !is_ascii_ws(s@[j]),
        decreases len - a,
    {
        a = a + 1;
    }
    proof {
        lemma_skip_tok_end(s@, i as int, a as int);
    }
    a
}

/// Case-insensitive comparison of a scheme against `bearer`.
fn is_bearer_scheme(s: &str) -> (r: bool)
    ensures
        r == spec_is_bearer(s@),
{
    if s.unicode_len() != 6 {
        return false;
    }
    let c0 = s.get_char(0);
    let c1 = s.get_char(1);
    let c2 = s.get_char(2);
    let c3 = s.get_char(3);
    let c4 = s.get_char(4);
    let c5 = s.get_char(5);
    (c0 == 'b' || c0 == 'B') && (c1 == 'e' || c1 == 'E') && (c2 == 'a' || c2 == 'A') && (c3 == 'r'
        || c3 == 'R') && (c4 == 'e' || c4 == 'E') && (c5 == 'r' || c5 == 'R')
}

/// Extract a credential candidate from the `Authorization` header value and
/// the `access_token` query parameter, applying the header-over-query
/// precedence rule of `spec_extract`.
pub fn extract_credential(header: Option<&str>, query: Option<&str>) -> (r: Result<
    Credential,
    AuthErrors,
>)
    ensures
        (r is Ok) == (spec_extract(view_opt(header), view_opt(query)) is Ok),
        r matches Ok(c) ==> {
            let ok = spec_extract(view_opt(header), view_opt(query))->Ok_0;
            c.token@ == ok.0 && c.source == ok.1
        },
        r matches Err(e) ==> e == spec_extract(view_opt(header), view_opt(query))->Err_0,
{
    match header {
        Some(h) => {
            let a = find_skip_ws(h, 0);
            let len = h.unicode_len();
            if a < len {
                // A scheme is present: the query parameter is out of play.
                let b = find_skip_tok(h, a);
                let scheme = h.substring_char(a, b);
                if is_bearer_scheme(scheme) {
                    let c = find_skip_ws(h, b);
                    if c < len {
                        let d = find_skip_tok(h, c);
                        let value = h.substring_char(c, d);
                        Ok(Credential {
                            token: String::from_str(value),
                            source: CredentialSource::Header,
                        })
                    } else {
                        Err(AuthErrors::InvalidHeader)
                    }
                } else {
                    Err(AuthErrors::InvalidHeader)
                }
            } else {
                // A present header with no scheme token is malformed; the
                // query parameter stays out of play.
                Err(AuthErrors::InvalidHeader)
            }
        },
        None => extract_from_query(query),
    }
}

/// The query-parameter fallback of `extract_credential`.
fn extract_from_query(query: Option<&str>) -> (r: Result<Credential, AuthErrors>)
    ensures
        (r is Ok) == (spec_extract_query(view_opt(query)) is Ok),
        r matches Ok(c) ==> {
            let ok = spec_extract_query(view_opt(query))->Ok_0;
            c.token@ == ok.0 && c.source == ok.1
        },
        r matches Err(e) ==> e == spec_extract_query(view_opt(query))->Err_0,
{
    match query {
        Some(q) => Ok(Credential { token: String::from_str(q), source: CredentialSource::Query }),
        None => Err(AuthErrors::EmptyHeader),
    }
}

} // verus!
