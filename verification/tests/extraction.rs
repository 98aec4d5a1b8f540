use authgate::extract::{extract_credential, AuthErrors, CredentialSource};

#[test]
fn no_credential_is_anonymous() {
    let r = extract_credential(None, None);
    assert!(matches!(r, Err(AuthErrors::EmptyHeader)));
}

#[test]
fn query_alone_yields_candidate() {
    let r = extract_credential(None, Some("tok-123")).unwrap();
    assert_eq!(r.token, "tok-123");
    assert_eq!(r.source, CredentialSource::Query);
}

#[test]
fn bearer_header_yields_value() {
    let r = extract_credential(Some("Bearer abc.def.ghi"), None).unwrap();
    assert_eq!(r.token, "abc.def.ghi");
    assert_eq!(r.source, CredentialSource::Header);
}

#[test]
fn bearer_scheme_is_case_insensitive() {
    let r = extract_credential(Some("BeArEr tok"), None).unwrap();
    assert_eq!(r.token, "tok");
    let r = extract_credential(Some("BEARER tok"), None).unwrap();
    assert_eq!(r.token, "tok");
    let r = extract_credential(Some("bearer tok"), None).unwrap();
    assert_eq!(r.token, "tok");
}

#[test]
fn header_wins_over_query() {
    // Even a differing query token is never consulted once a header is
    // present.
    let r = extract_credential(Some("Bearer real-token"), Some("other-token")).unwrap();
    assert_eq!(r.token, "real-token");
    assert_eq!(r.source, CredentialSource::Header);
}

#[test]
fn non_bearer_scheme_is_rejected_despite_query() {
    let r = extract_credential(Some("Basic dXNlcjpwdw=="), Some("valid-looking-token"));
    assert!(matches!(r, Err(AuthErrors::InvalidHeader)));
}

#[test]
fn bearer_without_value_is_rejected() {
    let r = extract_credential(Some("Bearer"), Some("fallback"));
    assert!(matches!(r, Err(AuthErrors::InvalidHeader)));
    let r = extract_credential(Some("Bearer   "), None);
    assert!(matches!(r, Err(AuthErrors::InvalidHeader)));
}

#[test]
fn blank_header_is_rejected_despite_query() {
    // A present header, even empty or all-whitespace, keeps the query
    // parameter out of play and is itself malformed.
    let r = extract_credential(Some("   "), Some("q-token"));
    assert!(matches!(r, Err(AuthErrors::InvalidHeader)));
    let r = extract_credential(Some(""), None);
    assert!(matches!(r, Err(AuthErrors::InvalidHeader)));
}

#[test]
fn extra_tokens_after_value_are_ignored() {
    let r = extract_credential(Some("  Bearer \t tok \n rest"), None).unwrap();
    assert_eq!(r.token, "tok");
}
