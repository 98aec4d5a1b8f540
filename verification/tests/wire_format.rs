use authgate::jsonrpc::{JSONRPCError, JSONRPCSuccess};
use authgate::wire::{
    error_response_parts, parse_success_frame, render_error_frame, render_success_frame,
    success_response_parts,
};

#[test]
fn success_frame_exact_bytes_null_id() {
    let body = render_success_frame(&None, b"{\"a\":1}", 200);
    assert_eq!(body, b"{\"id\":null,\"result\":{\"a\":1},\"http_code\":200}".to_vec());
}

#[test]
fn success_frame_exact_bytes_with_id() {
    let id: u128 = 0x550e8400e29b41d4a716446655440000;
    let body = render_success_frame(&Some(id), b"7", 201);
    assert_eq!(
        body,
        b"{\"id\":\"550e8400-e29b-41d4-a716-446655440000\",\"result\":7,\"http_code\":201}"
            .to_vec()
    );
}

#[test]
fn uuid_rendering_matches_uuid_crate() {
    let id: u128 = 0x550e8400e29b41d4a716446655440000;
    let body = render_success_frame(&Some(id), b"0", 200);
    let expected = uuid::Uuid::from_u128(id).hyphenated().to_string();
    let text = String::from_utf8(body).unwrap();
    assert!(text.contains(&expected));
}

#[test]
fn success_round_trip_null_id() {
    let body = render_success_frame(&None, b"[1,2,3]", 200);
    let (id, payload, code) = parse_success_frame(&body).unwrap();
    assert_eq!(id, None);
    assert_eq!(payload, b"[1,2,3]".to_vec());
    assert_eq!(code, 200);
}

#[test]
fn success_round_trip_with_id() {
    let idv: u128 = 0xffeeddccbbaa99887766554433221100;
    let body = render_success_frame(&Some(idv), b"{\"deep\":{\"x\":[]}}", 201);
    let (id, payload, code) = parse_success_frame(&body).unwrap();
    assert_eq!(id, Some(idv));
    assert_eq!(payload, b"{\"deep\":{\"x\":[]}}".to_vec());
    assert_eq!(code, 201);
}

#[test]
fn success_round_trip_adversarial_payload() {
    // A payload that contains the frame's own suffix pattern.
    let payload: &[u8] = b"\"x,\\\"http_code\\\":99}\"";
    let body = render_success_frame(&None, payload, 500);
    let (id, parsed, code) = parse_success_frame(&body).unwrap();
    assert_eq!(id, None);
    assert_eq!(parsed, payload.to_vec());
    assert_eq!(code, 500);
}

#[test]
fn success_round_trip_extreme_codes() {
    for c in [0u16, 9, 10, 65535] {
        let body = render_success_frame(&Some(1), b"0", c);
        let (_, _, code) = parse_success_frame(&body).unwrap();
        assert_eq!(code, c);
    }
}

#[test]
fn parse_rejects_garbage() {
    assert!(parse_success_frame(b"").is_none());
    assert!(parse_success_frame(b"{}").is_none());
    assert!(parse_success_frame(b"{\"id\":null,\"result\":1}").is_none());
    assert!(parse_success_frame(b"totally wrong but quite long indeed!!!!!").is_none());
}

#[test]
fn rendered_success_is_valid_json() {
    let id: u128 = 0x0123456789abcdef0123456789abcdef;
    let body = render_success_frame(&Some(id), b"{\"k\":[1,2]}", 200);
    let v: serde_json::Value = serde_json::from_slice(&body).unwrap();
    assert_eq!(v["id"], serde_json::Value::String(String::from(
        "01234567-89ab-cdef-0123-456789abcdef"
    )));
    assert_eq!(v["result"]["k"][1], serde_json::Value::from(2));
    assert_eq!(v["http_code"], serde_json::Value::from(200));
}

#[test]
fn transport_status_equals_embedded_code() {
    let env = JSONRPCSuccess::created(17u8).id(42);
    let (status, body) = success_response_parts(&env, b"17");
    assert_eq!(status, 201);
    let (_, _, embedded) = parse_success_frame(&body).unwrap();
    assert_eq!(embedded, status);

    let err = JSONRPCError::forbidden(());
    let (status, body) = error_response_parts(&err, b"null");
    assert_eq!(status, 403);
    let text = String::from_utf8(body).unwrap();
    assert!(text.ends_with(",\"http_code\":403}"));
}

#[test]
fn error_frame_exact_bytes() {
    let body = render_error_frame(&None, b"Forbidden", 403, b"null", 403);
    assert_eq!(
        body,
        b"{\"id\":null,\"error\":{\"message\":\"Forbidden\",\"code\":403,\"data\":null},\"http_code\":403}"
            .to_vec()
    );
}

#[test]
fn error_frame_is_valid_json() {
    let err = JSONRPCError::unauthorized(()).id(5);
    let (status, body) = error_response_parts(&err, b"null");
    assert_eq!(status, 401);
    let v: serde_json::Value = serde_json::from_slice(&body).unwrap();
    assert_eq!(v["error"]["message"], serde_json::Value::String(String::from("Unauthorized")));
    assert_eq!(v["error"]["code"], serde_json::Value::from(401));
    assert_eq!(v["http_code"], serde_json::Value::from(401));
    assert_eq!(v["id"], serde_json::Value::String(String::from(
        "00000000-0000-0000-0000-000000000005"
    )));
}

#[test]
fn error_frame_escapes_message() {
    let body = render_error_frame(&None, b"say \"hi\" \\ back", 400, b"0", 400);
    let v: serde_json::Value = serde_json::from_slice(&body).unwrap();
    assert_eq!(
        v["error"]["message"],
        serde_json::Value::String(String::from("say \"hi\" \\ back"))
    );
}

#[test]
fn error_frame_escapes_control_bytes() {
    let body = render_error_frame(&None, b"a\nb\tc", 500, b"0", 500);
    let v: serde_json::Value = serde_json::from_slice(&body).unwrap();
    assert_eq!(v["error"]["message"], serde_json::Value::String(String::from("a\nb\tc")));
}
