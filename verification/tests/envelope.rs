use authgate::jsonrpc::{reason_phrase, IntoRPCSuccess, JSONRPCError, JSONRPCSuccess};

#[test]
fn success_ok_defaults() {
    let env = JSONRPCSuccess::ok(41u32);
    assert_eq!(env.id, None);
    assert_eq!(env.result, 41);
    assert_eq!(env.http_code, 200);
}

#[test]
fn success_created_defaults() {
    let env = JSONRPCSuccess::created(String::from("made"));
    assert_eq!(env.id, None);
    assert_eq!(env.result, "made");
    assert_eq!(env.http_code, 201);
}

#[test]
fn success_id_and_result_builders() {
    let env = JSONRPCSuccess::ok(1u8).id(7).result(2u8);
    assert_eq!(env.id, Some(7));
    assert_eq!(env.result, 2);
    assert_eq!(env.http_code, 200);
}

#[test]
fn into_rpc_success_casts() {
    let env = 5u32.into_ok();
    assert_eq!((env.id, env.result, env.http_code), (None, 5, 200));
    let env = String::from("x").into_created();
    assert_eq!(env.result, "x");
    assert_eq!(env.http_code, 201);
}

#[test]
fn error_forbidden_defaults() {
    let env = JSONRPCError::forbidden(());
    assert_eq!(env.http_code, 403);
    assert_eq!(env.error.code, 403);
    assert_eq!(env.error.message, "Forbidden");
    assert_eq!(env.id, None);
}

#[test]
fn error_forbidden_message_override() {
    let env = JSONRPCError::forbidden(()).message("no entry");
    assert_eq!(env.http_code, 403);
    assert_eq!(env.error.code, 403);
    assert_eq!(env.error.message, "no entry");
}

#[test]
fn error_code_overrides_independently() {
    let env = JSONRPCError::forbidden(()).code(40301);
    assert_eq!(env.http_code, 403);
    assert_eq!(env.error.code, 40301);
    assert_eq!(env.error.message, "Forbidden");
}

#[test]
fn error_builders_canonical() {
    let e = JSONRPCError::bad_request(1u8);
    assert_eq!((e.http_code, e.error.code, e.error.message.as_str(), e.error.data), (400, 400, "Bad Request", 1));
    let e = JSONRPCError::unauthorized(2u8);
    assert_eq!((e.http_code, e.error.code, e.error.message.as_str(), e.error.data), (401, 401, "Unauthorized", 2));
    let e = JSONRPCError::forbidden(3u8);
    assert_eq!((e.http_code, e.error.code, e.error.message.as_str(), e.error.data), (403, 403, "Forbidden", 3));
    let e = JSONRPCError::not_found(4u8);
    assert_eq!((e.http_code, e.error.code, e.error.message.as_str(), e.error.data), (404, 404, "Not Found", 4));
    let e = JSONRPCError::conflict(5u8);
    assert_eq!((e.http_code, e.error.code, e.error.message.as_str(), e.error.data), (409, 409, "Conflict", 5));
    let e = JSONRPCError::internal(6u8);
    assert_eq!(
        (e.http_code, e.error.code, e.error.message.as_str(), e.error.data),
        (500, 500, "Internal Server Error", 6)
    );
}

#[test]
fn error_id_and_data_builders() {
    let env = JSONRPCError::conflict(10u8).id(99).data(11u8);
    assert_eq!(env.id, Some(99));
    assert_eq!(env.error.data, 11);
    assert_eq!(env.http_code, 409);
}

#[test]
fn reason_phrases() {
    assert_eq!(reason_phrase(200), "OK");
    assert_eq!(reason_phrase(201), "Created");
    assert_eq!(reason_phrase(400), "Bad Request");
    assert_eq!(reason_phrase(401), "Unauthorized");
    assert_eq!(reason_phrase(403), "Forbidden");
    assert_eq!(reason_phrase(404), "Not Found");
    assert_eq!(reason_phrase(409), "Conflict");
    assert_eq!(reason_phrase(500), "Internal Server Error");
}
