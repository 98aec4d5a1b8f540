//! The standardized success/error response envelope.
//!
//! Every handler, and the identity middleware itself, renders its outcome
//! through one of these two write-once wire records.  The embedded
//! `http_code` must always equal the transport status code of the response
//! that carries the envelope; the rendering functions in `wire` keep that
//! invariant.

use vstd::prelude::*;

verus! {

/// The six canonical error status codes the error envelope may carry.
pub open spec fn is_error_status(code: u16) -> bool {
    code == 400 || code == 401 || code == 403 || code == 404 || code == 409 || code == 500
}

/// Canonical reason phrase of each status code the envelope uses.
pub open spec fn spec_reason_phrase(code: u16) -> Seq<char> {
    if code == 200 {
        "OK"@
    } else if code == 201 {
        "Created"@
    } else if code == 400 {
        "Bad Request"@
    } else if code == 401 {
        "Unauthorized"@
    } else if code == 403 {
        "Forbidden"@
    } else if code == 404 {
        "Not Found"@
    } else if code == 409 {
        "Conflict"@
    } else if code == 500 {
        "Internal Server Error"@
    } else {
        ""@
    }
}

/// Canonical reason phrase, as an owned string.
pub fn reason_phrase(code: u16) -> (r: String)
    ensures
        r@ == spec_reason_phrase(code),
{
    if code == 200 {
        String::from_str("OK")
    } else if code == 201 {
        String::from_str("Created")
    } else if code == 400 {
        String::from_str("Bad Request")
    } else if code == 401 {
        String::from_str("Unauthorized")
    } else if code == 403 {
        String::from_str("Forbidden")
    } else if code == 404 {
        String::from_str("Not Found")
    } else if code == 409 {
        String::from_str("Conflict")
    } else if code == 500 {
        String::from_str("Internal Server Error")
    } else {
        String::from_str("")
    }
}

/// A success response: an optional correlation id, the result payload, and
/// the HTTP status code that the transport must use for the response.
#[derive(Debug)]
pub struct JSONRPCSuccess<T> {
    /// Id of the request, as the 128-bit value of a UUID.
    pub id: Option<u128>,
    /// The result payload.
    pub result: T,
    /// The HTTP status code.
    pub http_code: u16,
}

impl<T> JSONRPCSuccess<T> {
    fn new(http_code: u16, result: T) -> (r: Self)
        ensures
            r.id is None,
            r.result == result,
            r.http_code == http_code,
    {
        JSONRPCSuccess { id: None, result, http_code }
    }

    /// 200 OK
    pub fn ok(result: T) -> (r: Self)
        ensures
            r.id is None,
            r.result == result,
            r.http_code == 200,
    {
        Self::new(200, result)
    }

    /// 201 CREATED
    pub fn created(result: T) -> (r: Self)
        ensures
            r.id is None,
            r.result == result,
            r.http_code == 201,
    {
        Self::new(201, result)
    }

    /// Set the request id of the response.
    pub fn id(self, id: u128) -> (r: Self)
        ensures
            r.id == Some(id),
            r.result == self.result,
            r.http_code == self.http_code,
    {
        JSONRPCSuccess { id: Some(id), ..self }
    }

    /// Replace the result payload of the response.
    pub fn result(self, result: T) -> (r: Self)
        ensures
            r.id == self.id,
            r.result == result,
            r.http_code == self.http_code,
    {
        JSONRPCSuccess { result, ..self }
    }
}

/// Helper to cast any value into a success envelope.
pub trait IntoRPCSuccess: Sized {
    /// Get a 200 Ok success envelope around this value.
    fn into_ok(self) -> (r: JSONRPCSuccess<Self>)
        ensures
            r.id is None,
            r.result == self,
            r.http_code == 200,
    ;

    /// Get a 201 Created success envelope around this value.
    fn into_created(self) -> (r: JSONRPCSuccess<Self>)
        ensures
            r.id is None,
            r.result == self,
            r.http_code == 201,
    ;
}

impl<T> IntoRPCSuccess for T {
    fn into_ok(self) -> (r: JSONRPCSuccess<T>) {
        JSONRPCSuccess::ok(self)
    }

    fn into_created(self) -> (r: JSONRPCSuccess<T>) {
        JSONRPCSuccess::created(self)
    }
}

/// The error object carried inside an error envelope.
#[derive(Debug)]
pub struct JSONRPCErrorObject<D> {
    /// A short description of the error.
    pub message: String,
    /// A number that indicates the error type that occurred.  Defaults to
    /// the HTTP status code, and may be overridden independently of it.
    pub code: u16,
    /// A primitive or structured value with additional information.
    pub data: D,
}

/// An error response: an optional correlation id, the error object, and the
/// HTTP status code that the transport must use for the response.
#[derive(Debug)]
pub struct JSONRPCError<D> {
    /// Id of the request, as the 128-bit value of a UUID.
    pub id: Option<u128>,
    /// The error object.
    pub error: JSONRPCErrorObject<D>,
    /// The HTTP status code.
    pub http_code: u16,
}

/// What every freshly built error envelope looks like: no id, the canonical
/// reason phrase as message, and `code` equal to the HTTP status code.
pub open spec fn fresh_error<D>(r: JSONRPCError<D>, code: u16, data: D) -> bool {
    &&& r.id is None
    &&& r.http_code == code
    &&& r.error.code == code
    &&& r.error.message@ == spec_reason_phrase(code)
    &&& r.error.data == data
}

impl<D> JSONRPCError<D> {
    fn new(code: u16, data: D) -> (r: Self)
        requires
            is_error_status(code),
        ensures
            fresh_error(r, code, data),
    {
        JSONRPCError {
            id: None,
            error: JSONRPCErrorObject { message: reason_phrase(code), code, data },
            http_code: code,
        }
    }

    /// 400 Bad Request
    pub fn bad_request(data: D) -> (r: Self)
        ensures
            fresh_error(r, 400, data),
    {
        Self::new(400, data)
    }

    /// 401 Unauthorized
    pub fn unauthorized(data: D) -> (r: Self)
        ensures
            fresh_error(r, 401, data),
    {
        Self::new(401, data)
    }

    /// 403 Forbidden
    pub fn forbidden(data: D) -> (r: Self)
        ensures
            fresh_error(r, 403, data),
    {
        Self::new(403, data)
    }

    /// 409 Conflict
    pub fn conflict(data: D) -> (r: Self)
        ensures
            fresh_error(r, 409, data),
    {
        Self::new(409, data)
    }

    /// 500 Internal Server Error
    pub fn internal(data: D) -> (r: Self)
        ensures
            fresh_error(r, 500, data),
    {
        Self::new(500, data)
    }

    /// 404 Not Found
    pub fn not_found(data: D) -> (r: Self)
        ensures
            fresh_error(r, 404, data),
    {
        Self::new(404, data)
    }

    /// Set the request identifier.
    pub fn id(self, id: u128) -> (r: Self)
        ensures
            r.id == Some(id),
            r.error == self.error,
            r.http_code == self.http_code,
    {
        JSONRPCError { id: Some(id), ..self }
    }

    /// Override the error code, independently of the HTTP status code.
    pub fn code(self, code: u16) -> (r: Self)
        ensures
            r.id == self.id,
            r.http_code == self.http_code,
            r.error.code == code,
            r.error.message == self.error.message,
            r.error.data == self.error.data,
    {
        JSONRPCError {
            error: JSONRPCErrorObject { code, ..self.error },
            ..self
        }
    }

    /// Override the error message.
    pub fn message(self, message: &str) -> (r: Self)
        ensures
            r.id == self.id,
            r.http_code == self.http_code,
            r.error.code == self.error.code,
            r.error.message@ == message@,
            r.error.data == self.error.data,
    {
        JSONRPCError {
            error: JSONRPCErrorObject { message: String::from_str(message), ..self.error },
            ..self
        }
    }

    /// Replace the additional data.
    pub fn data(self, data: D) -> (r: Self)
        ensures
            r.id == self.id,
            r.http_code == self.http_code,
            r.error.code == self.error.code,
            r.error.message == self.error.message,
            r.error.data == data,
    {
        JSONRPCError {
            error: JSONRPCErrorObject { data, ..self.error },
            ..self
        }
    }
}

} // verus!
