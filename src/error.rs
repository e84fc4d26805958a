//! The closed taxonomy of internal errors and its mapping to the client-safe
//! status and public error code.

use vstd::prelude::*;

verus! {

/// HTTP status sent with a client error caused by failed credentials.
pub const STATUS_UNAUTHORIZED: u16 = 401;

/// HTTP status sent with a client error caused by missing authentication.
pub const STATUS_FORBIDDEN: u16 = 403;

/// HTTP status sent for any error without a dedicated mapping.
pub const STATUS_INTERNAL_SERVER_ERROR: u16 = 500;

/// Results of the pipeline's fallible steps.
pub type Result<T> = core::result::Result<T, APIError>;

/// Internal error kinds. They never cross the trust boundary: clients only
/// see the `ClientError` they map to.
#[derive(Clone, Copy, Debug, PartialEq, Eq, Structural)]
pub enum APIError {
    LoginFail,
    AuthFailNoAuthTokenCookie,
    AuthFailTokenWrongFormat,
    AuthFailCtxNotInRequestExt,
}

/// Public, detail-free error codes.
#[derive(Clone, Copy, Debug, PartialEq, Eq, Structural)]
#[allow(non_camel_case_types)]
pub enum ClientError {
    LOGIN_FAILED,
    NO_AUTH,
    INVALID_PARAMS,
    SERVICE_ERROR,
}

/// The name of an internal error kind, as it appears in server-side logs.
pub open spec fn kind_name(e: APIError) -> Seq<char> {
    match e {
        APIError::LoginFail => "LoginFail"@,
        APIError::AuthFailNoAuthTokenCookie => "AuthFailNoAuthTokenCookie"@,
        APIError::AuthFailTokenWrongFormat => "AuthFailTokenWrongFormat"@,
        APIError::AuthFailCtxNotInRequestExt => "AuthFailCtxNotInRequestExt"@,
    }
}

/// The text of a public error code.
pub open spec fn client_code(c: ClientError) -> Seq<char> {
    match c {
        ClientError::LOGIN_FAILED => "LOGIN_FAILED"@,
        ClientError::NO_AUTH => "NO_AUTH"@,
        ClientError::INVALID_PARAMS => "INVALID_PARAMS"@,
        ClientError::SERVICE_ERROR => "SERVICE_ERROR"@,
    }
}

/// The status and public code that an internal error kind maps to.
#[allow(unreachable_patterns)]
pub open spec fn status_and_error_of(e: APIError) -> (u16, ClientError) {
    match e {
        APIError::LoginFail => (STATUS_UNAUTHORIZED, ClientError::LOGIN_FAILED),
        APIError::AuthFailNoAuthTokenCookie
        | APIError::AuthFailTokenWrongFormat
        | APIError::AuthFailCtxNotInRequestExt => (STATUS_FORBIDDEN, ClientError::NO_AUTH),
        _ => (STATUS_INTERNAL_SERVER_ERROR, ClientError::SERVICE_ERROR),
    }
}

impl APIError {
    /// Maps the internal error kind to the HTTP status and the public code
    /// that a client may see. Kinds without a dedicated mapping become
    /// `SERVICE_ERROR` with status 500.
    #[allow(unreachable_patterns)]
    pub fn client_status_and_error(&self) -> (r: (u16, ClientError))
        ensures
            r == status_and_error_of(*self),
    {
        match self {
            // Login
            APIError::LoginFail => (STATUS_UNAUTHORIZED, ClientError::LOGIN_FAILED),
            // Auth
            APIError::AuthFailNoAuthTokenCookie
            | APIError::AuthFailTokenWrongFormat
            | APIError::AuthFailCtxNotInRequestExt => (STATUS_FORBIDDEN, ClientError::NO_AUTH),
            // Fallback
            _ => (STATUS_INTERNAL_SERVER_ERROR, ClientError::SERVICE_ERROR),
        }
    }

    /// The name of the kind, for server-side logs only.
    pub fn name(&self) -> (r: &'static str)
        ensures
            r@ == kind_name(*self),
    {
        match self {
            APIError::LoginFail => "LoginFail",
            APIError::AuthFailNoAuthTokenCookie => "AuthFailNoAuthTokenCookie",
            APIError::AuthFailTokenWrongFormat => "AuthFailTokenWrongFormat",
            APIError::AuthFailCtxNotInRequestExt => "AuthFailCtxNotInRequestExt",
        }
    }
}

impl ClientError {
    /// The text of the public code, as clients see it.
    pub fn as_str(&self) -> (r: &'static str)
        ensures
            r@ == client_code(*self),
    {
        match self {
            ClientError::LOGIN_FAILED => "LOGIN_FAILED",
            ClientError::NO_AUTH => "NO_AUTH",
            ClientError::INVALID_PARAMS => "INVALID_PARAMS",
            ClientError::SERVICE_ERROR => "SERVICE_ERROR",
        }
    }
}

/// `needle` occurs in `hay` as a contiguous run.
pub open spec fn occurs_in(needle: Seq<char>, hay: Seq<char>) -> bool {
    exists|i: int|
        0 <= i && i + needle.len() <= hay.len() && #[trigger] hay.subrange(i, i + needle.len())
            == needle
}

/// Upper-case ASCII letters and `_`, the only characters of public codes.
pub open spec fn is_code_char(c: char) -> bool {
    ('A' <= c && c <= 'Z') || c == '_'
}

proof fn lemma_code_chars(c: ClientError)
    ensures
        forall|i: int| 0 <= i < client_code(c).len() ==> is_code_char(#[trigger] client_code(c)[i]),
{
    reveal_strlit("LOGIN_FAILED");
    reveal_strlit("NO_AUTH");
    reveal_strlit("INVALID_PARAMS");
    reveal_strlit("SERVICE_ERROR");
}

proof fn lemma_kind_name_second_char(e: APIError)
    ensures
        kind_name(e).len() >= 9,
        !is_code_char(kind_name(e)[1]),
        forall|i: int| 0 <= i < kind_name(e).len() ==> #[trigger] kind_name(e)[i] != '-' && kind_name(e)[i] != ':',
{
    reveal_strlit("LoginFail");
    reveal_strlit("AuthFailNoAuthTokenCookie");
    reveal_strlit("AuthFailTokenWrongFormat");
    reveal_strlit("AuthFailCtxNotInRequestExt");
}

/// Mapping an internal error never discloses a kind name: no kind name occurs
/// in the public code that any kind maps to.
pub proof fn lemma_code_hides_kind_names(e: APIError, other: APIError)
    ensures
        !occurs_in(kind_name(other), client_code(status_and_error_of(e).1)),
{
    let code = client_code(status_and_error_of(e).1);
    let name = kind_name(other);
    lemma_code_chars(status_and_error_of(e).1);
    lemma_kind_name_second_char(other);
    if occurs_in(name, code) {
        let i = choose|i: int|
            0 <= i && i + name.len() <= code.len() && #[trigger] code.subrange(i, i + name.len())
                == name;
        assert(code.subrange(i, i + name.len())[1] == code[i + 1]);
        assert(is_code_char(code[i + 1]));
    }
}

} // verus!
