use vstd::prelude::*;

verus! {

/// Why a request failed its authorization check: no `authorization` header
/// at all, a header that is not a bearer token, or a bearer token that did
/// not check out against the store.
#[derive(Clone, Copy, Debug, PartialEq, Eq, Structural)]
pub enum AuthorizationError {
    Missing,
    Invalid,
    Unauthorized,
}

impl AuthorizationError {
    /// The HTTP status a failed authorization is reported with: absent or
    /// malformed headers are the client's fault, a rejected token is 401.
    pub fn status_code(&self) -> (r: u16)
        ensures
            *self is Missing ==> r == 400,
            *self is Invalid ==> r == 400,
            *self is Unauthorized ==> r == 401,
    {
        match self {
            AuthorizationError::Missing => 400,
            AuthorizationError::Invalid => 400,
            AuthorizationError::Unauthorized => 401,
        }
    }
}

/// The error taxonomy every endpoint reports through: each variant carries
/// exactly one HTTP status.
#[derive(Clone, Copy, Debug, PartialEq, Eq, Structural)]
pub enum ApiError {
    /// Missing or malformed header or body.
    BadRequest,
    /// Bad credentials, or an invalid or expired token.
    Unauthorized,
    /// Password mismatch on a destructive operation, or registration disabled.
    Forbidden,
    /// Duplicate user at registration.
    Conflict,
    /// Record absent for this user.
    NotFound,
    /// A body that parses but does not fit the schema.
    UnprocessableEntity,
    /// A store write that affected no row, or a failed primitive.
    InternalError,
}

impl ApiError {
    pub fn status_code(&self) -> (r: u16)
        ensures
            *self is BadRequest ==> r == 400,
            *self is Unauthorized ==> r == 401,
            *self is Forbidden ==> r == 403,
            *self is Conflict ==> r == 409,
            *self is NotFound ==> r == 404,
            *self is UnprocessableEntity ==> r == 422,
            *self is InternalError ==> r == 500,
    {
        match self {
            ApiError::BadRequest => 400,
            ApiError::Unauthorized => 401,
            ApiError::Forbidden => 403,
            ApiError::Conflict => 409,
            ApiError::NotFound => 404,
            ApiError::UnprocessableEntity => 422,
            ApiError::InternalError => 500,
        }
    }
}

/// Why a presented token failed the codec's check, mirroring the three ways
/// a signed token can be bad: past its expiry, signed with another secret,
/// or not a token at all.
#[derive(Clone, Copy, Debug, PartialEq, Eq, Structural)]
pub enum TokenError {
    Expired,
    BadSignature,
    Malformed,
}

} // verus!
