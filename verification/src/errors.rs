use vstd::prelude::*;

verus! {

/// Error taxonomy of the service. Every handler-level failure maps to one of
/// these, and each carries a fixed HTTP status code.
#[derive(Clone, Copy, Debug, PartialEq, Eq, Structural)]
pub enum ApiError {
    /// Malformed or mis-targeted request.
    BadRequest,
    /// Missing or invalid credential, or the provider refuses the action.
    Unauthorized,
    /// Authenticated but not entitled.
    Forbidden,
    /// Entity absent.
    NotFound,
    /// Duplicate create.
    Conflict,
    /// Throttled action retried too soon.
    RateLimited,
    /// Upstream fetch failure.
    BadGateway,
    /// Everything else, including provider/catalog inconsistency.
    Internal,
}

impl ApiError {
    /// The HTTP status code this error maps to.
    pub open spec fn spec_status_code(self) -> u16 {
        match self {
            ApiError::BadRequest => 400,
            ApiError::Unauthorized => 401,
            ApiError::Forbidden => 403,
            ApiError::NotFound => 404,
            ApiError::Conflict => 409,
            ApiError::RateLimited => 429,
            ApiError::BadGateway => 502,
            ApiError::Internal => 500,
        }
    }

    pub fn status_code(&self) -> (code: u16)
        ensures
            code == self.spec_status_code(),
    {
        match self {
            ApiError::BadRequest => 400,
            ApiError::Unauthorized => 401,
            ApiError::Forbidden => 403,
            ApiError::NotFound => 404,
            ApiError::Conflict => 409,
            ApiError::RateLimited => 429,
            ApiError::BadGateway => 502,
            ApiError::Internal => 500,
        }
    }
}

} // verus!
