//! Error taxonomy of the upstream client and of the service.

use vstd::prelude::*;

verus! {

/// What can go wrong when talking to the upstream service.
#[derive(Debug, Clone)]
pub enum MflError {
    /// The outbound call could not complete.
    Network(String),
    /// A success answer whose body does not have the expected shape.
    JsonParse(String),
    /// A success login answer without the user marker.
    LoginCookieNotFound,
    /// The credential cannot be carried in a request header.
    InvalidHeaderValue(String),
    /// The upstream service answered with a status outside 200..=299.
    ApiStatusError { status: u16, body: String },
    /// The outbound call, or reading its body, failed.
    RequestFailed(String),
    /// The outbound client could not be built.
    ClientInitializationFailed(String),
}

/// What the service reports to its own callers.
#[derive(Debug, Clone)]
pub enum ServiceError {
    InternalServerError,
    BadRequest(String),
    Unauthorized(String),
    MflApiError(MflError),
    MflLoginError(MflError),
    NotFound(String),
}

/// The HTTP status that stands for each kind of service error.
pub open spec fn service_status(e: ServiceError) -> u16 {
    match e {
        ServiceError::InternalServerError => 500,
        ServiceError::BadRequest(_) => 400,
        ServiceError::Unauthorized(_) => 401,
        ServiceError::MflApiError(_) => 500,
        ServiceError::MflLoginError(_) => 401,
        ServiceError::NotFound(_) => 404,
    }
}

impl ServiceError {
    /// The HTTP status that this error is answered with.
    pub fn status_code(&self) -> (r: u16)
        ensures
            r == service_status(*self),
    {
        match self {
            ServiceError::InternalServerError => 500,
            ServiceError::BadRequest(_) => 400,
            ServiceError::Unauthorized(_) => 401,
            ServiceError::MflApiError(_) => 500,
            ServiceError::MflLoginError(_) => 401,
            ServiceError::NotFound(_) => 404,
        }
    }
}

} // verus!
