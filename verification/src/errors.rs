//! HTTP-facing error taxonomy and its projection from provider errors.

use vstd::prelude::*;
use vstd::string::StringExecFns;

use crate::llm_client::TranslatorErrors;
use crate::swagger::SwaggerExample;

verus! {

pub type ServerResult<T> = Result<T, ServerError>;

/// The transport-facing error kinds returned to API callers. Each carries a
/// message and maps to exactly one HTTP status code (see `spec_status`).
#[derive(Clone, Debug, PartialEq, Eq)]
pub enum ServerError {
    NotFound(String),
    ServiceUnavailable(String),
    Unauthorized(String),
    DeserializeError(String),
    NoCredits(String),
    ModelModerationError(String),
    RateLimited(String),
    InvalidResponse(String),
    IOError(String),
    Timeout(String),
    BadRequest(String),
    InternalError(String),
    SerdeError(String),
    RequestError(String),
}

impl ServerError {
    /// The one HTTP status code of each error kind.
    pub open spec fn spec_status(&self) -> u16 {
        match self {
            ServerError::NotFound(_) => 404,
            ServerError::BadRequest(_) => 400,
            ServerError::DeserializeError(_) => 502,
            ServerError::IOError(_) => 204,
            ServerError::RequestError(_) => 502,
            ServerError::InvalidResponse(_) => 204,
            ServerError::NoCredits(_) => 402,
            ServerError::RateLimited(_) => 429,
            ServerError::Timeout(_) => 408,
            ServerError::ServiceUnavailable(_) => 503,
            ServerError::Unauthorized(_) => 401,
            ServerError::InternalError(_) => 500,
            ServerError::ModelModerationError(_) => 403,
            ServerError::SerdeError(_) => 422,
        }
    }

    /// The message carried by the error, whichever kind it is.
    pub open spec fn spec_message(&self) -> Seq<char> {
        match self {
            ServerError::NotFound(msg) => msg@,
            ServerError::BadRequest(msg) => msg@,
            ServerError::DeserializeError(msg) => msg@,
            ServerError::IOError(msg) => msg@,
            ServerError::RequestError(msg) => msg@,
            ServerError::InvalidResponse(msg) => msg@,
            ServerError::NoCredits(msg) => msg@,
            ServerError::RateLimited(msg) => msg@,
            ServerError::Timeout(msg) => msg@,
            ServerError::ServiceUnavailable(msg) => msg@,
            ServerError::Unauthorized(msg) => msg@,
            ServerError::InternalError(msg) => msg@,
            ServerError::ModelModerationError(msg) => msg@,
            ServerError::SerdeError(msg) => msg@,
        }
    }

    /// The pair an HTTP response is rendered from: the body message and the
    /// status code.
    pub fn status_code(&self) -> (r: (String, u16))
        ensures
            r.0@ == self.spec_message(),
            r.1 == self.spec_status(),
    {
        match self {
            ServerError::NotFound(msg) => (msg.clone(), 404),
            ServerError::BadRequest(msg) => (msg.clone(), 400),
            ServerError::DeserializeError(msg) => (msg.clone(), 502),
            ServerError::IOError(msg) => (msg.clone(), 204),
            ServerError::RequestError(msg) => (msg.clone(), 502),
            ServerError::InvalidResponse(msg) => (msg.clone(), 204),
            ServerError::NoCredits(msg) => (msg.clone(), 402),
            ServerError::RateLimited(msg) => (msg.clone(), 429),
            ServerError::Timeout(msg) => (msg.clone(), 408),
            ServerError::ServiceUnavailable(msg) => (msg.clone(), 503),
            ServerError::Unauthorized(msg) => (msg.clone(), 401),
            ServerError::InternalError(msg) => (msg.clone(), 500),
            ServerError::ModelModerationError(msg) => (msg.clone(), 403),
            ServerError::SerdeError(msg) => (msg.clone(), 422),
        }
    }

    /// Projects a provider error onto the transport taxonomy. Each provider
    /// kind keeps its transport counterpart and gets a fixed client-facing
    /// message in place of the raw detail, except `BadRequest`, whose detail
    /// passes through, and `AnotherError`, which collapses to
    /// `InternalError`.
    pub fn from(err: TranslatorErrors) -> (r: ServerError)
        ensures
            is_transport_of(err, r),
    {
        match err {
            TranslatorErrors::BadRequest(e) => ServerError::BadRequest(e),
            TranslatorErrors::DeserializeError(_e) => ServerError::DeserializeError(
                String::from_str("No image on response of model. Try again."),
            ),
            TranslatorErrors::IOError(_e) => ServerError::IOError(
                String::from_str("File saving or sending error."),
            ),
            TranslatorErrors::RequestError(_e) => ServerError::RequestError(
                String::from_str("Request Error"),
            ),
            TranslatorErrors::InvalidResponse(_e) => ServerError::InvalidResponse(
                String::from_str("Invalid Response from generate API. See the logs"),
            ),
            TranslatorErrors::ModelModerationError(_e) => ServerError::ModelModerationError(
                String::from_str("Model API is on moderation.Try another model"),
            ),
            TranslatorErrors::NoCredits(_e) => ServerError::NoCredits(
                String::from_str("You have not credits on API"),
            ),
            TranslatorErrors::RateLimited(_e) => ServerError::RateLimited(
                String::from_str("Too many requests for API"),
            ),
            TranslatorErrors::ServiceUnavailable(_e) => ServerError::ServiceUnavailable(
                String::from_str("Model provider is unavailable"),
            ),
            TranslatorErrors::Timeout(_e) => ServerError::Timeout(
                String::from_str("API request to model timeout"),
            ),
            TranslatorErrors::Unauthorized(_e) => ServerError::Unauthorized(
                String::from_str("Unauthorized to API"),
            ),
            TranslatorErrors::AnotherError(_e) => ServerError::InternalError(
                String::from_str("Internal server error"),
            ),
        }
    }
}

/// What `ServerError::from` returns for each provider error: the transport
/// kind is a function of the provider kind, and so is the message, except
/// for `BadRequest`, which keeps the provider's own detail.
pub open spec fn is_transport_of(err: TranslatorErrors, r: ServerError) -> bool {
    match err {
        TranslatorErrors::BadRequest(e) => r matches ServerError::BadRequest(m) && m@ == e@,
        TranslatorErrors::DeserializeError(_e) => r matches ServerError::DeserializeError(m) && m@
            == "No image on response of model. Try again."@,
        TranslatorErrors::IOError(_e) => r matches ServerError::IOError(m) && m@
            == "File saving or sending error."@,
        TranslatorErrors::RequestError(_e) => r matches ServerError::RequestError(m) && m@
            == "Request Error"@,
        TranslatorErrors::InvalidResponse(_e) => r matches ServerError::InvalidResponse(m) && m@
            == "Invalid Response from generate API. See the logs"@,
        TranslatorErrors::ModelModerationError(_e) => r matches ServerError::ModelModerationError(
            m,
        ) && m@ == "Model API is on moderation.Try another model"@,
        TranslatorErrors::NoCredits(_e) => r matches ServerError::NoCredits(m) && m@
            == "You have not credits on API"@,
        TranslatorErrors::RateLimited(_e) => r matches ServerError::RateLimited(m) && m@
            == "Too many requests for API"@,
        TranslatorErrors::ServiceUnavailable(_e) => r matches ServerError::ServiceUnavailable(m)
            && m@ == "Model provider is unavailable"@,
        TranslatorErrors::Timeout(_e) => r matches ServerError::Timeout(m) && m@
            == "API request to model timeout"@,
        TranslatorErrors::Unauthorized(_e) => r matches ServerError::Unauthorized(m) && m@
            == "Unauthorized to API"@,
        TranslatorErrors::AnotherError(_e) => r matches ServerError::InternalError(m) && m@
            == "Internal server error"@,
    }
}

/// The HTTP status that the projection of each provider error carries.
pub open spec fn transport_status_spec(err: TranslatorErrors) -> u16 {
    match err {
        TranslatorErrors::BadRequest(_) => 400,
        TranslatorErrors::DeserializeError(_) => 502,
        TranslatorErrors::IOError(_) => 204,
        TranslatorErrors::RequestError(_) => 502,
        TranslatorErrors::InvalidResponse(_) => 204,
        TranslatorErrors::NoCredits(_) => 402,
        TranslatorErrors::ModelModerationError(_) => 403,
        TranslatorErrors::RateLimited(_) => 429,
        TranslatorErrors::ServiceUnavailable(_) => 503,
        TranslatorErrors::Timeout(_) => 408,
        TranslatorErrors::Unauthorized(_) => 401,
        TranslatorErrors::AnotherError(_) => 500,
    }
}

impl SwaggerExample for ServerError {
    type Example = Self;

    /// Without a message: a service-unavailable example. With one: an
    /// internal-error example carrying that message.
    fn example(value: Option<&str>) -> (r: Self::Example)
        ensures
            value is None ==> (r matches ServerError::ServiceUnavailable(m) && m@
                == "Service unavailable"@),
            value matches Some(v) ==> (r matches ServerError::InternalError(m) && m@ == v@),
    {
        match value {
            None => ServerError::ServiceUnavailable(String::from_str("Service unavailable")),
            Some(msg) => ServerError::InternalError(String::from_str(msg)),
        }
    }
}

/// The body of a plain success acknowledgement.
#[derive(Clone, Debug, PartialEq)]
pub struct Success {
    status: u16,
    message: String,
}

impl Success {
    pub closed spec fn spec_status(&self) -> u16 {
        self.status
    }

    pub closed spec fn spec_message(&self) -> Seq<char> {
        self.message@
    }

    pub fn status(&self) -> (r: u16)
        ensures
            r == self.spec_status(),
    {
        self.status
    }

    pub fn message(&self) -> (r: &String)
        ensures
            r@ == self.spec_message(),
    {
        &self.message
    }
}

impl Default for Success {
    /// Status 200 with the message "Ok".
    fn default() -> (r: Self)
        ensures
            r.spec_status() == 200,
            r.spec_message() == "Ok"@,
    {
        Success { status: 200, message: String::from_str("Ok") }
    }
}

impl SwaggerExample for Success {
    type Example = Self;

    fn example(_value: Option<&str>) -> (r: Self::Example)
        ensures
            r.spec_status() == 200,
            r.spec_message() == "Ok"@,
    {
        Success::default()
    }
}

} // verus!
