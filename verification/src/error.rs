use vstd::prelude::*;

verus! {

/// Declares `http::Error` so that error values can carry it.
#[verifier::external_type_specification]
#[verifier::external_body]
pub struct ExHttpError(http::Error);

/// Declares `serde_json::Error` so that error values can carry it.
#[verifier::external_type_specification]
#[verifier::external_body]
pub struct ExJsonError(serde_json::Error);

/// Declares `serde_url_params::Error` so that error values can carry it.
#[verifier::external_type_specification]
#[verifier::external_body]
pub struct ExUrlParamsError(serde_url_params::Error);

/// The place in the source where a custom error was raised.
#[derive(Debug, Clone, PartialEq, Eq)]
pub struct Location {
    pub file: String,
    pub line: u32,
    pub column: u32,
}

/// Errors that originate from this crate
#[derive(Debug)]
pub enum RequestError {
    /// Encountered a non-success http status code that was not handled otherwise
    NonSuccessStatus {
        /// The returned status code.
        status: u16,
        /// The body returned from the request
        body: Vec<u8>,
    },
    /// An error occurred when building a HTTP request
    BuildRequest {
        /// The source http error
        source: http::Error,
    },
    /// Encountered a URL which cannot be a base where a base url was required
    UrlCannotBeABase {
        /// The url which cannot be a base, as its serialization
        url: String,
    },
    /// Couldn't parse a HTTP URI
    ParseUri {
        /// The source invalid uri error
        source: http::uri::InvalidUri,
    },
    /// A query string couldn't be created from the given type
    QueryString {
        /// A message describing the reason for this error
        message: String,
    },
    /// Couldn't create a query from a given string
    SerdeUrlParams {
        /// The source of the serde_url_params error
        source: serde_url_params::Error,
    },
    /// serde_json error
    Json {
        /// The source of the serde_json error
        source: serde_json::Error,
    },
    /// custom error returned e.g. by a custom trait implementation in a different crate
    Custom {
        /// The custom error message
        message: String,
        /// The location where the error happened
        location: Location,
    },
}

/// The status code `401 Unauthorized`.
pub const UNAUTHORIZED: u16 = 401;

/// The status code `404 Not Found`.
pub const NOT_FOUND: u16 = 404;

/// The status code `400 Bad Request`.
pub const BAD_REQUEST: u16 = 400;

/// The status code `500 Internal Server Error`.
pub const INTERNAL_SERVER_ERROR: u16 = 500;

impl RequestError {
    /// The status code that an error carries, where it is a non-success status error.
    pub open spec fn spec_status(self) -> Option<u16> {
        match self {
            RequestError::NonSuccessStatus { status, .. } => Some(status),
            _ => None,
        }
    }

    /// Create a custom error
    pub fn custom(message: String, location: Location) -> (res: Self)
        ensures
            res == (RequestError::Custom { message, location }),
    {
        RequestError::Custom { message, location }
    }

    /// Query whether the error is caused by an HTTP Unauthorized status code
    pub fn is_unauthorized(&self) -> (res: bool)
        ensures
            res == (self.spec_status() == Some(UNAUTHORIZED)),
    {
        self.is_specific_http_error_status(UNAUTHORIZED)
    }

    /// Query whether the error is caused by a HTTP NotFound status code
    pub fn is_not_found(&self) -> (res: bool)
        ensures
            res == (self.spec_status() == Some(NOT_FOUND)),
    {
        self.is_specific_http_error_status(NOT_FOUND)
    }

    /// Query whether the error is caused by a HTTP BadRequest status code
    pub fn is_bad_request(&self) -> (res: bool)
        ensures
            res == (self.spec_status() == Some(BAD_REQUEST)),
    {
        self.is_specific_http_error_status(BAD_REQUEST)
    }

    /// Query whether the error is caused by a HTTP InternalServerError status code
    pub fn is_internal_server_error(&self) -> (res: bool)
        ensures
            res == (self.spec_status() == Some(INTERNAL_SERVER_ERROR)),
    {
        self.is_specific_http_error_status(INTERNAL_SERVER_ERROR)
    }

    /// Query whether the error is caused by a non-success HTTP status code
    pub fn is_http_error_status(&self) -> (res: bool)
        ensures
            res == self.spec_status().is_some(),
    {
        match self {
            RequestError::NonSuccessStatus { .. } => true,
            _ => false,
        }
    }

    /// Query whether the error is caused by a specific HTTP status code
    pub fn is_specific_http_error_status(&self, specific_status: u16) -> (res: bool)
        ensures
            res == (self.spec_status() == Some(specific_status)),
    {
        match self {
            RequestError::NonSuccessStatus { status, .. } => *status == specific_status,
            _ => false,
        }
    }
}

/// The status an error reports is the status it carries: a non-success
/// status error with status `status` is caused by the status `s` exactly
/// where `s == status`, and any other error by no status at all. The status
/// codes that the predicates ask for are 401, 404, 400 and 500.
pub proof fn lemma_error_status(e: RequestError, s: u16)
    ensures
        e.spec_status() == Some(s) <==> (e matches RequestError::NonSuccessStatus { status, .. } && status == s),
        e.spec_status() is None <==> !(e is NonSuccessStatus),
        UNAUTHORIZED == 401u16,
        NOT_FOUND == 404u16,
        BAD_REQUEST == 400u16,
        INTERNAL_SERVER_ERROR == 500u16,
{
}

/// An error caused by one specific status code is an error caused by a
/// non-success status code, and by no other status code.
pub proof fn lemma_specific_status_is_http_error(e: RequestError, status: u16, other: u16)
    requires
        e.spec_status() == Some(status),
    ensures
        e.spec_status().is_some(),
        other != status ==> e.spec_status() != Some(other),
{
}

} // verus!
