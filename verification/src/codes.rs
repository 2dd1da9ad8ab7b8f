//! Stable error codes keyed into the registry, and the error value that
//! carries them to the renderer.

use crate::registry::{get_error_details, spec_error_details, ErrorDefinition};
use crate::render::print_pretty_error;
use vstd::prelude::*;

verus! {

/// Core error codes of the application layer.
#[derive(Debug, Clone, Copy, PartialEq, Eq, Structural)]
pub enum GMNCoreErrorCode {
    /// Unknown core error.
    Unknown,
    /// Bad request.
    BadRequest,
    /// Unauthorized.
    Unauthorized,
    /// Forbidden.
    Forbidden,
    /// Resource not found.
    NotFound,
    /// Conflict.
    Conflict,
    /// Validation error.
    ValidationError,
    /// Too many requests.
    TooManyRequests,
    /// Internal server error.
    InternalServerError,
    /// Not implemented.
    NotImplemented,
    /// Bad gateway.
    BadGateway,
    /// Service unavailable.
    ServiceUnavailable,
    /// Configuration error.
    ConfigurationError,
    /// Invalid input.
    InvalidInput,
    /// Operation failed.
    OperationFailed,
    /// Timeout error.
    TimeoutError,
    /// Resource exhausted.
    ResourceExhausted,
    /// Database error.
    DatabaseError,
    /// Serialization error.
    SerializationError,
    /// File system error.
    FileSystemError,
}

/// The registry key of each core code; the HTTP-like codes follow the
/// HTTP status numbering rather than a sequential one.
pub open spec fn spec_core_key(c: GMNCoreErrorCode) -> Seq<char> {
    match c {
        GMNCoreErrorCode::Unknown => "GMN_CORE_000"@,
        GMNCoreErrorCode::ConfigurationError => "GMN_APP_001"@,
        GMNCoreErrorCode::InvalidInput => "GMN_APP_002"@,
        GMNCoreErrorCode::OperationFailed => "GMN_APP_003"@,
        GMNCoreErrorCode::TimeoutError => "GMN_APP_004"@,
        GMNCoreErrorCode::ResourceExhausted => "GMN_APP_005"@,
        GMNCoreErrorCode::DatabaseError => "GMN_APP_006"@,
        GMNCoreErrorCode::SerializationError => "GMN_APP_007"@,
        GMNCoreErrorCode::FileSystemError => "GMN_APP_008"@,
        GMNCoreErrorCode::BadRequest => "GMN_CORE_400"@,
        GMNCoreErrorCode::Unauthorized => "GMN_CORE_401"@,
        GMNCoreErrorCode::Forbidden => "GMN_CORE_403"@,
        GMNCoreErrorCode::NotFound => "GMN_CORE_404"@,
        GMNCoreErrorCode::Conflict => "GMN_CORE_409"@,
        GMNCoreErrorCode::ValidationError => "GMN_CORE_422"@,
        GMNCoreErrorCode::TooManyRequests => "GMN_CORE_429"@,
        GMNCoreErrorCode::InternalServerError => "GMN_CORE_500"@,
        GMNCoreErrorCode::NotImplemented => "GMN_CORE_501"@,
        GMNCoreErrorCode::BadGateway => "GMN_CORE_502"@,
        GMNCoreErrorCode::ServiceUnavailable => "GMN_CORE_503"@,
    }
}

impl GMNCoreErrorCode {
    /// The registry key of this code.
    pub fn as_key(&self) -> (r: &'static str)
        ensures
            r@ == spec_core_key(*self),
    {
        match self {
            GMNCoreErrorCode::Unknown => "GMN_CORE_000",
            GMNCoreErrorCode::ConfigurationError => "GMN_APP_001",
            GMNCoreErrorCode::InvalidInput => "GMN_APP_002",
            GMNCoreErrorCode::OperationFailed => "GMN_APP_003",
            GMNCoreErrorCode::TimeoutError => "GMN_APP_004",
            GMNCoreErrorCode::ResourceExhausted => "GMN_APP_005",
            GMNCoreErrorCode::DatabaseError => "GMN_APP_006",
            GMNCoreErrorCode::SerializationError => "GMN_APP_007",
            GMNCoreErrorCode::FileSystemError => "GMN_APP_008",
            GMNCoreErrorCode::BadRequest => "GMN_CORE_400",
            GMNCoreErrorCode::Unauthorized => "GMN_CORE_401",
            GMNCoreErrorCode::Forbidden => "GMN_CORE_403",
            GMNCoreErrorCode::NotFound => "GMN_CORE_404",
            GMNCoreErrorCode::Conflict => "GMN_CORE_409",
            GMNCoreErrorCode::ValidationError => "GMN_CORE_422",
            GMNCoreErrorCode::TooManyRequests => "GMN_CORE_429",
            GMNCoreErrorCode::InternalServerError => "GMN_CORE_500",
            GMNCoreErrorCode::NotImplemented => "GMN_CORE_501",
            GMNCoreErrorCode::BadGateway => "GMN_CORE_502",
            GMNCoreErrorCode::ServiceUnavailable => "GMN_CORE_503",
        }
    }
}

/// Every core code's key is present in the registry.
pub proof fn lemma_core_code_known(c: GMNCoreErrorCode)
    ensures
        spec_error_details(spec_core_key(c)) is Some,
{
}

/// Router over the error-code namespaces.
#[derive(Debug, Clone, Copy, PartialEq, Eq, Structural)]
pub enum GMNErrorKind {
    /// An error of the core namespace.
    Core(GMNCoreErrorCode),
}

/// The registry key of a kind, routed to its namespace.
pub open spec fn spec_kind_key(k: GMNErrorKind) -> Seq<char> {
    match k {
        GMNErrorKind::Core(c) => spec_core_key(c),
    }
}

impl GMNErrorKind {
    /// The registry key of this kind.
    pub fn key(&self) -> (r: &'static str)
        ensures
            r@ == spec_kind_key(*self),
    {
        match self {
            GMNErrorKind::Core(c) => c.as_key(),
        }
    }
}

/// An error value: its kind, an optional caller-supplied hint and
/// context, and the source location it was raised at.
#[derive(Debug)]
pub struct GMNError {
    /// Which error this is.
    pub kind: GMNErrorKind,
    /// Optional hint for resolution; overrides the registry's hint.
    pub hint: Option<String>,
    /// Dynamic data such as filenames or identifiers.
    pub context: Option<String>,
    /// Source location, typically `file:line:column`.
    pub location: String,
}

impl GMNError {
    /// Build a core-namespace error with an explicit source location;
    /// callers that can capture their own location pass it here.
    pub fn core_with_location(
        code: GMNCoreErrorCode,
        hint: Option<&str>,
        context: Option<&str>,
        location: String,
    ) -> (r: Self)
        ensures
            r.kind == GMNErrorKind::Core(code),
            match (r.hint, hint) {
                (Some(a), Some(b)) => a@ == b@,
                (None, None) => true,
                _ => false,
            },
            match (r.context, context) {
                (Some(a), Some(b)) => a@ == b@,
                (None, None) => true,
                _ => false,
            },
            r.location == location,
    {
        GMNError {
            kind: GMNErrorKind::Core(code),
            hint: match hint {
                Some(h) => Some(String::from_str(h)),
                None => None,
            },
            context: match context {
                Some(c) => Some(String::from_str(c)),
                None => None,
            },
            location,
        }
    }

    /// Draw this error as a red box on standard error: the registry
    /// supplies title, message and fallback hint for the error's key,
    /// and the value's own hint, context and location fill the rest.
    pub fn pretty_print(&self) {
        let key = self.kind.key();
        proof {
            match self.kind {
                GMNErrorKind::Core(c) => lemma_core_code_known(c),
            }
        }
        let def_opt = get_error_details(key);
        match def_opt {
            Some(def) => {
                let hint: Option<&str> = match &self.hint {
                    Some(h) => Some(h.as_str()),
                    None => match &def.hint {
                        Some(h) => Some(h.as_str()),
                        None => None,
                    },
                };
                let context: Option<&str> = match &self.context {
                    Some(c) => Some(c.as_str()),
                    None => None,
                };
                print_pretty_error(
                    def.title.as_str(),
                    key,
                    def.message.as_str(),
                    context,
                    hint,
                    Some(self.location.as_str()),
                    None,
                );
            },
            None => {
                proof {
                    assert(false);
                }
            },
        }
    }
}

/// Implemented by every error-code value that can be turned into a
/// `GMNError`, so new namespaces can join the same machinery.
pub trait IntoGMNError {
    /// Build the error, with an optional hint and context.
    fn into_gmn_error(self, hint: Option<&str>, context: Option<&str>) -> GMNError;
}

impl IntoGMNError for GMNCoreErrorCode {
    /// A core code becomes a core-namespace error; no caller location is
    /// captured on this path, so the location is left empty.
    fn into_gmn_error(self, hint: Option<&str>, context: Option<&str>) -> GMNError {
        GMNError::core_with_location(self, hint, context, String::new())
    }
}

impl IntoGMNError for GMNError {
    /// An error passes through unchanged; the hint and context of the
    /// existing value win.
    fn into_gmn_error(self, _hint: Option<&str>, _context: Option<&str>) -> GMNError {
        self
    }
}

} // verus!
