//! The error-code registry: title, message and optional hint for each
//! stable error key.

use crate::text::str_eq;
use vstd::prelude::*;

verus! {

/// One registry entry.
pub struct ErrorDefinition {
    /// Short title shown in the box header.
    pub title: String,
    /// Message body.
    pub message: String,
    /// Optional resolution hint.
    pub hint: Option<String>,
}

/// The registry contents: title, message and optional hint for a key, or
/// `None` for a key the registry does not know.
pub open spec fn spec_error_details(code: Seq<char>) -> Option<
    (Seq<char>, Seq<char>, Option<Seq<char>>),
> {
    if code == "GMN_CORE_000"@ {
        Some(
            (
                "Unknown Error"@,
                "An unknown core error occurred."@,
                Some("Check the application logs for details."@),
            ),
        )
    } else if code == "GMN_APP_001"@ {
        Some(
            (
                "Configuration Error"@,
                "The application configuration is invalid."@,
                Some("Review the configuration values and correct the invalid entry."@),
            ),
        )
    } else if code == "GMN_APP_002"@ {
        Some(
            (
                "Invalid Input"@,
                "The provided input is invalid."@,
                Some("Check the input format and try again."@),
            ),
        )
    } else if code == "GMN_APP_003"@ {
        Some(
            (
                "Operation Failed"@,
                "The requested operation could not be completed."@,
                Some("Retry the operation; if it keeps failing, check the logs."@),
            ),
        )
    } else if code == "GMN_APP_004"@ {
        Some(
            (
                "Timeout"@,
                "The operation timed out."@,
                Some("Retry later or increase the configured timeout."@),
            ),
        )
    } else if code == "GMN_APP_005"@ {
        Some(
            (
                "Resource Exhausted"@,
                "A required resource has been exhausted."@,
                Some("Free resources or raise the configured limits."@),
            ),
        )
    } else if code == "GMN_APP_006"@ {
        Some(
            (
                "Database Error"@,
                "A database operation failed."@,
                Some("Check database connectivity and schema."@),
            ),
        )
    } else if code == "GMN_APP_007"@ {
        Some(
            (
                "Serialization Error"@,
                "Data could not be serialized or deserialized."@,
                Some("Verify the data matches the expected format."@),
            ),
        )
    } else if code == "GMN_APP_008"@ {
        Some(
            (
                "File System Error"@,
                "A file system operation failed."@,
                Some("Check that the path exists and permissions allow access."@),
            ),
        )
    } else if code == "GMN_CORE_400"@ {
        Some(
            (
                "Bad Request"@,
                "The request was malformed."@,
                Some("Correct the request parameters."@),
            ),
        )
    } else if code == "GMN_CORE_401"@ {
        Some(
            (
                "Unauthorized"@,
                "Authentication is required."@,
                Some("Provide valid credentials."@),
            ),
        )
    } else if code == "GMN_CORE_403"@ {
        Some(
            (
                "Forbidden"@,
                "Access to this resource is denied."@,
                Some("Request the missing permissions."@),
            ),
        )
    } else if code == "GMN_CORE_404"@ {
        Some(
            (
                "Not Found"@,
                "The requested resource was not found."@,
                Some("Check the identifier or path."@),
            ),
        )
    } else if code == "GMN_CORE_409"@ {
        Some(
            (
                "Conflict"@,
                "The request conflicts with the current state."@,
                Some("Reload the latest state and retry."@),
            ),
        )
    } else if code == "GMN_CORE_422"@ {
        Some(
            (
                "Validation Error"@,
                "The request failed validation."@,
                Some("Correct the highlighted fields."@),
            ),
        )
    } else if code == "GMN_CORE_429"@ {
        Some(
            (
                "Too Many Requests"@,
                "The request rate limit was exceeded."@,
                Some("Wait before sending more requests."@),
            ),
        )
    } else if code == "GMN_CORE_500"@ {
        Some(
            (
                "Internal Server Error"@,
                "An internal server error occurred."@,
                Some("Check the server logs."@),
            ),
        )
    } else if code == "GMN_CORE_501"@ {
        Some(
            (
                "Not Implemented"@,
                "The requested feature is not implemented."@,
                Some("Use a supported operation."@),
            ),
        )
    } else if code == "GMN_CORE_502"@ {
        Some(
            (
                "Bad Gateway"@,
                "An upstream service returned an invalid response."@,
                Some("Check the upstream service's health."@),
            ),
        )
    } else if code == "GMN_CORE_503"@ {
        Some(
            (
                "Service Unavailable"@,
                "The service is temporarily unavailable."@,
                Some("Retry after a short delay."@),
            ),
        )
    } else {
        None
    }
}

/// Look up the registry entry of an error key: exactly the keys of
/// `spec_error_details` are known, and the entry's contents are the ones
/// it gives.
pub fn get_error_details(code: &str) -> (r: Option<ErrorDefinition>)
    ensures
        match spec_error_details(code@) {
            Some(t) => r matches Some(d) && d.title@ == t.0 && d.message@ == t.1 && (match (
                d.hint,
                t.2,
            ) {
                (Some(h), Some(sh)) => h@ == sh,
                (None, None) => true,
                _ => false,
            }),
            None => r is None,
        },
{
    if str_eq(code, "GMN_CORE_000") {
        Some(self::definition("Unknown Error", "An unknown core error occurred.", Some(
            "Check the application logs for details.",
        )))
    } else if str_eq(code, "GMN_APP_001") {
        Some(self::definition("Configuration Error", "The application configuration is invalid.", Some(
            "Review the configuration values and correct the invalid entry.",
        )))
    } else if str_eq(code, "GMN_APP_002") {
        Some(self::definition("Invalid Input", "The provided input is invalid.", Some(
            "Check the input format and try again.",
        )))
    } else if str_eq(code, "GMN_APP_003") {
        Some(self::definition("Operation Failed", "The requested operation could not be completed.", Some(
            "Retry the operation; if it keeps failing, check the logs.",
        )))
    } else if str_eq(code, "GMN_APP_004") {
        Some(self::definition("Timeout", "The operation timed out.", Some(
            "Retry later or increase the configured timeout.",
        )))
    } else if str_eq(code, "GMN_APP_005") {
        Some(self::definition("Resource Exhausted", "A required resource has been exhausted.", Some(
            "Free resources or raise the configured limits.",
        )))
    } else if str_eq(code, "GMN_APP_006") {
        Some(self::definition("Database Error", "A database operation failed.", Some(
            "Check database connectivity and schema.",
        )))
    } else if str_eq(code, "GMN_APP_007") {
        Some(self::definition("Serialization Error", "Data could not be serialized or deserialized.", Some(
            "Verify the data matches the expected format.",
        )))
    } else if str_eq(code, "GMN_APP_008") {
        Some(self::definition("File System Error", "A file system operation failed.", Some(
            "Check that the path exists and permissions allow access.",
        )))
    } else if str_eq(code, "GMN_CORE_400") {
        Some(self::definition("Bad Request", "The request was malformed.", Some(
            "Correct the request parameters.",
        )))
    } else if str_eq(code, "GMN_CORE_401") {
        Some(self::definition("Unauthorized", "Authentication is required.", Some(
            "Provide valid credentials.",
        )))
    } else if str_eq(code, "GMN_CORE_403") {
        Some(self::definition("Forbidden", "Access to this resource is denied.", Some(
            "Request the missing permissions.",
        )))
    } else if str_eq(code, "GMN_CORE_404") {
        Some(self::definition("Not Found", "The requested resource was not found.", Some(
            "Check the identifier or path.",
        )))
    } else if str_eq(code, "GMN_CORE_409") {
        Some(self::definition("Conflict", "The request conflicts with the current state.", Some(
            "Reload the latest state and retry.",
        )))
    } else if str_eq(code, "GMN_CORE_422") {
        Some(self::definition("Validation Error", "The request failed validation.", Some(
            "Correct the highlighted fields.",
        )))
    } else if str_eq(code, "GMN_CORE_429") {
        Some(self::definition("Too Many Requests", "The request rate limit was exceeded.", Some(
            "Wait before sending more requests.",
        )))
    } else if str_eq(code, "GMN_CORE_500") {
        Some(self::definition("Internal Server Error", "An internal server error occurred.", Some(
            "Check the server logs.",
        )))
    } else if str_eq(code, "GMN_CORE_501") {
        Some(self::definition("Not Implemented", "The requested feature is not implemented.", Some(
            "Use a supported operation.",
        )))
    } else if str_eq(code, "GMN_CORE_502") {
        Some(self::definition("Bad Gateway", "An upstream service returned an invalid response.", Some(
            "Check the upstream service's health.",
        )))
    } else if str_eq(code, "GMN_CORE_503") {
        Some(self::definition("Service Unavailable", "The service is temporarily unavailable.", Some(
            "Retry after a short delay.",
        )))
    } else {
        None
    }
}

/// Build one registry entry from its parts.
fn definition(title: &str, message: &str, hint: Option<&str>) -> (r: ErrorDefinition)
    ensures
        r.title@ == title@,
        r.message@ == message@,
        match (r.hint, hint) {
            (Some(h), Some(sh)) => h@ == sh@,
            (None, None) => true,
            _ => false,
        },
{
    ErrorDefinition {
        title: String::from_str(title),
        message: String::from_str(message),
        hint: match hint {
            Some(h) => Some(String::from_str(h)),
            None => None,
        },
    }
}

} // verus!
