//! Authentication and session tracing vocabulary.

use crate::spans::{span_record_bool, span_record_u64};
use vstd::prelude::*;

verus! {

/// Authentication operation types.
#[derive(Debug, Clone, Copy, PartialEq, Eq, Structural)]
pub enum AuthOperation {
    /// User login.
    Login,
    /// User logout.
    Logout,
    /// Token validation.
    ValidateToken,
    /// Token refresh.
    RefreshToken,
    /// Session creation.
    CreateSession,
    /// Session validation.
    ValidateSession,
    /// Session termination.
    TerminateSession,
    /// API key validation.
    ValidateApiKey,
}

/// The recorded name of each authentication operation.
pub open spec fn spec_auth_op_name(op: AuthOperation) -> Seq<char> {
    match op {
        AuthOperation::Login => "login"@,
        AuthOperation::Logout => "logout"@,
        AuthOperation::ValidateToken => "validate_token"@,
        AuthOperation::RefreshToken => "refresh_token"@,
        AuthOperation::CreateSession => "create_session"@,
        AuthOperation::ValidateSession => "validate_session"@,
        AuthOperation::TerminateSession => "terminate_session"@,
        AuthOperation::ValidateApiKey => "validate_api_key"@,
    }
}

impl AuthOperation {
    /// The string representation of the operation.
    pub fn as_str(&self) -> (r: &'static str)
        ensures
            r@ == spec_auth_op_name(*self),
    {
        match self {
            AuthOperation::Login => "login",
            AuthOperation::Logout => "logout",
            AuthOperation::ValidateToken => "validate_token",
            AuthOperation::RefreshToken => "refresh_token",
            AuthOperation::CreateSession => "create_session",
            AuthOperation::ValidateSession => "validate_session",
            AuthOperation::TerminateSession => "terminate_session",
            AuthOperation::ValidateApiKey => "validate_api_key",
        }
    }
}

/// Record an authentication result on its span.
pub fn record_auth_result(span: &tracing::Span, success: bool, duration_ms: u64) {
    span_record_bool(span, "success", success);
    span_record_u64(span, "duration_ms", duration_ms);
}

/// Record an API key validation result on its span.
pub fn record_api_key_result(span: &tracing::Span, valid: bool, duration_ms: u64) {
    span_record_bool(span, "valid", valid);
    span_record_u64(span, "duration_ms", duration_ms);
}

} // verus!
