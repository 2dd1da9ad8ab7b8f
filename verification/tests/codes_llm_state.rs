//! Error-code registry, provider, agent and initialization-state tests.

use gmn_core::codes::{GMNCoreErrorCode, GMNError, GMNErrorKind, IntoGMNError};
use gmn_core::domains::api::HttpMethod;
use gmn_core::domains::auth::AuthOperation;
use gmn_core::domains::database::DbOperation;
use gmn_core::domains::rate_limit::RateLimitResult;
use gmn_core::providers::{ChatAgent, ChutesLLMProvider, LLMProvider, LLMProviderCapabilities};
use gmn_core::registry::get_error_details;
use gmn_core::schemas::{LLMSchema, Role};
use gmn_core::schemas::openai::OpenAIRole;
use gmn_core::tracing_state::TracingState;

#[test]
fn test_is_initialized() {
    let state = TracingState::new();
    assert!(!state.is_initialized() || state.is_initialized());
}

#[test]
fn test_initialization_claimed_once() {
    let mut state = TracingState::new();
    assert!(!state.is_initialized());
    assert!(!state.swap_initialized());
    assert!(state.is_initialized());
    assert!(state.swap_initialized());
    assert!(state.is_initialized());
}

#[test]
fn test_core_error_keys() {
    assert_eq!(GMNCoreErrorCode::Unknown.as_key(), "GMN_CORE_000");
    assert_eq!(GMNCoreErrorCode::ConfigurationError.as_key(), "GMN_APP_001");
    assert_eq!(GMNCoreErrorCode::FileSystemError.as_key(), "GMN_APP_008");
    assert_eq!(GMNCoreErrorCode::NotFound.as_key(), "GMN_CORE_404");
    assert_eq!(GMNCoreErrorCode::ServiceUnavailable.as_key(), "GMN_CORE_503");
    assert_eq!(GMNErrorKind::Core(GMNCoreErrorCode::ValidationError).key(), "GMN_CORE_422");
}

#[test]
fn test_registry_lookup() {
    let def = get_error_details("GMN_APP_001").expect("known key");
    assert_eq!(def.title, "Configuration Error");
    assert!(!def.message.is_empty());
    assert!(def.hint.is_some());

    assert!(get_error_details("GMN_APP_999").is_none());
    assert!(get_error_details("").is_none());
}

#[test]
fn test_registry_covers_every_code() {
    let codes = vec![
        GMNCoreErrorCode::Unknown,
        GMNCoreErrorCode::BadRequest,
        GMNCoreErrorCode::Unauthorized,
        GMNCoreErrorCode::Forbidden,
        GMNCoreErrorCode::NotFound,
        GMNCoreErrorCode::Conflict,
        GMNCoreErrorCode::ValidationError,
        GMNCoreErrorCode::TooManyRequests,
        GMNCoreErrorCode::InternalServerError,
        GMNCoreErrorCode::NotImplemented,
        GMNCoreErrorCode::BadGateway,
        GMNCoreErrorCode::ServiceUnavailable,
        GMNCoreErrorCode::ConfigurationError,
        GMNCoreErrorCode::InvalidInput,
        GMNCoreErrorCode::OperationFailed,
        GMNCoreErrorCode::TimeoutError,
        GMNCoreErrorCode::ResourceExhausted,
        GMNCoreErrorCode::DatabaseError,
        GMNCoreErrorCode::SerializationError,
        GMNCoreErrorCode::FileSystemError,
    ];
    for code in codes {
        assert!(get_error_details(code.as_key()).is_some());
    }
}

#[test]
fn test_gmn_error_construction_and_print() {
    let e = GMNError::core_with_location(
        GMNCoreErrorCode::InvalidInput,
        Some("try a smaller value"),
        Some("value=9000"),
        String::from("lib.rs:42:7"),
    );
    assert_eq!(e.kind, GMNErrorKind::Core(GMNCoreErrorCode::InvalidInput));
    assert_eq!(e.hint.as_deref(), Some("try a smaller value"));
    assert_eq!(e.context.as_deref(), Some("value=9000"));
    assert_eq!(e.location, "lib.rs:42:7");
    // Drawing the box only writes to standard error.
    e.pretty_print();
}

#[test]
fn test_into_gmn_error() {
    let e = GMNCoreErrorCode::TimeoutError.into_gmn_error(Some("wait longer"), None);
    assert_eq!(e.kind, GMNErrorKind::Core(GMNCoreErrorCode::TimeoutError));
    assert_eq!(e.hint.as_deref(), Some("wait longer"));
    assert!(e.context.is_none());

    let passthrough = e.into_gmn_error(Some("ignored"), Some("ignored"));
    assert_eq!(passthrough.hint.as_deref(), Some("wait longer"));
    assert!(passthrough.context.is_none());
}

#[test]
fn test_operation_names() {
    assert_eq!(HttpMethod::Get.as_str(), "GET");
    assert_eq!(HttpMethod::Options.as_str(), "OPTIONS");
    assert_eq!(AuthOperation::ValidateApiKey.as_str(), "validate_api_key");
    assert_eq!(AuthOperation::Login.as_str(), "login");
    assert_eq!(DbOperation::Select.as_str(), "SELECT");
    assert_eq!(DbOperation::RollbackTransaction.as_str(), "ROLLBACK");
    assert_eq!(RateLimitResult::Allowed.as_str(), "allowed");
    assert_eq!(RateLimitResult::Skipped.as_str(), "skipped");
}

#[test]
fn test_chutes_provider() {
    let mut provider =
        ChutesLLMProvider::new(String::from("SECRET-REDACTED"), String::from("https://llm.example/v1"));
    assert_eq!(provider.name(), "Chutes");
    assert!(provider.capabilities().contains(LLMProviderCapabilities::tools()));
    assert!(matches!(provider.schema(), LLMSchema::Chutes));
    provider.set_capabilities(LLMProviderCapabilities::empty());
    assert!(!provider.capabilities().contains(LLMProviderCapabilities::tools()));
}

#[test]
fn test_chat_agent() {
    let provider =
        ChutesLLMProvider::new(String::from("SECRET-REDACTED"), String::from("https://llm.example/v1"));
    let mut agent = ChatAgent::new(String::from("helper"), provider);
    assert_eq!(agent.name(), "helper");
    assert_eq!(agent.llm_provider().name(), "Chutes");
    let replacement =
        ChutesLLMProvider::new(String::from("SECRET-REDACTED"), String::from("https://other.example"));
    agent.set_llm_provider(replacement);
    assert_eq!(agent.name(), "helper");
    // The stored provider is the one passed in.
    assert_eq!(agent.llm_provider().endpoint, "https://other.example");
}

#[test]
fn test_role_conversions() {
    assert_eq!(OpenAIRole::from(Role::User), OpenAIRole::User);
    assert_eq!(OpenAIRole::from(Role::System), OpenAIRole::System);
    assert_eq!(Role::from(OpenAIRole::Developer), Role::System);
    assert_eq!(Role::from(OpenAIRole::Function), Role::Tool);
    assert_eq!(Role::from(OpenAIRole::Assistant), Role::Assistant);
}
