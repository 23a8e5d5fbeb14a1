use herding_cats_rust::error::{
    AppError, AppResult, DatabaseError, DatabaseResult, DefaultErrorHandler, ErrorCategory, ErrorInfo,
    ErrorSeverity,
};
use std::time::Duration;

const DB_ERROR_TYPE: &str = "herding_cats_rust::error::DatabaseError";

#[test]
fn test_database_error_creation() {
    let error = DatabaseError::ConnectionFailed { message: "Connection timeout".to_string() };
    assert!(error.message().contains("Connection failed"));
}

#[test]
fn test_app_error_creation() {
    let error = AppError::ToolInitializationFailed {
        tool: "test_tool".to_string(),
        error: "Initialization error".to_string(),
    };
    assert!(error.message().contains("Tool initialization failed"));
}

#[test]
fn test_error_severity_levels() {
    assert!(matches!(ErrorSeverity::Critical, ErrorSeverity::Critical));
    assert!(matches!(ErrorSeverity::High, ErrorSeverity::High));
    assert!(matches!(ErrorSeverity::Medium, ErrorSeverity::Medium));
    assert!(matches!(ErrorSeverity::Low, ErrorSeverity::Low));
}

#[test]
fn test_error_info_creation() {
    let error = DatabaseError::ConnectionFailed { message: "Test error".to_string() };

    let error_info = ErrorInfo::new(
        error.message().as_str(),
        DB_ERROR_TYPE,
        "test_source",
        ErrorSeverity::High,
        ErrorCategory::Database,
    );

    assert_eq!(error_info.source, "test_source");
    assert_eq!(error_info.severity, ErrorSeverity::High);
    assert_eq!(error_info.category, ErrorCategory::Database);
    assert!(error_info.message.contains("Test error"));
    assert!(!error_info.error_id.is_empty());
}

#[test]
fn test_error_info_with_context() {
    let error = DatabaseError::Timeout { timeout: Duration::from_secs(30) };

    let error_info = ErrorInfo::new(
        error.message().as_str(),
        DB_ERROR_TYPE,
        "test_source",
        ErrorSeverity::High,
        ErrorCategory::Database,
    )
    .with_context("timeout_value", "30")
    .with_resolution("Increase timeout or check database performance")
    .add_cause("Database server overloaded");

    assert_eq!(error_info.context.get("timeout_value"), Some(&"30".to_string()));
    assert_eq!(
        error_info.suggested_resolution,
        Some("Increase timeout or check database performance".to_string())
    );
    assert!(error_info.cause_chain.contains(&"Database server overloaded".to_string()));
}

#[test]
fn test_default_error_handler() {
    let handler = DefaultErrorHandler;
    let error = DatabaseError::ConnectionFailed { message: "Connection timeout".to_string() };

    let error_info = handler.handle_error(error.message().as_str(), DB_ERROR_TYPE, "test_source");
    assert_eq!(error_info.source, "test_source");
    assert!(matches!(error_info.severity, ErrorSeverity::High));

    let line = handler.log_line(&error_info);
    assert!(line.starts_with("ERROR [test_source]: "));
    let suggestions = handler.get_resolution_suggestions(&error_info);
    assert!(!suggestions.is_empty());

    assert!(handler.should_alert(&error_info));
}

#[test]
fn test_error_result_types() {
    let db_result: DatabaseResult<String> = Ok("success".to_string());
    assert!(db_result.is_ok());

    let db_error: DatabaseResult<String> = Err(DatabaseError::NotFound {
        entity: "User".to_string(),
        id: "123".to_string(),
    });
    assert!(db_error.is_err());

    let app_result: AppResult<i32> = Ok(42);
    assert!(app_result.is_ok());

    let app_error: AppResult<i32> = Err(AppError::ToolNotFound { tool: "nonexistent_tool".to_string() });
    assert!(app_error.is_err());
}

#[test]
fn error_timeout_text_shows_the_duration() {
    let error = DatabaseError::Timeout { timeout: Duration::from_secs(30) };
    assert_eq!(error.message(), "Database operation timed out after 30s");
}

#[test]
fn severity_follows_the_words_of_the_message() {
    let handler = DefaultErrorHandler;
    assert_eq!(handler.classify_severity("FATAL crash"), ErrorSeverity::Critical);
    assert_eq!(handler.classify_severity("it failed"), ErrorSeverity::High);
    assert_eq!(handler.classify_severity("a Warning"), ErrorSeverity::Medium);
    assert_eq!(handler.classify_severity("all good"), ErrorSeverity::Low);
}
