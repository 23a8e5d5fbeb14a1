use herding_cats_rust::database_app_state::{
    ConnectionInfo, ConnectionState, DatabaseAppState, DatabaseConfig, DatabaseHealthStatus,
    DatabaseOperationResult, ConfigProblem,
};
use herding_cats_rust::timeutil::TimeSpan;

fn millis(ms: u64) -> TimeSpan {
    TimeSpan::from_millis(ms)
}

#[test]
fn test_database_app_state_creation() {
    let state = DatabaseAppState::new();
    assert_eq!(state.connection_string, "sqlite://herding_cats.db");
    assert_eq!(state.pool_size, 10);
    assert_eq!(state.health_status, DatabaseHealthStatus::Starting);
    assert_eq!(state.successful_operations, 0);
    assert_eq!(state.failed_operations, 0);
}

#[test]
fn test_database_app_state_with_config() {
    let mut config = DatabaseConfig::default();
    config.enable_query_logging = true;
    config.enable_performance_monitoring = false;
    let state = DatabaseAppState::with_config(config);
    assert!(state.config.enable_query_logging);
    assert!(!state.config.enable_performance_monitoring);
}

#[test]
fn test_health_status_update() {
    let mut state = DatabaseAppState::new();
    state.update_health_status(DatabaseHealthStatus::Healthy);
    assert_eq!(state.health_status, DatabaseHealthStatus::Healthy);
    assert!(state.last_health_check.is_some());
}

#[test]
fn test_operation_recording() {
    let mut state = DatabaseAppState::new();
    let duration = millis(100);

    state.record_successful_operation(duration);
    assert_eq!(state.successful_operations, 1);
    assert!(state.average_latency.is_some());

    state.record_failed_operation();
    assert_eq!(state.failed_operations, 1);
}

#[test]
fn test_database_operation_result_success() {
    let data = "test_result".to_string();
    let duration = millis(50);
    let result = DatabaseOperationResult::success(data.clone(), duration);

    assert!(result.is_success());
    assert_eq!(result.data.clone().unwrap(), data);
    assert!(result.error.is_none());
    assert_eq!(result.duration, duration);
}

#[test]
fn test_database_operation_result_failure() {
    let error = "Connection failed".to_string();
    let duration = millis(100);
    let result = DatabaseOperationResult::<String>::failure(error.clone(), duration);

    assert!(!result.is_success());
    assert!(result.data.is_none());
    assert_eq!(result.error.clone().unwrap(), error);
    assert_eq!(result.duration, duration);
}

#[test]
fn test_connection_info_creation() {
    let connection_info = ConnectionInfo {
        id: "conn_123".to_string(),
        state: ConnectionState::Idle,
        last_used: None,
        created_at: std::time::Instant::now(),
        operation_count: 0,
        total_operation_time: TimeSpan { secs: 0, nanos: 0 },
        error_count: 0,
    };

    assert_eq!(connection_info.id, "conn_123");
    assert_eq!(connection_info.state, ConnectionState::Idle);
    assert_eq!(connection_info.operation_count, 0);
}

#[test]
fn retry_is_allowed_below_the_maximum() {
    let state = DatabaseAppState::new();
    assert!(state.should_retry(0));
    assert!(state.should_retry(2));
    assert!(!state.should_retry(3));
}

#[test]
fn running_mean_latency_is_exact() {
    let mut state = DatabaseAppState::new();
    state.record_successful_operation(millis(100));
    state.record_successful_operation(millis(200));
    assert_eq!(state.average_latency, Some(millis(150)));
    state.record_successful_operation(millis(150));
    assert_eq!(state.average_latency, Some(millis(150)));
    state.record_successful_operation(TimeSpan { secs: 0, nanos: 0 });
    // (150 ms * 3 + 0) / 4 = 112.5 ms, kept in whole nanoseconds
    assert_eq!(state.average_latency, Some(TimeSpan { secs: 0, nanos: 112_500_000 }));
}

#[test]
fn steady_latency_keeps_the_mean() {
    let mut state = DatabaseAppState::new();
    for _ in 0..5 {
        state.record_successful_operation(millis(42));
    }
    assert_eq!(state.average_latency, Some(millis(42)));
}

#[test]
fn falling_latency_rounds_the_mean_down() {
    let mut state = DatabaseAppState::new();
    state.record_successful_operation(TimeSpan { secs: 0, nanos: 10 });
    state.record_successful_operation(TimeSpan { secs: 0, nanos: 0 });
    state.record_successful_operation(TimeSpan { secs: 0, nanos: 0 });
    // (5 * 2 + 0) / 3 = 3.33.. ns
    assert_eq!(state.average_latency, Some(TimeSpan { secs: 0, nanos: 3 }));
}

#[test]
fn config_validation_reports_first_problem() {
    let state = DatabaseAppState::new();
    assert!(state.validate_config().is_ok());
    let mut empty = DatabaseAppState::with_connection_string("");
    assert!(matches!(empty.validate_config(), Err(ConfigProblem::EmptyConnectionString)));
    empty.connection_string = "x".to_string();
    empty.pool_size = 0;
    let p = empty.validate_config().unwrap_err();
    assert_eq!(p.message(), "Pool size must be greater than 0");
    empty.pool_size = 1;
    empty.connection_timeout = millis(500);
    assert!(matches!(empty.validate_config(), Err(ConfigProblem::ZeroConnectionTimeout)));
    empty.connection_timeout = TimeSpan::from_secs(1);
    empty.max_retries = 0;
    assert!(matches!(empty.validate_config(), Err(ConfigProblem::ZeroMaxRetries)));
}

#[test]
fn pool_config_follows_state() {
    let state = DatabaseAppState::new();
    let pool = state.get_pool_config();
    assert_eq!(pool.max_connections, 10);
    assert_eq!(pool.min_connections, 1);
    assert_eq!(pool.max_idle_connections, 5);
    assert_eq!(pool.idle_timeout, Some(TimeSpan::from_secs(3600)));
}

#[test]
fn operation_result_accessors() {
    let ok = DatabaseOperationResult::success(7u32, millis(1));
    assert_eq!(ok.clone().unwrap_or(3), 7);
    assert_eq!(ok.clone().ok(), Some(7));
    assert_eq!(ok.err(), None);
    let bad = DatabaseOperationResult::<u32>::failure("boom".to_string(), millis(1));
    assert_eq!(bad.clone().unwrap_or(3), 3);
    assert_eq!(bad.clone().unwrap_or_else(|m: &str| m.len() as u32), 4);
    assert_eq!(bad.err(), Some("boom".to_string()));
}
