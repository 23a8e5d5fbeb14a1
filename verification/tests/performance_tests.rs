use herding_cats_rust::performance::{PerformanceMetrics, PerformanceMonitor, PerformanceTracker};

#[test]
fn test_performance_metrics() {
    let metrics = PerformanceMetrics::new("test_operation".to_string()).complete(true);

    assert_eq!(metrics.operation_name, "test_operation");
    assert!(metrics.success);
    assert!(metrics.duration_ms.is_some());
    assert!(metrics.end_time.is_some());
}

#[test]
fn test_performance_monitor() {
    let mut monitor = PerformanceMonitor::new();

    let metrics = PerformanceMetrics::new("test_op".to_string());
    let completed = metrics.complete(true);
    monitor.record_metrics(completed);

    assert_eq!(monitor.get_operation_count("test_op"), 1);
    let (successes, total) = monitor.success_counts("test_op");
    assert_eq!(Some(successes as f64 / total as f64), Some(1.0));
    assert!(monitor.get_average_duration("test_op").is_some());
}

#[test]
fn test_performance_tracker() {
    let mut monitor = PerformanceMonitor::new();
    {
        let tracker = PerformanceTracker::new("tracked_op".to_string());
        tracker.finish(&mut monitor);
    }
    assert_eq!(monitor.get_operation_count("tracked_op"), 1);
}

#[test]
fn average_duration_is_the_floor_of_the_mean() {
    let mut monitor = PerformanceMonitor::new();
    monitor.record_metrics(PerformanceMetrics::new_at("op".to_string(), 1000).complete_at(true, 1010));
    monitor.record_metrics(PerformanceMetrics::new_at("op".to_string(), 2000).complete_at(false, 2015));
    monitor.record_metrics(PerformanceMetrics::new_at("other".to_string(), 0).complete_at(true, 100));
    assert_eq!(monitor.get_operation_count("op"), 2);
    assert_eq!(monitor.success_counts("op"), (1, 2));
    assert_eq!(monitor.get_average_duration("op"), Some(12));
    assert_eq!(monitor.get_average_duration("missing"), None);
}

#[test]
fn tracker_data_reaches_the_recorded_metric() {
    let mut monitor = PerformanceMonitor::new();
    let mut tracker = PerformanceTracker::new("tracked_op".to_string());
    tracker.add_data("rows".to_string(), "10".to_string());
    tracker.finish(&mut monitor);
    assert_eq!(monitor.get_operation_count("tracked_op"), 1);
    let m = &monitor.metrics[0];
    assert!(m.success);
    assert_eq!(m.additional_data.get("rows"), Some(&"10".to_string()));
    assert_eq!(m.additional_data.get("tracker"), Some(&"true".to_string()));
}
