use herding_cats_rust::cache::Cache;
use herding_cats_rust::file_access::{check_file_access, FileAccessControl, RateLimiter};
use herding_cats_rust::memory::{can_process_file, MemoryTracker};
use herding_cats_rust::strmap::StrMap;
use herding_cats_rust::text::{join_strings, parse_u32, parse_u64, u64_to_string};
use herding_cats_rust::timeutil::{parse_rfc3339, parse_uuid, DateTimeUtc, TimeSpan};
use herding_cats_rust::database::models::codex::{CodexEntry, CodexEntryType, CodexStatus};
use herding_cats_rust::database::models::codex_service::entry_insert_texts;
use herding_cats_rust::error::AppError;

#[test]
fn strmap_insert_get_remove() {
    let mut m: StrMap<u32> = StrMap::new();
    m.insert("a".to_string(), 1);
    m.insert("b".to_string(), 2);
    m.insert("a".to_string(), 3);
    assert_eq!(m.len(), 2);
    assert_eq!(m.get("a"), Some(&3));
    assert!(m.remove("a"));
    assert!(!m.remove("a"));
    assert_eq!(m.get("a"), None);
    assert!(m.contains_key("b"));
}

#[test]
fn decimal_text_round_trips() {
    for n in [0u64, 7, 10, 4_294_967_295, u64::MAX] {
        assert_eq!(parse_u64(&u64_to_string(n)), Some(n));
    }
    assert_eq!(parse_u32("+12"), Some(12));
    assert_eq!(parse_u32("4294967296"), None);
    assert_eq!(parse_u32(""), None);
    assert_eq!(join_strings(&vec!["a".to_string(), "b".to_string()], ", "), "a, b");
}

#[test]
fn times_and_identifiers() {
    let t = parse_rfc3339("2024-03-01T12:00:00+02:00").unwrap();
    assert_eq!(t, DateTimeUtc { secs: 1_709_287_200, nanos: 0 });
    assert_eq!(parse_rfc3339("yesterday"), None);
    let id = parse_uuid("67e55044-10b1-426f-9247-bb680e5fe0c8").unwrap();
    let entry = CodexEntry {
        id,
        project_id: 1,
        entry_type: CodexEntryType::CharacterSheet,
        title: "Ann".to_string(),
        content: "".to_string(),
        status: CodexStatus::Draft,
        created_at: t,
        updated_at: t,
        is_active: true,
        metadata: None,
        sort_order: 0,
    };
    let texts = entry_insert_texts(&entry);
    assert_eq!(texts[0], "67e55044-10b1-426f-9247-bb680e5fe0c8");
    assert_eq!(texts[1], "00000000-0000-0000-0000-000000000001");
    assert_eq!(texts[6], "2024-03-01T10:00:00+00:00");
    assert_eq!(TimeSpan::from_millis(1500), TimeSpan { secs: 1, nanos: 500_000_000 });
    assert_eq!(TimeSpan::from_millis(1500).add(TimeSpan::from_millis(700)), TimeSpan { secs: 2, nanos: 200_000_000 });
    assert_eq!(TimeSpan::from_secs(10).div(4), TimeSpan { secs: 2, nanos: 500_000_000 });
}

#[test]
fn memory_tracking_keeps_the_sum() {
    let mut t = MemoryTracker::new();
    t.track_allocation("a".to_string(), 100);
    t.track_allocation("b".to_string(), 50);
    t.track_allocation("a".to_string(), 30);
    assert_eq!(t.get_total_memory(), 80);
    assert_eq!(t.get_allocation_count(), 2);
    t.release_allocation("b");
    assert_eq!(t.get_total_memory(), 30);
    assert_eq!(t.get_allocation("b"), None);
    t.track_allocation("c".to_string(), 7);
    t.release_allocation("c");
    assert_eq!(t.get_total_memory(), 30);
    t.clear();
    assert_eq!(t.get_total_memory(), 0);
    assert!(can_process_file(&t, 10, 10));
    assert!(!can_process_file(&t, 200 * 1024 * 1024, 0));
}

#[test]
fn cache_holds_fresh_values() {
    let mut c: Cache<String> = Cache::new(300);
    c.set("k".to_string(), "v".to_string());
    assert_eq!(c.size(), 1);
    assert_eq!(c.get("k"), Some("v".to_string()));
    assert_eq!(c.get("missing"), None);
    let mut expired: Cache<String> = Cache::new(0);
    expired.set("k".to_string(), "v".to_string());
    assert_eq!(expired.get("k"), None);
    assert_eq!(expired.size(), 0);
    c.clear();
    assert_eq!(c.size(), 0);
}

#[test]
fn rate_limit_counts_requests_in_the_window() {
    let mut r = RateLimiter::new(2, 60);
    assert!(r.check_rate_limit_at("k", 1_000));
    assert!(r.check_rate_limit_at("k", 1_000));
    assert!(!r.check_rate_limit_at("k", 1_000));
    assert!(r.check_rate_limit_at("other", 1_000));
    assert!(r.check_rate_limit_at("k", 61_001));
}

#[test]
fn file_access_checks_operation_rate_and_size() {
    let mut c = FileAccessControl::new();
    assert!(c.check_access_at("read", "u", Some(10), 5).is_ok());
    match c.check_access_at("chmod", "u", None, 5) {
        Err(AppError::FileError(m)) => assert_eq!(m, "Operation 'chmod' is not allowed"),
        _ => panic!("expected refusal"),
    }
    match c.check_access_at("write", "u", Some(60 * 1024 * 1024), 5) {
        Err(AppError::FileError(m)) => assert_eq!(m, "File size 62914560 exceeds maximum allowed size"),
        _ => panic!("expected refusal"),
    }
    let line = c.audit_log("read", "u", "/tmp/x", true, None);
    assert_eq!(line, "AUDIT: [SUCCESS] operation=read, user=u, path=/tmp/x, details=");
}

#[test]
fn cache_entries_expire_by_their_age() {
    let mut c: Cache<u32> = Cache::new(300);
    c.set("a".to_string(), 1);
    c.set("b".to_string(), 2);
    c.set("a".to_string(), 3);
    assert_eq!(c.size(), 2);
    assert_eq!(c.get_at("a", TimeSpan { secs: 299, nanos: 999_999_999 }), Some(3));
    assert_eq!(c.size(), 2);
    assert_eq!(c.get_at("a", TimeSpan { secs: 300, nanos: 0 }), None);
    assert_eq!(c.size(), 1);
    assert_eq!(c.get_at("a", TimeSpan { secs: 0, nanos: 0 }), None);
    assert_eq!(c.get("b"), Some(2));
}

#[test]
fn refused_operations_count_no_request() {
    let mut c = FileAccessControl::new();
    match check_file_access(&mut c, "delete", "u", None) {
        Err(AppError::FileError(m)) => assert_eq!(m, "Operation 'delete' is not allowed"),
        _ => panic!("expected refusal"),
    }
    assert_eq!(c.rate_limiter.requests.len(), 0);
    assert!(check_file_access(&mut c, "read", "u", Some(10)).is_ok());
    assert_eq!(c.rate_limiter.requests.len(), 1);
}

#[test]
fn tracking_then_releasing_restores_the_count() {
    let mut t = MemoryTracker::new();
    t.track_allocation("a".to_string(), 10);
    let (total, count) = (t.get_total_memory(), t.get_allocation_count());
    t.track_allocation("new".to_string(), 5);
    assert_eq!(t.get_allocation_count(), count + 1);
    t.release_allocation("new");
    assert_eq!((t.get_total_memory(), t.get_allocation_count()), (total, count));
    assert_eq!(t.get_allocation("new"), None);
    t.release_allocation("never");
    assert_eq!((t.get_total_memory(), t.get_allocation_count()), (total, count));
}
