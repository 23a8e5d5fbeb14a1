use herding_cats_rust::compliance::{compliance_check_from, ComplianceService, DataProtectionCompliance};

#[test]
fn test_compliance_service_creation() {
    let service = ComplianceService::new();
    assert!(service.audit_log.is_empty());
    assert!(service.get_data_protection().gdpr_compliant);
}

#[test]
fn test_audit_logging() {
    let mut service = ComplianceService::new();
    service.log_audit("read", "document", "success");

    assert_eq!(service.audit_log.len(), 1);
    assert_eq!(service.audit_log[0].action, "read");
    assert_eq!(service.audit_log[0].resource, "document");
    assert_eq!(service.audit_log[0].result, "success");
}

#[test]
fn test_compliance_validation() {
    for logging in [false, true] {
        for key in [false, true] {
            let check = compliance_check_from(logging, key);
            assert!(check.passed || !check.issues.is_empty());
        }
    }
}

#[test]
fn audit_trail_lists_entries_of_one_resource_in_order() {
    let mut service = ComplianceService::new();
    service.log_audit_at("read", "doc", "success", 100);
    service.log_audit_at("write", "other", "success", 200);
    service.log_audit_at("delete", "doc", "failure", 300);
    let trail = service.get_audit_trail("doc");
    assert_eq!(trail.len(), 2);
    assert_eq!(trail[0].action, "read");
    assert_eq!(trail[1].action, "delete");
    assert_eq!(trail[1].timestamp, 300);
}

#[test]
fn cleanup_drops_entries_older_than_retention() {
    let mut service = ComplianceService::new();
    service.update_data_protection(DataProtectionCompliance {
        gdpr_compliant: true,
        ccpa_compliant: true,
        hipaa_compliant: false,
        data_retention_days: 1,
    });
    service.log_audit_at("old", "doc", "success", 1_000);
    service.log_audit_at("new", "doc", "success", 200_000);
    service.cleanup_audit_log_at(200_000);
    assert_eq!(service.audit_log.len(), 1);
    assert_eq!(service.audit_log[0].action, "new");
}

#[test]
fn compliance_check_names_each_missing_piece() {
    let check = compliance_check_from(false, false);
    assert!(!check.passed);
    assert_eq!(check.issues, vec!["Logging is not configured".to_string(), "Encryption key not configured".to_string()]);
    let ok = compliance_check_from(true, true);
    assert!(ok.passed);
    assert!(ok.issues.is_empty());
}
