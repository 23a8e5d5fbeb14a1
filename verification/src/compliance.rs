//! Regulatory compliance: data-protection settings and the audit log, with
//! its retention policy.

use vstd::prelude::*;
use crate::text::copy_opt_string;
use crate::text::str_eq;
use crate::timeutil::unix_secs_now;

verus! {

/// Compliance audit entry (the time in seconds since the Unix epoch).
#[derive(Debug, Clone)]
pub struct AuditEntry {
    pub timestamp: u64,
    pub user_id: Option<String>,
    pub action: String,
    pub resource: String,
    pub result: String,
    pub ip_address: Option<String>,
    pub user_agent: Option<String>,
}

/// Data protection compliance.
#[derive(Debug, Clone, Copy, PartialEq, Eq, Structural)]
pub struct DataProtectionCompliance {
    pub gdpr_compliant: bool,
    pub ccpa_compliant: bool,
    pub hipaa_compliant: bool,
    pub data_retention_days: u32,
}

impl Default for DataProtectionCompliance {
    /// GDPR and CCPA compliant, not HIPAA, a year of retention.
    fn default() -> (d: Self)
        ensures
            d == (DataProtectionCompliance {
                gdpr_compliant: true,
                ccpa_compliant: true,
                hipaa_compliant: false,
                data_retention_days: 365,
            }),
    {
        DataProtectionCompliance {
            gdpr_compliant: true,
            ccpa_compliant: true,
            hipaa_compliant: false,
            data_retention_days: 365,
        }
    }
}

/// A copy of an audit entry.
pub fn copy_entry(e: &AuditEntry) -> (r: AuditEntry)
    ensures
        r == *e,
{
    AuditEntry {
        timestamp: e.timestamp,
        user_id: copy_opt_string(&e.user_id),
        action: e.action.clone(),
        resource: e.resource.clone(),
        result: e.result.clone(),
        ip_address: copy_opt_string(&e.ip_address),
        user_agent: copy_opt_string(&e.user_agent),
    }
}

/// The audit entries of a resource, in order.
pub open spec fn entries_of_resource(log: Seq<AuditEntry>, resource: Seq<char>) -> Seq<AuditEntry> {
    log.filter(|e: AuditEntry| e.resource@ == resource)
}

/// The entries kept after a cleanup with a cutoff: those after it.
pub open spec fn entries_after(log: Seq<AuditEntry>, cutoff: u64) -> Seq<AuditEntry> {
    log.filter(|e: AuditEntry| e.timestamp > cutoff)
}

/// The cutoff of a cleanup at `now`: the retention period before it (zero
/// where that reaches before the epoch).
pub open spec fn retention_cutoff(now: u64, retention_days: u32) -> u64 {
    if now >= retention_days * 86400 { (now - retention_days * 86400) as u64 } else { 0 }
}

/// Compliance service for handling regulatory requirements.
#[derive(Debug, Clone)]
pub struct ComplianceService {
    pub audit_log: Vec<AuditEntry>,
    pub data_protection: DataProtectionCompliance,
}

impl ComplianceService {
    /// A service with an empty audit log and the default data protection.
    pub fn new() -> (s: Self)
        ensures
            s.audit_log@.len() == 0,
            s.data_protection == (DataProtectionCompliance {
                gdpr_compliant: true,
                ccpa_compliant: true,
                hipaa_compliant: false,
                data_retention_days: 365,
            }),
    {
        ComplianceService { audit_log: Vec::new(), data_protection: DataProtectionCompliance::default() }
    }

    /// Appends an audit entry for an action on a resource and its result at
    /// a time (in seconds since the epoch), without user, address or agent.
    pub fn log_audit_at(&mut self, action: &str, resource: &str, result: &str, timestamp: u64)
        ensures
            final(self).data_protection == old(self).data_protection,
            final(self).audit_log@.len() == old(self).audit_log@.len() + 1,
            final(self).audit_log@.drop_last() == old(self).audit_log@,
            final(self).audit_log@.last().timestamp == timestamp,
            final(self).audit_log@.last().action@ == action@,
            final(self).audit_log@.last().resource@ == resource@,
            final(self).audit_log@.last().result@ == result@,
            final(self).audit_log@.last().user_id is None,
            final(self).audit_log@.last().ip_address is None,
            final(self).audit_log@.last().user_agent is None,
    {
        self.audit_log.push(AuditEntry {
            timestamp,
            user_id: None,
            action: action.to_string(),
            resource: resource.to_string(),
            result: result.to_string(),
            ip_address: None,
            user_agent: None,
        });
        assert(self.audit_log@.drop_last() =~= old(self).audit_log@);
    }

    /// Appends an audit entry stamped with the current time.
    pub fn log_audit(&mut self, action: &str, resource: &str, result: &str)
        ensures
            final(self).data_protection == old(self).data_protection,
            final(self).audit_log@.len() == old(self).audit_log@.len() + 1,
            final(self).audit_log@.drop_last() == old(self).audit_log@,
            final(self).audit_log@.last().action@ == action@,
            final(self).audit_log@.last().resource@ == resource@,
            final(self).audit_log@.last().result@ == result@,
            final(self).audit_log@.last().user_id is None,
            final(self).audit_log@.last().ip_address is None,
            final(self).audit_log@.last().user_agent is None,
    {
        let now = unix_secs_now();
        self.log_audit_at(action, resource, result, now);
    }

    /// The audit entries of a resource, in order.
    pub fn get_audit_trail(&self, resource: &str) -> (r: Vec<&AuditEntry>)
        ensures
            r@.map_values(|e: &AuditEntry| *e) == entries_of_resource(self.audit_log@, resource@),
    {
        let mut r: Vec<&AuditEntry> = Vec::new();
        let mut i: usize = 0;
        while i < self.audit_log.len()
            invariant
                i <= self.audit_log@.len(),
                r@.map_values(|e: &AuditEntry| *e) == entries_of_resource(self.audit_log@.take(i as int), resource@),
            decreases self.audit_log@.len() - i,
        {
            let ghost before = r@.map_values(|e: &AuditEntry| *e);
            proof {
                reveal(Seq::filter);
                assert(self.audit_log@.take(i + 1).drop_last() =~= self.audit_log@.take(i as int));
            }
            if str_eq(self.audit_log[i].resource.as_str(), resource) {
                r.push(&self.audit_log[i]);
                assert(r@.map_values(|e: &AuditEntry| *e) =~= before.push(self.audit_log@[i as int]));
            }
            i += 1;
        }
        assert(self.audit_log@.take(i as int) =~= self.audit_log@);
        r
    }

    /// The data protection settings.
    pub fn get_data_protection(&self) -> (r: &DataProtectionCompliance)
        ensures
            *r == self.data_protection,
    {
        &self.data_protection
    }

    /// Replaces the data protection settings.
    pub fn update_data_protection(&mut self, updates: DataProtectionCompliance)
        ensures
            final(self).data_protection == updates,
            final(self).audit_log@ == old(self).audit_log@,
    {
        self.data_protection = updates;
    }

    /// A copy of the audit log.
    pub fn export_audit_log(&self) -> (r: Vec<AuditEntry>)
        ensures
            r@ == self.audit_log@,
    {
        let mut r: Vec<AuditEntry> = Vec::new();
        let mut i: usize = 0;
        while i < self.audit_log.len()
            invariant
                i <= self.audit_log@.len(),
                r@ == self.audit_log@.take(i as int),
            decreases self.audit_log@.len() - i,
        {
            r.push(copy_entry(&self.audit_log[i]));
            assert(r@ =~= self.audit_log@.take(i + 1));
            i += 1;
        }
        assert(self.audit_log@.take(i as int) =~= self.audit_log@);
        r
    }

    /// Drops the entries that are not after the retention cutoff at `now`
    /// (seconds since the epoch), keeping the others in order.
    pub fn cleanup_audit_log_at(&mut self, now: u64)
        ensures
            final(self).data_protection == old(self).data_protection,
            final(self).audit_log@ == entries_after(old(self).audit_log@,
                retention_cutoff(now, old(self).data_protection.data_retention_days)),
    {
        let cutoff = now.saturating_sub((self.data_protection.data_retention_days as u64) * 24 * 60 * 60);
        let ghost log = self.audit_log@;
        let mut kept: Vec<AuditEntry> = Vec::new();
        let mut i: usize = 0;
        while i < self.audit_log.len()
            invariant
                i <= self.audit_log@.len(),
                self.audit_log@ == log,
                kept@ == entries_after(log.take(i as int), cutoff),
            decreases self.audit_log@.len() - i,
        {
            proof {
                reveal(Seq::filter);
                assert(log.take(i + 1).drop_last() =~= log.take(i as int));
            }
            if self.audit_log[i].timestamp > cutoff {
                let ghost before = kept@;
                kept.push(copy_entry(&self.audit_log[i]));
                assert(kept@ =~= before.push(log[i as int]));
            }
            i += 1;
        }
        assert(log.take(i as int) =~= log);
        self.audit_log = kept;
    }

    /// Drops the entries older than the retention period, as of now.
    pub fn cleanup_audit_log(&mut self)
        ensures
            final(self).data_protection == old(self).data_protection,
            exists|now: u64| final(self).audit_log@ == entries_after(old(self).audit_log@,
                retention_cutoff(now, old(self).data_protection.data_retention_days)),
    {
        let now = unix_secs_now();
        self.cleanup_audit_log_at(now);
    }
}

/// Compliance validation result.
#[derive(Debug, Clone)]
pub struct ComplianceCheck {
    pub passed: bool,
    pub issues: Vec<String>,
    pub recommendations: Vec<String>,
}

impl ComplianceCheck {
    /// A passing check, without issues or recommendations.
    pub fn passed() -> (c: Self)
        ensures
            c.passed,
            c.issues@.len() == 0,
            c.recommendations@.len() == 0,
    {
        ComplianceCheck { passed: true, issues: Vec::new(), recommendations: Vec::new() }
    }

    /// A failing check with its issues and recommendations.
    pub fn failed(issues: Vec<String>, recommendations: Vec<String>) -> (c: Self)
        ensures
            !c.passed,
            c.issues == issues,
            c.recommendations == recommendations,
    {
        ComplianceCheck { passed: false, issues, recommendations }
    }
}

/// The compliance check for whether logging and an encryption key are
/// configured: each missing one is an issue with its recommendation; it
/// passes when there is none.
pub fn compliance_check_from(logging_configured: bool, encryption_key_configured: bool) -> (c: ComplianceCheck)
    ensures
        c.passed == (logging_configured && encryption_key_configured),
        crate::text::string_views(c.issues@) == (if logging_configured { Seq::empty() } else { seq!["Logging is not configured"@] })
            + (if encryption_key_configured { Seq::empty() } else { seq!["Encryption key not configured"@] }),
        crate::text::string_views(c.recommendations@) == (if logging_configured { Seq::empty() } else { seq!["Enable structured logging for audit trails"@] })
            + (if encryption_key_configured { Seq::empty() } else { seq!["Set ENCRYPTION_KEY environment variable"@] }),
{
    let mut issues: Vec<String> = Vec::new();
    let mut recommendations: Vec<String> = Vec::new();
    if !logging_configured {
        issues.push("Logging is not configured".to_string());
        recommendations.push("Enable structured logging for audit trails".to_string());
    }
    let ghost i1 = crate::text::string_views(issues@);
    let ghost r1 = crate::text::string_views(recommendations@);
    if !encryption_key_configured {
        issues.push("Encryption key not configured".to_string());
        recommendations.push("Set ENCRYPTION_KEY environment variable".to_string());
    }
    assert(crate::text::string_views(issues@) =~= (if logging_configured { Seq::empty() } else { seq!["Logging is not configured"@] })
        + (if encryption_key_configured { Seq::empty() } else { seq!["Encryption key not configured"@] }));
    assert(crate::text::string_views(recommendations@) =~= (if logging_configured { Seq::empty() } else { seq!["Enable structured logging for audit trails"@] })
        + (if encryption_key_configured { Seq::empty() } else { seq!["Set ENCRYPTION_KEY environment variable"@] }));
    if issues.len() == 0 {
        ComplianceCheck::passed()
    } else {
        ComplianceCheck::failed(issues, recommendations)
    }
}

} // verus!

verus! {

/// An entry just logged is the last of its resource's audit trail, after
/// the trail as it was; the trails of other resources do not change.
pub proof fn law_logged_entry_in_trail(log: Seq<AuditEntry>, e: AuditEntry, resource: Seq<char>)
    ensures
        entries_of_resource(log.push(e), resource) == if e.resource@ == resource {
            entries_of_resource(log, resource).push(e)
        } else {
            entries_of_resource(log, resource)
        },
{
    reveal(Seq::filter);
    assert(log.push(e).drop_last() =~= log);
}

/// An entry logged now survives a cleanup at once, as long as the
/// retention period is not zero and the clock is past the epoch.
pub proof fn law_fresh_entry_survives_cleanup(log: Seq<AuditEntry>, e: AuditEntry, now: u64, retention_days: u32)
    requires
        retention_days > 0,
        now > 0,
        e.timestamp == now,
    ensures
        entries_after(log.push(e), retention_cutoff(now, retention_days))
            == entries_after(log, retention_cutoff(now, retention_days)).push(e),
{
    reveal(Seq::filter);
    assert(log.push(e).drop_last() =~= log);
    assert(e.timestamp > retention_cutoff(now, retention_days));
}

} // verus!
