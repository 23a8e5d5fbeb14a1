//! Health bookkeeping of the database services and the decisions of the
//! service factory that do not touch the file system.

use vstd::prelude::*;
use crate::database::DatabaseError;
use crate::strmap::{StrMap, entries_map, keys_of, lemma_entries_map_at, lemma_entries_map_domain};
use crate::text::str_concat;
use crate::timeutil::{DateTimeUtc, utc_now};

verus! {

/// Health of one service.
#[derive(Debug, Clone, Copy, PartialEq, Eq, Structural)]
pub enum ServiceHealth {
    Healthy,
    Unhealthy,
    Error,
}

/// Whether some service of the map has the given health.
pub open spec fn some_service_is(m: Map<Seq<char>, ServiceHealth>, h: ServiceHealth) -> bool {
    exists|k: Seq<char>| #[trigger] m.contains_key(k) && m[k] == h
}

/// The worst health among the services: an error anywhere, else an
/// unhealthy service anywhere, else healthy.
pub open spec fn worst_health(m: Map<Seq<char>, ServiceHealth>) -> ServiceHealth {
    if some_service_is(m, ServiceHealth::Error) {
        ServiceHealth::Error
    } else if some_service_is(m, ServiceHealth::Unhealthy) {
        ServiceHealth::Unhealthy
    } else {
        ServiceHealth::Healthy
    }
}

/// The issue recorded for a service in a given health, if any.
pub open spec fn health_issue(name: Seq<char>, h: ServiceHealth) -> Option<Seq<char>> {
    match h {
        ServiceHealth::Healthy => None,
        ServiceHealth::Unhealthy => Some("Service '"@ + name + "' is unhealthy"@),
        ServiceHealth::Error => Some("Service '"@ + name + "' has errors"@),
    }
}

/// Health of each service, the worst of them, when the report was made and
/// the issues found, in the order they were found.
#[derive(Debug, Clone)]
pub struct ServiceHealthStatus {
    pub overall_health: ServiceHealth,
    pub service_healths: StrMap<ServiceHealth>,
    pub timestamp: DateTimeUtc,
    pub issues: Vec<String>,
}

impl ServiceHealthStatus {
    /// Each service is named once.
    pub open spec fn wf(&self) -> bool {
        self.service_healths.wf()
    }

    /// An empty report, unhealthy until a service is added.
    pub fn new() -> (s: Self)
        ensures
            s.wf(),
            s.overall_health == ServiceHealth::Unhealthy,
            s.service_healths.map() == Map::<Seq<char>, ServiceHealth>::empty(),
            s.issues@.len() == 0,
    {
        ServiceHealthStatus {
            overall_health: ServiceHealth::Unhealthy,
            service_healths: StrMap::new(),
            timestamp: utc_now(),
            issues: Vec::new(),
        }
    }

    /// Records the health of a service, notes an issue when it is not
    /// healthy, and sets the overall health to the worst of all services.
    pub fn add_service_health(&mut self, service_name: &str, health: ServiceHealth)
        requires
            old(self).wf(),
        ensures
            final(self).wf(),
            final(self).service_healths.map() == old(self).service_healths.map().insert(service_name@, health),
            final(self).overall_health == worst_health(final(self).service_healths.map()),
            final(self).issues@.map_values(|s: String| s@) == match health_issue(service_name@, health) {
                Some(t) => old(self).issues@.map_values(|s: String| s@).push(t),
                None => old(self).issues@.map_values(|s: String| s@),
            },
            final(self).timestamp == old(self).timestamp,
    {
        self.service_healths.insert(service_name.to_string(), health);
        let ghost before = old(self).issues@.map_values(|s: String| s@);
        match health {
            ServiceHealth::Healthy => {},
            ServiceHealth::Unhealthy => {
                let t = str_concat(str_concat("Service '", service_name).as_str(), "' is unhealthy");
                self.issues.push(t);
                assert(self.issues@.map_values(|s: String| s@) =~= before.push(t@));
            },
            ServiceHealth::Error => {
                let t = str_concat(str_concat("Service '", service_name).as_str(), "' has errors");
                self.issues.push(t);
                assert(self.issues@.map_values(|s: String| s@) =~= before.push(t@));
            },
        }
        let any_error = self.any_with(ServiceHealth::Error);
        let any_unhealthy = self.any_with(ServiceHealth::Unhealthy);
        self.overall_health = if any_error {
            ServiceHealth::Error
        } else if any_unhealthy {
            ServiceHealth::Unhealthy
        } else {
            ServiceHealth::Healthy
        };
    }

    /// Whether some service has the given health.
    fn any_with(&self, h: ServiceHealth) -> (r: bool)
        requires
            self.wf(),
        ensures
            r == some_service_is(self.service_healths.map(), h),
    {
        let entries = &self.service_healths.entries;
        let mut i: usize = 0;
        while i < entries.len()
            invariant
                i <= entries@.len(),
                entries@ == self.service_healths.entries@,
                keys_of(entries@).no_duplicates(),
                forall|j: int| 0 <= j < i ==> entries@[j].1 != h,
            decreases entries@.len() - i,
        {
            if entries[i].1 == h {
                proof {
                    lemma_entries_map_at(entries@, i as int);
                    let k = entries@[i as int].0@;
                    assert(self.service_healths.map().contains_key(k) && self.service_healths.map()[k] == h);
                }
                return true;
            }
            i += 1;
        }
        proof {
            assert forall|k: Seq<char>| #[trigger] self.service_healths.map().contains_key(k)
                implies self.service_healths.map()[k] != h by {
                lemma_entries_map_domain(entries@, k);
                let j = choose|j: int| 0 <= j < keys_of(entries@).len() && keys_of(entries@)[j] == k;
                lemma_entries_map_at(entries@, j);
            }
        }
        false
    }

    /// The recorded health of a service.
    pub fn get_service_health(&self, service_name: &str) -> (r: Option<&ServiceHealth>)
        requires
            self.wf(),
        ensures
            match r {
                Some(h) => self.service_healths.map().contains_key(service_name@)
                    && *h == self.service_healths.map()[service_name@],
                None => !self.service_healths.map().contains_key(service_name@),
            },
    {
        self.service_healths.get(service_name)
    }

    /// Every recorded service health.
    pub fn get_all_service_healths(&self) -> (r: &StrMap<ServiceHealth>)
        ensures
            r == &self.service_healths,
    {
        &self.service_healths
    }
}

/// The report of a health check: the database as found, the other services
/// taken as healthy.
pub fn health_report(database_healthy: bool) -> (s: ServiceHealthStatus)
    ensures
        s.wf(),
        s.service_healths.map() == map![
            "database"@ => if database_healthy { ServiceHealth::Healthy } else { ServiceHealth::Unhealthy },
            "project_management"@ => ServiceHealth::Healthy,
            "vector_embedding"@ => ServiceHealth::Healthy,
            "search"@ => ServiceHealth::Healthy,
            "backup"@ => ServiceHealth::Healthy,
        ],
        s.overall_health == worst_health(s.service_healths.map()),
        s.issues@.len() == if database_healthy { 0nat } else { 1nat },
        !database_healthy ==> s.issues@[0]@ == "Service 'database' is unhealthy"@,
{
    proof {
        reveal_strlit("database");
        reveal_strlit("Service '");
        reveal_strlit("' is unhealthy");
        reveal_strlit("Service 'database' is unhealthy");
        assert("Service '"@ + "database"@ + "' is unhealthy"@ =~= "Service 'database' is unhealthy"@);
    }
    let mut s = ServiceHealthStatus::new();
    let db = if database_healthy { ServiceHealth::Healthy } else { ServiceHealth::Unhealthy };
    s.add_service_health("database", db);
    let ghost first = s.issues@.map_values(|t: String| t@);
    assert(first =~= if database_healthy { Seq::<Seq<char>>::empty() } else {
        seq!["Service 'database' is unhealthy"@] });
    s.add_service_health("project_management", ServiceHealth::Healthy);
    s.add_service_health("vector_embedding", ServiceHealth::Healthy);
    s.add_service_health("search", ServiceHealth::Healthy);
    s.add_service_health("backup", ServiceHealth::Healthy);
    assert(s.issues@.map_values(|t: String| t@) == first);
    assert(s.issues@.len() == first.len());
    if !database_healthy {
        assert(s.issues@[0]@ == first[0]);
    }
    s
}

/// A service that can be restarted.
#[derive(Debug, Clone, Copy, PartialEq, Eq, Structural)]
pub enum RestartableService {
    Database,
    ProjectManagement,
}

/// Which service a name asks to restart; any other name is refused.
pub fn restart_target(service_name: &str) -> (r: Result<RestartableService, DatabaseError>)
    ensures
        service_name@ == "database"@ <==> r == Ok::<RestartableService, DatabaseError>(RestartableService::Database),
        service_name@ == "project_management"@ <==> r == Ok::<RestartableService, DatabaseError>(RestartableService::ProjectManagement),
        r matches Err(e) ==> e matches DatabaseError::Service(m) && m@ == "Unknown service: "@ + service_name@,
{
    proof {
        reveal_strlit("database");
        reveal_strlit("project_management");
        assert("database"@.len() != "project_management"@.len());
    }
    if crate::text::str_eq(service_name, "database") {
        Ok(RestartableService::Database)
    } else if crate::text::str_eq(service_name, "project_management") {
        Ok(RestartableService::ProjectManagement)
    } else {
        Err(DatabaseError::Service(str_concat("Unknown service: ", service_name)))
    }
}

} // verus!
