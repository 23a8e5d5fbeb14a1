//! State kept about the database connection: health, operation counters,
//! latency, retry policy and configuration checks.

use vstd::prelude::*;
use vstd::arithmetic::div_mod::{lemma_fundamental_div_mod, lemma_fundamental_div_mod_converse_div};
use vstd::string::*;
use crate::timeutil::{TimeSpan, instant_now};

verus! {

/// Health of the database.
#[derive(Debug, Clone, Copy, PartialEq, Eq, Structural)]
pub enum DatabaseHealthStatus {
    /// Healthy and accepting connections.
    Healthy,
    /// Experiencing issues.
    Degraded,
    /// Unreachable.
    Unhealthy,
    /// Starting up.
    Starting,
    /// Shutting down.
    ShuttingDown,
}

impl Default for DatabaseHealthStatus {
    fn default() -> (s: Self)
        ensures
            s == DatabaseHealthStatus::Starting,
    {
        DatabaseHealthStatus::Starting
    }
}

/// How failed operations are retried. The growth factor of the exponential
/// strategy is kept as the bit pattern of its `f64` value.
#[derive(Debug, Clone, Copy, PartialEq, Eq, Structural)]
pub enum RetryStrategy {
    /// Delays that grow by a factor after each attempt, up to a maximum.
    ExponentialBackoff { base_delay: TimeSpan, max_delay: TimeSpan, multiplier_bits: u64 },
    /// A delay for a bounded number of attempts.
    LinearBackoff { delay: TimeSpan, max_attempts: u32 },
    /// A fixed delay for a bounded number of attempts.
    FixedDelay { delay: TimeSpan, max_attempts: u32 },
}

/// Bit pattern of the factor 2.0.
pub const DOUBLING_BITS: u64 = 0x4000_0000_0000_0000;

/// The default strategy: from 100 ms, doubling, at most 5 s.
pub open spec fn default_retry_strategy() -> RetryStrategy {
    RetryStrategy::ExponentialBackoff {
        base_delay: TimeSpan { secs: 0, nanos: 100_000_000 },
        max_delay: TimeSpan { secs: 5, nanos: 0 },
        multiplier_bits: DOUBLING_BITS,
    }
}

impl Default for RetryStrategy {
    fn default() -> (s: Self)
        ensures
            s == default_retry_strategy(),
    {
        RetryStrategy::ExponentialBackoff {
            base_delay: TimeSpan::from_millis(100),
            max_delay: TimeSpan::from_secs(5),
            multiplier_bits: DOUBLING_BITS,
        }
    }
}

/// Configuration of the database connection.
#[derive(Debug, Clone)]
pub struct DatabaseConfig {
    pub enable_query_logging: bool,
    pub enable_performance_monitoring: bool,
    pub enable_connection_pooling: bool,
    pub max_idle_connections: u32,
    pub max_connection_lifetime: Option<TimeSpan>,
    pub min_connections: u32,
    pub validation_query: String,
    pub enable_ssl: bool,
    pub ssl_cert_path: Option<String>,
    pub ssl_key_path: Option<String>,
    pub ssl_root_cert_path: Option<String>,
    pub retry_strategy: RetryStrategy,
}

impl Default for DatabaseConfig {
    fn default() -> (c: Self)
        ensures
            !c.enable_query_logging,
            c.enable_performance_monitoring,
            c.enable_connection_pooling,
            c.max_idle_connections == 5,
            c.max_connection_lifetime == Some(TimeSpan { secs: 3600, nanos: 0 }),
            c.min_connections == 1,
            c.validation_query@ == "SELECT 1"@,
            !c.enable_ssl,
            c.ssl_cert_path is None,
            c.ssl_key_path is None,
            c.ssl_root_cert_path is None,
            c.retry_strategy == default_retry_strategy(),
    {
        DatabaseConfig {
            enable_query_logging: false,
            enable_performance_monitoring: true,
            enable_connection_pooling: true,
            max_idle_connections: 5,
            max_connection_lifetime: Some(TimeSpan::from_secs(3600)),
            min_connections: 1,
            validation_query: "SELECT 1".to_string(),
            enable_ssl: false,
            ssl_cert_path: None,
            ssl_key_path: None,
            ssl_root_cert_path: None,
            retry_strategy: RetryStrategy::default(),
        }
    }
}

/// Statistics of a connection pool.
#[derive(Debug, Clone, Copy, PartialEq, Eq, Structural)]
pub struct ConnectionPoolStats {
    pub current_connections: u32,
    pub max_connections: u32,
    pub min_connections: u32,
    pub idle_connections: u32,
    pub busy_connections: u32,
    pub pending_requests: u32,
    pub creation_failures: u64,
    pub timeouts: u64,
}

/// Counters reported about the database. Rates and percentiles, which are
/// fractional, are computed by the program from these.
#[derive(Debug, Clone)]
pub struct DatabaseStats {
    pub total_operations: u64,
    pub successful_operations: u64,
    pub failed_operations: u64,
    pub average_latency: Option<TimeSpan>,
    pub p95_latency: Option<TimeSpan>,
    pub p99_latency: Option<TimeSpan>,
    pub max_latency: Option<TimeSpan>,
    pub min_latency: Option<TimeSpan>,
    pub pool_stats: Option<ConnectionPoolStats>,
}

/// Configuration of a connection pool.
#[derive(Debug, Clone, Copy, PartialEq, Eq, Structural)]
pub struct PoolConfig {
    pub min_connections: u32,
    pub max_connections: u32,
    pub max_idle_connections: u32,
    pub connection_timeout: TimeSpan,
    pub idle_timeout: Option<TimeSpan>,
}

/// Why a configuration is refused.
#[derive(Debug, Clone, Copy, PartialEq, Eq, Structural)]
pub enum ConfigProblem {
    EmptyConnectionString,
    ZeroPoolSize,
    ZeroConnectionTimeout,
    ZeroOperationTimeout,
    ZeroMaxRetries,
}

impl ConfigProblem {
    pub open spec fn spec_message(self) -> Seq<char> {
        match self {
            ConfigProblem::EmptyConnectionString => "Connection string cannot be empty"@,
            ConfigProblem::ZeroPoolSize => "Pool size must be greater than 0"@,
            ConfigProblem::ZeroConnectionTimeout => "Connection timeout must be greater than 0"@,
            ConfigProblem::ZeroOperationTimeout => "Operation timeout must be greater than 0"@,
            ConfigProblem::ZeroMaxRetries => "Max retries must be greater than 0"@,
        }
    }

    /// The message of the problem.
    pub fn message(&self) -> (r: String)
        ensures
            r@ == self.spec_message(),
    {
        match self {
            ConfigProblem::EmptyConnectionString => "Connection string cannot be empty".to_string(),
            ConfigProblem::ZeroPoolSize => "Pool size must be greater than 0".to_string(),
            ConfigProblem::ZeroConnectionTimeout => "Connection timeout must be greater than 0".to_string(),
            ConfigProblem::ZeroOperationTimeout => "Operation timeout must be greater than 0".to_string(),
            ConfigProblem::ZeroMaxRetries => "Max retries must be greater than 0".to_string(),
        }
    }
}

/// State of the database as the application sees it.
#[derive(Debug, Clone)]
pub struct DatabaseAppState {
    pub connection_string: String,
    pub pool_size: u32,
    pub connection_timeout: TimeSpan,
    pub operation_timeout: TimeSpan,
    pub max_retries: u32,
    pub retry_backoff: TimeSpan,
    pub health_status: DatabaseHealthStatus,
    pub last_health_check: Option<std::time::Instant>,
    pub successful_operations: u64,
    pub failed_operations: u64,
    pub total_connection_time: TimeSpan,
    pub average_latency: Option<TimeSpan>,
    pub database_version: String,
    pub migration_version: u32,
    pub config: DatabaseConfig,
}

/// The largest number of nanoseconds a latency is kept with.
pub open spec fn max_latency_nanos() -> int {
    u64::MAX as int
}

/// The running mean after the `n`-th of a series of latencies, the mean of
/// the first `n - 1` being `cur` and the new one `d`, in whole nanoseconds
/// and capped at `u64::MAX` nanoseconds.
pub open spec fn next_average(cur: int, n: int, d: int) -> int {
    let exact = (cur * (n - 1) + d) / n;
    if exact > max_latency_nanos() { max_latency_nanos() } else { exact }
}

proof fn lemma_running_mean(cur: int, n: int, d: int)
    requires
        cur >= 0,
        d >= 0,
        n >= 1,
    ensures
        d >= cur ==> (cur * (n - 1) + d) / n == cur + (d - cur) / n,
        d < cur ==> (cur * (n - 1) + d) / n == cur - ((cur - d) + n - 1) / n,
{
    if d >= cur {
        let x = d - cur;
        let q0 = x / n;
        let r0 = x % n;
        lemma_fundamental_div_mod(x, n);
        assert(cur * (n - 1) + d == (cur + q0) * n + r0) by (nonlinear_arith)
            requires
                x == n * q0 + r0,
                x == d - cur,
        ;
        lemma_fundamental_div_mod_converse_div(cur * (n - 1) + d, n, cur + q0, r0);
    } else {
        let k = cur - d;
        let c = (k + n - 1) / n;
        let m = (k + n - 1) % n;
        lemma_fundamental_div_mod(k + n - 1, n);
        assert(cur * (n - 1) + d == (cur - c) * n + (n - 1 - m)) by (nonlinear_arith)
            requires
                k + n - 1 == n * c + m,
                k == cur - d,
        ;
        lemma_fundamental_div_mod_converse_div(cur * (n - 1) + d, n, cur - c, n - 1 - m);
    }
}

/// A span of nanoseconds (`Duration::from_nanos`).
pub fn span_from_nanos(n: u64) -> (t: TimeSpan)
    ensures
        t.wf(),
        t.total_nanos() == n,
{
    let t = TimeSpan { secs: n / 1_000_000_000, nanos: (n % 1_000_000_000) as u32 };
    assert(t.total_nanos() == n) by (nonlinear_arith)
        requires
            t.secs == n / 1_000_000_000,
            t.nanos == n % 1_000_000_000,
    ;
    t
}

/// The default state: SQLite file `herding_cats.db`, ten connections, 30 s
/// to connect, 60 s per operation, three retries 100 ms apart, starting.
pub open spec fn is_default_state(s: DatabaseAppState) -> bool {
    &&& s.pool_size == 10
    &&& s.connection_timeout == TimeSpan { secs: 30, nanos: 0 }
    &&& s.operation_timeout == TimeSpan { secs: 60, nanos: 0 }
    &&& s.max_retries == 3
    &&& s.retry_backoff == TimeSpan { secs: 0, nanos: 100_000_000 }
    &&& s.health_status == DatabaseHealthStatus::Starting
    &&& s.last_health_check is None
    &&& s.successful_operations == 0
    &&& s.failed_operations == 0
    &&& s.total_connection_time == TimeSpan { secs: 0, nanos: 0 }
    &&& s.average_latency is None
    &&& s.database_version@ == "1.0.0"@
    &&& s.migration_version == 1
}

impl Default for DatabaseAppState {
    fn default() -> (s: Self)
        ensures
            is_default_state(s),
            s.connection_string@ == "sqlite://herding_cats.db"@,
            s.config.retry_strategy == default_retry_strategy(),
            !s.config.enable_query_logging,
            s.config.enable_performance_monitoring,
            s.config.max_idle_connections == 5,
            s.config.min_connections == 1,
            s.config.max_connection_lifetime == Some(TimeSpan { secs: 3600, nanos: 0 }),
    {
        DatabaseAppState {
            connection_string: "sqlite://herding_cats.db".to_string(),
            pool_size: 10,
            connection_timeout: TimeSpan::from_secs(30),
            operation_timeout: TimeSpan::from_secs(60),
            max_retries: 3,
            retry_backoff: TimeSpan::from_millis(100),
            health_status: DatabaseHealthStatus::Starting,
            last_health_check: None,
            successful_operations: 0,
            failed_operations: 0,
            total_connection_time: TimeSpan { secs: 0, nanos: 0 },
            average_latency: None,
            database_version: "1.0.0".to_string(),
            migration_version: 1,
            config: DatabaseConfig::default(),
        }
    }
}

impl DatabaseAppState {
    /// The spans held are well formed.
    pub open spec fn wf(&self) -> bool {
        &&& self.connection_timeout.wf()
        &&& self.operation_timeout.wf()
        &&& self.retry_backoff.wf()
        &&& self.total_connection_time.wf()
        &&& (self.average_latency matches Some(a) ==> a.wf())
    }

    /// The default state.
    pub fn new() -> (s: Self)
        ensures
            s.wf(),
            is_default_state(s),
            s.connection_string@ == "sqlite://herding_cats.db"@,
            s.config.retry_strategy == default_retry_strategy(),
            !s.config.enable_query_logging,
            s.config.enable_performance_monitoring,
    {
        Self::default()
    }

    /// The default state with the given configuration.
    pub fn with_config(config: DatabaseConfig) -> (s: Self)
        ensures
            s.wf(),
            is_default_state(s),
            s.connection_string@ == "sqlite://herding_cats.db"@,
            s.config == config,
    {
        let mut s = Self::default();
        s.config = config;
        s
    }

    /// The default state with the given connection string.
    pub fn with_connection_string(connection_string: &str) -> (s: Self)
        ensures
            s.wf(),
            is_default_state(s),
            s.connection_string@ == connection_string@,
            s.config.retry_strategy == default_retry_strategy(),
    {
        let mut s = Self::default();
        s.connection_string = connection_string.to_string();
        s
    }

    /// Records a health status, and that it was checked now.
    pub fn update_health_status(&mut self, status: DatabaseHealthStatus)
        ensures
            final(self).health_status == status,
            final(self).last_health_check is Some,
            final(self).connection_string == old(self).connection_string,
            final(self).successful_operations == old(self).successful_operations,
            final(self).failed_operations == old(self).failed_operations,
            final(self).average_latency == old(self).average_latency,
            final(self).wf() == old(self).wf(),
    {
        self.health_status = status;
        self.last_health_check = Some(instant_now());
    }

    /// Records a successful operation and folds its duration into the
    /// running mean latency.
    pub fn record_successful_operation(&mut self, duration: TimeSpan)
        requires
            old(self).wf(),
            duration.wf(),
            old(self).successful_operations < u64::MAX,
        ensures
            final(self).wf(),
            final(self).successful_operations == old(self).successful_operations + 1,
            final(self).failed_operations == old(self).failed_operations,
            final(self).health_status == old(self).health_status,
            final(self).total_connection_time == old(self).total_connection_time,
            final(self).successful_operations == 1 ==> final(self).average_latency == Some(duration),
            final(self).successful_operations > 1 ==> match old(self).average_latency {
                None => final(self).average_latency is None,
                Some(cur) => final(self).average_latency matches Some(a) && a.total_nanos()
                    == next_average(cur.total_nanos(), final(self).successful_operations as int, duration.total_nanos()),
            },
    {
        self.successful_operations = self.successful_operations + 1;
        self.update_average_latency(duration);
    }

    fn update_average_latency(&mut self, duration: TimeSpan)
        requires
            old(self).wf(),
            duration.wf(),
            old(self).successful_operations >= 1,
        ensures
            final(self).wf(),
            final(self).successful_operations == old(self).successful_operations,
            final(self).failed_operations == old(self).failed_operations,
            final(self).health_status == old(self).health_status,
            final(self).total_connection_time == old(self).total_connection_time,
            old(self).successful_operations == 1 ==> final(self).average_latency == Some(duration),
            old(self).successful_operations > 1 ==> match old(self).average_latency {
                None => final(self).average_latency is None,
                Some(cur) => final(self).average_latency matches Some(a) && a.total_nanos()
                    == next_average(cur.total_nanos(), old(self).successful_operations as int, duration.total_nanos()),
            },
    {
        let total_ops = self.successful_operations;
        if total_ops == 1 {
            self.average_latency = Some(duration);
        } else if let Some(current) = self.average_latency {
            let cur: u128 = current.secs as u128 * 1_000_000_000 + current.nanos as u128;
            let d: u128 = duration.secs as u128 * 1_000_000_000 + duration.nanos as u128;
            let n: u128 = total_ops as u128;
            proof {
                lemma_running_mean(cur as int, n as int, d as int);
            }
            let mean: u128 = if d >= cur {
                let x: u128 = d - cur;
                let q: u128 = x / n;
                assert(q <= x) by (nonlinear_arith)
                    requires q == x / n, n >= 1;
                cur + q
            } else {
                let k: u128 = cur - d;
                let y: u128 = k + (n - 1);
                let q: u128 = y / n;
                assert(q <= k) by (nonlinear_arith)
                    requires q == y / n, y == k + (n - 1), n >= 1, k >= 1;
                cur - q
            };
            let capped: u64 = if mean > u64::MAX as u128 { u64::MAX } else { mean as u64 };
            self.average_latency = Some(span_from_nanos(capped));
        }
    }

    /// Records a failed operation.
    pub fn record_failed_operation(&mut self)
        requires
            old(self).failed_operations < u64::MAX,
        ensures
            final(self).failed_operations == old(self).failed_operations + 1,
            final(self).successful_operations == old(self).successful_operations,
            final(self).average_latency == old(self).average_latency,
            final(self).health_status == old(self).health_status,
            final(self).wf() == old(self).wf(),
    {
        self.failed_operations = self.failed_operations + 1;
    }

    /// The current health status.
    pub fn get_health_status(&self) -> (r: DatabaseHealthStatus)
        ensures
            r == self.health_status,
    {
        self.health_status
    }

    /// Whether the database is healthy.
    pub fn is_healthy(&self) -> (r: bool)
        ensures
            r == (self.health_status == DatabaseHealthStatus::Healthy),
    {
        matches!(self.health_status, DatabaseHealthStatus::Healthy)
    }

    /// Adds to the total time spent connected.
    pub fn update_connection_time(&mut self, duration: TimeSpan)
        requires
            old(self).wf(),
            duration.wf(),
            old(self).total_connection_time.total_nanos() + duration.total_nanos()
                < (u64::MAX as int + 1) * 1_000_000_000,
        ensures
            final(self).wf(),
            final(self).total_connection_time.total_nanos()
                == old(self).total_connection_time.total_nanos() + duration.total_nanos(),
            final(self).successful_operations == old(self).successful_operations,
            final(self).failed_operations == old(self).failed_operations,
            final(self).average_latency == old(self).average_latency,
    {
        self.total_connection_time = self.total_connection_time.add(duration);
    }

    /// The counters of the state; what is not tracked is `None`.
    pub fn get_stats(&self) -> (r: DatabaseStats)
        requires
            self.successful_operations + self.failed_operations <= u64::MAX,
        ensures
            r.total_operations == self.successful_operations + self.failed_operations,
            r.successful_operations == self.successful_operations,
            r.failed_operations == self.failed_operations,
            r.average_latency == self.average_latency,
            r.p95_latency is None,
            r.p99_latency is None,
            r.max_latency is None,
            r.min_latency is None,
            r.pool_stats is None,
    {
        DatabaseStats {
            total_operations: self.successful_operations + self.failed_operations,
            successful_operations: self.successful_operations,
            failed_operations: self.failed_operations,
            average_latency: self.average_latency,
            p95_latency: None,
            p99_latency: None,
            max_latency: None,
            min_latency: None,
            pool_stats: None,
        }
    }

    /// Whether an operation may be tried again after the given attempt.
    pub fn should_retry(&self, attempt: u32) -> (r: bool)
        ensures
            r == (attempt < self.max_retries),
    {
        attempt < self.max_retries
    }

    /// The first problem of the configuration, in the order the checks run.
    pub open spec fn config_problem(self) -> Option<ConfigProblem> {
        if self.connection_string@.len() == 0 {
            Some(ConfigProblem::EmptyConnectionString)
        } else if self.pool_size == 0 {
            Some(ConfigProblem::ZeroPoolSize)
        } else if self.connection_timeout.secs == 0 {
            Some(ConfigProblem::ZeroConnectionTimeout)
        } else if self.operation_timeout.secs == 0 {
            Some(ConfigProblem::ZeroOperationTimeout)
        } else if self.max_retries == 0 {
            Some(ConfigProblem::ZeroMaxRetries)
        } else {
            None
        }
    }

    /// Checks the configuration; a timeout under one whole second counts as
    /// zero.
    pub fn validate_config(&self) -> (r: Result<(), ConfigProblem>)
        ensures
            r is Ok <==> self.config_problem() is None,
            r matches Err(p) ==> self.config_problem() == Some(p),
    {
        if self.connection_string.as_str().unicode_len() == 0 {
            return Err(ConfigProblem::EmptyConnectionString);
        }
        if self.pool_size == 0 {
            return Err(ConfigProblem::ZeroPoolSize);
        }
        if self.connection_timeout.secs == 0 {
            return Err(ConfigProblem::ZeroConnectionTimeout);
        }
        if self.operation_timeout.secs == 0 {
            return Err(ConfigProblem::ZeroOperationTimeout);
        }
        if self.max_retries == 0 {
            return Err(ConfigProblem::ZeroMaxRetries);
        }
        Ok(())
    }

    /// The pool configuration the state calls for.
    pub fn get_pool_config(&self) -> (r: PoolConfig)
        ensures
            r.min_connections == self.config.min_connections,
            r.max_connections == self.pool_size,
            r.max_idle_connections == self.config.max_idle_connections,
            r.connection_timeout == self.connection_timeout,
            r.idle_timeout == self.config.max_connection_lifetime,
    {
        PoolConfig {
            min_connections: self.config.min_connections,
            max_connections: self.pool_size,
            max_idle_connections: self.config.max_idle_connections,
            connection_timeout: self.connection_timeout,
            idle_timeout: self.config.max_connection_lifetime,
        }
    }
}

/// The outcome of a database operation with its duration.
#[derive(Debug, Clone)]
pub struct DatabaseOperationResult<T> {
    pub success: bool,
    pub data: Option<T>,
    pub error: Option<String>,
    pub duration: TimeSpan,
    pub retry_count: u32,
    pub completed_at: std::time::Instant,
}

impl<T> DatabaseOperationResult<T> {
    /// A successful outcome holding its data.
    pub fn success(data: T, duration: TimeSpan) -> (r: Self)
        ensures
            r.success,
            r.data == Some(data),
            r.error is None,
            r.duration == duration,
            r.retry_count == 0,
    {
        DatabaseOperationResult {
            success: true,
            data: Some(data),
            error: None,
            duration,
            retry_count: 0,
            completed_at: instant_now(),
        }
    }

    /// A failed outcome holding its error message.
    pub fn failure(error: String, duration: TimeSpan) -> (r: Self)
        ensures
            !r.success,
            r.data is None,
            r.error == Some(error),
            r.duration == duration,
            r.retry_count == 0,
    {
        DatabaseOperationResult {
            success: false,
            data: None,
            error: Some(error),
            duration,
            retry_count: 0,
            completed_at: instant_now(),
        }
    }

    /// Whether the operation succeeded.
    pub fn is_success(&self) -> (r: bool)
        ensures
            r == self.success,
    {
        self.success
    }

    /// The data of an outcome that holds some.
    pub fn unwrap(self) -> (r: T)
        requires
            self.data is Some,
        ensures
            r == self.data->0,
    {
        match self.data {
            Some(data) => data,
            None => { proof { assert(false); } unreached() },
        }
    }

    /// The data, or the given default.
    pub fn unwrap_or(self, default: T) -> (r: T)
        ensures
            r == match self.data {
                Some(d) => d,
                None => default,
            },
    {
        match self.data {
            Some(d) => d,
            None => default,
        }
    }

    /// The text handed to the fallback of `unwrap_or_else`: the error
    /// message, or "Unknown error".
    pub open spec fn fallback_text(self) -> Seq<char> {
        match self.error {
            Some(e) => e@,
            None => "Unknown error"@,
        }
    }

    /// The data, or what the fallback computes from the error message.
    pub fn unwrap_or_else<F>(self, f: F) -> (r: T)
        where
            F: FnOnce(&str) -> T,
        requires
            self.data is None ==> forall|s: &str| s@ == self.fallback_text() ==> f.requires((s,)),
        ensures
            self.data matches Some(d) ==> r == d,
            self.data is None ==> exists|s: &str| s@ == self.fallback_text() && f.ensures((s,), r),
    {
        match self.data {
            Some(d) => d,
            None => {
                let unknown = "Unknown error".to_string();
                let text: &str = match &self.error {
                    Some(e) => e.as_str(),
                    None => unknown.as_str(),
                };
                f(text)
            },
        }
    }

    /// The data as an option.
    pub fn ok(self) -> (r: Option<T>)
        ensures
            r == self.data,
    {
        self.data
    }

    /// The error message of a failed outcome.
    pub fn err(self) -> (r: Option<String>)
        ensures
            r == if self.success { None } else { self.error },
    {
        if self.success {
            None
        } else {
            self.error
        }
    }
}

/// State of a pooled connection.
#[derive(Debug, Clone, Copy, PartialEq, Eq, Structural)]
pub enum ConnectionState {
    Idle,
    Busy,
    Connecting,
    Closing,
    Errored,
}

impl Default for ConnectionState {
    fn default() -> (s: Self)
        ensures
            s == ConnectionState::Connecting,
    {
        ConnectionState::Connecting
    }
}

/// A pooled connection and its use.
#[derive(Debug, Clone)]
pub struct ConnectionInfo {
    pub id: String,
    pub state: ConnectionState,
    pub last_used: Option<std::time::Instant>,
    pub created_at: std::time::Instant,
    pub operation_count: u64,
    pub total_operation_time: TimeSpan,
    pub error_count: u64,
}

} // verus!

verus! {

/// When every operation takes the same time, the running mean latency is
/// that time.
pub proof fn law_steady_latency(d: int, n: int)
    requires
        0 <= d <= max_latency_nanos(),
        n >= 1,
    ensures
        next_average(d, n, d) == d,
{
    assert(d * (n - 1) + d == d * n) by (nonlinear_arith);
    assert((d * n) / n == d) by (nonlinear_arith)
        requires
            n >= 1,
    ;
}

/// The running mean lies between the previous mean and the new latency.
pub proof fn law_mean_between(cur: int, n: int, d: int)
    requires
        0 <= cur <= max_latency_nanos(),
        0 <= d <= max_latency_nanos(),
        n >= 1,
    ensures
        (cur <= d ==> cur <= next_average(cur, n, d) <= d),
        (d <= cur ==> d <= next_average(cur, n, d) <= cur),
{
    lemma_running_mean(cur, n, d);
    if cur <= d {
        assert((d - cur) / n <= d - cur) by (nonlinear_arith)
            requires
                d - cur >= 0,
                n >= 1,
        ;
        assert((d - cur) / n >= 0) by (nonlinear_arith)
            requires
                d - cur >= 0,
                n >= 1,
        ;
    } else {
        let k = cur - d;
        assert((k + n - 1) / n <= k) by (nonlinear_arith)
            requires
                k >= 1,
                n >= 1,
        ;
        assert((k + n - 1) / n >= 0) by (nonlinear_arith)
            requires
                k >= 1,
                n >= 1,
        ;
    }
}

} // verus!
