//! Structured error types of the application, with the text each one
//! displays, and the default rules for classifying and handling errors.

use vstd::prelude::*;
use std::time::Duration;
use crate::text::{push_str, push_decimal, string_from_chars, starts_with_seq, decimal_seq, chars_of, contains, contains_seq, to_lowercase, spec_to_lowercase, to_owned_string, all_ascii, ascii_lower};
use crate::strmap::StrMap;
use crate::timeutil::{DateTimeUtc, utc_now, new_uuid, uuid_text, spec_uuid_text};

verus! {

/// `format!("{:?}", d)` for a `Duration`. Nothing is stated of the text.
#[verifier::external_body]
fn duration_debug(d: &Duration) -> String {
    format!("{:?}", d)
}

/// A name for the `Debug` text of a list of strings (`["a", "b"]`, with Rust's
/// string escaping).
pub uninterp spec fn spec_debug_string_list(items: Seq<Seq<char>>) -> Seq<char>;

/// `format!("{:?}", items)` for a list of strings; the text is named by
/// `spec_debug_string_list`.
#[verifier::external_body]
fn debug_string_list(items: &Vec<String>) -> (r: String)
    ensures
        r@ == spec_debug_string_list(items@.map_values(|t: String| t@)),
{
    format!("{:?}", items)
}

/// Core database error types.
#[derive(Debug, Clone)]
pub enum DatabaseError {
    ConnectionFailed { message: String },
    Timeout { timeout: Duration },
    QueryFailed { query: String, error: String },
    ConstraintViolation { constraint: String, value: String },
    NotFound { entity: String, id: String },
    AlreadyExists { entity: String, id: String },
    MigrationFailed { message: String },
    TransactionFailed { message: String },
    PoolExhausted { message: String },
    ConfigurationError { message: String },
    IntegrityError { message: String },
    PermissionDenied { operation: String, resource: String },
    SerializationError { message: String },
    DeserializationError { message: String },
    Deadlock { message: String },
    InvalidState { state: String },
    BackupRestoreFailed { operation: String, error: String },
    HealthCheckFailed { message: String },
    VersionMismatch { expected: String, actual: String },
    Unknown { message: String },
    Connection(String),
    Configuration(String),
    IntegrityCheck(String),
    Migration(String),
    Service(String),
    ValidationError(String),
}

impl DatabaseError {
    /// The text that the error displays. For a variant that shows a `Duration`,
    /// the text up to that value.
    pub open spec fn spec_message(&self) -> Seq<char> {
        match self {
            DatabaseError::ConnectionFailed { message } => "Connection failed: "@ + message@,
            DatabaseError::Timeout { timeout } => "Database operation timed out after "@,
            DatabaseError::QueryFailed { query, error } => "Database query failed: "@ + query@ + ", error: "@ + error@,
            DatabaseError::ConstraintViolation { constraint, value } => "Database constraint violation: "@ + constraint@ + ", value: "@ + value@,
            DatabaseError::NotFound { entity, id } => "Database record not found: "@ + entity@ + " with id "@ + id@,
            DatabaseError::AlreadyExists { entity, id } => "Database record already exists: "@ + entity@ + " with id "@ + id@,
            DatabaseError::MigrationFailed { message } => "Database schema migration failed: "@ + message@,
            DatabaseError::TransactionFailed { message } => "Database transaction failed: "@ + message@,
            DatabaseError::PoolExhausted { message } => "Database pool exhausted: "@ + message@,
            DatabaseError::ConfigurationError { message } => "Database configuration error: "@ + message@,
            DatabaseError::IntegrityError { message } => "Database integrity check failed: "@ + message@,
            DatabaseError::PermissionDenied { operation, resource } => "Database permission denied: "@ + operation@ + " on "@ + resource@,
            DatabaseError::SerializationError { message } => "Database serialization error: "@ + message@,
            DatabaseError::DeserializationError { message } => "Database deserialization error: "@ + message@,
            DatabaseError::Deadlock { message } => "Database deadlock detected: "@ + message@,
            DatabaseError::InvalidState { state } => "Database is in an invalid state: "@ + state@,
            DatabaseError::BackupRestoreFailed { operation, error } => "Database backup/restore failed: "@ + operation@ + ", error: "@ + error@,
            DatabaseError::HealthCheckFailed { message } => "Database health check failed: "@ + message@,
            DatabaseError::VersionMismatch { expected, actual } => "Database version mismatch: expected "@ + expected@ + ", got "@ + actual@,
            DatabaseError::Unknown { message } => "Unknown database error: "@ + message@,
            DatabaseError::Connection(f0) => "Connection error: "@ + f0@,
            DatabaseError::Configuration(f0) => "Configuration error: "@ + f0@,
            DatabaseError::IntegrityCheck(f0) => "Integrity check failed: "@ + f0@,
            DatabaseError::Migration(f0) => "Migration error: "@ + f0@,
            DatabaseError::Service(f0) => "Service error: "@ + f0@,
            DatabaseError::ValidationError(f0) => "Validation error: "@ + f0@,
        }
    }

    /// Whether the displayed text holds a `Duration`, whose printed form is not stated.
    pub open spec fn shows_duration(&self) -> bool {
        self is Timeout
    }

    /// The text that the error displays (its `Display`).
    pub fn message(&self) -> (r: String)
        ensures
            !self.shows_duration() ==> r@ == self.spec_message(),
            self.shows_duration() ==> starts_with_seq(r@, self.spec_message()),
    {
        let mut v: Vec<char> = Vec::new();
        match self {
            DatabaseError::ConnectionFailed { message } => {
                push_str(&mut v, "Connection failed: ");
                push_str(&mut v, message.as_str());
                assert(v@ =~= self.spec_message());
            },
            DatabaseError::Timeout { timeout } => {
                push_str(&mut v, "Database operation timed out after ");
                let ghost shown = v@;
                { let d = duration_debug(timeout); push_str(&mut v, d.as_str()); }
                assert(v@.subrange(0, shown.len() as int) =~= shown);
                assert(shown =~= self.spec_message());
            },
            DatabaseError::QueryFailed { query, error } => {
                push_str(&mut v, "Database query failed: ");
                push_str(&mut v, query.as_str());
                push_str(&mut v, ", error: ");
                push_str(&mut v, error.as_str());
                assert(v@ =~= self.spec_message());
            },
            DatabaseError::ConstraintViolation { constraint, value } => {
                push_str(&mut v, "Database constraint violation: ");
                push_str(&mut v, constraint.as_str());
                push_str(&mut v, ", value: ");
                push_str(&mut v, value.as_str());
                assert(v@ =~= self.spec_message());
            },
            DatabaseError::NotFound { entity, id } => {
                push_str(&mut v, "Database record not found: ");
                push_str(&mut v, entity.as_str());
                push_str(&mut v, " with id ");
                push_str(&mut v, id.as_str());
                assert(v@ =~= self.spec_message());
            },
            DatabaseError::AlreadyExists { entity, id } => {
                push_str(&mut v, "Database record already exists: ");
                push_str(&mut v, entity.as_str());
                push_str(&mut v, " with id ");
                push_str(&mut v, id.as_str());
                assert(v@ =~= self.spec_message());
            },
            DatabaseError::MigrationFailed { message } => {
                push_str(&mut v, "Database schema migration failed: ");
                push_str(&mut v, message.as_str());
                assert(v@ =~= self.spec_message());
            },
            DatabaseError::TransactionFailed { message } => {
                push_str(&mut v, "Database transaction failed: ");
                push_str(&mut v, message.as_str());
                assert(v@ =~= self.spec_message());
            },
            DatabaseError::PoolExhausted { message } => {
                push_str(&mut v, "Database pool exhausted: ");
                push_str(&mut v, message.as_str());
                assert(v@ =~= self.spec_message());
            },
            DatabaseError::ConfigurationError { message } => {
                push_str(&mut v, "Database configuration error: ");
                push_str(&mut v, message.as_str());
                assert(v@ =~= self.spec_message());
            },
            DatabaseError::IntegrityError { message } => {
                push_str(&mut v, "Database integrity check failed: ");
                push_str(&mut v, message.as_str());
                assert(v@ =~= self.spec_message());
            },
            DatabaseError::PermissionDenied { operation, resource } => {
                push_str(&mut v, "Database permission denied: ");
                push_str(&mut v, operation.as_str());
                push_str(&mut v, " on ");
                push_str(&mut v, resource.as_str());
                assert(v@ =~= self.spec_message());
            },
            DatabaseError::SerializationError { message } => {
                push_str(&mut v, "Database serialization error: ");
                push_str(&mut v, message.as_str());
                assert(v@ =~= self.spec_message());
            },
            DatabaseError::DeserializationError { message } => {
                push_str(&mut v, "Database deserialization error: ");
                push_str(&mut v, message.as_str());
                assert(v@ =~= self.spec_message());
            },
            DatabaseError::Deadlock { message } => {
                push_str(&mut v, "Database deadlock detected: ");
                push_str(&mut v, message.as_str());
                assert(v@ =~= self.spec_message());
            },
            DatabaseError::InvalidState { state } => {
                push_str(&mut v, "Database is in an invalid state: ");
                push_str(&mut v, state.as_str());
                assert(v@ =~= self.spec_message());
            },
            DatabaseError::BackupRestoreFailed { operation, error } => {
                push_str(&mut v, "Database backup/restore failed: ");
                push_str(&mut v, operation.as_str());
                push_str(&mut v, ", error: ");
                push_str(&mut v, error.as_str());
                assert(v@ =~= self.spec_message());
            },
            DatabaseError::HealthCheckFailed { message } => {
                push_str(&mut v, "Database health check failed: ");
                push_str(&mut v, message.as_str());
                assert(v@ =~= self.spec_message());
            },
            DatabaseError::VersionMismatch { expected, actual } => {
                push_str(&mut v, "Database version mismatch: expected ");
                push_str(&mut v, expected.as_str());
                push_str(&mut v, ", got ");
                push_str(&mut v, actual.as_str());
                assert(v@ =~= self.spec_message());
            },
            DatabaseError::Unknown { message } => {
                push_str(&mut v, "Unknown database error: ");
                push_str(&mut v, message.as_str());
                assert(v@ =~= self.spec_message());
            },
            DatabaseError::Connection(f0) => {
                push_str(&mut v, "Connection error: ");
                push_str(&mut v, f0.as_str());
                assert(v@ =~= self.spec_message());
            },
            DatabaseError::Configuration(f0) => {
                push_str(&mut v, "Configuration error: ");
                push_str(&mut v, f0.as_str());
                assert(v@ =~= self.spec_message());
            },
            DatabaseError::IntegrityCheck(f0) => {
                push_str(&mut v, "Integrity check failed: ");
                push_str(&mut v, f0.as_str());
                assert(v@ =~= self.spec_message());
            },
            DatabaseError::Migration(f0) => {
                push_str(&mut v, "Migration error: ");
                push_str(&mut v, f0.as_str());
                assert(v@ =~= self.spec_message());
            },
            DatabaseError::Service(f0) => {
                push_str(&mut v, "Service error: ");
                push_str(&mut v, f0.as_str());
                assert(v@ =~= self.spec_message());
            },
            DatabaseError::ValidationError(f0) => {
                push_str(&mut v, "Validation error: ");
                push_str(&mut v, f0.as_str());
                assert(v@ =~= self.spec_message());
            },
        }
        string_from_chars(&v)
    }
}

/// Core application error types.
#[derive(Debug, Clone)]
pub enum AppError {
    ToolInitializationFailed { tool: String, error: String },
    ToolRegistrationFailed { tool: String, error: String },
    ToolNotFound { tool: String },
    ToolExecutionFailed { tool: String, error: String },
    ToolConfigurationError { tool: String, setting: String, error: String },
    ToolLifecycleError { tool: String, phase: String, error: String },
    ToolStateCorruption { tool: String, error: String },
    ToolDependencyMissing { tool: String, dependency: String },
    ToolVersionIncompatibility { tool: String, expected: String, actual: String },
    ToolPermissionError { tool: String, operation: String, error: String },
    ToolResourceLimitExceeded { tool: String, resource: String, limit: String },
    ToolTimeout { tool: String, timeout: Duration },
    ToolStateInvalid { tool: String, state: String },
    ToolDataValidationFailed { tool: String, field: String, error: String },
    ToolMigrationFailed { tool: String, phase: String, error: String },
    FontError(String),
    Io(String),
    Network(String),
    FileError(String),
    ExportError(String),
    ValidationError(String),
}

impl AppError {
    /// The text that the error displays. For a variant that shows a `Duration`,
    /// the text up to that value.
    pub open spec fn spec_message(&self) -> Seq<char> {
        match self {
            AppError::ToolInitializationFailed { tool, error } => "Tool initialization failed: "@ + tool@ + ", error: "@ + error@,
            AppError::ToolRegistrationFailed { tool, error } => "Tool registration failed: "@ + tool@ + ", error: "@ + error@,
            AppError::ToolNotFound { tool } => "Tool not found: "@ + tool@,
            AppError::ToolExecutionFailed { tool, error } => "Tool execution failed: "@ + tool@ + ", error: "@ + error@,
            AppError::ToolConfigurationError { tool, setting, error } => "Tool configuration error: "@ + tool@ + ", setting: "@ + setting@ + ", error: "@ + error@,
            AppError::ToolLifecycleError { tool, phase, error } => "Tool lifecycle error: "@ + tool@ + ", phase: "@ + phase@ + ", error: "@ + error@,
            AppError::ToolStateCorruption { tool, error } => "Tool state corruption: "@ + tool@ + ", error: "@ + error@,
            AppError::ToolDependencyMissing { tool, dependency } => "Tool dependency missing: "@ + tool@ + " requires "@ + dependency@,
            AppError::ToolVersionIncompatibility { tool, expected, actual } => "Tool version incompatibility: "@ + tool@ + ", expected: "@ + expected@ + ", got: "@ + actual@,
            AppError::ToolPermissionError { tool, operation, error } => "Tool permission error: "@ + tool@ + ", operation: "@ + operation@ + ", error: "@ + error@,
            AppError::ToolResourceLimitExceeded { tool, resource, limit } => "Tool resource limit exceeded: "@ + tool@ + ", resource: "@ + resource@ + ", limit: "@ + limit@,
            AppError::ToolTimeout { tool, timeout } => "Tool timeout: "@ + tool@ + ", timeout: "@,
            AppError::ToolStateInvalid { tool, state } => "Tool state invalid: "@ + tool@ + ", state: "@ + state@,
            AppError::ToolDataValidationFailed { tool, field, error } => "Tool data validation failed: "@ + tool@ + ", field: "@ + field@ + ", error: "@ + error@,
            AppError::ToolMigrationFailed { tool, phase, error } => "Tool migration failed: "@ + tool@ + ", phase: "@ + phase@ + ", error: "@ + error@,
            AppError::FontError(f0) => "Font error: "@ + f0@,
            AppError::Io(f0) => "IO error: "@ + f0@,
            AppError::Network(f0) => "Network error: "@ + f0@,
            AppError::FileError(f0) => "File error: "@ + f0@,
            AppError::ExportError(f0) => "Export error: "@ + f0@,
            AppError::ValidationError(f0) => "Validation error: "@ + f0@,
        }
    }

    /// Whether the displayed text holds a `Duration`, whose printed form is not stated.
    pub open spec fn shows_duration(&self) -> bool {
        self is ToolTimeout
    }

    /// The text that the error displays (its `Display`).
    pub fn message(&self) -> (r: String)
        ensures
            !self.shows_duration() ==> r@ == self.spec_message(),
            self.shows_duration() ==> starts_with_seq(r@, self.spec_message()),
    {
        let mut v: Vec<char> = Vec::new();
        match self {
            AppError::ToolInitializationFailed { tool, error } => {
                push_str(&mut v, "Tool initialization failed: ");
                push_str(&mut v, tool.as_str());
                push_str(&mut v, ", error: ");
                push_str(&mut v, error.as_str());
                assert(v@ =~= self.spec_message());
            },
            AppError::ToolRegistrationFailed { tool, error } => {
                push_str(&mut v, "Tool registration failed: ");
                push_str(&mut v, tool.as_str());
                push_str(&mut v, ", error: ");
                push_str(&mut v, error.as_str());
                assert(v@ =~= self.spec_message());
            },
            AppError::ToolNotFound { tool } => {
                push_str(&mut v, "Tool not found: ");
                push_str(&mut v, tool.as_str());
                assert(v@ =~= self.spec_message());
            },
            AppError::ToolExecutionFailed { tool, error } => {
                push_str(&mut v, "Tool execution failed: ");
                push_str(&mut v, tool.as_str());
                push_str(&mut v, ", error: ");
                push_str(&mut v, error.as_str());
                assert(v@ =~= self.spec_message());
            },
            AppError::ToolConfigurationError { tool, setting, error } => {
                push_str(&mut v, "Tool configuration error: ");
                push_str(&mut v, tool.as_str());
                push_str(&mut v, ", setting: ");
                push_str(&mut v, setting.as_str());
                push_str(&mut v, ", error: ");
                push_str(&mut v, error.as_str());
                assert(v@ =~= self.spec_message());
            },
            AppError::ToolLifecycleError { tool, phase, error } => {
                push_str(&mut v, "Tool lifecycle error: ");
                push_str(&mut v, tool.as_str());
                push_str(&mut v, ", phase: ");
                push_str(&mut v, phase.as_str());
                push_str(&mut v, ", error: ");
                push_str(&mut v, error.as_str());
                assert(v@ =~= self.spec_message());
            },
            AppError::ToolStateCorruption { tool, error } => {
                push_str(&mut v, "Tool state corruption: ");
                push_str(&mut v, tool.as_str());
                push_str(&mut v, ", error: ");
                push_str(&mut v, error.as_str());
                assert(v@ =~= self.spec_message());
            },
            AppError::ToolDependencyMissing { tool, dependency } => {
                push_str(&mut v, "Tool dependency missing: ");
                push_str(&mut v, tool.as_str());
                push_str(&mut v, " requires ");
                push_str(&mut v, dependency.as_str());
                assert(v@ =~= self.spec_message());
            },
            AppError::ToolVersionIncompatibility { tool, expected, actual } => {
                push_str(&mut v, "Tool version incompatibility: ");
                push_str(&mut v, tool.as_str());
                push_str(&mut v, ", expected: ");
                push_str(&mut v, expected.as_str());
                push_str(&mut v, ", got: ");
                push_str(&mut v, actual.as_str());
                assert(v@ =~= self.spec_message());
            },
            AppError::ToolPermissionError { tool, operation, error } => {
                push_str(&mut v, "Tool permission error: ");
                push_str(&mut v, tool.as_str());
                push_str(&mut v, ", operation: ");
                push_str(&mut v, operation.as_str());
                push_str(&mut v, ", error: ");
                push_str(&mut v, error.as_str());
                assert(v@ =~= self.spec_message());
            },
            AppError::ToolResourceLimitExceeded { tool, resource, limit } => {
                push_str(&mut v, "Tool resource limit exceeded: ");
                push_str(&mut v, tool.as_str());
                push_str(&mut v, ", resource: ");
                push_str(&mut v, resource.as_str());
                push_str(&mut v, ", limit: ");
                push_str(&mut v, limit.as_str());
                assert(v@ =~= self.spec_message());
            },
            AppError::ToolTimeout { tool, timeout } => {
                push_str(&mut v, "Tool timeout: ");
                push_str(&mut v, tool.as_str());
                push_str(&mut v, ", timeout: ");
                let ghost shown = v@;
                { let d = duration_debug(timeout); push_str(&mut v, d.as_str()); }
                assert(v@.subrange(0, shown.len() as int) =~= shown);
                assert(shown =~= self.spec_message());
            },
            AppError::ToolStateInvalid { tool, state } => {
                push_str(&mut v, "Tool state invalid: ");
                push_str(&mut v, tool.as_str());
                push_str(&mut v, ", state: ");
                push_str(&mut v, state.as_str());
                assert(v@ =~= self.spec_message());
            },
            AppError::ToolDataValidationFailed { tool, field, error } => {
                push_str(&mut v, "Tool data validation failed: ");
                push_str(&mut v, tool.as_str());
                push_str(&mut v, ", field: ");
                push_str(&mut v, field.as_str());
                push_str(&mut v, ", error: ");
                push_str(&mut v, error.as_str());
                assert(v@ =~= self.spec_message());
            },
            AppError::ToolMigrationFailed { tool, phase, error } => {
                push_str(&mut v, "Tool migration failed: ");
                push_str(&mut v, tool.as_str());
                push_str(&mut v, ", phase: ");
                push_str(&mut v, phase.as_str());
                push_str(&mut v, ", error: ");
                push_str(&mut v, error.as_str());
                assert(v@ =~= self.spec_message());
            },
            AppError::FontError(f0) => {
                push_str(&mut v, "Font error: ");
                push_str(&mut v, f0.as_str());
                assert(v@ =~= self.spec_message());
            },
            AppError::Io(f0) => {
                push_str(&mut v, "IO error: ");
                push_str(&mut v, f0.as_str());
                assert(v@ =~= self.spec_message());
            },
            AppError::Network(f0) => {
                push_str(&mut v, "Network error: ");
                push_str(&mut v, f0.as_str());
                assert(v@ =~= self.spec_message());
            },
            AppError::FileError(f0) => {
                push_str(&mut v, "File error: ");
                push_str(&mut v, f0.as_str());
                assert(v@ =~= self.spec_message());
            },
            AppError::ExportError(f0) => {
                push_str(&mut v, "Export error: ");
                push_str(&mut v, f0.as_str());
                assert(v@ =~= self.spec_message());
            },
            AppError::ValidationError(f0) => {
                push_str(&mut v, "Validation error: ");
                push_str(&mut v, f0.as_str());
                assert(v@ =~= self.spec_message());
            },
        }
        string_from_chars(&v)
    }
}

/// Threading and concurrency error types.
#[derive(Debug, Clone)]
pub enum ThreadingError {
    ThreadPoolExhausted { message: String },
    Deadlock { resource: String, threads: Vec<String> },
    RaceCondition { operation: String, resource: String },
    MutexLockFailed { resource: String, error: String },
    RwLockReadFailed { resource: String, error: String },
    RwLockWriteFailed { resource: String, error: String },
    ChannelSendFailed { channel: String, error: String },
    ChannelReceiveFailed { channel: String, error: String },
    TaskSpawnFailed { task: String, error: String },
    TaskCancelled { task: String, reason: String },
    AsyncTimeout { operation: String, timeout: Duration },
    FutureExecutionFailed { future: String, error: String },
    SharedStateCorruption { state: String, error: String },
    AtomicOperationFailed { operation: String, error: String },
    ConditionVariableWaitFailed { condition: String, error: String },
    SemaphoreAcquireFailed { semaphore: String, error: String },
    BarrierWaitFailed { barrier: String, error: String },
}

impl ThreadingError {
    /// The text that the error displays. For a variant that shows a `Duration`,
    /// the text up to that value.
    pub open spec fn spec_message(&self) -> Seq<char> {
        match self {
            ThreadingError::ThreadPoolExhausted { message } => "Thread pool exhausted: "@ + message@,
            ThreadingError::Deadlock { resource, threads } => "Deadlock detected: "@ + resource@ + ", threads: "@ + spec_debug_string_list(threads@.map_values(|t: String| t@)),
            ThreadingError::RaceCondition { operation, resource } => "Race condition detected: "@ + operation@ + ", resource: "@ + resource@,
            ThreadingError::MutexLockFailed { resource, error } => "Mutex lock failed: "@ + resource@ + ", error: "@ + error@,
            ThreadingError::RwLockReadFailed { resource, error } => "RwLock read failed: "@ + resource@ + ", error: "@ + error@,
            ThreadingError::RwLockWriteFailed { resource, error } => "RwLock write failed: "@ + resource@ + ", error: "@ + error@,
            ThreadingError::ChannelSendFailed { channel, error } => "Channel send failed: "@ + channel@ + ", error: "@ + error@,
            ThreadingError::ChannelReceiveFailed { channel, error } => "Channel receive failed: "@ + channel@ + ", error: "@ + error@,
            ThreadingError::TaskSpawnFailed { task, error } => "Task spawn failed: "@ + task@ + ", error: "@ + error@,
            ThreadingError::TaskCancelled { task, reason } => "Task cancelled: "@ + task@ + ", reason: "@ + reason@,
            ThreadingError::AsyncTimeout { operation, timeout } => "Async operation timeout: "@ + operation@ + ", timeout: "@,
            ThreadingError::FutureExecutionFailed { future, error } => "Future execution failed: "@ + future@ + ", error: "@ + error@,
            ThreadingError::SharedStateCorruption { state, error } => "Shared state corruption: "@ + state@ + ", error: "@ + error@,
            ThreadingError::AtomicOperationFailed { operation, error } => "Atomic operation failed: "@ + operation@ + ", error: "@ + error@,
            ThreadingError::ConditionVariableWaitFailed { condition, error } => "Condition variable wait failed: "@ + condition@ + ", error: "@ + error@,
            ThreadingError::SemaphoreAcquireFailed { semaphore, error } => "Semaphore acquire failed: "@ + semaphore@ + ", error: "@ + error@,
            ThreadingError::BarrierWaitFailed { barrier, error } => "Barrier wait failed: "@ + barrier@ + ", error: "@ + error@,
        }
    }

    /// Whether the displayed text holds a `Duration`, whose printed form is not stated.
    pub open spec fn shows_duration(&self) -> bool {
        self is AsyncTimeout
    }

    /// The text that the error displays (its `Display`).
    pub fn message(&self) -> (r: String)
        ensures
            !self.shows_duration() ==> r@ == self.spec_message(),
            self.shows_duration() ==> starts_with_seq(r@, self.spec_message()),
    {
        let mut v: Vec<char> = Vec::new();
        match self {
            ThreadingError::ThreadPoolExhausted { message } => {
                push_str(&mut v, "Thread pool exhausted: ");
                push_str(&mut v, message.as_str());
                assert(v@ =~= self.spec_message());
            },
            ThreadingError::Deadlock { resource, threads } => {
                push_str(&mut v, "Deadlock detected: ");
                push_str(&mut v, resource.as_str());
                push_str(&mut v, ", threads: ");
                { let d = debug_string_list(threads); push_str(&mut v, d.as_str()); }
                assert(v@ =~= self.spec_message());
            },
            ThreadingError::RaceCondition { operation, resource } => {
                push_str(&mut v, "Race condition detected: ");
                push_str(&mut v, operation.as_str());
                push_str(&mut v, ", resource: ");
                push_str(&mut v, resource.as_str());
                assert(v@ =~= self.spec_message());
            },
            ThreadingError::MutexLockFailed { resource, error } => {
                push_str(&mut v, "Mutex lock failed: ");
                push_str(&mut v, resource.as_str());
                push_str(&mut v, ", error: ");
                push_str(&mut v, error.as_str());
                assert(v@ =~= self.spec_message());
            },
            ThreadingError::RwLockReadFailed { resource, error } => {
                push_str(&mut v, "RwLock read failed: ");
                push_str(&mut v, resource.as_str());
                push_str(&mut v, ", error: ");
                push_str(&mut v, error.as_str());
                assert(v@ =~= self.spec_message());
            },
            ThreadingError::RwLockWriteFailed { resource, error } => {
                push_str(&mut v, "RwLock write failed: ");
                push_str(&mut v, resource.as_str());
                push_str(&mut v, ", error: ");
                push_str(&mut v, error.as_str());
                assert(v@ =~= self.spec_message());
            },
            ThreadingError::ChannelSendFailed { channel, error } => {
                push_str(&mut v, "Channel send failed: ");
                push_str(&mut v, channel.as_str());
                push_str(&mut v, ", error: ");
                push_str(&mut v, error.as_str());
                assert(v@ =~= self.spec_message());
            },
            ThreadingError::ChannelReceiveFailed { channel, error } => {
                push_str(&mut v, "Channel receive failed: ");
                push_str(&mut v, channel.as_str());
                push_str(&mut v, ", error: ");
                push_str(&mut v, error.as_str());
                assert(v@ =~= self.spec_message());
            },
            ThreadingError::TaskSpawnFailed { task, error } => {
                push_str(&mut v, "Task spawn failed: ");
                push_str(&mut v, task.as_str());
                push_str(&mut v, ", error: ");
                push_str(&mut v, error.as_str());
                assert(v@ =~= self.spec_message());
            },
            ThreadingError::TaskCancelled { task, reason } => {
                push_str(&mut v, "Task cancelled: ");
                push_str(&mut v, task.as_str());
                push_str(&mut v, ", reason: ");
                push_str(&mut v, reason.as_str());
                assert(v@ =~= self.spec_message());
            },
            ThreadingError::AsyncTimeout { operation, timeout } => {
                push_str(&mut v, "Async operation timeout: ");
                push_str(&mut v, operation.as_str());
                push_str(&mut v, ", timeout: ");
                let ghost shown = v@;
                { let d = duration_debug(timeout); push_str(&mut v, d.as_str()); }
                assert(v@.subrange(0, shown.len() as int) =~= shown);
                assert(shown =~= self.spec_message());
            },
            ThreadingError::FutureExecutionFailed { future, error } => {
                push_str(&mut v, "Future execution failed: ");
                push_str(&mut v, future.as_str());
                push_str(&mut v, ", error: ");
                push_str(&mut v, error.as_str());
                assert(v@ =~= self.spec_message());
            },
            ThreadingError::SharedStateCorruption { state, error } => {
                push_str(&mut v, "Shared state corruption: ");
                push_str(&mut v, state.as_str());
                push_str(&mut v, ", error: ");
                push_str(&mut v, error.as_str());
                assert(v@ =~= self.spec_message());
            },
            ThreadingError::AtomicOperationFailed { operation, error } => {
                push_str(&mut v, "Atomic operation failed: ");
                push_str(&mut v, operation.as_str());
                push_str(&mut v, ", error: ");
                push_str(&mut v, error.as_str());
                assert(v@ =~= self.spec_message());
            },
            ThreadingError::ConditionVariableWaitFailed { condition, error } => {
                push_str(&mut v, "Condition variable wait failed: ");
                push_str(&mut v, condition.as_str());
                push_str(&mut v, ", error: ");
                push_str(&mut v, error.as_str());
                assert(v@ =~= self.spec_message());
            },
            ThreadingError::SemaphoreAcquireFailed { semaphore, error } => {
                push_str(&mut v, "Semaphore acquire failed: ");
                push_str(&mut v, semaphore.as_str());
                push_str(&mut v, ", error: ");
                push_str(&mut v, error.as_str());
                assert(v@ =~= self.spec_message());
            },
            ThreadingError::BarrierWaitFailed { barrier, error } => {
                push_str(&mut v, "Barrier wait failed: ");
                push_str(&mut v, barrier.as_str());
                push_str(&mut v, ", error: ");
                push_str(&mut v, error.as_str());
                assert(v@ =~= self.spec_message());
            },
        }
        string_from_chars(&v)
    }
}

/// API and communication error types.
#[derive(Debug, Clone)]
pub enum ApiError {
    EndpointNotFound { endpoint: String },
    MethodNotAllowed { method: String, endpoint: String },
    ValidationFailed { field: String, error: String },
    AuthenticationFailed { reason: String },
    AuthorizationFailed { operation: String, resource: String },
    RateLimitExceeded { limit: String, retry_after: Duration },
    SerializationFailed { data: String, error: String },
    DeserializationFailed { data: String, error: String },
    RequestTimeout { endpoint: String, timeout: Duration },
    ServerError { status: u16, error: String },
    ClientError { status: u16, error: String },
    NetworkError { operation: String, error: String },
    PayloadTooLarge { size: String, limit: String },
    ContentTypeNotSupported { content_type: String },
    VersionNotSupported { version: String },
    EventBusError { operation: String, error: String },
    ContractViolation { contract: String, violation: String },
    ConfigurationError { config: String, error: String },
    MiddlewareError { middleware: String, error: String },
    Unknown { message: String },
}

impl ApiError {
    /// The text that the error displays. For a variant that shows a `Duration`,
    /// the text up to that value.
    pub open spec fn spec_message(&self) -> Seq<char> {
        match self {
            ApiError::EndpointNotFound { endpoint } => "API endpoint not found: "@ + endpoint@,
            ApiError::MethodNotAllowed { method, endpoint } => "API method not allowed: "@ + method@ + " for "@ + endpoint@,
            ApiError::ValidationFailed { field, error } => "API validation failed: "@ + field@ + ", error: "@ + error@,
            ApiError::AuthenticationFailed { reason } => "API authentication failed: "@ + reason@,
            ApiError::AuthorizationFailed { operation, resource } => "API authorization failed: "@ + operation@ + ", resource: "@ + resource@,
            ApiError::RateLimitExceeded { limit, retry_after } => "API rate limit exceeded: "@ + limit@ + ", retry_after: "@,
            ApiError::SerializationFailed { data, error } => "API serialization failed: "@ + data@ + ", error: "@ + error@,
            ApiError::DeserializationFailed { data, error } => "API deserialization failed: "@ + data@ + ", error: "@ + error@,
            ApiError::RequestTimeout { endpoint, timeout } => "API request timeout: "@ + endpoint@ + ", timeout: "@,
            ApiError::ServerError { status, error } => "API server error: "@ + decimal_seq(*status as nat) + ", error: "@ + error@,
            ApiError::ClientError { status, error } => "API client error: "@ + decimal_seq(*status as nat) + ", error: "@ + error@,
            ApiError::NetworkError { operation, error } => "API network error: "@ + operation@ + ", error: "@ + error@,
            ApiError::PayloadTooLarge { size, limit } => "API payload too large: "@ + size@ + ", limit: "@ + limit@,
            ApiError::ContentTypeNotSupported { content_type } => "API content type not supported: "@ + content_type@,
            ApiError::VersionNotSupported { version } => "API version not supported: "@ + version@,
            ApiError::EventBusError { operation, error } => "API event bus error: "@ + operation@ + ", error: "@ + error@,
            ApiError::ContractViolation { contract, violation } => "API contract violation: "@ + contract@ + ", violation: "@ + violation@,
            ApiError::ConfigurationError { config, error } => "API configuration error: "@ + config@ + ", error: "@ + error@,
            ApiError::MiddlewareError { middleware, error } => "API middleware error: "@ + middleware@ + ", error: "@ + error@,
            ApiError::Unknown { message } => "API unknown error: "@ + message@,
        }
    }

    /// Whether the displayed text holds a `Duration`, whose printed form is not stated.
    pub open spec fn shows_duration(&self) -> bool {
        self is RateLimitExceeded || self is RequestTimeout
    }

    /// The text that the error displays (its `Display`).
    pub fn message(&self) -> (r: String)
        ensures
            !self.shows_duration() ==> r@ == self.spec_message(),
            self.shows_duration() ==> starts_with_seq(r@, self.spec_message()),
    {
        let mut v: Vec<char> = Vec::new();
        match self {
            ApiError::EndpointNotFound { endpoint } => {
                push_str(&mut v, "API endpoint not found: ");
                push_str(&mut v, endpoint.as_str());
                assert(v@ =~= self.spec_message());
            },
            ApiError::MethodNotAllowed { method, endpoint } => {
                push_str(&mut v, "API method not allowed: ");
                push_str(&mut v, method.as_str());
                push_str(&mut v, " for ");
                push_str(&mut v, endpoint.as_str());
                assert(v@ =~= self.spec_message());
            },
            ApiError::ValidationFailed { field, error } => {
                push_str(&mut v, "API validation failed: ");
                push_str(&mut v, field.as_str());
                push_str(&mut v, ", error: ");
                push_str(&mut v, error.as_str());
                assert(v@ =~= self.spec_message());
            },
            ApiError::AuthenticationFailed { reason } => {
                push_str(&mut v, "API authentication failed: ");
                push_str(&mut v, reason.as_str());
                assert(v@ =~= self.spec_message());
            },
            ApiError::AuthorizationFailed { operation, resource } => {
                push_str(&mut v, "API authorization failed: ");
                push_str(&mut v, operation.as_str());
                push_str(&mut v, ", resource: ");
                push_str(&mut v, resource.as_str());
                assert(v@ =~= self.spec_message());
            },
            ApiError::RateLimitExceeded { limit, retry_after } => {
                push_str(&mut v, "API rate limit exceeded: ");
                push_str(&mut v, limit.as_str());
                push_str(&mut v, ", retry_after: ");
                let ghost shown = v@;
                { let d = duration_debug(retry_after); push_str(&mut v, d.as_str()); }
                assert(v@.subrange(0, shown.len() as int) =~= shown);
                assert(shown =~= self.spec_message());
            },
            ApiError::SerializationFailed { data, error } => {
                push_str(&mut v, "API serialization failed: ");
                push_str(&mut v, data.as_str());
                push_str(&mut v, ", error: ");
                push_str(&mut v, error.as_str());
                assert(v@ =~= self.spec_message());
            },
            ApiError::DeserializationFailed { data, error } => {
                push_str(&mut v, "API deserialization failed: ");
                push_str(&mut v, data.as_str());
                push_str(&mut v, ", error: ");
                push_str(&mut v, error.as_str());
                assert(v@ =~= self.spec_message());
            },
            ApiError::RequestTimeout { endpoint, timeout } => {
                push_str(&mut v, "API request timeout: ");
                push_str(&mut v, endpoint.as_str());
                push_str(&mut v, ", timeout: ");
                let ghost shown = v@;
                { let d = duration_debug(timeout); push_str(&mut v, d.as_str()); }
                assert(v@.subrange(0, shown.len() as int) =~= shown);
                assert(shown =~= self.spec_message());
            },
            ApiError::ServerError { status, error } => {
                push_str(&mut v, "API server error: ");
                push_decimal(&mut v, *status as u64);
                push_str(&mut v, ", error: ");
                push_str(&mut v, error.as_str());
                assert(v@ =~= self.spec_message());
            },
            ApiError::ClientError { status, error } => {
                push_str(&mut v, "API client error: ");
                push_decimal(&mut v, *status as u64);
                push_str(&mut v, ", error: ");
                push_str(&mut v, error.as_str());
                assert(v@ =~= self.spec_message());
            },
            ApiError::NetworkError { operation, error } => {
                push_str(&mut v, "API network error: ");
                push_str(&mut v, operation.as_str());
                push_str(&mut v, ", error: ");
                push_str(&mut v, error.as_str());
                assert(v@ =~= self.spec_message());
            },
            ApiError::PayloadTooLarge { size, limit } => {
                push_str(&mut v, "API payload too large: ");
                push_str(&mut v, size.as_str());
                push_str(&mut v, ", limit: ");
                push_str(&mut v, limit.as_str());
                assert(v@ =~= self.spec_message());
            },
            ApiError::ContentTypeNotSupported { content_type } => {
                push_str(&mut v, "API content type not supported: ");
                push_str(&mut v, content_type.as_str());
                assert(v@ =~= self.spec_message());
            },
            ApiError::VersionNotSupported { version } => {
                push_str(&mut v, "API version not supported: ");
                push_str(&mut v, version.as_str());
                assert(v@ =~= self.spec_message());
            },
            ApiError::EventBusError { operation, error } => {
                push_str(&mut v, "API event bus error: ");
                push_str(&mut v, operation.as_str());
                push_str(&mut v, ", error: ");
                push_str(&mut v, error.as_str());
                assert(v@ =~= self.spec_message());
            },
            ApiError::ContractViolation { contract, violation } => {
                push_str(&mut v, "API contract violation: ");
                push_str(&mut v, contract.as_str());
                push_str(&mut v, ", violation: ");
                push_str(&mut v, violation.as_str());
                assert(v@ =~= self.spec_message());
            },
            ApiError::ConfigurationError { config, error } => {
                push_str(&mut v, "API configuration error: ");
                push_str(&mut v, config.as_str());
                push_str(&mut v, ", error: ");
                push_str(&mut v, error.as_str());
                assert(v@ =~= self.spec_message());
            },
            ApiError::MiddlewareError { middleware, error } => {
                push_str(&mut v, "API middleware error: ");
                push_str(&mut v, middleware.as_str());
                push_str(&mut v, ", error: ");
                push_str(&mut v, error.as_str());
                assert(v@ =~= self.spec_message());
            },
            ApiError::Unknown { message } => {
                push_str(&mut v, "API unknown error: ");
                push_str(&mut v, message.as_str());
                assert(v@ =~= self.spec_message());
            },
        }
        string_from_chars(&v)
    }
}

/// Migration-specific error types.
#[derive(Debug, Clone)]
pub enum MigrationError {
    AnalysisFailed { phase: String, error: String },
    PlanGenerationFailed { planner: String, error: String },
    ExecutionFailed { phase: String, error: String },
    ValidationFailed { validator: String, error: String },
    RollbackFailed { phase: String, error: String },
    CompatibilityCheckFailed { component: String, error: String },
    DependencyResolutionFailed { dependency: String, error: String },
    ConfigurationError { config: String, error: String },
    StateCorruption { state: String, error: String },
    ProgressTrackingFailed { tracker: String, error: String },
    ResourceAllocationFailed { resource: String, error: String },
    ToolIntegrationFailed { tool: String, error: String },
    DatabaseIntegrationFailed { operation: String, error: String },
    ThreadingIntegrationFailed { operation: String, error: String },
    ApiContractIntegrationFailed { operation: String, error: String },
    TestingFailed { test: String, error: String },
    DocumentationFailed { document: String, error: String },
    DeploymentFailed { deployment: String, error: String },
    CleanupFailed { cleanup: String, error: String },
    Unknown { message: String },
}

impl MigrationError {
    /// The text that the error displays. For a variant that shows a `Duration`,
    /// the text up to that value.
    pub open spec fn spec_message(&self) -> Seq<char> {
        match self {
            MigrationError::AnalysisFailed { phase, error } => "Migration analysis failed: "@ + phase@ + ", error: "@ + error@,
            MigrationError::PlanGenerationFailed { planner, error } => "Migration plan generation failed: "@ + planner@ + ", error: "@ + error@,
            MigrationError::ExecutionFailed { phase, error } => "Migration execution failed: "@ + phase@ + ", error: "@ + error@,
            MigrationError::ValidationFailed { validator, error } => "Migration validation failed: "@ + validator@ + ", error: "@ + error@,
            MigrationError::RollbackFailed { phase, error } => "Migration rollback failed: "@ + phase@ + ", error: "@ + error@,
            MigrationError::CompatibilityCheckFailed { component, error } => "Migration compatibility check failed: "@ + component@ + ", error: "@ + error@,
            MigrationError::DependencyResolutionFailed { dependency, error } => "Migration dependency resolution failed: "@ + dependency@ + ", error: "@ + error@,
            MigrationError::ConfigurationError { config, error } => "Migration configuration error: "@ + config@ + ", error: "@ + error@,
            MigrationError::StateCorruption { state, error } => "Migration state corruption: "@ + state@ + ", error: "@ + error@,
            MigrationError::ProgressTrackingFailed { tracker, error } => "Migration progress tracking failed: "@ + tracker@ + ", error: "@ + error@,
            MigrationError::ResourceAllocationFailed { resource, error } => "Migration resource allocation failed: "@ + resource@ + ", error: "@ + error@,
            MigrationError::ToolIntegrationFailed { tool, error } => "Migration tool integration failed: "@ + tool@ + ", error: "@ + error@,
            MigrationError::DatabaseIntegrationFailed { operation, error } => "Migration database integration failed: "@ + operation@ + ", error: "@ + error@,
            MigrationError::ThreadingIntegrationFailed { operation, error } => "Migration threading integration failed: "@ + operation@ + ", error: "@ + error@,
            MigrationError::ApiContractIntegrationFailed { operation, error } => "Migration API contract integration failed: "@ + operation@ + ", error: "@ + error@,
            MigrationError::TestingFailed { test, error } => "Migration testing failed: "@ + test@ + ", error: "@ + error@,
            MigrationError::DocumentationFailed { document, error } => "Migration documentation generation failed: "@ + document@ + ", error: "@ + error@,
            MigrationError::DeploymentFailed { deployment, error } => "Migration deployment failed: "@ + deployment@ + ", error: "@ + error@,
            MigrationError::CleanupFailed { cleanup, error } => "Migration cleanup failed: "@ + cleanup@ + ", error: "@ + error@,
            MigrationError::Unknown { message } => "Migration unknown error: "@ + message@,
        }
    }

    /// The text that the error displays (its `Display`).
    pub fn message(&self) -> (r: String)
        ensures
            r@ == self.spec_message(),
    {
        let mut v: Vec<char> = Vec::new();
        match self {
            MigrationError::AnalysisFailed { phase, error } => {
                push_str(&mut v, "Migration analysis failed: ");
                push_str(&mut v, phase.as_str());
                push_str(&mut v, ", error: ");
                push_str(&mut v, error.as_str());
                assert(v@ =~= self.spec_message());
            },
            MigrationError::PlanGenerationFailed { planner, error } => {
                push_str(&mut v, "Migration plan generation failed: ");
                push_str(&mut v, planner.as_str());
                push_str(&mut v, ", error: ");
                push_str(&mut v, error.as_str());
                assert(v@ =~= self.spec_message());
            },
            MigrationError::ExecutionFailed { phase, error } => {
                push_str(&mut v, "Migration execution failed: ");
                push_str(&mut v, phase.as_str());
                push_str(&mut v, ", error: ");
                push_str(&mut v, error.as_str());
                assert(v@ =~= self.spec_message());
            },
            MigrationError::ValidationFailed { validator, error } => {
                push_str(&mut v, "Migration validation failed: ");
                push_str(&mut v, validator.as_str());
                push_str(&mut v, ", error: ");
                push_str(&mut v, error.as_str());
                assert(v@ =~= self.spec_message());
            },
            MigrationError::RollbackFailed { phase, error } => {
                push_str(&mut v, "Migration rollback failed: ");
                push_str(&mut v, phase.as_str());
                push_str(&mut v, ", error: ");
                push_str(&mut v, error.as_str());
                assert(v@ =~= self.spec_message());
            },
            MigrationError::CompatibilityCheckFailed { component, error } => {
                push_str(&mut v, "Migration compatibility check failed: ");
                push_str(&mut v, component.as_str());
                push_str(&mut v, ", error: ");
                push_str(&mut v, error.as_str());
                assert(v@ =~= self.spec_message());
            },
            MigrationError::DependencyResolutionFailed { dependency, error } => {
                push_str(&mut v, "Migration dependency resolution failed: ");
                push_str(&mut v, dependency.as_str());
                push_str(&mut v, ", error: ");
                push_str(&mut v, error.as_str());
                assert(v@ =~= self.spec_message());
            },
            MigrationError::ConfigurationError { config, error } => {
                push_str(&mut v, "Migration configuration error: ");
                push_str(&mut v, config.as_str());
                push_str(&mut v, ", error: ");
                push_str(&mut v, error.as_str());
                assert(v@ =~= self.spec_message());
            },
            MigrationError::StateCorruption { state, error } => {
                push_str(&mut v, "Migration state corruption: ");
                push_str(&mut v, state.as_str());
                push_str(&mut v, ", error: ");
                push_str(&mut v, error.as_str());
                assert(v@ =~= self.spec_message());
            },
            MigrationError::ProgressTrackingFailed { tracker, error } => {
                push_str(&mut v, "Migration progress tracking failed: ");
                push_str(&mut v, tracker.as_str());
                push_str(&mut v, ", error: ");
                push_str(&mut v, error.as_str());
                assert(v@ =~= self.spec_message());
            },
            MigrationError::ResourceAllocationFailed { resource, error } => {
                push_str(&mut v, "Migration resource allocation failed: ");
                push_str(&mut v, resource.as_str());
                push_str(&mut v, ", error: ");
                push_str(&mut v, error.as_str());
                assert(v@ =~= self.spec_message());
            },
            MigrationError::ToolIntegrationFailed { tool, error } => {
                push_str(&mut v, "Migration tool integration failed: ");
                push_str(&mut v, tool.as_str());
                push_str(&mut v, ", error: ");
                push_str(&mut v, error.as_str());
                assert(v@ =~= self.spec_message());
            },
            MigrationError::DatabaseIntegrationFailed { operation, error } => {
                push_str(&mut v, "Migration database integration failed: ");
                push_str(&mut v, operation.as_str());
                push_str(&mut v, ", error: ");
                push_str(&mut v, error.as_str());
                assert(v@ =~= self.spec_message());
            },
            MigrationError::ThreadingIntegrationFailed { operation, error } => {
                push_str(&mut v, "Migration threading integration failed: ");
                push_str(&mut v, operation.as_str());
                push_str(&mut v, ", error: ");
                push_str(&mut v, error.as_str());
                assert(v@ =~= self.spec_message());
            },
            MigrationError::ApiContractIntegrationFailed { operation, error } => {
                push_str(&mut v, "Migration API contract integration failed: ");
                push_str(&mut v, operation.as_str());
                push_str(&mut v, ", error: ");
                push_str(&mut v, error.as_str());
                assert(v@ =~= self.spec_message());
            },
            MigrationError::TestingFailed { test, error } => {
                push_str(&mut v, "Migration testing failed: ");
                push_str(&mut v, test.as_str());
                push_str(&mut v, ", error: ");
                push_str(&mut v, error.as_str());
                assert(v@ =~= self.spec_message());
            },
            MigrationError::DocumentationFailed { document, error } => {
                push_str(&mut v, "Migration documentation generation failed: ");
                push_str(&mut v, document.as_str());
                push_str(&mut v, ", error: ");
                push_str(&mut v, error.as_str());
                assert(v@ =~= self.spec_message());
            },
            MigrationError::DeploymentFailed { deployment, error } => {
                push_str(&mut v, "Migration deployment failed: ");
                push_str(&mut v, deployment.as_str());
                push_str(&mut v, ", error: ");
                push_str(&mut v, error.as_str());
                assert(v@ =~= self.spec_message());
            },
            MigrationError::CleanupFailed { cleanup, error } => {
                push_str(&mut v, "Migration cleanup failed: ");
                push_str(&mut v, cleanup.as_str());
                push_str(&mut v, ", error: ");
                push_str(&mut v, error.as_str());
                assert(v@ =~= self.spec_message());
            },
            MigrationError::Unknown { message } => {
                push_str(&mut v, "Migration unknown error: ");
                push_str(&mut v, message.as_str());
                assert(v@ =~= self.spec_message());
            },
        }
        string_from_chars(&v)
    }
}

/// Generic result type for database operations.
pub type DatabaseResult<T> = Result<T, DatabaseError>;

/// Generic result type for application operations.
pub type AppResult<T> = Result<T, AppError>;

/// Generic result type for threading operations.
pub type ThreadingResult<T> = Result<T, ThreadingError>;

/// Generic result type for API operations.
pub type ApiResult<T> = Result<T, ApiError>;

/// Generic result type for migration operations.
pub type MigrationResult<T> = Result<T, MigrationError>;


/// Error severity levels.
#[derive(Debug, Clone, Copy, PartialEq, Eq, Structural)]
pub enum ErrorSeverity {
    /// Low impact, informational
    Low,
    /// Medium impact, should be addressed
    Medium,
    /// High impact, needs immediate attention
    High,
    /// Critical impact, blocks functionality
    Critical,
}

/// Error category for grouping and handling.
#[derive(Debug, Clone, Copy, PartialEq, Eq, Structural)]
pub enum ErrorCategory {
    /// Database-related errors
    Database,
    /// Application logic errors
    Application,
    /// Threading and concurrency errors
    Threading,
    /// API and communication errors
    Api,
    /// Performance and monitoring errors
    Performance,
    /// Migration-specific errors
    Migration,
    /// Configuration errors
    Configuration,
    /// Network and I/O errors
    Network,
    /// Security and authentication errors
    Security,
    /// Unknown or uncategorized errors
    Unknown,
}

/// Structured error information.
#[derive(Debug, Clone)]
pub struct ErrorInfo {
    /// Unique error identifier
    pub error_id: String,
    /// Error message
    pub message: String,
    /// Error severity
    pub severity: ErrorSeverity,
    /// Error category
    pub category: ErrorCategory,
    /// Error source (module, component, etc.)
    pub source: String,
    /// Error timestamp
    pub timestamp: DateTimeUtc,
    /// Stack trace (if available)
    pub stack_trace: Option<String>,
    /// Additional context
    pub context: StrMap<String>,
    /// Suggested resolution
    pub suggested_resolution: Option<String>,
    /// Error cause chain
    pub cause_chain: Vec<String>,
}

impl ErrorInfo {
    /// Structured information about an error, from the text the error displays
    /// and the name of its type: a fresh identifier, the current time, the
    /// type name recorded under the context key `error_type`, and the message as
    /// the first cause.
    pub fn new(
        message: &str,
        error_type: &str,
        source: &str,
        severity: ErrorSeverity,
        category: ErrorCategory,
    ) -> (info: Self)
        ensures
            info.message@ == message@,
            info.source@ == source@,
            info.severity == severity,
            info.category == category,
            info.stack_trace is None,
            info.suggested_resolution is None,
            info.context.wf(),
            info.context.map() == Map::<Seq<char>, String>::empty().insert("error_type"@, info.context.map()["error_type"@]),
            info.context.map()["error_type"@]@ == error_type@,
            info.cause_chain@.len() == 1,
            info.cause_chain@[0]@ == message@,
            exists|id: u128| info.error_id@ == spec_uuid_text(id),
    {
        let mut context: StrMap<String> = StrMap::new();
        context.insert(to_owned_string("error_type"), to_owned_string(error_type));
        let id = new_uuid();
        let mut cause_chain: Vec<String> = Vec::new();
        cause_chain.push(to_owned_string(message));
        ErrorInfo {
            error_id: uuid_text(id),
            message: to_owned_string(message),
            severity,
            category,
            source: to_owned_string(source),
            timestamp: utc_now(),
            stack_trace: None,
            context,
            suggested_resolution: None,
            cause_chain,
        }
    }

    /// Adds (or replaces) a context entry.
    pub fn with_context(self, key: &str, value: &str) -> (info: Self)
        requires
            self.context.wf(),
        ensures
            info.context.wf(),
            info.context.map() == self.context.map().insert(key@, info.context.map()[key@]),
            info.context.map()[key@]@ == value@,
            info == (ErrorInfo { context: info.context, ..self }),
    {
        let mut info = self;
        info.context.insert(to_owned_string(key), to_owned_string(value));
        info
    }

    /// Sets the suggested resolution.
    pub fn with_resolution(self, resolution: &str) -> (info: Self)
        ensures
            info.suggested_resolution matches Some(r) && r@ == resolution@,
            info == (ErrorInfo { suggested_resolution: info.suggested_resolution, ..self }),
    {
        let mut info = self;
        info.suggested_resolution = Some(to_owned_string(resolution));
        info
    }

    /// Appends a cause to the cause chain.
    pub fn add_cause(self, cause: &str) -> (info: Self)
        ensures
            info.cause_chain@.len() == self.cause_chain@.len() + 1,
            info.cause_chain@.drop_last() == self.cause_chain@,
            info.cause_chain@.last()@ == cause@,
            info == (ErrorInfo { cause_chain: info.cause_chain, ..self }),
    {
        let mut info = self;
        info.cause_chain.push(to_owned_string(cause));
        assert(info.cause_chain@.drop_last() =~= self.cause_chain@);
        info
    }
}

/// The severity that the default handler gives an error, from its lower-cased text.
pub open spec fn severity_for_text(lower: Seq<char>) -> ErrorSeverity {
    if contains_seq(lower, "critical"@) || contains_seq(lower, "fatal"@) {
        ErrorSeverity::Critical
    } else if contains_seq(lower, "error"@) || contains_seq(lower, "failed"@) {
        ErrorSeverity::High
    } else if contains_seq(lower, "warning"@) || contains_seq(lower, "warn"@) {
        ErrorSeverity::Medium
    } else {
        ErrorSeverity::Low
    }
}

/// Default error handler implementation.
pub struct DefaultErrorHandler;

impl DefaultErrorHandler {
    /// The severity of an error from the text it displays: `critical` or `fatal`
    /// make it critical, `error` or `failed` high, `warning` or `warn` medium,
    /// anything else low (case-insensitively).
    pub fn classify_severity(&self, message: &str) -> (s: ErrorSeverity)
        ensures
            s == severity_for_text(spec_to_lowercase(message@)),
            all_ascii(message@) ==> spec_to_lowercase(message@) == message@.map_values(|c: char| ascii_lower(c)),
    {
        let lower = to_lowercase(message);
        let l = chars_of(lower.as_str());
        if contains(&l, &chars_of("critical")) || contains(&l, &chars_of("fatal")) {
            ErrorSeverity::Critical
        } else if contains(&l, &chars_of("error")) || contains(&l, &chars_of("failed")) {
            ErrorSeverity::High
        } else if contains(&l, &chars_of("warning")) || contains(&l, &chars_of("warn")) {
            ErrorSeverity::Medium
        } else {
            ErrorSeverity::Low
        }
    }

    /// Handles an error given the text it displays and its type name: the
    /// severity comes from `classify_severity`, the category is `Unknown`.
    pub fn handle_error(&self, message: &str, error_type: &str, source: &str) -> (info: ErrorInfo)
        ensures
            info.message@ == message@,
            info.source@ == source@,
            info.severity == severity_for_text(spec_to_lowercase(message@)),
            all_ascii(message@) ==> spec_to_lowercase(message@) == message@.map_values(|c: char| ascii_lower(c)),
            info.category == ErrorCategory::Unknown,
            info.context.wf(),
            info.context.map().contains_key("error_type"@),
            info.context.map()["error_type"@]@ == error_type@,
            info.cause_chain@.len() == 1,
            info.cause_chain@[0]@ == message@,
    {
        let severity = self.classify_severity(message);
        ErrorInfo::new(message, error_type, source, severity, ErrorCategory::Unknown)
    }

    /// The line the handler logs for an error: a level word by severity, the
    /// source in brackets and the message.
    pub fn log_line(&self, info: &ErrorInfo) -> (line: String)
        ensures
            line@ == log_prefix(info.severity) + " ["@ + info.source@ + "]: "@ + info.message@,
    {
        let mut v: Vec<char> = Vec::new();
        match info.severity {
            ErrorSeverity::Critical => push_str(&mut v, "CRITICAL ERROR"),
            ErrorSeverity::High => push_str(&mut v, "ERROR"),
            ErrorSeverity::Medium => push_str(&mut v, "WARNING"),
            ErrorSeverity::Low => push_str(&mut v, "INFO"),
        }
        push_str(&mut v, " [");
        push_str(&mut v, info.source.as_str());
        push_str(&mut v, "]: ");
        push_str(&mut v, info.message.as_str());
        assert(v@ =~= log_prefix(info.severity) + " ["@ + info.source@ + "]: "@ + info.message@);
        string_from_chars(&v)
    }

    /// Resolution suggestions by category.
    pub fn get_resolution_suggestions(&self, info: &ErrorInfo) -> (s: Vec<String>)
        ensures
            s@.map_values(|t: String| t@) == suggestions_for(info.category),
    {
        let mut s: Vec<String> = Vec::new();
        match info.category {
            ErrorCategory::Database => {
                s.push(to_owned_string("Check database connection"));
                s.push(to_owned_string("Verify database permissions"));
                s.push(to_owned_string("Review database logs"));
            },
            ErrorCategory::Application => {
                s.push(to_owned_string("Review application configuration"));
                s.push(to_owned_string("Check system resources"));
                s.push(to_owned_string("Restart application services"));
            },
            ErrorCategory::Threading => {
                s.push(to_owned_string("Review thread synchronization"));
                s.push(to_owned_string("Check for deadlocks"));
                s.push(to_owned_string("Verify async/await usage"));
            },
            _ => {
                s.push(to_owned_string("Contact support team"));
                s.push(to_owned_string("Check system logs"));
                s.push(to_owned_string("Review error details"));
            },
        }
        assert(s@.map_values(|t: String| t@) =~= suggestions_for(info.category));
        s
    }

    /// Critical and high severity errors raise an alert.
    pub fn should_alert(&self, info: &ErrorInfo) -> (r: bool)
        ensures
            r == (info.severity == ErrorSeverity::Critical || info.severity == ErrorSeverity::High),
    {
        match info.severity {
            ErrorSeverity::Critical | ErrorSeverity::High => true,
            _ => false,
        }
    }
}

/// The level word that starts a logged error line.
pub open spec fn log_prefix(s: ErrorSeverity) -> Seq<char> {
    match s {
        ErrorSeverity::Critical => "CRITICAL ERROR"@,
        ErrorSeverity::High => "ERROR"@,
        ErrorSeverity::Medium => "WARNING"@,
        ErrorSeverity::Low => "INFO"@,
    }
}

/// The resolution suggestions for an error category.
pub open spec fn suggestions_for(c: ErrorCategory) -> Seq<Seq<char>> {
    match c {
        ErrorCategory::Database => seq![
            "Check database connection"@,
            "Verify database permissions"@,
            "Review database logs"@,
        ],
        ErrorCategory::Application => seq![
            "Review application configuration"@,
            "Check system resources"@,
            "Restart application services"@,
        ],
        ErrorCategory::Threading => seq![
            "Review thread synchronization"@,
            "Check for deadlocks"@,
            "Verify async/await usage"@,
        ],
        _ => seq!["Contact support team"@, "Check system logs"@, "Review error details"@],
    }
}

} // verus!
