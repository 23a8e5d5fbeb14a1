//! The database layer: its error type, rows and query results, and the
//! services that turn stored records into the application's data model.

use vstd::prelude::*;
use crate::text::{push_str, string_from_chars};

pub mod analysis_service;
pub mod backup_service;
pub mod enhanced_database_sqlx;
pub mod models;
pub mod project_management;
pub mod search_service;
pub mod service_factory;
pub mod vector_embedding;

verus! {

/// Errors of the database layer and its services.
#[derive(Debug, Clone)]
pub enum DatabaseError {
    Connection(String),
    Configuration(String),
    IntegrityCheck(String),
    Migration(String),
    Service(String),
    ValidationError(String),
    NotFound(String),
    NotImplemented(String),
}

impl DatabaseError {
    /// The text that the error displays. For a variant that shows a `Duration`,
    /// the text up to that value.
    pub open spec fn spec_message(&self) -> Seq<char> {
        match self {
            DatabaseError::Connection(f0) => "Connection error: "@ + f0@,
            DatabaseError::Configuration(f0) => "Configuration error: "@ + f0@,
            DatabaseError::IntegrityCheck(f0) => "Integrity check failed: "@ + f0@,
            DatabaseError::Migration(f0) => "Migration error: "@ + f0@,
            DatabaseError::Service(f0) => "Service error: "@ + f0@,
            DatabaseError::ValidationError(f0) => "Validation error: "@ + f0@,
            DatabaseError::NotFound(f0) => "Not found: "@ + f0@,
            DatabaseError::NotImplemented(f0) => "Not implemented: "@ + f0@,
        }
    }

    /// The text that the error displays (its `Display`).
    pub fn message(&self) -> (r: String)
        ensures
            r@ == self.spec_message(),
    {
        let mut v: Vec<char> = Vec::new();
        match self {
            DatabaseError::Connection(f0) => {
                push_str(&mut v, "Connection error: ");
                push_str(&mut v, f0.as_str());
                assert(v@ =~= self.spec_message());
            },
            DatabaseError::Configuration(f0) => {
                push_str(&mut v, "Configuration error: ");
                push_str(&mut v, f0.as_str());
                assert(v@ =~= self.spec_message());
            },
            DatabaseError::IntegrityCheck(f0) => {
                push_str(&mut v, "Integrity check failed: ");
                push_str(&mut v, f0.as_str());
                assert(v@ =~= self.spec_message());
            },
            DatabaseError::Migration(f0) => {
                push_str(&mut v, "Migration error: ");
                push_str(&mut v, f0.as_str());
                assert(v@ =~= self.spec_message());
            },
            DatabaseError::Service(f0) => {
                push_str(&mut v, "Service error: ");
                push_str(&mut v, f0.as_str());
                assert(v@ =~= self.spec_message());
            },
            DatabaseError::ValidationError(f0) => {
                push_str(&mut v, "Validation error: ");
                push_str(&mut v, f0.as_str());
                assert(v@ =~= self.spec_message());
            },
            DatabaseError::NotFound(f0) => {
                push_str(&mut v, "Not found: ");
                push_str(&mut v, f0.as_str());
                assert(v@ =~= self.spec_message());
            },
            DatabaseError::NotImplemented(f0) => {
                push_str(&mut v, "Not implemented: ");
                push_str(&mut v, f0.as_str());
                assert(v@ =~= self.spec_message());
            },
        }
        string_from_chars(&v)
    }
}

/// The result of a database operation.
pub type DatabaseResult<T> = Result<T, DatabaseError>;

} // verus!
