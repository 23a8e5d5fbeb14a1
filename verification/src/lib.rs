//! Herding Cats: the verified core of a writing-project manager.
//!
//! The library holds the data model, validation rules, text processing,
//! query building and bookkeeping of the application; the program around it
//! performs the file, database and network work.

pub mod text;
pub mod api;
pub mod timeutil;
pub mod database;
pub mod database_app_state;
pub mod error;
pub mod strmap;
pub mod json;
pub mod sorting;
pub mod font_manager;
pub mod font_loader;
pub mod fonts;
pub mod automation;
pub mod export;
pub mod compliance;
pub mod config_security;
pub mod memory;
pub mod performance;
pub mod cache;
pub mod file_access;
pub mod file_ops;
pub mod classify;
pub mod ipc_bridge;
pub mod import;
pub mod i18n;

use vstd::prelude::*;

verus! {

/// Version of the application.
pub const VERSION: &'static str = "2.0.0";

/// Name of the application.
pub const NAME: &'static str = "Herding Cats";

/// The default configuration of the database connection pool.
pub fn get_database_config() -> (c: database::enhanced_database_sqlx::DatabaseConfig)
    ensures
        c.max_connections == 10,
        c.min_connections == 1,
        c.acquire_timeout == (timeutil::TimeSpan { secs: 30, nanos: 0 }),
        c.idle_timeout == Some(timeutil::TimeSpan { secs: 600, nanos: 0 }),
        c.max_lifetime == Some(timeutil::TimeSpan { secs: 3600, nanos: 0 }),
{
    database::enhanced_database_sqlx::DatabaseConfig::default()
}

} // verus!
