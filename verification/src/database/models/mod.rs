//! Data models of the database: projects, documents, research materials,
//! codex entries and analyses.

pub mod codex;
pub mod codex_service;
pub mod research;
pub mod analysis;
pub mod project;
