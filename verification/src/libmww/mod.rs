//! Shared building blocks: typed identifiers and database errors.
pub mod database;
pub mod id;
