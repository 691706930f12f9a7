//! The domain model: errors, project names and projects.
pub mod error;
pub mod project;
