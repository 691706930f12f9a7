//! The GraphQL schema's objects and roots, and how a project is shown.
pub mod project;
pub mod schema;
