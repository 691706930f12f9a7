//! Domain model, datastore key/query/wire conversion and request logic of the
//! project-management backend, with machine-checked contracts.
pub mod datastore;
pub mod domain;
pub mod frontend;
pub mod graphql;
pub mod libmww;
pub mod outside;
pub mod text;
pub mod usecase;
