//! Datastore model: keys, values, queries, the wire messages of the
//! datastore API, and the conversions between them.
pub mod api;
pub mod key;
pub mod convert;
pub mod error;
pub mod value;
pub mod query;
pub mod client;
pub mod transaction;
pub mod ids;
pub mod project;
pub mod read;
