//! The project use cases: what they answer for each outcome of the work
//! they delegate.
pub mod error;
pub mod project;
