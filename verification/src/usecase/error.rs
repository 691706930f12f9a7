//! Errors of the use cases.
use vstd::prelude::*;

use crate::domain::error::{domain_error_text, DomainError};
use crate::libmww::database::{database_error_text, same_database_error, DatabaseError};

verus! {

/// A failure of a use case.
#[derive(Debug)]
pub enum UsecaseError {
    DomainError(DomainError),
    Notfound(String, anyhow::Error),
    Fail(String, anyhow::Error),
    DatabaseError(DatabaseError),
}

impl From<DomainError> for UsecaseError {
    fn from(err: DomainError) -> (r: UsecaseError) {
        UsecaseError::DomainError(err)
    }
}

impl vstd::std_specs::convert::FromSpecImpl<DomainError> for UsecaseError {
    open spec fn obeys_from_spec() -> bool {
        true
    }

    open spec fn from_spec(err: DomainError) -> UsecaseError {
        UsecaseError::DomainError(err)
    }
}

impl From<DatabaseError> for UsecaseError {
    fn from(err: DatabaseError) -> (r: UsecaseError) {
        UsecaseError::DatabaseError(err)
    }
}

impl vstd::std_specs::convert::FromSpecImpl<DatabaseError> for UsecaseError {
    open spec fn obeys_from_spec() -> bool {
        true
    }

    open spec fn from_spec(err: DatabaseError) -> UsecaseError {
        UsecaseError::DatabaseError(err)
    }
}

impl UsecaseError {
    /// The text of the failure: the message of a not-found or failed use
    /// case, the text of a domain error, or the text of a database error.
    pub fn to_display_string(&self) -> (r: String)
        ensures
            self matches UsecaseError::Notfound(m, _) ==> r@ == m@,
            self matches UsecaseError::Fail(m, _) ==> r@ == m@,
            self matches UsecaseError::DomainError(e) ==> exists|
                source_text: Seq<char>,
                sub_errors_text: Seq<char>,
            | r@ == #[trigger] domain_error_text(e@, source_text, sub_errors_text),
            self matches UsecaseError::DatabaseError(e) ==> database_error_text(*e, r@),
    {
        match self {
            UsecaseError::DomainError(e) => e.to_display_string(),
            UsecaseError::Notfound(m, _) => m.clone(),
            UsecaseError::Fail(m, _) => m.clone(),
            UsecaseError::DatabaseError(e) => e.to_display_string(),
        }
    }
}

/// Two use-case errors are equal when they are of the same variant and their
/// contents are equal; causes are not compared.
pub open spec fn same_usecase_error(a: UsecaseError, b: UsecaseError) -> bool {
    match (a, b) {
        (UsecaseError::DomainError(x), UsecaseError::DomainError(y)) => x@.kind == y@.kind
            && x@.message == y@.message,
        (UsecaseError::Notfound(m, _), UsecaseError::Notfound(n, _)) => m@ == n@,
        (UsecaseError::Fail(m, _), UsecaseError::Fail(n, _)) => m@ == n@,
        (UsecaseError::DatabaseError(x), UsecaseError::DatabaseError(y)) => same_database_error(
            x,
            y,
        ),
        _ => false,
    }
}

impl PartialEq for UsecaseError {
    fn eq(&self, other: &Self) -> (r: bool) {
        match self {
            UsecaseError::DomainError(x) => match other {
                UsecaseError::DomainError(y) => x.eq(y),
                _ => false,
            },
            UsecaseError::Notfound(m, _) => match other {
                UsecaseError::Notfound(n, _) => m.eq(n),
                _ => false,
            },
            UsecaseError::Fail(m, _) => match other {
                UsecaseError::Fail(n, _) => m.eq(n),
                _ => false,
            },
            UsecaseError::DatabaseError(x) => match other {
                UsecaseError::DatabaseError(y) => x.eq(y),
                _ => false,
            },
        }
    }
}

impl vstd::std_specs::cmp::PartialEqSpecImpl for UsecaseError {
    open spec fn obeys_eq_spec() -> bool {
        true
    }

    open spec fn eq_spec(&self, other: &Self) -> bool {
        same_usecase_error(*self, *other)
    }
}

} // verus!
