//! Errors of the database layer, and what a transaction does with the result
//! of its work.
use vstd::prelude::*;

use crate::outside::{error_display_text, error_message};

verus! {

/// A failure of the database layer, with its cause.
#[derive(Debug)]
pub enum DatabaseError {
    FailedOpen(anyhow::Error),
    FailedTransactionBegin(anyhow::Error),
    FailedTransactionRollback(anyhow::Error),
    FailedTransactionCommit(anyhow::Error),
}

/// Two database errors are equal when they are of the same variant,
/// whatever their causes.
pub open spec fn same_database_error(a: DatabaseError, b: DatabaseError) -> bool {
    ||| a is FailedOpen && b is FailedOpen
    ||| a is FailedTransactionBegin && b is FailedTransactionBegin
    ||| a is FailedTransactionRollback && b is FailedTransactionRollback
    ||| a is FailedTransactionCommit && b is FailedTransactionCommit
}

impl PartialEq for DatabaseError {
    fn eq(&self, other: &Self) -> (r: bool) {
        match (self, other) {
            (DatabaseError::FailedOpen(_), DatabaseError::FailedOpen(_)) => true,
            (DatabaseError::FailedTransactionBegin(_), DatabaseError::FailedTransactionBegin(_)) => true,
            (
                DatabaseError::FailedTransactionRollback(_),
                DatabaseError::FailedTransactionRollback(_),
            ) => true,
            (DatabaseError::FailedTransactionCommit(_), DatabaseError::FailedTransactionCommit(_)) => true,
            _ => false,
        }
    }
}

impl vstd::std_specs::cmp::PartialEqSpecImpl for DatabaseError {
    open spec fn obeys_eq_spec() -> bool {
        true
    }

    open spec fn eq_spec(&self, other: &Self) -> bool {
        same_database_error(*self, *other)
    }
}

/// The cause of a database failure, whatever its variant.
pub open spec fn database_cause(e: DatabaseError) -> anyhow::Error {
    match e {
        DatabaseError::FailedOpen(c) => c,
        DatabaseError::FailedTransactionBegin(c) => c,
        DatabaseError::FailedTransactionRollback(c) => c,
        DatabaseError::FailedTransactionCommit(c) => c,
    }
}

/// `text` is the text of a database failure: its cause's message, for a
/// cause made from a message. Other causes' texts are not stated.
pub open spec fn database_error_text(e: DatabaseError, text: Seq<char>) -> bool {
    error_message(database_cause(e)) matches Some(m) ==> text == m
}

impl DatabaseError {
    fn cause(&self) -> (r: &anyhow::Error)
        ensures
            *r == database_cause(*self),
    {
        match self {
            DatabaseError::FailedOpen(e) => e,
            DatabaseError::FailedTransactionBegin(e) => e,
            DatabaseError::FailedTransactionRollback(e) => e,
            DatabaseError::FailedTransactionCommit(e) => e,
        }
    }

    /// The text of the failure: the text of its cause, whatever its variant.
    pub fn to_display_string(&self) -> (r: String)
        ensures
            database_error_text(*self, r@),
    {
        error_display_text(self.cause())
    }
}

/// How a transaction ends.
#[derive(Debug, PartialEq, Eq, Structural, Clone, Copy)]
pub enum TransactionEnd {
    Commit,
    Rollback,
}

/// A transaction whose work succeeded is committed; one whose work failed
/// is rolled back.
pub fn transaction_end<T, E>(result: &Result<T, E>) -> (r: TransactionEnd)
    ensures
        r == (if result is Ok {
            TransactionEnd::Commit
        } else {
            TransactionEnd::Rollback
        }),
{
    if result.is_ok() {
        TransactionEnd::Commit
    } else {
        TransactionEnd::Rollback
    }
}

} // verus!
