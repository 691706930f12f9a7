//! What the project use cases answer.
use vstd::prelude::*;

use crate::domain::error::{repository_error_text, RepositoryError, RepositoryErrorKind, RepositoryErrorView};
use crate::domain::project::Project;
use crate::outside::{error_from_message, error_message};
use crate::usecase::error::UsecaseError;

verus! {

/// `cause` is a message error whose message is the text of the repository
/// error `e`.
pub open spec fn carries_repository_error(cause: anyhow::Error, e: RepositoryErrorView) -> bool {
    error_message(cause) matches Some(t) && repository_error_text(e, t)
}

/// The cause that a use case reports for a repository error: an error whose
/// message is the repository error's text. A type of this library cannot
/// implement `std::error::Error`, so the cause carries the error as its text,
/// which anyhow's `Display` and plain `Debug` print as they would print the
/// error itself.
fn repository_cause(error: &RepositoryError) -> (r: anyhow::Error)
    ensures
        carries_repository_error(r, error@),
{
    error_from_message(error.to_display_string())
}

/// What getting a project answers for the repository's result: the project
/// when found; "not found" when the repository found none; "internal server
/// error" for any other failure.
pub fn get_outcome(result: Result<Project, RepositoryError>) -> (r: Result<Project, UsecaseError>)
    ensures
        result is Ok <==> r is Ok,
        result matches Ok(p) ==> r == Ok::<Project, UsecaseError>(p),
        result matches Err(e) ==> match r {
            Err(UsecaseError::Notfound(m, c)) => e@.kind == RepositoryErrorKind::NotFound && m@
                == "not found"@ && carries_repository_error(c, e@),
            Err(UsecaseError::Fail(m, c)) => e@.kind != RepositoryErrorKind::NotFound && m@
                == "internal_server_error"@ && carries_repository_error(c, e@),
            _ => false,
        },
{
    match result {
        Ok(project) => Ok(project),
        Err(error) => {
            let cause = repository_cause(&error);
            match error.kind() {
                RepositoryErrorKind::NotFound => Err(UsecaseError::Notfound("not found".to_owned(), cause)),
                _ => Err(UsecaseError::Fail("internal_server_error".to_owned(), cause)),
            }
        },
    }
}

/// What creating a project answers once the project is made and the attempt
/// to store it has ended: the project when stored, otherwise "failed to
/// create project".
pub fn create_outcome(project: Project, stored: Result<(), RepositoryError>) -> (r: Result<
    Project,
    UsecaseError,
>)
    ensures
        stored is Ok ==> r == Ok::<Project, UsecaseError>(project),
        stored matches Err(e) ==> match r {
            Err(UsecaseError::Fail(m, c)) => m@ == "failed to create project"@
                && carries_repository_error(c, e@),
            _ => false,
        },
{
    match stored {
        Ok(_) => Ok(project),
        Err(error) => Err(
            UsecaseError::Fail("failed to create project".to_owned(), repository_cause(&error)),
        ),
    }
}

} // verus!
