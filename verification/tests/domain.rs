use mww::domain::error::{DomainError, DomainErrorKind, RepositoryError, RepositoryErrorKind};
use mww::domain::project::{Project, ProjectId, ProjectName};
use mww::datastore::ids::allocation_failure;
use mww::datastore::project::{connection_failure, get_entity_failure};
use mww::libmww::database::{transaction_end, DatabaseError, TransactionEnd};
use mww::usecase::error::UsecaseError;
use mww::usecase::project::{create_outcome, get_outcome};

#[test]
fn project_name_refuses_empty_text() {
    let err = ProjectName::try_new(String::new()).unwrap_err();
    assert_eq!(err.kind(), &DomainErrorKind::InvalidInput);
    assert_eq!(err.message(), "project_name is empty");
    assert!(err.source().is_none());
    assert!(err.sub_errors().is_empty());
    assert_eq!(err, DomainError::new(DomainErrorKind::InvalidInput, "project_name is empty"));
}

#[test]
fn project_name_keeps_text() {
    let n = ProjectName::try_new("project1".to_string()).unwrap();
    assert_eq!(n.raw(), "project1");
    assert_eq!(n.clone(), n);
    assert_eq!(String::from(n), "project1".to_string());
}

#[test]
fn project_holds_id_and_name() {
    let p = Project::new(ProjectId::new("1".to_string()), ProjectName::try_new("p".to_string()).unwrap());
    assert_eq!(p.id().raw_id(), "1");
    assert_eq!(p.name().raw(), "p");
    let q = p.clone();
    assert_eq!(q.id(), p.id());
    assert_eq!(q.name(), p.name());
}

#[test]
fn domain_errors_compare_by_kind_and_message() {
    let a = DomainError::new(DomainErrorKind::Fail, "m");
    let b = DomainError::new_with_source(DomainErrorKind::Fail, "m", anyhow::Error::msg("cause"));
    let c = DomainError::new_with_sub_errors(DomainErrorKind::Fail, "m", vec![DomainError::new(DomainErrorKind::Conflict, "x")]);
    assert_eq!(a, b);
    assert_eq!(a, c);
    assert_eq!(c.sub_errors().len(), 1);
    assert!(b.source().is_some());
    assert_ne!(a, DomainError::new(DomainErrorKind::Forbidden, "m"));
    assert_ne!(a, DomainError::new(DomainErrorKind::Fail, "n"));
}

#[test]
fn repository_errors_compare_by_kind_and_message() {
    let a = RepositoryError::new(RepositoryErrorKind::NotFound, "not found");
    let b = RepositoryError::new_with_source(RepositoryErrorKind::NotFound, "not found", anyhow::Error::msg("x"));
    assert_eq!(a, b);
    assert_eq!(a.kind(), &RepositoryErrorKind::NotFound);
    assert_eq!(a.message(), "not found");
    assert_ne!(a, RepositoryError::new(RepositoryErrorKind::Fail, "not found"));
}

#[test]
fn error_texts() {
    let r = RepositoryError::new(RepositoryErrorKind::Fail, "failed to put");
    assert_eq!(r.to_display_string(), "kind:Fail,message:failed to put,source:None");
    let r = RepositoryError::new_with_source(RepositoryErrorKind::Conflict, "c", anyhow::Error::msg("boom"));
    assert!(r.to_display_string().starts_with("kind:Conflict,message:c,source:boom"));
    let d = DomainError::new(DomainErrorKind::InvalidInput, "bad");
    assert_eq!(d.to_display_string(), "kindInvalidInput,message:bad,source,:None,sub_errors:[]");
    let d = DomainError::new_with_source(DomainErrorKind::Fail, "f", anyhow::Error::msg("why"));
    assert!(d.to_display_string().starts_with("kindFail,message:f,source,:Some(why"));
    let d = DomainError::new_with_sub_errors(DomainErrorKind::Notfound, "s", vec![DomainError::new(DomainErrorKind::Fail, "x")]);
    let t = d.to_display_string();
    assert!(t.starts_with("kindNotfound,message:s,source,:None,sub_errors:["));
    assert!(t.contains("message: \"x\""));
    assert!(t.ends_with("]"));
    let d = DomainError::new_with_source(DomainErrorKind::Conflict, "c", anyhow::Error::msg("why"));
    let t = d.to_display_string();
    assert!(t.starts_with("kindConflict,message:c,source,:Some(why"));
    assert!(t.ends_with("),sub_errors:[]"));
}

#[test]
fn database_errors_compare_by_variant() {
    let a = DatabaseError::FailedOpen(anyhow::Error::msg("a"));
    let b = DatabaseError::FailedOpen(anyhow::Error::msg("b"));
    assert_eq!(a, b);
    assert_ne!(a, DatabaseError::FailedTransactionCommit(anyhow::Error::msg("a")));
    assert_eq!(
        DatabaseError::FailedTransactionBegin(anyhow::Error::msg("a")),
        DatabaseError::FailedTransactionBegin(anyhow::Error::msg("z"))
    );
    assert_ne!(
        DatabaseError::FailedTransactionRollback(anyhow::Error::msg("a")),
        DatabaseError::FailedTransactionBegin(anyhow::Error::msg("a"))
    );
}

#[test]
fn transaction_commits_on_success_only() {
    let ok: Result<(), String> = Ok(());
    let err: Result<(), String> = Err("e".to_string());
    assert_eq!(transaction_end(&ok), TransactionEnd::Commit);
    assert_eq!(transaction_end(&err), TransactionEnd::Rollback);
}

#[test]
fn usecase_and_database_error_texts() {
    let e = UsecaseError::Notfound("not found".to_string(), anyhow::Error::msg("x"));
    assert_eq!(e.to_display_string(), "not found");
    let e = UsecaseError::Fail("internal_server_error".to_string(), anyhow::Error::msg("x"));
    assert_eq!(e.to_display_string(), "internal_server_error");
    let e = UsecaseError::DomainError(DomainError::new(DomainErrorKind::InvalidInput, "bad"));
    assert_eq!(e.to_display_string(), "kindInvalidInput,message:bad,source,:None,sub_errors:[]");
    let d = DatabaseError::FailedTransactionCommit(anyhow::Error::msg("conflit detected"));
    assert_eq!(d.to_display_string(), "conflit detected");
    let e = UsecaseError::DatabaseError(DatabaseError::FailedOpen(anyhow::Error::msg("closed")));
    assert_eq!(e.to_display_string(), "closed");
}

#[test]
fn datastore_failures_carry_their_messages() {
    let r = get_entity_failure(anyhow::Error::msg("down"));
    assert_eq!(r.kind(), &RepositoryErrorKind::Fail);
    assert_eq!(r.message(), "failed_to_get_entity");
    assert_eq!(r.source().as_ref().unwrap().to_string(), "down");
    let d = allocation_failure(anyhow::Error::msg("quota"));
    assert_eq!(d.kind(), &DomainErrorKind::Fail);
    assert_eq!(d.message(), "failed allocated ids");
    assert_eq!(d.source().as_ref().unwrap().to_string(), "quota");
    let d = connection_failure(DatabaseError::FailedOpen(anyhow::Error::msg("refused")));
    assert_eq!(d.kind(), &DomainErrorKind::Fail);
    assert_eq!(d.message(), "failed connection to datastore");
    assert_eq!(d.source().as_ref().unwrap().to_string(), "refused");
    assert!(d.sub_errors().is_empty());
}

#[test]
fn gathered_errors_read_as_their_derived_debug() {
    let inner = DomainError::new_with_sub_errors(
        DomainErrorKind::Conflict,
        "in \"quotes\"",
        vec![DomainError::new(DomainErrorKind::Forbidden, "deep")],
    );
    let d = DomainError::new_with_sub_errors(
        DomainErrorKind::Notfound,
        "s",
        vec![DomainError::new(DomainErrorKind::Fail, "x"), inner],
    );
    assert_eq!(
        d.to_display_string(),
        format!("kindNotfound,message:s,source,:None,sub_errors:{:?}", d.sub_errors())
    );
}

#[test]
fn use_case_causes_carry_the_repository_error_text() {
    let e = RepositoryError::new(RepositoryErrorKind::NotFound, "not found");
    match get_outcome(Err(e)) {
        Err(UsecaseError::Notfound(m, c)) => {
            assert_eq!(m, "not found");
            assert_eq!(c.to_string(), "kind:NotFound,message:not found,source:None");
        }
        _ => panic!("expected not found"),
    }
    let p = Project::new(ProjectId::new("1".to_string()), ProjectName::try_new("p".to_string()).unwrap());
    let e = RepositoryError::new(RepositoryErrorKind::Fail, "failed to put");
    match create_outcome(p, Err(e)) {
        Err(UsecaseError::Fail(m, c)) => {
            assert_eq!(m, "failed to create project");
            assert_eq!(c.to_string(), "kind:Fail,message:failed to put,source:None");
        }
        _ => panic!("expected a failure"),
    }
}
