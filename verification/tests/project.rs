use mww::datastore::api;
use mww::datastore::convert::convert_key;
use mww::datastore::ids::ids_of_allocated_keys;
use mww::datastore::key::{Key, KeyID};
use mww::datastore::project::{new_key, project_entity, project_from_allocation, project_from_entity, project_key};
use mww::datastore::value::Value;
use mww::domain::error::{DomainError, DomainErrorKind, RepositoryError, RepositoryErrorKind};
use mww::libmww::database::DatabaseError;
use mww::domain::project::{Project, ProjectId, ProjectName};
use mww::graphql::project::project_object;
use mww::usecase::error::UsecaseError;
use mww::usecase::project::{create_outcome, get_outcome};

fn props_of(v: Value) -> Vec<(String, Value)> {
    match v {
        Value::EntityValue(props) => props,
        _ => panic!("expected entity properties"),
    }
}

/// Stores the project (as the repository does) and reads it back by id.
fn store_then_get(stored: Option<&Project>, id: &str) -> Result<Project, UsecaseError> {
    let key = project_key("ns".to_string(), &ProjectId::new(id.to_string()));
    let entity = stored.map(|p| props_of(project_entity("ns".to_string(), p).properties));
    get_outcome(project_from_entity(&key, entity))
}

#[test]
fn get_project() {
    let expected = Project::new(ProjectId::new("1".to_string()), ProjectName::try_new("project1".to_string()).unwrap());
    let got = store_then_get(Some(&expected), "1").unwrap();
    assert_eq!(expected.id(), got.id());
    assert_eq!(expected.name(), got.name());

    let missing = store_then_get(None, "2").unwrap_err();
    assert_eq!(missing, UsecaseError::Notfound("not found".to_string(), anyhow::Error::msg("")));
}

#[test]
fn create_project_test() {
    for name in ["test_projec", "test_projec2"] {
        let allocated = convert_key("p", &new_key("ns".to_string()).id(KeyID::IntID(5629499534213120)));
        let ids: Vec<ProjectId> = ids_of_allocated_keys(vec![allocated]);
        let got = create_outcome(project_from_allocation(ids, name.to_string()).unwrap(), Ok(())).unwrap();
        assert_ne!("", got.id().raw_id());
        assert_eq!(&ProjectName::try_new(name.to_string()).unwrap(), got.name());

        let got_project = store_then_get(Some(&got), got.id().raw_id()).unwrap();
        assert_eq!(got.id(), got_project.id());
        assert_eq!(got.name(), got_project.name());
    }
}

#[test]
fn project_keys_and_entities() {
    let k = new_key("ns".to_string());
    assert_eq!(k.get_kind(), "project");
    assert_eq!(k.get_namespace(), Some("ns"));
    assert!(k.is_incomplete());
    let p = Project::new(ProjectId::new("abc".to_string()), ProjectName::try_new("n".to_string()).unwrap());
    let e = project_entity("ns".to_string(), &p);
    assert_eq!(e.key.get_id(), &KeyID::StringID("abc".to_string()));
    let props = props_of(e.properties);
    assert_eq!(props.len(), 1);
    assert_eq!(props[0].0, "name");
    assert!(matches!(&props[0].1, Value::StringValue(s) if s == "n"));
}

#[test]
fn reading_a_project_with_a_non_text_id_fails() {
    let key = Key::new("project".to_string()).id(KeyID::IntID(3));
    let props = vec![("name".to_string(), Value::StringValue("n".to_string()))];
    let err = project_from_entity(&key, Some(props)).unwrap_err();
    assert_eq!(err, RepositoryError::new(RepositoryErrorKind::Fail, "unknown id value"));
}

#[test]
fn reading_takes_the_name_property_among_others() {
    let key = project_key("ns".to_string(), &ProjectId::new("x".to_string()));
    let props = vec![
        ("other".to_string(), Value::IntegerValue(1)),
        ("name".to_string(), Value::StringValue("found".to_string())),
    ];
    let p = project_from_entity(&key, Some(props)).unwrap();
    assert_eq!(p.name().raw(), "found");
    assert_eq!(p.id().raw_id(), "x");
}

#[test]
fn missing_project_is_not_found() {
    let key = project_key("ns".to_string(), &ProjectId::new("x".to_string()));
    let err = project_from_entity(&key, None).unwrap_err();
    assert_eq!(err, RepositoryError::new(RepositoryErrorKind::NotFound, "not found"));
}

#[test]
fn creation_refuses_empty_name() {
    let err = project_from_allocation(vec![ProjectId::new("1".to_string())], String::new()).unwrap_err();
    assert_eq!(err.kind(), &DomainErrorKind::InvalidInput);
}

#[test]
fn get_failures_other_than_not_found_are_internal() {
    let r = get_outcome(Err(RepositoryError::new(RepositoryErrorKind::Fail, "failed_to_get_entity")));
    match r {
        Err(UsecaseError::Fail(m, cause)) => {
            assert_eq!(m, "internal_server_error");
            assert_eq!(cause.to_string(), "kind:Fail,message:failed_to_get_entity,source:None");
        }
        _ => panic!("expected an internal error"),
    }
}

#[test]
fn failed_store_fails_creation() {
    let p = Project::new(ProjectId::new("1".to_string()), ProjectName::try_new("n".to_string()).unwrap());
    let r = create_outcome(p, Err(RepositoryError::new(RepositoryErrorKind::Fail, "failed to put")));
    assert_eq!(r.unwrap_err(), UsecaseError::Fail("failed to create project".to_string(), anyhow::Error::msg("")));
}

#[test]
fn usecase_errors_convert_and_compare() {
    let d: UsecaseError = DomainError::new(DomainErrorKind::Fail, "m").into();
    assert_eq!(d, UsecaseError::DomainError(DomainError::new(DomainErrorKind::Fail, "m")));
    let db: UsecaseError = DatabaseError::FailedOpen(anyhow::Error::msg("x")).into();
    assert_eq!(db, UsecaseError::DatabaseError(DatabaseError::FailedOpen(anyhow::Error::msg("y"))));
    assert_ne!(d, db);
    assert_ne!(
        UsecaseError::Notfound("a".to_string(), anyhow::Error::msg("")),
        UsecaseError::Fail("a".to_string(), anyhow::Error::msg(""))
    );
}

#[test]
fn graphql_shows_raw_id_and_name() {
    let p = Project::new(ProjectId::new("42".to_string()), ProjectName::try_new("proj".to_string()).unwrap());
    let o = project_object(&p);
    assert_eq!(o.id, "42");
    assert_eq!(o.name, "proj");
}

#[test]
fn unused_api_type_is_constructible() {
    let _ = api::MoreResultsType::NoMoreResults;
}
