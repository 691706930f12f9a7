//! How projects are stored in the datastore: entities of kind `project`,
//! keyed by the project identifier, with the name as property `name`.
use vstd::prelude::*;

use crate::datastore::key::{lemma_key_chain_nonempty, Key, KeyID, KeyIdView, KeyNode};
use crate::datastore::value::{Entity, Value};
use crate::domain::error::{
    DomainError, DomainErrorKind, DomainErrorView, RepositoryError, RepositoryErrorKind,
    RepositoryErrorView,
};
use crate::domain::project::{Project, ProjectId, ProjectName, ProjectView};
use crate::libmww::database::{database_error_text, DatabaseError};
use crate::outside::{error_from_message, error_message};

verus! {

/// A key of kind `project` in the given namespace, with no identifier yet.
pub fn new_key(namespace: String) -> (r: Key)
    ensures
        r@ == seq![
            KeyNode {
                kind: "project"@,
                id: KeyIdView::Incomplete,
                namespace: Some(namespace@),
            },
        ],
{
    let k = Key::new("project".to_owned());
    let r = k.namespace(namespace);
    assert(r@ =~= seq![
        KeyNode { kind: "project"@, id: KeyIdView::Incomplete, namespace: Some(namespace@) },
    ]);
    r
}

/// The error of a project read that the datastore could not answer: a
/// failure "failed_to_get_entity" caused by the datastore's error.
pub fn get_entity_failure(cause: anyhow::Error) -> (r: RepositoryError)
    ensures
        r@ == (RepositoryErrorView {
            kind: RepositoryErrorKind::Fail,
            message: "failed_to_get_entity"@,
            source: Some(cause),
        }),
{
    RepositoryError::new_with_source(RepositoryErrorKind::Fail, "failed_to_get_entity", cause)
}

/// The error of a project creation that could not connect to the
/// datastore: a failure "failed connection to datastore" whose cause carries
/// the text of the database error.
pub fn connection_failure(error: DatabaseError) -> (r: DomainError)
    ensures
        r@.kind == DomainErrorKind::Fail,
        r@.message == "failed connection to datastore"@,
        r@.source matches Some(c) && error_message(c) matches Some(t) && database_error_text(
            error,
            t,
        ),
        r@.sub_errors.len() == 0,
{
    let cause = error_from_message(error.to_display_string());
    DomainError::new_with_source(DomainErrorKind::Fail, "failed connection to datastore", cause)
}

/// The key chain of the project with the given identifier in the given
/// namespace: a single key of kind `project`.
pub open spec fn project_key_chain(namespace: Seq<char>, id: Seq<char>) -> Seq<KeyNode> {
    seq![KeyNode { kind: "project"@, id: KeyIdView::StringID(id), namespace: Some(namespace) }]
}

/// The key of the project with the given identifier in the given namespace.
pub fn project_key(namespace: String, id: &ProjectId) -> (r: Key)
    ensures
        r@ == project_key_chain(namespace@, id@),
{
    let r = new_key(namespace).id(KeyID::StringID(id.raw_id().clone()));
    assert(r@ =~= seq![
        KeyNode { kind: "project"@, id: KeyIdView::StringID(id@), namespace: Some(namespace@) },
    ]);
    r
}

/// The properties hold the name as their one property `name`.
pub open spec fn stores_name(properties: Value, name: Seq<char>) -> bool {
    match properties {
        Value::EntityValue(props) => {
            &&& props.len() == 1
            &&& props@[0].0@ == "name"@
            &&& props@[0].1 matches Value::StringValue(s) && s@ == name
        },
        _ => false,
    }
}

/// The entity that stores a project: its key in the given namespace, and its
/// name as the one property `name`.
pub fn project_entity(namespace: String, project: &Project) -> (r: Entity)
    ensures
        r.key@ == project_key_chain(namespace@, project@.id),
        stores_name(r.properties, project@.name),
{
    let key = project_key(namespace, project.id());
    let mut values: Vec<(String, Value)> = Vec::new();
    values.push(("name".to_owned(), Value::StringValue(project.name().raw().clone())));
    Entity::new(key, values)
}

/// The first property with the given name, if any.
pub open spec fn property_named(props: Seq<(String, Value)>, name: Seq<char>) -> Option<Value>
    decreases props.len(),
{
    if props.len() == 0 {
        None
    } else if props[0].0@ == name {
        Some(props[0].1)
    } else {
        property_named(props.drop_first(), name)
    }
}

proof fn lemma_property_named_index(props: Seq<(String, Value)>, name: Seq<char>, i: int)
    requires
        0 <= i < props.len(),
        props[i].0@ == name,
        forall|j: int| 0 <= j < i ==> (#[trigger] props[j]).0@ != name,
    ensures
        property_named(props, name) == Some(props[i].1),
    decreases i,
{
    if i > 0 {
        lemma_property_named_index(props.drop_first(), name, i - 1);
    }
}

proof fn lemma_property_named_none(props: Seq<(String, Value)>, name: Seq<char>)
    requires
        forall|j: int| 0 <= j < props.len() ==> (#[trigger] props[j]).0@ != name,
    ensures
        property_named(props, name) is None,
    decreases props.len(),
{
    if props.len() > 0 {
        lemma_property_named_none(props.drop_first(), name);
    }
}

/// A stored project entity is read back as a project: its key names it, and
/// its property `name` is a non-empty text.
pub open spec fn readable_project(key: Seq<KeyNode>, props: Seq<(String, Value)>) -> bool {
    &&& property_named(props, "name"@) is Some
    &&& key.last().id is StringID ==> is_name_text(property_named(props, "name"@))
}

/// The property is a non-empty text.
pub open spec fn is_name_text(v: Option<Value>) -> bool {
    match v {
        Some(Value::StringValue(s)) => s@.len() > 0,
        _ => false,
    }
}

/// The text of a name property.
pub open spec fn name_text(v: Option<Value>) -> Seq<char> {
    match v {
        Some(Value::StringValue(s)) => s@,
        _ => Seq::empty(),
    }
}

/// Whether a stored project entity can be read back as a project.
pub fn is_readable_project(key: &Key, props: &Vec<(String, Value)>) -> (r: bool)
    ensures
        r == readable_project(key@, props@),
{
    proof { lemma_key_chain_nonempty(*key); }
    let name_key = "name".to_owned();
    let mut i: usize = 0;
    while i < props.len()
        invariant
            name_key@ == "name"@,
            i <= props.len(),
            forall|j: int| 0 <= j < i ==> (#[trigger] props@[j]).0@ != "name"@,
        ensures
            i <= props.len(),
            forall|j: int| 0 <= j < i ==> (#[trigger] props@[j]).0@ != "name"@,
            i == props.len() || props@[i as int].0@ == "name"@,
        decreases props.len() - i,
    {
        if props[i].0 == name_key {
            break;
        }
        i += 1;
    }
    if i == props.len() {
        proof { lemma_property_named_none(props@, "name"@); }
        return false;
    }
    proof { lemma_property_named_index(props@, "name"@, i as int); }
    match key.get_id() {
        KeyID::StringID(_) => match &props[i].1 {
            Value::StringValue(s) => !s.as_str().is_empty(),
            _ => false,
        },
        _ => true,
    }
}

/// `r` is what reading the project of `key` gives when the read returned
/// `entity`: not found when there is no entity, a failure when the key's
/// identifier is not a text, and otherwise the project with that identifier
/// and the entity's name.
pub open spec fn read_outcome(
    key: Seq<KeyNode>,
    entity: Option<Seq<(String, Value)>>,
    r: Result<Project, RepositoryError>,
) -> bool {
    match entity {
        None => match r {
            Err(e) => e@ == (RepositoryErrorView {
                kind: RepositoryErrorKind::NotFound,
                message: "not found"@,
                source: None,
            }),
            Ok(_) => false,
        },
        Some(props) => match key.last().id {
            KeyIdView::StringID(id) => match r {
                Ok(p) => p@ == (ProjectView { id, name: name_text(property_named(props, "name"@)) }),
                Err(_) => false,
            },
            _ => match r {
                Err(e) => e@ == (RepositoryErrorView {
                    kind: RepositoryErrorKind::Fail,
                    message: "unknown id value"@,
                    source: None,
                }),
                Ok(_) => false,
            },
        },
    }
}

pub open spec fn props_view(entity: Option<Vec<(String, Value)>>) -> Option<Seq<(String, Value)>> {
    match entity {
        Some(props) => Some(props@),
        None => None,
    }
}

/// The project that a read of its key gave: not found when there is no
/// entity, a failure when the key's identifier is not a text, and otherwise
/// the project with that identifier and the entity's name.
pub fn project_from_entity(key: &Key, entity: Option<Vec<(String, Value)>>) -> (r: Result<
    Project,
    RepositoryError,
>)
    requires
        entity is Some ==> readable_project(key@, entity->0@),
    ensures
        read_outcome(key@, props_view(entity), r),
{
    proof { lemma_key_chain_nonempty(*key); }
    let mut props = match entity {
        Some(props) => props,
        None => {
            return Err(RepositoryError::new(RepositoryErrorKind::NotFound, "not found"));
        },
    };
    let ghost all = props@;
    let name_key = "name".to_owned();
    let mut i: usize = 0;
    while i < props.len()
        invariant
            props@ == all,
            name_key@ == "name"@,
            i <= props.len(),
            forall|j: int| 0 <= j < i ==> (#[trigger] all[j]).0@ != "name"@,
        ensures
            i <= props.len(),
            forall|j: int| 0 <= j < i ==> (#[trigger] all[j]).0@ != "name"@,
            i == props.len() || all[i as int].0@ == "name"@,
        decreases props.len() - i,
    {
        if props[i].0 == name_key {
            break;
        }
        i += 1;
    }
    if i == props.len() {
        proof { lemma_property_named_none(all, "name"@); }
        assert(false);
        return Err(RepositoryError::new(RepositoryErrorKind::Fail, "unknown id value"));
    }
    proof { lemma_property_named_index(all, "name"@, i as int); }
    let (_, value) = props.remove(i);
    let id = match key.get_id() {
        KeyID::StringID(s) => s.clone(),
        _ => {
            return Err(RepositoryError::new(RepositoryErrorKind::Fail, "unknown id value"));
        },
    };
    let name = match value {
        Value::StringValue(s) => s,
        _ => {
            assert(false);
            return Err(RepositoryError::new(RepositoryErrorKind::Fail, "unknown id value"));
        },
    };
    match ProjectName::try_new(name) {
        Ok(name) => Ok(Project::new(ProjectId::new(id), name)),
        Err(_) => {
            assert(false);
            Err(RepositoryError::new(RepositoryErrorKind::Fail, "unknown id value"))
        },
    }
}

/// The project that creation makes: the first allocated identifier and the
/// given name, or the error of an empty name.
pub fn project_from_allocation(ids: Vec<ProjectId>, name: String) -> (r: Result<Project, DomainError>)
    requires
        ids.len() > 0,
    ensures
        r is Ok <==> name@.len() > 0,
        r matches Ok(p) ==> p@ == (ProjectView { id: ids@[0]@, name: name@ }),
        r matches Err(e) ==> e@ == (DomainErrorView {
            kind: DomainErrorKind::InvalidInput,
            message: "project_name is empty"@,
            source: None,
            sub_errors: Seq::empty(),
        }),
{
    let mut ids = ids;
    let id = ids.remove(0);
    match ProjectName::try_new(name) {
        Ok(name) => Ok(Project::new(id, name)),
        Err(e) => Err(e),
    }
}

/// The stored properties, when they form an entity value.
pub open spec fn entity_props(properties: Value) -> Option<Seq<(String, Value)>> {
    match properties {
        Value::EntityValue(props) => Some(props@),
        _ => None,
    }
}

/// A project read back from what storing it wrote is the same project: the
/// stored properties are readable under the project's key, and the read
/// gives the project with the same identifier and name.
pub proof fn law_store_then_read(
    namespace: Seq<char>,
    project: ProjectView,
    stored: Value,
    r: Result<Project, RepositoryError>,
)
    requires
        project.name.len() > 0,
        stores_name(stored, project.name),
        read_outcome(project_key_chain(namespace, project.id), entity_props(stored), r),
    ensures
        readable_project(project_key_chain(namespace, project.id), entity_props(stored)->0),
        r matches Ok(q) && q@ == project,
{
    let props = entity_props(stored)->0;
    assert(props[0].0@ == "name"@);
    assert(property_named(props, "name"@) == Some(props[0].1));
}

} // verus!
