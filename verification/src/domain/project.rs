//! Projects and their names.
use vstd::prelude::*;

use crate::domain::error::{DomainError, DomainErrorKind, DomainErrorView};
use crate::libmww::id::Id;

verus! {

/// The name of a project, never empty.
#[derive(Debug, PartialEq)]
pub struct ProjectName {
    raw: String,
}

impl View for ProjectName {
    type V = Seq<char>;

    closed spec fn view(&self) -> Seq<char> {
        self.raw@
    }
}

impl ProjectName {
    #[verifier::type_invariant]
    spec fn well_formed(self) -> bool {
        self.raw@.len() > 0
    }

    /// The name with the given text; an empty text is refused as invalid
    /// input.
    pub fn try_new(raw: String) -> (r: Result<ProjectName, DomainError>)
        ensures
            r is Ok <==> raw@.len() > 0,
            r matches Ok(n) ==> n@ == raw@,
            r matches Err(e) ==> e@ == (DomainErrorView {
                kind: DomainErrorKind::InvalidInput,
                message: "project_name is empty"@,
                source: None,
                sub_errors: Seq::empty(),
            }),
    {
        if raw.as_str().is_empty() {
            Err(DomainError::new(DomainErrorKind::InvalidInput, "project_name is empty"))
        } else {
            Ok(ProjectName { raw })
        }
    }

    /// The text of the name, which is never empty.
    pub fn raw(&self) -> (r: &String)
        ensures
            r@ == self@,
            r@.len() > 0,
    {
        proof { use_type_invariant(self); }
        &self.raw
    }
}

impl Clone for ProjectName {
    fn clone(&self) -> (r: ProjectName)
        ensures
            r@ == self@,
    {
        proof { use_type_invariant(self); }
        ProjectName { raw: self.raw.clone() }
    }
}

/// The text of a project name.
pub proof fn lemma_string_from_project_name(project_name: ProjectName)
    ensures
        <String as vstd::std_specs::convert::FromSpec<ProjectName>>::from_spec(project_name)@ == project_name@,
{
}

impl From<ProjectName> for String {
    fn from(project_name: ProjectName) -> (r: String) {
        project_name.raw
    }
}

impl vstd::std_specs::convert::FromSpecImpl<ProjectName> for String {
    open spec fn obeys_from_spec() -> bool {
        true
    }

    closed spec fn from_spec(project_name: ProjectName) -> String {
        project_name.raw
    }
}

/// The tag of project identifiers.
#[derive(Debug)]
pub struct ProjectTag;

/// The identifier of a project.
pub type ProjectId = Id<ProjectTag>;

/// A project: its identifier and its name.
#[derive(Debug)]
pub struct Project {
    id: ProjectId,
    name: ProjectName,
}

/// What a project holds.
pub struct ProjectView {
    pub id: Seq<char>,
    pub name: Seq<char>,
}

impl View for Project {
    type V = ProjectView;

    closed spec fn view(&self) -> ProjectView {
        ProjectView { id: self.id@, name: self.name@ }
    }
}

impl Project {
    pub fn new(id: ProjectId, name: ProjectName) -> (r: Project)
        ensures
            r@ == (ProjectView { id: id@, name: name@ }),
    {
        Project { id, name }
    }

    pub fn id(&self) -> (r: &ProjectId)
        ensures
            r@ == self@.id,
    {
        &self.id
    }

    pub fn name(&self) -> (r: &ProjectName)
        ensures
            r@ == self@.name,
    {
        &self.name
    }
}

impl Clone for Project {
    fn clone(&self) -> (r: Project)
        ensures
            r@ == self@,
    {
        Project { id: self.id.clone(), name: self.name.clone() }
    }
}

} // verus!
