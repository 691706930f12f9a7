//! The project object of the GraphQL schema.
use vstd::prelude::*;

use crate::domain::project::Project as DomainProject;

verus! {

/// A project as the API shows it: its identifier and its name as text.
#[derive(Debug)]
pub struct Project {
    pub id: String,
    pub name: String,
}

impl Project {
    pub fn new(id: String, name: String) -> (r: Project)
        ensures
            r.id@ == id@,
            r.name@ == name@,
    {
        Project { id, name }
    }
}

/// How the API shows a project: its raw identifier and its name.
pub fn project_object(project: &DomainProject) -> (r: Project)
    ensures
        r.id@ == project@.id,
        r.name@ == project@.name,
{
    Project::new(project.id().raw_id().clone(), project.name().raw().clone())
}

/// The query root of projects.
#[derive(Debug)]
pub struct ProjectQuery;

/// The mutation root of projects.
#[derive(Debug)]
pub struct ProjectMutaion;

impl Default for ProjectQuery {
    fn default() -> (r: ProjectQuery) {
        ProjectQuery
    }
}

impl Default for ProjectMutaion {
    fn default() -> (r: ProjectMutaion) {
        ProjectMutaion
    }
}

} // verus!
