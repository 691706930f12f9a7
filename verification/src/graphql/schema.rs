//! The roots of the GraphQL schema.
use vstd::prelude::*;

use crate::graphql::project::{ProjectMutaion, ProjectQuery};

verus! {

/// The query root: the project queries.
#[derive(Debug)]
pub struct Query(pub ProjectQuery);

/// The mutation root: the project mutations.
#[derive(Debug)]
pub struct Mutation(pub ProjectMutaion);

impl Default for Query {
    fn default() -> (r: Query) {
        Query(ProjectQuery::default())
    }
}

impl Default for Mutation {
    fn default() -> (r: Mutation) {
        Mutation(ProjectMutaion::default())
    }
}

} // verus!
