//! Identifiers that the datastore allocates.
use vstd::prelude::*;

use crate::datastore::api;
use crate::datastore::client::{is_complete_wire_key, wire_key_complete};
use crate::datastore::key::{chain_of_wire, Key, KeyID};
use crate::domain::error::{DomainError, DomainErrorKind, DomainErrorView};
use crate::libmww::id::Id;
use crate::text::{decimal, i64_to_decimal};

verus! {

/// The error of an identifier allocation that the datastore refused: a
/// failure "failed allocated ids" caused by the datastore's error.
pub fn allocation_failure(cause: anyhow::Error) -> (r: DomainError)
    ensures
        r@ == (DomainErrorView {
            kind: DomainErrorKind::Fail,
            message: "failed allocated ids"@,
            source: Some(cause),
            sub_errors: Seq::empty(),
        }),
{
    DomainError::new_with_source(DomainErrorKind::Fail, "failed allocated ids", cause)
}

/// The identifier whose text is the decimal form of the key's integer
/// identifier.
pub fn key_to_id<T>(key: Key) -> (r: Id<T>)
    requires
        key@.last().id is IntID,
    ensures
        r@ == decimal(key@.last().id->IntID_0 as int),
{
    match key.get_id() {
        KeyID::IntID(n) => Id::new(i64_to_decimal(*n)),
        _ => {
            assert(false);
            Id::new(String::new())
        },
    }
}

/// An API key that the datastore allocated: it carries a partition and a
/// path whose last element has an integer identifier.
pub open spec fn allocated_key(k: api::Key) -> bool {
    &&& wire_key_complete(k)
    &&& k@.path.last().id is IntID
}

/// Whether an API key is one the datastore allocated.
pub fn is_allocated_key(k: &api::Key) -> (r: bool)
    ensures
        r == allocated_key(*k),
{
    if !is_complete_wire_key(k) {
        return false;
    }
    let last = &k.path[k.path.len() - 1];
    match &last.id_type {
        Some(api::IdType::Id(_)) => true,
        _ => false,
    }
}

/// The identifiers of allocated keys, in order: the decimal text of each
/// key's integer identifier.
pub fn ids_of_allocated_keys<T>(keys: Vec<api::Key>) -> (r: Vec<Id<T>>)
    requires
        forall|i: int| 0 <= i < keys.len() ==> allocated_key(#[trigger] keys@[i]),
    ensures
        r.len() == keys.len(),
        forall|i: int|
            0 <= i < keys.len() ==> (#[trigger] r@[i])@ == decimal(
                keys@[i]@.path.last().id->IntID_0 as int,
            ),
{
    let ghost given = keys@;
    let mut rest = keys;
    let mut r: Vec<Id<T>> = Vec::new();
    while rest.len() > 0
        invariant
            r.len() + rest.len() == given.len(),
            rest@ == given.skip(r.len() as int),
            forall|i: int| 0 <= i < given.len() ==> allocated_key(#[trigger] given[i]),
            forall|i: int|
                0 <= i < r.len() ==> (#[trigger] r@[i])@ == decimal(
                    given[i]@.path.last().id->IntID_0 as int,
                ),
        decreases rest.len(),
    {
        let ghost i = r.len() as int;
        let k = rest.remove(0);
        assert(k == given[i]);
        assert(allocated_key(k));
        let key = Key::from_wire(k);
        assert(key@.last() == chain_of_wire(k@).last());
        r.push(key_to_id(key));
        assert(rest@ =~= given.skip(r.len() as int));
    }
    r
}

} // verus!
