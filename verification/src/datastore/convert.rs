//! Conversions from the datastore model to the API messages.
use vstd::prelude::*;

use crate::datastore::api;
use crate::datastore::query::Filter;
use crate::datastore::value::{copy_bytes, distinct_names, Entity, Value};
use crate::datastore::key::{
    lemma_key_chain_nonempty, namespace_id_of, wire_key_of, Key, KeyID, KeyIdView, KeyNode,
};

verus! {

fn path_element(kind: &str, id: &KeyID) -> (r: api::PathElement)
    ensures
        r@ == (api::PathView { kind: kind@, id: id@ }),
{
    let id_type = match id {
        KeyID::Incomplete => None,
        KeyID::IntID(n) => Some(api::IdType::Id(*n)),
        KeyID::StringID(s) => Some(api::IdType::Name(s.clone())),
    };
    api::PathElement { kind: kind.to_owned(), id_type }
}

/// Appends the path elements of the key's chain, root first.
fn push_path(key: &Key, path: &mut Vec<api::PathElement>)
    ensures
        final(path)@.map_values(|e: api::PathElement| e@) == old(path)@.map_values(
            |e: api::PathElement| e@,
        ) + key@.map_values(|n: KeyNode| api::PathView { kind: n.kind, id: n.id }),
    decreases key@.len(),
{
    let ghost before = path@;
    let ghost prefix = key@.drop_last();
    proof { lemma_key_chain_nonempty(*key); }
    match key.get_parent() {
        Some(parent) => {
            assert(parent@.len() < key@.len());
            push_path(parent, path);
        },
        None => {
            assert(prefix =~= Seq::<KeyNode>::empty());
            assert(before.map_values(|e: api::PathElement| e@) + prefix.map_values(
                |n: KeyNode| api::PathView { kind: n.kind, id: n.id },
            ) =~= before.map_values(|e: api::PathElement| e@));
        },
    }
    let ghost mid = path@;
    assert(mid.map_values(|e: api::PathElement| e@) == before.map_values(|e: api::PathElement| e@)
        + prefix.map_values(|n: KeyNode| api::PathView { kind: n.kind, id: n.id }));
    let el = path_element(key.get_kind(), key.get_id());
    path.push(el);
    assert(key@ =~= prefix.push(key@.last()));
    assert(key@.map_values(|n: KeyNode| api::PathView { kind: n.kind, id: n.id }) =~= prefix.map_values(
        |n: KeyNode| api::PathView { kind: n.kind, id: n.id },
    ).push(el@));
    assert(path@.map_values(|e: api::PathElement| e@) =~= mid.map_values(
        |e: api::PathElement| e@,
    ).push(el@));
    assert(path@.map_values(|e: api::PathElement| e@) =~= before.map_values(
        |e: api::PathElement| e@,
    ) + key@.map_values(|n: KeyNode| api::PathView { kind: n.kind, id: n.id }));
}

/// The API key of a key in the given project: the partition of the key
/// itself (an absent namespace becomes the empty one), and the chain of
/// keys as the path, root first.
pub fn convert_key(project_id: &str, key: &Key) -> (r: api::Key)
    ensures
        r@ == wire_key_of(project_id@, key@),
{
    let namespace_id = match key.get_namespace() {
        Some(ns) => ns.to_owned(),
        None => String::new(),
    };
    let mut path: Vec<api::PathElement> = Vec::new();
    push_path(key, &mut path);
    let r = api::Key {
        partition_id: Some(api::PartitionId { project_id: project_id.to_owned(), namespace_id }),
        path,
    };
    assert(r@.path =~= key@.map_values(|n: KeyNode| api::PathView { kind: n.kind, id: n.id }));
    r
}


/// `w` is the API form of `v` in the given project: the same content, with
/// meaning 0 and indexing left on, keys in their API form, entity
/// properties in the same order under the same names, and a nested entity
/// without a key.
pub open spec fn converts_value(project_id: Seq<char>, v: Value, w: api::Value) -> bool
    decreases v,
{
    &&& w.meaning == 0
    &&& !w.exclude_from_indexes
    &&& match (v, w.value_type) {
        (Value::BooleanValue(a), Some(api::ValueType::BooleanValue(b))) => a == b,
        (Value::IntegerValue(a), Some(api::ValueType::IntegerValue(b))) => a == b,
        (Value::DoubleValue(a), Some(api::ValueType::DoubleValue(b))) => a == b,
        (Value::TimestampValue(secs, nanos), Some(api::ValueType::TimestampValue(t))) => {
            t.seconds == secs && t.nanos == nanos as i32
        },
        (Value::KeyValue(k), Some(api::ValueType::KeyValue(wk))) => wk@ == wire_key_of(
            project_id,
            k@,
        ),
        (Value::StringValue(a), Some(api::ValueType::StringValue(b))) => a@ == b@,
        (Value::BlobValue(a), Some(api::ValueType::BlobValue(b))) => a@ == b@,
        (Value::GeoPointValue(lat, lng), Some(api::ValueType::GeoPointValue(p))) => {
            p.latitude == lat && p.longitude == lng
        },
        (Value::EntityValue(props), Some(api::ValueType::EntityValue(e))) => {
            &&& e.key is None
            &&& e.properties.len() == props.len()
            &&& forall|i: int|
                0 <= i < props.len() ==> {
                    &&& (#[trigger] e.properties@[i]).0@ == props@[i].0@
                    &&& converts_value(project_id, props@[i].1, e.properties@[i].1)
                }
        },
        (Value::ArrayValue(vals), Some(api::ValueType::ArrayValue(a))) => {
            &&& a.values.len() == vals.len()
            &&& forall|i: int|
                0 <= i < vals.len() ==> converts_value(
                    project_id,
                    vals@[i],
                    #[trigger] a.values@[i],
                )
        },
        _ => false,
    }
}

fn wrap_value(value_type: api::ValueType) -> (r: api::Value)
    ensures
        r.meaning == 0,
        !r.exclude_from_indexes,
        r.value_type == Some(value_type),
{
    api::Value { meaning: 0, exclude_from_indexes: false, value_type: Some(value_type) }
}

fn convert_value_ref(project_id: &str, value: &Value) -> (r: api::Value)
    ensures
        converts_value(project_id@, *value, r),
    decreases value,
{
    match value {
        Value::BooleanValue(b) => wrap_value(api::ValueType::BooleanValue(*b)),
        Value::IntegerValue(n) => wrap_value(api::ValueType::IntegerValue(*n)),
        Value::DoubleValue(d) => wrap_value(api::ValueType::DoubleValue(*d)),
        Value::TimestampValue(secs, nanos) => wrap_value(
            api::ValueType::TimestampValue(api::Timestamp { seconds: *secs, nanos: #[verifier::truncate] (*nanos as i32) }),
        ),
        Value::KeyValue(k) => wrap_value(api::ValueType::KeyValue(convert_key(project_id, k))),
        Value::StringValue(s) => wrap_value(api::ValueType::StringValue(s.clone())),
        Value::BlobValue(b) => wrap_value(api::ValueType::BlobValue(copy_bytes(b))),
        Value::GeoPointValue(lat, lng) => wrap_value(
            api::ValueType::GeoPointValue(api::LatLng { latitude: *lat, longitude: *lng }),
        ),
        Value::EntityValue(props) => {
            let mut out: Vec<(String, api::Value)> = Vec::new();
            let mut i: usize = 0;
            while i < props.len()
                invariant
                    *value == Value::EntityValue(*props),
                    i <= props.len(),
                    out.len() == i,
                    forall|j: int|
                        0 <= j < i ==> {
                            &&& (#[trigger] out@[j]).0@ == props@[j].0@
                            &&& converts_value(project_id@, props@[j].1, out@[j].1)
                        },
                decreases props.len() - i,
            {
                let (name, v) = &props[i];
                proof {
                    vstd::std_specs::vec::axiom_vec_index_decreases(*props, i as int);
                    assert(decreases_to!(*value => (*value)->EntityValue_0));
                    assert(decreases_to!(props[i as int] => props[i as int].1));
                    assert(decreases_to!(*value => props[i as int].1));
                }
                let w = convert_value_ref(project_id, v);
                out.push((name.clone(), w));
                i += 1;
            }
            wrap_value(api::ValueType::EntityValue(api::Entity { key: None, properties: out }))
        },
        Value::ArrayValue(vals) => {
            let mut out: Vec<api::Value> = Vec::new();
            let mut i: usize = 0;
            while i < vals.len()
                invariant
                    *value == Value::ArrayValue(*vals),
                    i <= vals.len(),
                    out.len() == i,
                    forall|j: int|
                        0 <= j < i ==> converts_value(project_id@, vals@[j], #[trigger] out@[j]),
                decreases vals.len() - i,
            {
                proof {
                    vstd::std_specs::vec::axiom_vec_index_decreases(*vals, i as int);
                    assert(decreases_to!(*value => (*value)->ArrayValue_0));
                    assert(decreases_to!(*value => vals[i as int]));
                }
                let w = convert_value_ref(project_id, &vals[i]);
                out.push(w);
                i += 1;
            }
            wrap_value(api::ValueType::ArrayValue(api::ArrayValue { values: out }))
        },
    }
}

/// The API form of a value in the given project.
pub fn convert_value(project_id: &str, value: Value) -> (r: api::Value)
    ensures
        converts_value(project_id@, value, r),
{
    convert_value_ref(project_id, &value)
}


/// `w` is the API form of entity `e`: its key in API form, and its
/// properties, which form an `EntityValue`, in the same order under the same
/// names.
pub open spec fn converts_entity(project_id: Seq<char>, e: Entity, w: api::Entity) -> bool {
    &&& w.key matches Some(k) && k@ == wire_key_of(project_id, e.key@)
    &&& e.properties matches Value::EntityValue(props) && {
        &&& w.properties.len() == props.len()
        &&& forall|i: int|
            0 <= i < props.len() ==> {
                &&& (#[trigger] w.properties@[i]).0@ == props@[i].0@
                &&& converts_value(project_id, props@[i].1, w.properties@[i].1)
            }
    }
}

fn convert_entity_ref(project_id: &str, entity: &Entity) -> (r: api::Entity)
    requires
        entity.properties is EntityValue,
    ensures
        converts_entity(project_id@, *entity, r),
{
    let key = convert_key(project_id, &entity.key);
    let w = convert_value_ref(project_id, &entity.properties);
    match w.value_type {
        Some(api::ValueType::EntityValue(e)) => api::Entity { key: Some(key), properties: e.properties },
        _ => {
            assert(false);
            api::Entity { key: Some(key), properties: Vec::new() }
        },
    }
}

/// The API form of an entity whose properties form an `EntityValue`.
pub fn convert_entity(project_id: &str, entity: Entity) -> (r: api::Entity)
    requires
        entity.properties is EntityValue,
    ensures
        converts_entity(project_id@, entity, r),
        entity.properties matches Value::EntityValue(ps) && distinct_names(ps@) ==> distinct_names(
            r.properties@,
        ),
{
    let r = convert_entity_ref(project_id, &entity);
    proof {
        if let Value::EntityValue(ps) = entity.properties {
            if distinct_names(ps@) {
                assert forall|i: int, j: int| 0 <= i < j < r.properties@.len() implies #[trigger] r.properties@[i].0@
                    != #[trigger] r.properties@[j].0@ by {
                    assert(r.properties@[i].0@ == ps@[i].0@);
                    assert(r.properties@[j].0@ == ps@[j].0@);
                }
            }
        }
    }
    r
}

/// `m` writes entity `e`: an insert when the key is incomplete, so that the
/// datastore assigns an identifier, and an upsert otherwise.
pub open spec fn mutation_for(project_id: Seq<char>, e: Entity, m: api::Mutation) -> bool {
    if e.key@.last().id is Incomplete {
        m.operation matches Some(api::Operation::Insert(w)) && converts_entity(project_id, e, w)
    } else {
        m.operation matches Some(api::Operation::Upsert(w)) && converts_entity(project_id, e, w)
    }
}

/// One mutation per entity, in order: an insert for an incomplete key, an
/// upsert for a complete one.
pub fn generate_mutations(project_id: &str, entities: Vec<Entity>) -> (r: Vec<api::Mutation>)
    requires
        forall|i: int| 0 <= i < entities.len() ==> (#[trigger] entities@[i]).properties is EntityValue,
    ensures
        r.len() == entities.len(),
        forall|i: int| 0 <= i < entities.len() ==> mutation_for(project_id@, entities@[i], #[trigger] r@[i]),
{
    let mut r: Vec<api::Mutation> = Vec::new();
    let mut i: usize = 0;
    while i < entities.len()
        invariant
            i <= entities.len(),
            r.len() == i,
            forall|j: int| 0 <= j < entities.len() ==> (#[trigger] entities@[j]).properties is EntityValue,
            forall|j: int| 0 <= j < i ==> mutation_for(project_id@, entities@[j], #[trigger] r@[j]),
        decreases entities.len() - i,
    {
        let entity = &entities[i];
        let is_incomplete = entity.key.is_incomplete();
        let w = convert_entity_ref(project_id, entity);
        let operation = if is_incomplete {
            api::Operation::Insert(w)
        } else {
            api::Operation::Upsert(w)
        };
        r.push(api::Mutation { operation: Some(operation) });
        i += 1;
    }
    r
}

/// The name, comparison and value of a filter.
pub open spec fn filter_parts(f: Filter) -> (String, api::PropertyOperator, Value) {
    match f {
        Filter::Equal(n, v) => (n, api::PropertyOperator::Equal, v),
        Filter::GreaterThan(n, v) => (n, api::PropertyOperator::GreaterThan, v),
        Filter::LesserThan(n, v) => (n, api::PropertyOperator::LessThan, v),
        Filter::GreaterThanOrEqual(n, v) => (n, api::PropertyOperator::GreaterThanOrEqual, v),
        Filter::LesserThanEqual(n, v) => (n, api::PropertyOperator::LessThanOrEqual, v),
    }
}

/// `w` is the API property filter for `f`: the same property name and
/// comparison, and the value in API form.
pub open spec fn converts_filter(project_id: Seq<char>, f: Filter, w: api::Filter) -> bool {
    w.filter_type matches Some(api::FilterType::PropertyFilter(pf)) && {
        &&& pf.property matches Some(p) && p.name@ == filter_parts(f).0@
        &&& pf.op == filter_parts(f).1
        &&& pf.value matches Some(v) && converts_value(project_id, filter_parts(f).2, v)
    }
}

fn convert_one_filter(project_id: &str, filter: &Filter) -> (r: api::Filter)
    ensures
        converts_filter(project_id@, *filter, r),
{
    let (name, op, value) = match filter {
        Filter::Equal(n, v) => (n, api::PropertyOperator::Equal, v),
        Filter::GreaterThan(n, v) => (n, api::PropertyOperator::GreaterThan, v),
        Filter::LesserThan(n, v) => (n, api::PropertyOperator::LessThan, v),
        Filter::GreaterThanOrEqual(n, v) => (n, api::PropertyOperator::GreaterThanOrEqual, v),
        Filter::LesserThanEqual(n, v) => (n, api::PropertyOperator::LessThanOrEqual, v),
    };
    let value = convert_value_ref(project_id, value);
    api::Filter {
        filter_type: Some(
            api::FilterType::PropertyFilter(
                api::PropertyFilter {
                    property: Some(api::PropertyReference { name: name.clone() }),
                    op,
                    value: Some(value),
                },
            ),
        ),
    }
}

/// `r` is the API filter for `filters`: none for no filters, otherwise the
/// conjunction of one property filter per filter, in order.
pub open spec fn converts_filters(project_id: Seq<char>, filters: Seq<Filter>, r: Option<api::Filter>) -> bool {
    if filters.len() == 0 {
        r is None
    } else {
        match r {
            Some(f) => match f.filter_type {
                Some(api::FilterType::CompositeFilter(c)) => {
                    &&& c.op == api::CompositeOperator::And
                    &&& c.filters.len() == filters.len()
                    &&& forall|i: int|
                        0 <= i < filters.len() ==> converts_filter(
                            project_id,
                            filters[i],
                            #[trigger] c.filters@[i],
                        )
                },
                _ => false,
            },
            None => false,
        }
    }
}

/// The API filter for a list of filters.
pub fn convert_filter(project_id: &str, filters: &Vec<Filter>) -> (r: Option<api::Filter>)
    ensures
        converts_filters(project_id@, filters@, r),
{
    if filters.len() == 0 {
        return None;
    }
    let mut out: Vec<api::Filter> = Vec::new();
    let mut i: usize = 0;
    while i < filters.len()
        invariant
            i <= filters.len(),
            out.len() == i,
            forall|j: int| 0 <= j < i ==> converts_filter(project_id@, filters@[j], #[trigger] out@[j]),
        decreases filters.len() - i,
    {
        let f = convert_one_filter(project_id, &filters[i]);
        out.push(f);
        i += 1;
    }
    Some(
        api::Filter {
            filter_type: Some(
                api::FilterType::CompositeFilter(
                    api::CompositeFilter { op: api::CompositeOperator::And, filters: out },
                ),
            ),
        },
    )
}

/// A converted entity's key is written in the project the conversion was
/// asked for, in the partition of the entity's own namespace (empty for
/// none), with one path element per key of its chain, root first, each with
/// that key's kind and identifier.
pub proof fn law_entity_key_in_requested_project(project_id: Seq<char>, e: Entity, w: api::Entity)
    requires
        converts_entity(project_id, e, w),
    ensures
        w.key matches Some(k) && {
            &&& k@.partition_id == Some(
                api::PartitionView {
                    project_id,
                    namespace_id: namespace_id_of(e.key@.last().namespace),
                },
            )
            &&& k@.path.len() == e.key@.len()
            &&& forall|i: int|
                0 <= i < e.key@.len() ==> (#[trigger] k@.path[i]).kind == e.key@[i].kind
                    && k@.path[i].id == e.key@[i].id
        },
{
}

/// The write of an entity depends on its key alone: an insert exactly when
/// the key's identifier is incomplete, so that the datastore assigns one,
/// and an upsert for every complete key, named or numbered. Either way it
/// carries the entity in API form.
pub proof fn law_write_operation_follows_key(project_id: Seq<char>, e: Entity, m: api::Mutation)
    requires
        mutation_for(project_id, e, m),
    ensures
        e.key@.last().id is Incomplete ==> (m.operation matches Some(api::Operation::Insert(w))
            && converts_entity(project_id, e, w)),
        e.key@.last().id matches KeyIdView::StringID(_) ==> (m.operation matches Some(
            api::Operation::Upsert(w),
        ) && converts_entity(project_id, e, w)),
        e.key@.last().id matches KeyIdView::IntID(_) ==> (m.operation matches Some(
            api::Operation::Upsert(w),
        ) && converts_entity(project_id, e, w)),
        (m.operation matches Some(api::Operation::Insert(_))) <==> e.key@.last().id is Incomplete,
{
}

/// Each filter of a query becomes, at its place in the conjunction, a
/// property filter on the filter's own property, with the filter's own
/// comparison, against the API form of the filter's own value.
pub proof fn law_filter_compares_with_its_value(
    project_id: Seq<char>,
    filters: Seq<Filter>,
    r: Option<api::Filter>,
    i: int,
)
    requires
        converts_filters(project_id, filters, r),
        0 <= i < filters.len(),
    ensures
        r matches Some(f) && f.filter_type matches Some(api::FilterType::CompositeFilter(c)) && {
            &&& c.op == api::CompositeOperator::And
            &&& c.filters@[i].filter_type matches Some(api::FilterType::PropertyFilter(pf))
                && pf.property matches Some(p) && pf.value matches Some(v) && match filters[i] {
                Filter::Equal(n, x) => p.name@ == n@ && pf.op == api::PropertyOperator::Equal
                    && converts_value(project_id, x, v),
                Filter::GreaterThan(n, x) => p.name@ == n@ && pf.op
                    == api::PropertyOperator::GreaterThan && converts_value(project_id, x, v),
                Filter::LesserThan(n, x) => p.name@ == n@ && pf.op
                    == api::PropertyOperator::LessThan && converts_value(project_id, x, v),
                Filter::GreaterThanOrEqual(n, x) => p.name@ == n@ && pf.op
                    == api::PropertyOperator::GreaterThanOrEqual && converts_value(project_id, x, v),
                Filter::LesserThanEqual(n, x) => p.name@ == n@ && pf.op
                    == api::PropertyOperator::LessThanOrEqual && converts_value(project_id, x, v),
            }
        },
{
    let c = r->0.filter_type->0->CompositeFilter_0;
    assert(converts_filter(project_id, filters[i], c.filters@[i]));
}

} // verus!
