//! Conversions from the API messages back to the datastore model.
use vstd::prelude::*;

use crate::datastore::api;
use crate::datastore::client::{is_complete_wire_key, wire_key_complete};
use crate::datastore::convert::{converts_entity, converts_value};
use crate::datastore::key::{
    chain_of_wire, law_key_wire_round_trip, lemma_key_chain_nonempty, uniform_namespace, wire_key_of, Key,
};
use crate::datastore::value::{copy_bytes, distinct_names, Entity, Value};

verus! {

/// A value the datastore sends back: it carries its content, and so does
/// every value nested in it; its keys carry a partition and a path.
pub open spec fn readable_value(w: api::Value) -> bool
    decreases w,
{
    match w.value_type {
        None => false,
        Some(api::ValueType::KeyValue(k)) => wire_key_complete(k),
        Some(api::ValueType::EntityValue(e)) => forall|i: int|
            0 <= i < e.properties.len() ==> readable_value(#[trigger] e.properties@[i].1),
        Some(api::ValueType::ArrayValue(a)) => forall|i: int|
            0 <= i < a.values.len() ==> readable_value(#[trigger] a.values@[i]),
        Some(_) => true,
    }
}

/// `v` is the value that API value `w` stands for: the same content, keys
/// read from their API form, a timestamp's nanoseconds as unsigned, and
/// entity properties in the same order under the same names.
pub open spec fn reads_value(w: api::Value, v: Value) -> bool
    decreases w,
{
    match (w.value_type, v) {
        (Some(api::ValueType::BooleanValue(a)), Value::BooleanValue(b)) => a == b,
        (Some(api::ValueType::IntegerValue(a)), Value::IntegerValue(b)) => a == b,
        (Some(api::ValueType::DoubleValue(a)), Value::DoubleValue(b)) => a == b,
        (Some(api::ValueType::TimestampValue(t)), Value::TimestampValue(secs, nanos)) => {
            secs == t.seconds && nanos == t.nanos as u32
        },
        (Some(api::ValueType::KeyValue(wk)), Value::KeyValue(k)) => k@ == chain_of_wire(wk@),
        (Some(api::ValueType::StringValue(a)), Value::StringValue(b)) => a@ == b@,
        (Some(api::ValueType::BlobValue(a)), Value::BlobValue(b)) => a@ == b@,
        (Some(api::ValueType::GeoPointValue(p)), Value::GeoPointValue(lat, lng)) => {
            lat == p.latitude && lng == p.longitude
        },
        (Some(api::ValueType::EntityValue(e)), Value::EntityValue(props)) => {
            &&& props.len() == e.properties.len()
            &&& forall|i: int|
                0 <= i < e.properties.len() ==> {
                    &&& (#[trigger] props@[i]).0@ == e.properties@[i].0@
                    &&& reads_value(e.properties@[i].1, props@[i].1)
                }
        },
        (Some(api::ValueType::ArrayValue(a)), Value::ArrayValue(vals)) => {
            &&& vals.len() == a.values.len()
            &&& forall|i: int|
                0 <= i < a.values.len() ==> reads_value(a.values@[i], #[trigger] vals@[i])
        },
        _ => false,
    }
}

fn copy_wire_key(k: &api::Key) -> (r: Key)
    requires
        wire_key_complete(*k),
    ensures
        r@ == chain_of_wire(k@),
{
    let mut path: Vec<api::PathElement> = Vec::new();
    let mut i: usize = 0;
    while i < k.path.len()
        invariant
            i <= k.path.len(),
            path.len() == i,
            forall|j: int| 0 <= j < i ==> (#[trigger] path@[j])@ == k.path@[j]@,
        decreases k.path.len() - i,
    {
        let el = &k.path[i];
        let id_type = match &el.id_type {
            None => None,
            Some(api::IdType::Id(n)) => Some(api::IdType::Id(*n)),
            Some(api::IdType::Name(s)) => Some(api::IdType::Name(s.clone())),
        };
        path.push(api::PathElement { kind: el.kind.clone(), id_type });
        i += 1;
    }
    assert(path@.map_values(|e: api::PathElement| e@) =~= k.path@.map_values(
        |e: api::PathElement| e@,
    ));
    let partition_id = match &k.partition_id {
        Some(p) => Some(
            api::PartitionId { project_id: p.project_id.clone(), namespace_id: p.namespace_id.clone() },
        ),
        None => None,
    };
    let copy = api::Key { partition_id, path };
    assert(copy@.path =~= k@.path);
    Key::from_wire(copy)
}

fn value_from_wire_ref(w: &api::Value) -> (r: Value)
    requires
        readable_value(*w),
    ensures
        reads_value(*w, r),
    decreases w,
{
    match &w.value_type {
        Some(api::ValueType::BooleanValue(b)) => Value::BooleanValue(*b),
        Some(api::ValueType::IntegerValue(n)) => Value::IntegerValue(*n),
        Some(api::ValueType::DoubleValue(d)) => Value::DoubleValue(*d),
        Some(api::ValueType::TimestampValue(t)) => Value::TimestampValue(
            t.seconds,
            #[verifier::truncate]
            (t.nanos as u32),
        ),
        Some(api::ValueType::KeyValue(k)) => Value::KeyValue(copy_wire_key(k)),
        Some(api::ValueType::StringValue(s)) => Value::StringValue(s.clone()),
        Some(api::ValueType::BlobValue(b)) => Value::BlobValue(copy_bytes(b)),
        Some(api::ValueType::GeoPointValue(p)) => Value::GeoPointValue(p.latitude, p.longitude),
        Some(api::ValueType::EntityValue(e)) => {
            let mut props: Vec<(String, Value)> = Vec::new();
            let mut i: usize = 0;
            while i < e.properties.len()
                invariant
                    w.value_type == Some(api::ValueType::EntityValue(*e)),
                    readable_value(*w),
                    i <= e.properties.len(),
                    props.len() == i,
                    forall|j: int|
                        0 <= j < i ==> {
                            &&& (#[trigger] props@[j]).0@ == e.properties@[j].0@
                            &&& reads_value(e.properties@[j].1, props@[j].1)
                        },
                decreases e.properties.len() - i,
            {
                let (name, v) = &e.properties[i];
                proof {
                    vstd::std_specs::vec::axiom_vec_index_decreases(e.properties, i as int);
                    assert(decreases_to!(*w => w.value_type));
                    assert(decreases_to!(*w => e.properties[i as int].1));
                    assert(readable_value(e.properties@[i as int].1));
                }
                let r = value_from_wire_ref(v);
                props.push((name.clone(), r));
                i += 1;
            }
            Value::EntityValue(props)
        },
        Some(api::ValueType::ArrayValue(a)) => {
            let mut vals: Vec<Value> = Vec::new();
            let mut i: usize = 0;
            while i < a.values.len()
                invariant
                    w.value_type == Some(api::ValueType::ArrayValue(*a)),
                    readable_value(*w),
                    i <= a.values.len(),
                    vals.len() == i,
                    forall|j: int| 0 <= j < i ==> reads_value(a.values@[j], #[trigger] vals@[j]),
                decreases a.values.len() - i,
            {
                proof {
                    vstd::std_specs::vec::axiom_vec_index_decreases(a.values, i as int);
                    assert(decreases_to!(*w => w.value_type));
                    assert(decreases_to!(w.value_type => w.value_type->0));
                    assert(decreases_to!(w.value_type->0 => (w.value_type->0)->ArrayValue_0));
                    assert(decreases_to!(*a => a.values));
                    assert(decreases_to!(*w => a.values[i as int]));
                    assert(readable_value(a.values@[i as int]));
                }
                let r = value_from_wire_ref(&a.values[i]);
                vals.push(r);
                i += 1;
            }
            Value::ArrayValue(vals)
        },
        None => {
            assert(false);
            Value::BooleanValue(false)
        },
    }
}

/// Whether an API value can be read back.
pub fn is_readable_value(w: &api::Value) -> (r: bool)
    ensures
        r == readable_value(*w),
    decreases w,
{
    match &w.value_type {
        None => false,
        Some(api::ValueType::KeyValue(k)) => is_complete_wire_key(k),
        Some(api::ValueType::EntityValue(e)) => {
            let mut i: usize = 0;
            while i < e.properties.len()
                invariant
                    w.value_type == Some(api::ValueType::EntityValue(*e)),
                    i <= e.properties.len(),
                    forall|j: int| 0 <= j < i ==> readable_value(#[trigger] e.properties@[j].1),
                decreases e.properties.len() - i,
            {
                proof {
                    vstd::std_specs::vec::axiom_vec_index_decreases(e.properties, i as int);
                    assert(decreases_to!(*w => w.value_type));
                    assert(decreases_to!(w.value_type => w.value_type->0));
                    assert(decreases_to!(w.value_type->0 => (w.value_type->0)->EntityValue_0));
                    assert(decreases_to!(*e => e.properties));
                    assert(decreases_to!(e.properties[i as int] => e.properties[i as int].1));
                    assert(decreases_to!(*w => e.properties[i as int].1));
                }
                if !is_readable_value(&e.properties[i].1) {
                    return false;
                }
                i += 1;
            }
            true
        },
        Some(api::ValueType::ArrayValue(a)) => {
            let mut i: usize = 0;
            while i < a.values.len()
                invariant
                    w.value_type == Some(api::ValueType::ArrayValue(*a)),
                    i <= a.values.len(),
                    forall|j: int| 0 <= j < i ==> readable_value(#[trigger] a.values@[j]),
                decreases a.values.len() - i,
            {
                proof {
                    vstd::std_specs::vec::axiom_vec_index_decreases(a.values, i as int);
                    assert(decreases_to!(*w => w.value_type));
                    assert(decreases_to!(w.value_type => w.value_type->0));
                    assert(decreases_to!(w.value_type->0 => (w.value_type->0)->ArrayValue_0));
                    assert(decreases_to!(*a => a.values));
                    assert(decreases_to!(*w => a.values[i as int]));
                }
                if !is_readable_value(&a.values[i]) {
                    return false;
                }
                i += 1;
            }
            true
        },
        Some(_) => true,
    }
}

/// The value that an API value stands for.
pub fn value_from_wire(w: api::Value) -> (r: Value)
    requires
        readable_value(w),
    ensures
        reads_value(w, r),
{
    value_from_wire_ref(&w)
}

/// An entity the datastore sends back: it carries a key, and its properties
/// are readable values.
pub open spec fn readable_entity(w: api::Entity) -> bool {
    &&& w.key matches Some(k) && wire_key_complete(k)
    &&& forall|i: int| 0 <= i < w.properties.len() ==> readable_value(#[trigger] w.properties@[i].1)
}

/// `e` is the entity that API entity `w` stands for: its key read from the
/// API form, and its properties, as an `EntityValue`, in the same order under
/// the same names.
pub open spec fn reads_entity(w: api::Entity, e: Entity) -> bool {
    &&& e.key@ == chain_of_wire(w.key->0@)
    &&& reads_value(
        api::Value {
            meaning: 0,
            exclude_from_indexes: false,
            value_type: Some(
                api::ValueType::EntityValue(api::Entity { key: None, properties: w.properties }),
            ),
        },
        e.properties,
    )
}

/// Whether an API entity can be read back.
pub fn is_readable_entity(w: &api::Entity) -> (r: bool)
    ensures
        r == readable_entity(*w),
{
    match &w.key {
        Some(k) => {
            if !is_complete_wire_key(k) {
                return false;
            }
        },
        None => {
            return false;
        },
    }
    let mut i: usize = 0;
    while i < w.properties.len()
        invariant
            i <= w.properties.len(),
            forall|j: int| 0 <= j < i ==> readable_value(#[trigger] w.properties@[j].1),
        decreases w.properties.len() - i,
    {
        if !is_readable_value(&w.properties[i].1) {
            return false;
        }
        i += 1;
    }
    true
}

/// The entity that an API entity stands for.
pub fn entity_from_wire(w: api::Entity) -> (r: Entity)
    requires
        readable_entity(w),
    ensures
        reads_entity(w, r),
        distinct_names(w.properties@) ==> (r.properties matches Value::EntityValue(ps)
            && distinct_names(ps@)),
{
    let ghost w0 = w;
    let api::Entity { key, properties } = w;
    let key = match key {
        Some(k) => Key::from_wire(k),
        None => {
            assert(false);
            Key::new(String::new())
        },
    };
    let as_value = api::Value {
        meaning: 0,
        exclude_from_indexes: false,
        value_type: Some(api::ValueType::EntityValue(api::Entity { key: None, properties })),
    };
    let props = value_from_wire_ref(&as_value);
    let ghost pv = props;
    proof {
        if let Value::EntityValue(ps) = pv {
            if distinct_names(w0.properties@) {
                assert forall|i: int, j: int| 0 <= i < j < ps@.len() implies #[trigger] ps@[i].0@
                    != #[trigger] ps@[j].0@ by {
                    assert(ps@[i].0@ == w0.properties@[i].0@);
                    assert(ps@[j].0@ == w0.properties@[j].0@);
                }
            }
        }
    }
    Entity { key, properties: props }
}

/// Two values have the same content: keys with the same chain, texts and
/// bytes with the same views, and nested values alike, in the same order
/// under the same names.
pub open spec fn same_value(a: Value, b: Value) -> bool
    decreases a,
{
    match (a, b) {
        (Value::BooleanValue(x), Value::BooleanValue(y)) => x == y,
        (Value::IntegerValue(x), Value::IntegerValue(y)) => x == y,
        (Value::DoubleValue(x), Value::DoubleValue(y)) => x == y,
        (Value::TimestampValue(s1, n1), Value::TimestampValue(s2, n2)) => s1 == s2 && n1 == n2,
        (Value::KeyValue(k1), Value::KeyValue(k2)) => k1@ == k2@,
        (Value::StringValue(x), Value::StringValue(y)) => x@ == y@,
        (Value::BlobValue(x), Value::BlobValue(y)) => x@ == y@,
        (Value::GeoPointValue(a1, b1), Value::GeoPointValue(a2, b2)) => a1 == a2 && b1 == b2,
        (Value::EntityValue(p1), Value::EntityValue(p2)) => {
            &&& p1.len() == p2.len()
            &&& forall|i: int|
                0 <= i < p1.len() ==> {
                    &&& (#[trigger] p1@[i]).0@ == p2@[i].0@
                    &&& same_value(p1@[i].1, p2@[i].1)
                }
        },
        (Value::ArrayValue(v1), Value::ArrayValue(v2)) => {
            &&& v1.len() == v2.len()
            &&& forall|i: int| 0 <= i < v1.len() ==> same_value(#[trigger] v1@[i], v2@[i])
        },
        _ => false,
    }
}

/// A value that the API carries without loss: every key in it is uniform in
/// its namespace (see `uniform_namespace`), and every timestamp's
/// nanoseconds fit a signed 32-bit integer.
pub open spec fn round_trippable(v: Value) -> bool
    decreases v,
{
    match v {
        Value::KeyValue(k) => uniform_namespace(k@),
        Value::TimestampValue(_, nanos) => nanos <= i32::MAX,
        Value::EntityValue(props) => forall|i: int|
            0 <= i < props.len() ==> round_trippable(#[trigger] props@[i].1),
        Value::ArrayValue(vals) => forall|i: int|
            0 <= i < vals.len() ==> round_trippable(#[trigger] vals@[i]),
        _ => true,
    }
}

/// The API form of any value can be read back.
pub proof fn lemma_converted_value_readable(project_id: Seq<char>, v: Value, w: api::Value)
    requires
        converts_value(project_id, v, w),
    ensures
        readable_value(w),
    decreases v,
{
    match v {
        Value::KeyValue(k) => {
            lemma_key_chain_nonempty(k);
            if let Some(api::ValueType::KeyValue(wk)) = w.value_type {
                assert(wk@.path.len() == wk.path.len());
            }
        },
        Value::EntityValue(props) => {
            if let Some(api::ValueType::EntityValue(e)) = w.value_type {
                assert forall|i: int| 0 <= i < e.properties.len() implies readable_value(
                    #[trigger] e.properties@[i].1,
                ) by {
                    assert(decreases_to!(v => props));
                    vstd::std_specs::vec::axiom_vec_index_decreases(props, i);
                    assert(decreases_to!(v => props[i].1));
                    lemma_converted_value_readable(project_id, props@[i].1, e.properties@[i].1);
                }
            }
        },
        Value::ArrayValue(vals) => {
            if let Some(api::ValueType::ArrayValue(a)) = w.value_type {
                assert forall|i: int| 0 <= i < a.values.len() implies readable_value(
                    #[trigger] a.values@[i],
                ) by {
                    assert(decreases_to!(v => vals));
                    vstd::std_specs::vec::axiom_vec_index_decreases(vals, i);
                    lemma_converted_value_readable(project_id, vals@[i], a.values@[i]);
                }
            }
        },
        _ => {},
    }
}

/// A value written to the datastore and read back has the same content,
/// provided the API carries it without loss (see `round_trippable`); and
/// the written form can always be read.
pub proof fn law_value_round_trip(project_id: Seq<char>, v: Value, w: api::Value, back: Value)
    requires
        round_trippable(v),
        converts_value(project_id, v, w),
        reads_value(w, back),
    ensures
        readable_value(w),
        same_value(v, back),
    decreases v,
{
    lemma_converted_value_readable(project_id, v, w);
    match v {
        Value::KeyValue(k) => {
            law_key_wire_round_trip(project_id, k);
        },
        Value::EntityValue(props) => {
            if let Some(api::ValueType::EntityValue(e)) = w.value_type {
                if let Value::EntityValue(bprops) = back {
                    assert forall|i: int| 0 <= i < props.len() implies {
                        &&& (#[trigger] props@[i]).0@ == bprops@[i].0@
                        &&& same_value(props@[i].1, bprops@[i].1)
                    } by {
                        assert(decreases_to!(v => props));
                        vstd::std_specs::vec::axiom_vec_index_decreases(props, i);
                        assert(decreases_to!(v => props[i].1));
                        law_value_round_trip(project_id, props@[i].1, e.properties@[i].1, bprops@[i].1);
                    }
                }
            }
        },
        Value::ArrayValue(vals) => {
            if let Some(api::ValueType::ArrayValue(a)) = w.value_type {
                if let Value::ArrayValue(bvals) = back {
                    assert forall|i: int| 0 <= i < vals.len() implies same_value(
                        #[trigger] vals@[i],
                        bvals@[i],
                    ) by {
                        assert(decreases_to!(v => vals));
                        vstd::std_specs::vec::axiom_vec_index_decreases(vals, i);
                        law_value_round_trip(project_id, vals@[i], a.values@[i], bvals@[i]);
                    }
                }
            }
        },
        _ => {},
    }
}

/// An entity written to the datastore and read back has the same key and
/// the same properties, provided its key is uniform in its namespace and its
/// properties round-trip (see `round_trippable`).
pub proof fn law_entity_round_trip(project_id: Seq<char>, e: Entity, w: api::Entity, back: Entity)
    requires
        uniform_namespace(e.key@),
        round_trippable(e.properties),
        converts_entity(project_id, e, w),
        reads_entity(w, back),
    ensures
        back.key@ == e.key@,
        same_value(e.properties, back.properties),
{
    law_key_wire_round_trip(project_id, e.key);
    let wrapped = api::Value {
        meaning: 0,
        exclude_from_indexes: false,
        value_type: Some(
            api::ValueType::EntityValue(api::Entity { key: None, properties: w.properties }),
        ),
    };
    assert(converts_value(project_id, e.properties, wrapped));
    law_value_round_trip(project_id, e.properties, wrapped, back.properties);
}

} // verus!
