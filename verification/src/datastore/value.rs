//! Property values and entities of the datastore model.
use vstd::prelude::*;

use crate::datastore::key::Key;

verus! {

/// A property value. Floating-point numbers are carried as their IEEE-754
/// bit patterns, and a timestamp as seconds since the Unix epoch together
/// with the sub-second nanoseconds.
#[derive(Debug, PartialEq)]
pub enum Value {
    BooleanValue(bool),
    IntegerValue(i64),
    DoubleValue(u64),
    TimestampValue(i64, u32),
    KeyValue(Key),
    StringValue(String),
    BlobValue(Vec<u8>),
    GeoPointValue(u64, u64),
    /// Named properties, one value per name when built by `Entity::new`.
    EntityValue(Vec<(String, Value)>),
    ArrayValue(Vec<Value>),
}

/// An entity: its key and its properties, which form an `EntityValue`.
#[derive(Debug)]
pub struct Entity {
    pub key: Key,
    pub properties: Value,
}

/// No name occurs twice among the properties.
pub open spec fn distinct_names<V>(props: Seq<(String, V)>) -> bool {
    forall|i: int, j: int| 0 <= i < j < props.len() ==> #[trigger] props[i].0@ != #[trigger] props[j].0@
}

/// The value under each name, a later pair replacing an earlier one with the
/// same name.
pub open spec fn properties_map(props: Seq<(String, Value)>) -> Map<Seq<char>, Value>
    decreases props.len(),
{
    if props.len() == 0 {
        Map::empty()
    } else {
        properties_map(props.drop_last()).insert(props.last().0@, props.last().1)
    }
}

/// Replacing the value of a pair by one under the same name replaces it in
/// the map, when no name occurs twice.
proof fn lemma_properties_map_update(props: Seq<(String, Value)>, k: int, p: (String, Value))
    requires
        distinct_names(props),
        0 <= k < props.len(),
        p.0@ == props[k].0@,
    ensures
        properties_map(props.update(k, p)) == properties_map(props).insert(p.0@, p.1),
    decreases props.len(),
{
    let u = props.update(k, p);
    if k == props.len() - 1 {
        assert(u.drop_last() =~= props.drop_last());
        assert(properties_map(u) =~= properties_map(props).insert(p.0@, p.1));
    } else {
        let d = props.drop_last();
        assert(u.drop_last() =~= d.update(k, p));
        assert(distinct_names(d));
        lemma_properties_map_update(d, k, p);
        assert(props[k].0@ != props.last().0@);
        assert(properties_map(u) =~= properties_map(props).insert(p.0@, p.1));
    }
}

impl Entity {
    /// The entity with the given key and named properties, one value per
    /// name: a later pair replaces the value of an earlier one with the same
    /// name, in the earlier one's place. Properties whose names are already
    /// distinct are kept as given.
    pub fn new(key: Key, properties: Vec<(String, Value)>) -> (r: Entity)
        ensures
            r.key == key,
            r.properties matches Value::EntityValue(ps) && {
                &&& distinct_names(ps@)
                &&& properties_map(ps@) == properties_map(properties@)
                &&& distinct_names(properties@) ==> ps@ == properties@
            },
    {
        let ghost given = properties@;
        let mut rest = properties;
        let mut out: Vec<(String, Value)> = Vec::new();
        let mut i: usize = 0;
        let n: usize = rest.len();
        while rest.len() > 0
            invariant
                i + rest.len() == given.len(),
                given.len() == n,
                rest@ == given.skip(i as int),
                distinct_names(out@),
                properties_map(out@) == properties_map(given.take(i as int)),
                distinct_names(given.take(i as int)) ==> out@ == given.take(i as int),
            decreases rest.len(),
        {
            let ghost before = out@;
            let p = rest.remove(0);
            assert(p == given[i as int]);
            assert(given.take(i + 1).drop_last() =~= given.take(i as int));
            assert(rest@ =~= given.skip(i + 1));
            let mut k: usize = 0;
            let mut found = false;
            while k < out.len()
                invariant_except_break
                    !found,
                    forall|j: int| 0 <= j < k ==> (#[trigger] out@[j]).0@ != p.0@,
                invariant
                    k <= out.len(),
                    out@ == before,
                ensures
                    out@ == before,
                    found ==> k < out.len() && out@[k as int].0@ == p.0@,
                    !found ==> forall|j: int| 0 <= j < out.len() ==> (#[trigger] out@[j]).0@ != p.0@,
                decreases out.len() - k,
            {
                if out[k].0 == p.0 {
                    found = true;
                    break;
                }
                k += 1;
            }
            if found {
                assert(out@[k as int].0@ == p.0@);
                proof {
                    lemma_properties_map_update(before, k as int, p);
                    assert(!distinct_names(given.take(i + 1))) by {
                        if distinct_names(given.take(i as int)) {
                            assert(before == given.take(i as int));
                            assert(given.take(i + 1)[k as int].0@ == given.take(i + 1)[i as int].0@);
                        } else {
                            let (a, b) = choose|a: int, b: int|
                                0 <= a < b < given.take(i as int).len() && given.take(i as int)[a].0@
                                    == given.take(i as int)[b].0@;
                            assert(given.take(i + 1)[a].0@ == given.take(i + 1)[b].0@);
                        }
                    }
                }
                out.set(k, p);
                assert(out@ == before.update(k as int, p));
            } else {
                out.push(p);
                assert(out@.drop_last() =~= before);
                proof {
                    if distinct_names(given.take(i + 1)) {
                        assert(distinct_names(given.take(i as int)));
                        assert(given.take(i + 1) =~= before.push(p));
                    }
                }
            }
            i += 1;
        }
        assert(given.take(i as int) =~= given);
        Entity { key, properties: Value::EntityValue(out) }
    }
}

/// The entities of the batches, one batch after the other.
pub open spec fn all_entities(batches: Seq<Seq<Entity>>) -> Seq<Entity>
    decreases batches.len(),
{
    if batches.len() == 0 {
        Seq::empty()
    } else {
        all_entities(batches.drop_last()) + batches.last()
    }
}

/// Rounds that each add their batch after the results gathered before, from
/// none, gather every batch in order: the results after the last round are
/// the batches one after the other. A paged query (`query_step`) and the
/// rounds of a lookup (`lookup_step`) gather their results so.
pub proof fn law_rounds_gather_every_batch(outputs: Seq<Seq<Entity>>, batches: Seq<Seq<Entity>>)
    requires
        outputs.len() == batches.len() + 1,
        outputs[0].len() == 0,
        forall|k: int| 0 <= k < batches.len() ==> outputs[k + 1] == outputs[k] + #[trigger] batches[k],
    ensures
        outputs.last() == all_entities(batches),
    decreases batches.len(),
{
    if batches.len() == 0 {
        assert(outputs[0] =~= Seq::<Entity>::empty());
    } else {
        let m = batches.len() - 1;
        let po = outputs.drop_last();
        let pb = batches.drop_last();
        assert forall|k: int| 0 <= k < pb.len() implies po[k + 1] == po[k] + #[trigger] pb[k] by {
            assert(pb[k] == batches[k]);
        }
        law_rounds_gather_every_batch(po, pb);
        assert(outputs[m + 1] == outputs[m] + batches[m]);
    }
}

/// A copy of the given bytes.
pub(crate) fn copy_bytes(bytes: &Vec<u8>) -> (r: Vec<u8>)
    ensures
        r@ == bytes@,
{
    let mut r: Vec<u8> = Vec::new();
    let mut i: usize = 0;
    while i < bytes.len()
        invariant
            i <= bytes.len(),
            r@ == bytes@.take(i as int),
        decreases bytes.len() - i,
    {
        r.push(bytes[i]);
        i += 1;
        assert(r@ =~= bytes@.take(i as int));
    }
    assert(bytes@.take(i as int) =~= bytes@);
    r
}

} // verus!
