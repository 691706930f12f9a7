//! The requests that the datastore client sends, and what it makes of the
//! responses.
use vstd::prelude::*;

use crate::datastore::api;
use crate::datastore::convert::{convert_key, generate_mutations, mutation_for};
use crate::datastore::key::{chain_of_wire, wire_key_of, Key, KeyNode};
use crate::datastore::value::{Entity, Value};

verus! {

/// `w` holds the API forms of `keys`, in order.
pub open spec fn converts_keys(project_id: Seq<char>, keys: Seq<Key>, w: Seq<api::Key>) -> bool {
    &&& w.len() == keys.len()
    &&& forall|i: int| 0 <= i < keys.len() ==> (#[trigger] w[i])@ == wire_key_of(project_id, keys[i]@)
}

/// The API forms of keys in the given project, in order.
pub fn convert_keys(project_id: &str, keys: &Vec<Key>) -> (r: Vec<api::Key>)
    ensures
        converts_keys(project_id@, keys@, r@),
{
    let mut r: Vec<api::Key> = Vec::new();
    let mut i: usize = 0;
    while i < keys.len()
        invariant
            i <= keys.len(),
            r.len() == i,
            forall|j: int| 0 <= j < i ==> (#[trigger] r@[j])@ == wire_key_of(project_id@, keys@[j]@),
        decreases keys.len() - i,
    {
        r.push(convert_key(project_id, &keys[i]));
        i += 1;
    }
    r
}

/// The request that reads the given API keys, within the given transaction
/// if there is one.
pub fn lookup_request_for(
    project_id: &str,
    keys: Vec<api::Key>,
    transaction: Option<Vec<u8>>,
) -> (r: api::LookupRequest)
    ensures
        r.project_id@ == project_id@,
        r.keys == keys,
        transaction is None ==> r.read_options is None,
        transaction matches Some(t) ==> r.read_options matches Some(ro) && ro.consistency_type
            == Some(api::ConsistencyType::Transaction(t)),
{
    let read_options = match transaction {
        Some(t) => Some(
            api::ReadOptions { consistency_type: Some(api::ConsistencyType::Transaction(t)) },
        ),
        None => None,
    };
    api::LookupRequest { project_id: project_id.to_owned(), read_options, keys }
}

/// One round of lookups: the entities found so far followed by those this
/// round found, and the request that reads the deferred keys again, none
/// once no key was deferred (see `law_rounds_gather_every_batch` for the
/// whole run).
pub fn lookup_step(
    project_id: &str,
    found: Vec<Entity>,
    round_found: Vec<Entity>,
    deferred: Vec<api::Key>,
    transaction: Option<Vec<u8>>,
) -> (r: (Vec<Entity>, Option<api::LookupRequest>))
    ensures
        r.0@ == found@ + round_found@,
        deferred.len() == 0 <==> r.1 is None,
        r.1 matches Some(req) ==> {
            &&& req.project_id@ == project_id@
            &&& req.keys == deferred
            &&& transaction is None ==> req.read_options is None
            &&& transaction matches Some(t) ==> (req.read_options matches Some(ro)
                && ro.consistency_type == Some(api::ConsistencyType::Transaction(t)))
        },
{
    let mut out = found;
    let mut round_found = round_found;
    out.append(&mut round_found);
    if deferred.len() == 0 {
        (out, None)
    } else {
        (out, Some(lookup_request_for(project_id, deferred, transaction)))
    }
}

/// The request that reads the given keys, within the given transaction if
/// there is one.
pub fn lookup_request(project_id: &str, keys: &Vec<Key>, transaction: Option<Vec<u8>>) -> (r:
    api::LookupRequest)
    ensures
        r.project_id@ == project_id@,
        converts_keys(project_id@, keys@, r.keys@),
        transaction is None ==> r.read_options is None,
        transaction matches Some(t) ==> r.read_options matches Some(ro) && ro.consistency_type
            == Some(api::ConsistencyType::Transaction(t)),
{
    lookup_request_for(project_id, convert_keys(project_id, keys), transaction)
}

/// The request that writes entities outside a transaction: one mutation per
/// entity, an insert for an incomplete key and an upsert otherwise.
pub fn put_all_request(project_id: &str, entities: Vec<Entity>) -> (r: api::CommitRequest)
    requires
        forall|i: int| 0 <= i < entities.len() ==> (#[trigger] entities@[i]).properties is EntityValue,
    ensures
        r.project_id@ == project_id@,
        r.mode == api::CommitMode::NonTransactional,
        r.transaction_selector is None,
        r.mutations.len() == entities.len(),
        forall|i: int|
            0 <= i < entities.len() ==> mutation_for(project_id@, entities@[i], #[trigger] r.mutations@[i]),
{
    let mutations = generate_mutations(project_id, entities);
    api::CommitRequest {
        project_id: project_id.to_owned(),
        mode: api::CommitMode::NonTransactional,
        mutations,
        transaction_selector: None,
    }
}

/// `m` deletes the entity of the given API key.
pub open spec fn deletes(m: api::Mutation, key: api::KeyView) -> bool {
    m.operation matches Some(api::Operation::Delete(k)) && k@ == key
}

/// The request that deletes the given keys outside a transaction.
pub fn delete_all_request(project_id: &str, keys: &Vec<Key>) -> (r: api::CommitRequest)
    ensures
        r.project_id@ == project_id@,
        r.mode == api::CommitMode::NonTransactional,
        r.transaction_selector is None,
        r.mutations.len() == keys.len(),
        forall|i: int|
            0 <= i < keys.len() ==> deletes(
                #[trigger] r.mutations@[i],
                wire_key_of(project_id@, keys@[i]@),
            ),
{
    let mut mutations: Vec<api::Mutation> = Vec::new();
    let mut i: usize = 0;
    while i < keys.len()
        invariant
            i <= keys.len(),
            mutations.len() == i,
            forall|j: int|
                0 <= j < i ==> deletes(
                    #[trigger] mutations@[j],
                    wire_key_of(project_id@, keys@[j]@),
                ),
        decreases keys.len() - i,
    {
        let k = convert_key(project_id, &keys[i]);
        mutations.push(api::Mutation { operation: Some(api::Operation::Delete(k)) });
        i += 1;
    }
    api::CommitRequest {
        project_id: project_id.to_owned(),
        mode: api::CommitMode::NonTransactional,
        mutations,
        transaction_selector: None,
    }
}

/// An API key that the datastore sends back: it carries a partition and a
/// path.
pub open spec fn wire_key_complete(k: api::Key) -> bool {
    k.partition_id is Some && k.path.len() > 0
}

/// Whether an API key carries a partition and a path.
pub fn is_complete_wire_key(k: &api::Key) -> (r: bool)
    ensures
        r == wire_key_complete(*k),
{
    k.partition_id.is_some() && k.path.len() > 0
}

/// The key of a mutation result, if any, is one the datastore sends back.
pub open spec fn result_key_complete(r: api::MutationResult) -> bool {
    match r.key {
        Some(k) => wire_key_complete(k),
        None => true,
    }
}

/// The keys that the results of a commit report, in order: the key the
/// datastore assigned, where it assigned one.
pub fn keys_of_mutation_results(results: Vec<api::MutationResult>) -> (r: Vec<Option<Key>>)
    requires
        forall|i: int|
            0 <= i < results.len() ==> result_key_complete(#[trigger] results@[i]),
    ensures
        r.len() == results.len(),
        forall|i: int|
            0 <= i < results.len() ==> match (#[trigger] results@[i]).key {
                Some(k) => r@[i] matches Some(rk) && rk@ == chain_of_wire(k@),
                None => r@[i] is None,
            },
{
    let ghost given = results@;
    let mut rest = results;
    let mut r: Vec<Option<Key>> = Vec::new();
    while rest.len() > 0
        invariant
            r.len() + rest.len() == given.len(),
            rest@ == given.skip(r.len() as int),
            forall|i: int|
                0 <= i < given.len() ==> result_key_complete(#[trigger] given[i]),
            forall|i: int|
                0 <= i < r.len() ==> match (#[trigger] given[i]).key {
                    Some(k) => r@[i] matches Some(rk) && rk@ == chain_of_wire(k@),
                    None => r@[i] is None,
                },
        decreases rest.len(),
    {
        let ghost i = r.len() as int;
        let result = rest.remove(0);
        assert(result == given[i]);
        let key = match result.key {
            Some(k) => Some(Key::from_wire(k)),
            None => None,
        };
        r.push(key);
        assert(rest@ =~= given.skip(r.len() as int));
    }
    r
}

/// The key that a single write reports: that of its first result, if the
/// datastore assigned one.
pub fn first_key(keys: Vec<Option<Key>>) -> (r: Option<Key>)
    ensures
        keys.len() == 0 ==> r is None,
        keys.len() > 0 ==> r == keys@[0],
{
    let mut keys = keys;
    if keys.len() == 0 {
        None
    } else {
        keys.remove(0)
    }
}

/// The request for identifiers for the given keys.
pub fn allocate_ids_request(project_id: &str, keys: &Vec<Key>) -> (r: api::AllocateIdsRequest)
    ensures
        r.project_id@ == project_id@,
        converts_keys(project_id@, keys@, r.keys@),
{
    api::AllocateIdsRequest { project_id: project_id.to_owned(), keys: convert_keys(project_id, keys) }
}

/// The request that begins a read-write transaction.
pub fn begin_transaction_request(project_id: &str) -> (r: api::BeginTransactionRequest)
    ensures
        r.project_id@ == project_id@,
        r.transaction_options matches Some(o) && o.mode matches Some(
            api::TransactionMode::ReadWrite(rw),
        ) && rw.previous_transaction@.len() == 0,
{
    api::BeginTransactionRequest {
        project_id: project_id.to_owned(),
        transaction_options: Some(
            api::TransactionOptions {
                mode: Some(api::TransactionMode::ReadWrite(api::ReadWrite { previous_transaction: Vec::new() })),
            },
        ),
    }
}

/// The entities that lookups found, by key: a later entity for a key
/// replaces an earlier one.
pub open spec fn found_map(found: Seq<Entity>) -> Map<Seq<KeyNode>, Value>
    decreases found.len(),
{
    if found.len() == 0 {
        Map::empty()
    } else {
        found_map(found.drop_last()).insert(found.last().key@, found.last().properties)
    }
}

/// What lookups found for a key is the entity found for it last: a later
/// entity for the same key replaces an earlier one.
pub proof fn law_found_latest_wins(found: Seq<Entity>, i: int)
    requires
        0 <= i < found.len(),
        forall|j: int| i < j < found.len() ==> (#[trigger] found[j]).key@ != found[i].key@,
    ensures
        found_map(found).dom().contains(found[i].key@),
        found_map(found)[found[i].key@] == found[i].properties,
    decreases found.len(),
{
    if i < found.len() - 1 {
        law_found_latest_wins(found.drop_last(), i);
        assert(found.last().key@ != found[i].key@);
    }
}

/// A key that no lookup found has no entity.
pub proof fn law_found_only_found_keys(found: Seq<Entity>, k: Seq<KeyNode>)
    requires
        forall|j: int| 0 <= j < found.len() ==> (#[trigger] found[j]).key@ != k,
    ensures
        !found_map(found).dom().contains(k),
    decreases found.len(),
{
    if found.len() > 0 {
        law_found_only_found_keys(found.drop_last(), k);
    }
}

/// The properties of the found entities in the order of the requested keys:
/// each found key gives its entity once, at its first request; keys not
/// found give nothing.
pub open spec fn in_request_order(keys: Seq<Seq<KeyNode>>, found: Map<Seq<KeyNode>, Value>) -> Seq<
    Value,
>
    decreases keys.len(),
{
    if keys.len() == 0 {
        Seq::empty()
    } else if found.dom().contains(keys[0]) {
        seq![found[keys[0]]] + in_request_order(keys.drop_first(), found.remove(keys[0]))
    } else {
        in_request_order(keys.drop_first(), found)
    }
}

/// Distinct requested keys that were all found give their entities, one per
/// key, in the order the keys were requested.
pub proof fn law_request_order_all_found(keys: Seq<Seq<KeyNode>>, found: Map<Seq<KeyNode>, Value>)
    requires
        forall|i: int, j: int| 0 <= i < j < keys.len() ==> #[trigger] keys[i] != #[trigger] keys[j],
        forall|i: int| 0 <= i < keys.len() ==> found.dom().contains(#[trigger] keys[i]),
    ensures
        in_request_order(keys, found) == keys.map_values(|k: Seq<KeyNode>| found[k]),
    decreases keys.len(),
{
    if keys.len() > 0 {
        let rest = keys.drop_first();
        let m = found.remove(keys[0]);
        assert forall|i: int| 0 <= i < rest.len() implies m.dom().contains(#[trigger] rest[i]) by {
            assert(rest[i] == keys[i + 1]);
            assert(keys[0] != keys[i + 1]);
        }
        assert forall|i: int, j: int| 0 <= i < j < rest.len() implies #[trigger] rest[i]
            != #[trigger] rest[j] by {
            assert(rest[i] == keys[i + 1] && rest[j] == keys[j + 1]);
        }
        law_request_order_all_found(rest, m);
        assert forall|i: int| 0 <= i < rest.len() implies m[#[trigger] rest[i]] == found[rest[i]] by {
            assert(rest[i] == keys[i + 1]);
            assert(keys[0] != keys[i + 1]);
        }
        assert(in_request_order(keys, found) =~= keys.map_values(|k: Seq<KeyNode>| found[k]));
    }
}

/// Requested keys that were none of them found give nothing.
pub proof fn law_request_order_none_found(keys: Seq<Seq<KeyNode>>, found: Map<Seq<KeyNode>, Value>)
    requires
        forall|i: int| 0 <= i < keys.len() ==> !found.dom().contains(#[trigger] keys[i]),
    ensures
        in_request_order(keys, found).len() == 0,
    decreases keys.len(),
{
    if keys.len() > 0 {
        let rest = keys.drop_first();
        assert forall|i: int| 0 <= i < rest.len() implies !found.dom().contains(#[trigger] rest[i]) by {
            assert(rest[i] == keys[i + 1]);
        }
        law_request_order_none_found(rest, found);
    }
}

/// The table holds exactly the entries of the map, one entity per key.
spec fn represents(t: Seq<Entity>, m: Map<Seq<KeyNode>, Value>) -> bool {
    &&& forall|j: int|
        0 <= j < t.len() ==> m.dom().contains((#[trigger] t[j]).key@) && m[t[j].key@]
            == t[j].properties
    &&& forall|k: Seq<KeyNode>|
        m.dom().contains(k) ==> exists|j: int| 0 <= j < t.len() && (#[trigger] t[j]).key@ == k
    &&& forall|i: int, j: int|
        0 <= i < j < t.len() ==> (#[trigger] t[i]).key@ != (#[trigger] t[j]).key@
}

fn position_of(table: &Vec<Entity>, key: &Key) -> (r: Option<usize>)
    ensures
        r matches Some(j) ==> j < table.len() && table@[j as int].key@ == key@,
        r is None ==> forall|j: int| 0 <= j < table.len() ==> (#[trigger] table@[j]).key@ != key@,
{
    let mut j: usize = 0;
    while j < table.len()
        invariant
            j <= table.len(),
            forall|i: int| 0 <= i < j ==> (#[trigger] table@[i]).key@ != key@,
        decreases table.len() - j,
    {
        if table[j].key == *key {
            return Some(j);
        }
        j += 1;
    }
    None
}

/// The properties of the entities that lookups found, in the order of the
/// requested keys.
pub fn found_in_request_order(keys: &Vec<Key>, found: Vec<Entity>) -> (r: Vec<Value>)
    ensures
        r@ == in_request_order(keys@.map_values(|k: Key| k@), found_map(found@)),
{
    let ghost all = found@;
    assert(all.len() == found.len());
    let mut rest = found;
    let mut table: Vec<Entity> = Vec::new();
    let mut n: usize = 0;
    while rest.len() > 0
        invariant
            n + rest.len() == all.len(),
            all.len() <= usize::MAX,
            rest@ == all.skip(n as int),
            represents(table@, found_map(all.take(n as int))),
        decreases rest.len(),
    {
        let e = rest.remove(0);
        assert(e == all[n as int]);
        let ghost m = found_map(all.take(n as int));
        let ghost m2 = m.insert(e.key@, e.properties);
        assert(all.take(n + 1).drop_last() =~= all.take(n as int));
        assert(found_map(all.take(n + 1)) == m2);
        let ghost t = table@;
        match position_of(&table, &e.key) {
            Some(j) => {
                table.set(j, e);
                assert(represents(table@, m2)) by {
                    assert forall|k: Seq<KeyNode>| m2.dom().contains(k) implies exists|i: int|
                        0 <= i < table@.len() && (#[trigger] table@[i]).key@ == k by {
                        if k != e.key@ {
                            let i = choose|i: int| 0 <= i < t.len() && (#[trigger] t[i]).key@ == k;
                            assert(table@[i].key@ == k);
                        } else {
                            assert(table@[j as int].key@ == k);
                        }
                    }
                }
            },
            None => {
                table.push(e);
                assert(represents(table@, m2)) by {
                    assert forall|k: Seq<KeyNode>| m2.dom().contains(k) implies exists|i: int|
                        0 <= i < table@.len() && (#[trigger] table@[i]).key@ == k by {
                        if k != e.key@ {
                            let i = choose|i: int| 0 <= i < t.len() && (#[trigger] t[i]).key@ == k;
                            assert(table@[i].key@ == k);
                        } else {
                            assert(table@[t.len() as int].key@ == k);
                        }
                    }
                }
            },
        }
        n += 1;
        assert(rest@ =~= all.skip(n as int));
    }
    assert(all.take(n as int) =~= all);
    let ghost ks = keys@.map_values(|k: Key| k@);
    let ghost target = in_request_order(ks, found_map(all));
    let ghost mut m = found_map(all);
    let mut out: Vec<Value> = Vec::new();
    let mut i: usize = 0;
    assert(ks.skip(0) =~= ks);
    while i < keys.len()
        invariant
            i <= keys.len(),
            ks == keys@.map_values(|k: Key| k@),
            represents(table@, m),
            out@ + in_request_order(ks.skip(i as int), m) == target,
        decreases keys.len() - i,
    {
        let ghost t = table@;
        let ghost rest_keys = ks.skip(i as int);
        assert(rest_keys[0] == keys@[i as int]@);
        assert(rest_keys.drop_first() =~= ks.skip(i + 1));
        match position_of(&table, &keys[i]) {
            Some(j) => {
                let ghost k = keys@[i as int]@;
                let e = table.remove(j);
                let ghost m2 = m.remove(k);
                assert(represents(table@, m2)) by {
                    assert forall|kk: Seq<KeyNode>| m2.dom().contains(kk) implies exists|x: int|
                        0 <= x < table@.len() && (#[trigger] table@[x]).key@ == kk by {
                        let x = choose|x: int| 0 <= x < t.len() && (#[trigger] t[x]).key@ == kk;
                        if x < j {
                            assert(table@[x].key@ == kk);
                        } else {
                            assert(x != j);
                            assert(table@[x - 1].key@ == kk);
                        }
                    }
                    assert forall|x: int| 0 <= x < table@.len() implies m2.dom().contains(
                        (#[trigger] table@[x]).key@,
                    ) && m2[table@[x].key@] == table@[x].properties by {
                        if x < j {
                            assert(table@[x] == t[x]);
                        } else {
                            assert(table@[x] == t[x + 1]);
                        }
                    }
                }
                assert(m.dom().contains(k));
                assert(m[k] == e.properties);
                let ghost before = out@;
                out.push(e.properties);
                assert(out@ =~= before + seq![m[k]]);
                proof {
                    m = m2;
                }
            },
            None => {
                assert(!m.dom().contains(keys@[i as int]@));
            },
        }
        i += 1;
    }
    assert(ks.skip(i as int) =~= Seq::<Seq<KeyNode>>::empty());
    assert(out@ =~= out@ + Seq::<Value>::empty());
    out
}

} // verus!
