use mww::datastore::api;
use mww::datastore::client::lookup_step;
use mww::datastore::convert::convert_key;
use mww::datastore::key::{Key, KeyID};
use mww::datastore::query::query_step;
use mww::datastore::value::{Entity, Value};

fn entity(id: i64) -> Entity {
    Entity::new(Key::new("k".to_string()).id(KeyID::IntID(id)), vec![("v".to_string(), Value::IntegerValue(id))])
}

fn ids(entities: &[Entity]) -> Vec<i64> {
    entities
        .iter()
        .map(|e| match e.properties {
            Value::EntityValue(ref ps) => match ps[0].1 {
                Value::IntegerValue(n) => n,
                _ => panic!("expected an integer"),
            },
            _ => panic!("expected properties"),
        })
        .collect()
}

#[test]
fn query_step_continues_only_while_not_finished() {
    let (out, next) = query_step(vec![], vec![entity(1), entity(2)], api::MoreResultsType::NotFinished, vec![7]);
    assert_eq!(ids(&out), vec![1, 2]);
    assert_eq!(next, Some(vec![7]));
    let (out, next) = query_step(out, vec![entity(3)], api::MoreResultsType::NoMoreResults, vec![8]);
    assert_eq!(ids(&out), vec![1, 2, 3]);
    assert_eq!(next, None);
    let (_, next) = query_step(vec![], vec![], api::MoreResultsType::MoreResultsAfterLimit, vec![1]);
    assert_eq!(next, None);
    let (_, next) = query_step(vec![], vec![], api::MoreResultsType::MoreResultsAfterCursor, vec![1]);
    assert_eq!(next, None);
}

#[test]
fn paged_query_gathers_every_batch_in_order() {
    let batches = vec![
        (vec![entity(1)], api::MoreResultsType::NotFinished, vec![1u8]),
        (vec![], api::MoreResultsType::NotFinished, vec![2u8]),
        (vec![entity(2), entity(3)], api::MoreResultsType::NoMoreResults, vec![3u8]),
    ];
    let mut output = Vec::new();
    let mut cursors = Vec::new();
    for (batch, more, cursor) in batches {
        let (gathered, next) = query_step(output, batch, more, cursor);
        output = gathered;
        match next {
            Some(c) => cursors.push(c),
            None => break,
        }
    }
    assert_eq!(ids(&output), vec![1, 2, 3]);
    assert_eq!(cursors, vec![vec![1u8], vec![2u8]]);
}

#[test]
fn lookup_step_asks_again_for_deferred_keys() {
    let deferred = vec![convert_key("p", &Key::new("k".to_string()).id(KeyID::IntID(5)))];
    let (found, next) = lookup_step("p", vec![entity(1)], vec![entity(2)], deferred, Some(vec![4]));
    assert_eq!(ids(&found), vec![1, 2]);
    let req = next.unwrap();
    assert_eq!(req.project_id, "p");
    assert_eq!(req.keys.len(), 1);
    assert!(matches!(req.keys[0].path[0].id_type, Some(api::IdType::Id(5))));
    match req.read_options.unwrap().consistency_type {
        Some(api::ConsistencyType::Transaction(t)) => assert_eq!(t, vec![4]),
        _ => panic!("expected a transaction read"),
    }
    let (found, next) = lookup_step("p", found, vec![entity(3)], vec![], None);
    assert_eq!(ids(&found), vec![1, 2, 3]);
    assert!(next.is_none());
}
