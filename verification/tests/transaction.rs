use mww::datastore::api;
use mww::datastore::key::{Key, KeyID};
use mww::datastore::transaction::{commit_outcome, Transaction};
use mww::datastore::value::{Entity, Value};
use mww::libmww::database::DatabaseError;

fn entity(id: Option<i64>) -> Entity {
    let k = Key::new("k".to_string());
    let k = match id {
        Some(n) => k.id(KeyID::IntID(n)),
        None => k,
    };
    Entity::new(k, vec![("v".to_string(), Value::IntegerValue(1))])
}

#[test]
fn gathered_writes_are_committed_in_the_transaction() {
    let mut tx = Transaction::new("p".to_string(), "ns".to_string(), vec![1, 2, 3]).unwrap();
    assert_eq!(tx.namespace(), "ns");
    tx.put(entity(None));
    tx.put_all(vec![entity(Some(1)), entity(Some(2))]);
    assert_eq!(tx.transaction_id(), vec![1, 2, 3]);
    let c = tx.commit_request();
    assert_eq!(c.project_id, "p");
    assert_eq!(c.mode, api::CommitMode::Transactional);
    assert_eq!(c.mutations.len(), 3);
    assert!(matches!(c.mutations[0].operation, Some(api::Operation::Insert(_))));
    assert!(matches!(c.mutations[1].operation, Some(api::Operation::Upsert(_))));
    match c.transaction_selector {
        Some(api::TransactionSelector::Transaction(t)) => assert_eq!(t, vec![1, 2, 3]),
        None => panic!("expected the transaction"),
    }
}

#[test]
fn rollback_names_the_transaction() {
    let tx = Transaction::new("p".to_string(), "ns".to_string(), vec![4]).unwrap();
    let r = tx.rollback_request();
    assert_eq!(r.project_id, "p");
    assert_eq!(r.transaction, vec![4]);
}

#[test]
fn commit_fails_on_conflict() {
    let ok = api::CommitResponse {
        mutation_results: vec![api::MutationResult { key: None, conflict_detected: false }],
    };
    assert!(commit_outcome(&ok).is_ok());
    let empty = api::CommitResponse { mutation_results: vec![] };
    assert!(commit_outcome(&empty).is_ok());
    let conflict = api::CommitResponse {
        mutation_results: vec![
            api::MutationResult { key: None, conflict_detected: false },
            api::MutationResult { key: None, conflict_detected: true },
        ],
    };
    match commit_outcome(&conflict) {
        Err(e @ DatabaseError::FailedTransactionCommit(_)) => {
            assert_eq!(e, DatabaseError::FailedTransactionCommit(anyhow::Error::msg("")));
            if let DatabaseError::FailedTransactionCommit(cause) = e {
                assert_eq!(cause.to_string(), "conflit detected");
            }
        }
        _ => panic!("expected a failed commit"),
    }
}

fn written_id(m: &api::Mutation) -> Option<i64> {
    let e = match &m.operation {
        Some(api::Operation::Insert(e)) | Some(api::Operation::Upsert(e)) => e,
        _ => panic!("expected an insert or an upsert"),
    };
    match &e.key.as_ref().unwrap().path.last().unwrap().id_type {
        Some(api::IdType::Id(n)) => Some(*n),
        _ => None,
    }
}

#[test]
fn commit_carries_every_batch_in_call_order() {
    let mut tx = Transaction::new("p".to_string(), "ns".to_string(), vec![9]).unwrap();
    tx.put_all(vec![entity(Some(1)), entity(Some(2))]);
    tx.put_all(vec![]);
    tx.put_all(vec![entity(Some(3)), entity(None), entity(Some(4))]);
    let c = tx.commit_request();
    let ids: Vec<Option<i64>> = c.mutations.iter().map(written_id).collect();
    assert_eq!(ids, vec![Some(1), Some(2), Some(3), None, Some(4)]);
    assert!(matches!(c.mutations[3].operation, Some(api::Operation::Insert(_))));
    assert_eq!(c.project_id, "p");
}
