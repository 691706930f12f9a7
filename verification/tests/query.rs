use mww::datastore::api;
use mww::datastore::key::Key;
use mww::datastore::query::{next_query_cursor, Filter, Order, Query};
use mww::datastore::value::Value;

#[test]
fn new_query_runs_strongly_on_the_kind() {
    let r = Query::new("project".to_string()).run_query_request("p", vec![]);
    assert_eq!(r.project_id, "p");
    let part = r.partition_id.unwrap();
    assert_eq!(part.project_id, "p");
    assert_eq!(part.namespace_id, "");
    assert!(matches!(
        r.read_options.unwrap().consistency_type,
        Some(api::ConsistencyType::ReadConsistency(api::ReadConsistency::Strong))
    ));
    match r.query_type {
        Some(api::QueryType::Query(q)) => {
            assert_eq!(q.kind.len(), 1);
            assert_eq!(q.kind[0].name, "project");
            assert!(q.projection.is_empty());
            assert!(q.filter.is_none());
            assert!(q.order.is_empty());
            assert_eq!(q.offset, 0);
            assert_eq!(q.limit, None);
            assert!(q.start_cursor.is_empty());
            assert!(q.end_cursor.is_empty());
            assert!(q.distinct_on.is_empty());
        }
        None => panic!("expected a query"),
    }
}

#[test]
fn builder_options_reach_the_request() {
    let q = Query::new("task".to_string())
        .eventually_consistent()
        .keys_only()
        .offset(5)
        .limit(10)
        .ancestor(Key::new("list".to_string()))
        .namespace("ns".to_string())
        .project(vec!["a".to_string(), "b".to_string()])
        .distinct_on(vec!["c".to_string()])
        .filter(Filter::Equal("done".to_string(), Value::BooleanValue(false)))
        .order(Order::Asc("priority".to_string()))
        .order(Order::Desc("created".to_string()));
    let r = q.run_query_request("p", vec![7, 8]);
    assert_eq!(r.partition_id.unwrap().namespace_id, "ns");
    assert!(matches!(
        r.read_options.unwrap().consistency_type,
        Some(api::ConsistencyType::ReadConsistency(api::ReadConsistency::Eventual))
    ));
    match r.query_type {
        Some(api::QueryType::Query(aq)) => {
            assert_eq!(aq.offset, 5);
            assert_eq!(aq.limit, Some(10));
            assert_eq!(aq.start_cursor, vec![7, 8]);
            let names: Vec<&str> =
                aq.projection.iter().map(|p| p.property.as_ref().unwrap().name.as_str()).collect();
            assert_eq!(names, vec!["a", "b"]);
            assert_eq!(aq.distinct_on.len(), 1);
            assert_eq!(aq.distinct_on[0].name, "c");
            assert!(aq.filter.is_some());
            assert_eq!(aq.order.len(), 2);
            assert_eq!(aq.order[0].property.as_ref().unwrap().name, "priority");
            assert_eq!(aq.order[0].direction, api::Direction::Ascending);
            assert_eq!(aq.order[1].property.as_ref().unwrap().name, "created");
            assert_eq!(aq.order[1].direction, api::Direction::Descending);
        }
        None => panic!("expected a query"),
    }
}

#[test]
fn projections_are_replaced_not_added() {
    let q = Query::new("k".to_string())
        .project(vec!["a".to_string()])
        .project(vec!["b".to_string(), "c".to_string()])
        .distinct_on(vec!["x".to_string()])
        .distinct_on(vec![]);
    match q.run_query_request("p", vec![]).query_type {
        Some(api::QueryType::Query(aq)) => {
            assert_eq!(aq.projection.len(), 2);
            assert_eq!(aq.projection[0].property.as_ref().unwrap().name, "b");
            assert!(aq.distinct_on.is_empty());
        }
        None => panic!("expected a query"),
    }
}

#[test]
fn query_continues_only_while_not_finished() {
    assert_eq!(next_query_cursor(api::MoreResultsType::NotFinished, vec![1, 2]), Some(vec![1, 2]));
    assert_eq!(next_query_cursor(api::MoreResultsType::NoMoreResults, vec![1]), None);
    assert_eq!(next_query_cursor(api::MoreResultsType::MoreResultsAfterLimit, vec![1]), None);
    assert_eq!(next_query_cursor(api::MoreResultsType::MoreResultsAfterCursor, vec![1]), None);
}
