use mww::datastore::api;
use mww::datastore::client::{found_in_request_order, is_complete_wire_key, lookup_request_for};
use mww::datastore::convert::{convert_entity, convert_key, convert_value};
use mww::datastore::error::ConvertError;
use mww::datastore::ids::is_allocated_key;
use mww::datastore::key::{Key, KeyID};
use mww::datastore::project::{is_readable_project, project_key};
use mww::datastore::read::{entity_from_wire, is_readable_entity, is_readable_value, value_from_wire};
use mww::datastore::value::{Entity, Value};
use mww::domain::project::ProjectId;

fn sample_value() -> Value {
    Value::EntityValue(vec![
        ("flag".to_string(), Value::BooleanValue(true)),
        ("count".to_string(), Value::IntegerValue(-3)),
        ("ratio".to_string(), Value::DoubleValue(0.25f64.to_bits())),
        ("at".to_string(), Value::TimestampValue(1_700_000_000, 123_456_789)),
        ("ref".to_string(), Value::KeyValue(Key::new("k".to_string()).namespace("ns".to_string()).id(KeyID::IntID(8)))),
        ("text".to_string(), Value::StringValue("hello".to_string())),
        ("bytes".to_string(), Value::BlobValue(vec![0, 255])),
        ("where".to_string(), Value::GeoPointValue(1.0f64.to_bits(), 2.0f64.to_bits())),
        ("list".to_string(), Value::ArrayValue(vec![Value::IntegerValue(1), Value::StringValue("x".to_string())])),
    ])
}

fn debug(v: &Value) -> String {
    format!("{:?}", v)
}

#[test]
fn value_round_trips_through_wire() {
    let v = sample_value();
    let w = convert_value("p", sample_value());
    assert!(is_readable_value(&w));
    let back = value_from_wire(w);
    assert_eq!(debug(&back), debug(&v));
}

#[test]
fn entity_round_trips_through_wire() {
    let key = Key::new("project".to_string()).namespace("ns".to_string()).id(KeyID::StringID("a".to_string()));
    let e = Entity::new(key.clone(), vec![("name".to_string(), Value::StringValue("n".to_string()))]);
    let w = convert_entity("p", e);
    assert!(is_readable_entity(&w));
    let back = entity_from_wire(w);
    assert_eq!(back.key, key);
    assert!(matches!(&back.properties, Value::EntityValue(ps) if ps.len() == 1 && ps[0].0 == "name"));
}

#[test]
fn values_without_content_are_not_readable() {
    let empty = api::Value { meaning: 0, exclude_from_indexes: false, value_type: None };
    assert!(!is_readable_value(&empty));
    let nested = api::Value {
        meaning: 0,
        exclude_from_indexes: false,
        value_type: Some(api::ValueType::ArrayValue(api::ArrayValue {
            values: vec![api::Value { meaning: 0, exclude_from_indexes: false, value_type: None }],
        })),
    };
    assert!(!is_readable_value(&nested));
    let keyless = api::Entity { key: None, properties: vec![] };
    assert!(!is_readable_entity(&keyless));
    let bad_key = api::Key { partition_id: None, path: vec![] };
    assert!(!is_complete_wire_key(&bad_key));
    assert!(!is_allocated_key(&bad_key));
    let incomplete = convert_key("p", &Key::new("k".to_string()));
    assert!(is_complete_wire_key(&incomplete));
    assert!(!is_allocated_key(&incomplete));
    let named = convert_key("p", &Key::new("k".to_string()).id(KeyID::StringID("s".to_string())));
    assert!(!is_allocated_key(&named));
    let numbered = convert_key("p", &Key::new("k".to_string()).id(KeyID::IntID(1)));
    assert!(is_allocated_key(&numbered));
}

#[test]
fn timestamp_nanoseconds_read_back_unsigned() {
    let w = api::Value {
        meaning: 0,
        exclude_from_indexes: false,
        value_type: Some(api::ValueType::TimestampValue(api::Timestamp { seconds: 5, nanos: 7 })),
    };
    assert!(matches!(value_from_wire(w), Value::TimestampValue(5, 7)));
}

fn entity(kind: &str, id: i64, v: i64) -> Entity {
    Entity::new(Key::new(kind.to_string()).id(KeyID::IntID(id)), vec![("v".to_string(), Value::IntegerValue(v))])
}

fn value_of(v: &Value) -> i64 {
    match v {
        Value::EntityValue(ps) => match &ps[0].1 {
            Value::IntegerValue(n) => *n,
            _ => panic!("expected an integer"),
        },
        _ => panic!("expected an entity"),
    }
}

#[test]
fn found_entities_come_in_request_order() {
    let k = |id: i64| Key::new("k".to_string()).id(KeyID::IntID(id));
    let keys = vec![k(3), k(1), k(2), k(1)];
    let found = vec![entity("k", 1, 10), entity("k", 3, 30), entity("k", 1, 11)];
    let got: Vec<i64> = found_in_request_order(&keys, found).iter().map(value_of).collect();
    assert_eq!(got, vec![30, 11]);
}

#[test]
fn deferred_lookup_keeps_transaction() {
    let r = lookup_request_for("p", vec![convert_key("p", &Key::new("k".to_string()))], Some(vec![1]));
    assert_eq!(r.keys.len(), 1);
    assert!(matches!(r.read_options.unwrap().consistency_type, Some(api::ConsistencyType::Transaction(t)) if t == vec![1]));
}

#[test]
fn keys_compare_by_chain() {
    let a = Key::new("k".to_string()).id(KeyID::IntID(1)).parent(Key::new("p".to_string()));
    let b = Key::new("k".to_string()).id(KeyID::IntID(1)).parent(Key::new("p".to_string()));
    let c = Key::new("k".to_string()).id(KeyID::IntID(1));
    let d = Key::new("k".to_string()).id(KeyID::IntID(1)).parent(Key::new("q".to_string()));
    let e = Key::new("k".to_string()).id(KeyID::IntID(1)).namespace("ns".to_string());
    assert!(a == b);
    assert!(a != c);
    assert!(a != d);
    assert!(c != e);
}

#[test]
fn readable_projects() {
    let key = project_key("ns".to_string(), &ProjectId::new("a".to_string()));
    assert!(is_readable_project(&key, &vec![("name".to_string(), Value::StringValue("n".to_string()))]));
    assert!(!is_readable_project(&key, &vec![("name".to_string(), Value::StringValue(String::new()))]));
    assert!(!is_readable_project(&key, &vec![("name".to_string(), Value::IntegerValue(1))]));
    assert!(!is_readable_project(&key, &vec![]));
    let numbered = Key::new("project".to_string()).id(KeyID::IntID(1));
    assert!(is_readable_project(&numbered, &vec![("name".to_string(), Value::IntegerValue(1))]));
}

#[test]
fn convert_error_texts() {
    assert_eq!(
        ConvertError::MissingProperty("name".to_string()).to_display_string(),
        "expected property `name` was missing"
    );
    assert_eq!(
        ConvertError::UnexpectedPropertyType { expected: "string".to_string(), got: "integer".to_string() }
            .to_display_string(),
        "expected property type `string`, got `integer`"
    );
}
