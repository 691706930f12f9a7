use mww::datastore::api;
use mww::datastore::convert::{convert_entity, convert_filter, convert_value, generate_mutations};
use mww::datastore::key::{Key, KeyID};
use mww::datastore::query::Filter;
use mww::datastore::value::{Entity, Value};

#[test]
fn scalar_values_convert_one_to_one() {
    let w = convert_value("p", Value::BooleanValue(true));
    assert_eq!(w.meaning, 0);
    assert!(!w.exclude_from_indexes);
    assert!(matches!(w.value_type, Some(api::ValueType::BooleanValue(true))));
    assert!(matches!(
        convert_value("p", Value::IntegerValue(-5)).value_type,
        Some(api::ValueType::IntegerValue(-5))
    ));
    let bits = 1.5f64.to_bits();
    assert!(matches!(
        convert_value("p", Value::DoubleValue(bits)).value_type,
        Some(api::ValueType::DoubleValue(b)) if b == bits
    ));
    assert!(matches!(
        convert_value("p", Value::StringValue("s".to_string())).value_type,
        Some(api::ValueType::StringValue(s)) if s == "s"
    ));
    assert!(matches!(
        convert_value("p", Value::BlobValue(vec![1, 2, 3])).value_type,
        Some(api::ValueType::BlobValue(b)) if b == vec![1, 2, 3]
    ));
}

#[test]
fn timestamp_and_geo_point_convert() {
    match convert_value("p", Value::TimestampValue(1_600_000_000, 250)).value_type {
        Some(api::ValueType::TimestampValue(t)) => {
            assert_eq!(t.seconds, 1_600_000_000);
            assert_eq!(t.nanos, 250);
        }
        _ => panic!("expected a timestamp"),
    }
    let lat = 35.0f64.to_bits();
    let lng = 139.0f64.to_bits();
    match convert_value("p", Value::GeoPointValue(lat, lng)).value_type {
        Some(api::ValueType::GeoPointValue(g)) => {
            assert_eq!(g.latitude, lat);
            assert_eq!(g.longitude, lng);
        }
        _ => panic!("expected a geo point"),
    }
}

#[test]
fn key_value_converts_in_project() {
    let k = Key::new("k".to_string()).id(KeyID::IntID(1));
    match convert_value("proj", Value::KeyValue(k)).value_type {
        Some(api::ValueType::KeyValue(w)) => {
            assert_eq!(w.partition_id.unwrap().project_id, "proj");
            assert_eq!(w.path.len(), 1);
        }
        _ => panic!("expected a key"),
    }
}

#[test]
fn nested_values_keep_order_and_names() {
    let v = Value::EntityValue(vec![
        ("a".to_string(), Value::IntegerValue(1)),
        ("b".to_string(), Value::ArrayValue(vec![Value::BooleanValue(false), Value::IntegerValue(2)])),
    ]);
    match convert_value("p", v).value_type {
        Some(api::ValueType::EntityValue(e)) => {
            assert!(e.key.is_none());
            assert_eq!(e.properties.len(), 2);
            assert_eq!(e.properties[0].0, "a");
            assert_eq!(e.properties[1].0, "b");
            match &e.properties[1].1.value_type {
                Some(api::ValueType::ArrayValue(a)) => {
                    assert_eq!(a.values.len(), 2);
                    assert!(matches!(a.values[1].value_type, Some(api::ValueType::IntegerValue(2))));
                }
                _ => panic!("expected an array"),
            }
        }
        _ => panic!("expected an entity"),
    }
}

#[test]
fn entity_converts_with_key() {
    let e = Entity::new(
        Key::new("project".to_string()).id(KeyID::StringID("x".to_string())),
        vec![("name".to_string(), Value::StringValue("n".to_string()))],
    );
    let w = convert_entity("p", e);
    assert_eq!(w.key.unwrap().path[0].kind, "project");
    assert_eq!(w.properties.len(), 1);
    assert_eq!(w.properties[0].0, "name");
}

#[test]
fn incomplete_keys_insert_and_complete_keys_upsert() {
    let incomplete = Entity::new(Key::new("k".to_string()), vec![]);
    let complete = Entity::new(Key::new("k".to_string()).id(KeyID::IntID(3)), vec![]);
    let ms = generate_mutations("p", vec![incomplete, complete]);
    assert_eq!(ms.len(), 2);
    assert!(matches!(ms[0].operation, Some(api::Operation::Insert(_))));
    assert!(matches!(ms[1].operation, Some(api::Operation::Upsert(_))));
}

#[test]
fn no_filters_give_no_filter() {
    assert!(convert_filter("p", &vec![]).is_none());
}

#[test]
fn filters_combine_with_and() {
    let filters = vec![
        Filter::Equal("a".to_string(), Value::IntegerValue(1)),
        Filter::GreaterThan("b".to_string(), Value::IntegerValue(2)),
        Filter::LesserThan("c".to_string(), Value::IntegerValue(3)),
        Filter::GreaterThanOrEqual("d".to_string(), Value::IntegerValue(4)),
        Filter::LesserThanEqual("e".to_string(), Value::IntegerValue(5)),
    ];
    let f = convert_filter("p", &filters).unwrap();
    match f.filter_type {
        Some(api::FilterType::CompositeFilter(c)) => {
            assert_eq!(c.op, api::CompositeOperator::And);
            let expected = [
                ("a", api::PropertyOperator::Equal),
                ("b", api::PropertyOperator::GreaterThan),
                ("c", api::PropertyOperator::LessThan),
                ("d", api::PropertyOperator::GreaterThanOrEqual),
                ("e", api::PropertyOperator::LessThanOrEqual),
            ];
            assert_eq!(c.filters.len(), expected.len());
            for (got, (name, op)) in c.filters.iter().zip(expected.iter()) {
                match &got.filter_type {
                    Some(api::FilterType::PropertyFilter(pf)) => {
                        assert_eq!(&pf.property.as_ref().unwrap().name, name);
                        assert_eq!(&pf.op, op);
                        assert!(pf.value.is_some());
                    }
                    _ => panic!("expected a property filter"),
                }
            }
        }
        _ => panic!("expected a composite filter"),
    }
}

fn names_and_ints(e: &mww::datastore::value::Entity) -> Vec<(String, i64)> {
    match e.properties {
        Value::EntityValue(ref ps) => ps
            .iter()
            .map(|(n, v)| match v {
                Value::IntegerValue(i) => (n.clone(), *i),
                _ => panic!("expected an integer"),
            })
            .collect(),
        _ => panic!("expected properties"),
    }
}

#[test]
fn entity_keeps_one_value_per_name() {
    let e = Entity::new(
        Key::new("k".to_string()),
        vec![
            ("a".to_string(), Value::IntegerValue(1)),
            ("b".to_string(), Value::IntegerValue(2)),
            ("a".to_string(), Value::IntegerValue(3)),
        ],
    );
    assert_eq!(names_and_ints(&e), vec![("a".to_string(), 3), ("b".to_string(), 2)]);
    let e = Entity::new(
        Key::new("k".to_string()),
        vec![("x".to_string(), Value::IntegerValue(1)), ("y".to_string(), Value::IntegerValue(2))],
    );
    assert_eq!(names_and_ints(&e), vec![("x".to_string(), 1), ("y".to_string(), 2)]);
}
