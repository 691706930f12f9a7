use mww::datastore::api;
use mww::datastore::convert::convert_key;
use mww::datastore::key::{Key, KeyID};

fn child_key() -> Key {
    let parent = Key::new("org".to_string())
        .namespace("ns".to_string())
        .id(KeyID::StringID("acme".to_string()));
    Key::new("project".to_string())
        .namespace("ns".to_string())
        .id(KeyID::IntID(42))
        .parent(parent)
}

#[test]
fn new_key_is_incomplete() {
    let k = Key::new("project".to_string());
    assert_eq!(k.get_kind(), "project");
    assert!(k.is_incomplete());
    assert!(k.get_id().is_incomplete());
    assert!(k.get_parent().is_none());
    assert!(k.get_namespace().is_none());
}

#[test]
fn builders_set_each_part() {
    let k = child_key();
    assert_eq!(k.get_kind(), "project");
    assert_eq!(k.get_id(), &KeyID::IntID(42));
    assert!(!k.is_incomplete());
    assert_eq!(k.get_namespace(), Some("ns"));
    let p = k.get_parent().unwrap();
    assert_eq!(p.get_kind(), "org");
    assert_eq!(p.get_id(), &KeyID::StringID("acme".to_string()));
    assert!(p.get_parent().is_none());
}

#[test]
fn key_id_conversions() {
    assert_eq!(KeyID::from(7i64), KeyID::IntID(7));
    assert_eq!(KeyID::from("x".to_string()), KeyID::StringID("x".to_string()));
    assert_eq!(KeyID::from("abc"), KeyID::StringID("abc".to_string()));
    assert_ne!(KeyID::from("abc"), KeyID::StringID("ab".to_string()));
    assert_eq!(KeyID::from(api::IdType::Id(3)), KeyID::IntID(3));
    assert_eq!(
        KeyID::from(api::IdType::Name("n".to_string())),
        KeyID::StringID("n".to_string())
    );
    assert!(KeyID::Incomplete.is_incomplete());
    assert!(!KeyID::IntID(0).is_incomplete());
}

#[test]
fn clone_keeps_the_key() {
    let k = child_key();
    assert_eq!(k.clone(), k);
}

#[test]
fn convert_key_writes_root_first_path() {
    let w = convert_key("my-project", &child_key());
    let p = w.partition_id.as_ref().unwrap();
    assert_eq!(p.project_id, "my-project");
    assert_eq!(p.namespace_id, "ns");
    assert_eq!(w.path.len(), 2);
    assert_eq!(w.path[0].kind, "org");
    assert!(matches!(&w.path[0].id_type, Some(api::IdType::Name(n)) if n == "acme"));
    assert_eq!(w.path[1].kind, "project");
    assert!(matches!(&w.path[1].id_type, Some(api::IdType::Id(42))));
}

#[test]
fn convert_key_without_namespace_or_id() {
    let w = convert_key("p", &Key::new("k".to_string()));
    assert_eq!(w.partition_id.as_ref().unwrap().namespace_id, "");
    assert_eq!(w.path.len(), 1);
    assert!(w.path[0].id_type.is_none());
}

#[test]
fn key_round_trips_through_wire() {
    let k = child_key();
    let back = Key::from_wire(convert_key("p", &k));
    assert_eq!(back, k);
}

#[test]
fn wire_key_with_empty_namespace_reads_as_none() {
    let w = api::Key {
        partition_id: Some(api::PartitionId { project_id: "p".to_string(), namespace_id: String::new() }),
        path: vec![
            api::PathElement { kind: "a".to_string(), id_type: Some(api::IdType::Id(1)) },
            api::PathElement { kind: "b".to_string(), id_type: None },
        ],
    };
    let k = Key::from_wire(w);
    assert_eq!(k.get_kind(), "b");
    assert!(k.is_incomplete());
    assert!(k.get_namespace().is_none());
    let p = k.get_parent().unwrap();
    assert_eq!(p.get_kind(), "a");
    assert_eq!(p.get_id(), &KeyID::IntID(1));
    let again = convert_key("p", &k);
    assert_eq!(again.path.len(), 2);
    assert_eq!(again.partition_id.unwrap().namespace_id, "");
}

#[test]
fn wire_key_namespace_applies_to_every_ancestor() {
    let w = api::Key {
        partition_id: Some(api::PartitionId { project_id: "p".to_string(), namespace_id: "tenant".to_string() }),
        path: vec![
            api::PathElement { kind: "a".to_string(), id_type: Some(api::IdType::Name("x".to_string())) },
            api::PathElement { kind: "b".to_string(), id_type: Some(api::IdType::Id(9)) },
        ],
    };
    let k = Key::from_wire(w);
    assert_eq!(k.get_namespace(), Some("tenant"));
    assert_eq!(k.get_parent().unwrap().get_namespace(), Some("tenant"));
}
