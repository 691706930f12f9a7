use std::hash::{Hash, Hasher};

use mww::libmww::id::Id;

struct IdTag;

fn works_eq(v1: &str, v2: &str) -> bool {
    let id1 = Id::<IdTag>::new(v1.to_string());
    let id2 = Id::<IdTag>::new(v2.to_string());
    id1 == id2
}

#[test]
fn ids_equal_when_raw_ids_equal() {
    assert!(works_eq("hoge", "hoge"));
    assert!(!works_eq("hfoo", "hoge"));
    assert!(works_eq("hfoo", "hfoo"));
    assert!(works_eq("1", "1"));
    assert!(!works_eq("1", "2"));
}

#[test]
fn clone_keeps_raw_id() {
    for v in ["hoge", "foo", "1", "2"] {
        let id = Id::<IdTag>::new(v.to_string());
        assert_eq!(id.clone().raw_id(), v);
    }
}

#[test]
fn raw_id_is_the_given_text() {
    for v in ["hoge", "foo", "1", "2"] {
        let id = Id::<IdTag>::new(v.to_string());
        assert_eq!(id.raw_id(), &v.to_string());
    }
}

fn hash_of(id: &Id<IdTag>) -> u64 {
    let mut h = std::collections::hash_map::DefaultHasher::new();
    id.hash(&mut h);
    h.finish()
}

#[test]
fn equal_ids_hash_alike() {
    let a = Id::<IdTag>::new("hoge".to_string());
    let b = Id::<IdTag>::new("hoge".to_string());
    assert_eq!(hash_of(&a), hash_of(&b));
    let mut set = std::collections::HashSet::new();
    set.insert(a);
    assert!(set.contains(&b));
    assert!(!set.contains(&Id::<IdTag>::new("foo".to_string())));
}

#[test]
fn id_formats_as_raw_text() {
    for v in ["hoge", "foo", "1", "2"] {
        let id = Id::<IdTag>::new(v.to_string());
        assert_eq!(id.to_display_string(), v);
    }
}
