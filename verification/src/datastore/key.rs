//! Datastore keys: a kind, an identifier, an optional namespace and an
//! optional parent key.
use vstd::prelude::*;

use crate::datastore::api;

verus! {

/// The identifier part of a key.
#[derive(Debug, Eq, Hash)]
pub enum KeyID {
    StringID(String),
    IntID(i64),
    Incomplete,
}

/// Abstract identifier.
pub enum KeyIdView {
    StringID(Seq<char>),
    IntID(i64),
    Incomplete,
}

impl View for KeyID {
    type V = KeyIdView;

    open spec fn view(&self) -> KeyIdView {
        match self {
            KeyID::StringID(s) => KeyIdView::StringID(s@),
            KeyID::IntID(n) => KeyIdView::IntID(*n),
            KeyID::Incomplete => KeyIdView::Incomplete,
        }
    }
}

impl Clone for KeyID {
    fn clone(&self) -> (r: KeyID)
        ensures
            r == *self,
    {
        match self {
            KeyID::StringID(s) => KeyID::StringID(s.clone()),
            KeyID::IntID(n) => KeyID::IntID(*n),
            KeyID::Incomplete => KeyID::Incomplete,
        }
    }
}

/// Two identifiers are equal when they are of the same kind with equal
/// contents.
impl PartialEq for KeyID {
    fn eq(&self, other: &Self) -> (r: bool) {
        match self {
            KeyID::StringID(a) => match other {
                KeyID::StringID(b) => a.eq(b),
                _ => false,
            },
            KeyID::IntID(a) => match other {
                KeyID::IntID(b) => *a == *b,
                _ => false,
            },
            KeyID::Incomplete => match other {
                KeyID::Incomplete => true,
                _ => false,
            },
        }
    }
}

impl vstd::std_specs::cmp::PartialEqSpecImpl for KeyID {
    open spec fn obeys_eq_spec() -> bool {
        true
    }

    open spec fn eq_spec(&self, other: &Self) -> bool {
        self@ == other@
    }
}

impl KeyID {
    /// An identifier is incomplete when the datastore has not assigned one yet.
    pub fn is_incomplete(&self) -> (r: bool)
        ensures
            r == (self@ is Incomplete),
    {
        match self {
            KeyID::Incomplete => true,
            _ => false,
        }
    }
}

/// The identifier that an API path element carries.
impl From<api::IdType> for KeyID {
    fn from(id_type: api::IdType) -> (r: KeyID) {
        match id_type {
            api::IdType::Id(id) => KeyID::IntID(id),
            api::IdType::Name(id) => KeyID::StringID(id),
        }
    }
}

impl vstd::std_specs::convert::FromSpecImpl<api::IdType> for KeyID {
    open spec fn obeys_from_spec() -> bool {
        true
    }

    open spec fn from_spec(id_type: api::IdType) -> KeyID {
        match id_type {
            api::IdType::Id(id) => KeyID::IntID(id),
            api::IdType::Name(id) => KeyID::StringID(id),
        }
    }
}

impl From<i64> for KeyID {
    fn from(id: i64) -> (r: KeyID) {
        KeyID::IntID(id)
    }
}

impl vstd::std_specs::convert::FromSpecImpl<i64> for KeyID {
    open spec fn obeys_from_spec() -> bool {
        true
    }

    open spec fn from_spec(id: i64) -> KeyID {
        KeyID::IntID(id)
    }
}

impl From<String> for KeyID {
    fn from(id: String) -> (r: KeyID) {
        KeyID::StringID(id)
    }
}

impl vstd::std_specs::convert::FromSpecImpl<String> for KeyID {
    open spec fn obeys_from_spec() -> bool {
        true
    }

    open spec fn from_spec(id: String) -> KeyID {
        KeyID::StringID(id)
    }
}

/// A name identifier holding a copy of the given text.
impl<'a> From<&'a str> for KeyID {
    fn from(id: &'a str) -> (r: KeyID)
        ensures
            r@ == KeyIdView::StringID(id@),
    {
        KeyID::StringID(id.to_owned())
    }
}

/// Verus cannot build a `String` from a `&str` in a spec, so `from` does not
/// promise `from_spec`; it states its result by its view instead.
impl<'a> vstd::std_specs::convert::FromSpecImpl<&'a str> for KeyID {
    open spec fn obeys_from_spec() -> bool {
        false
    }

    open spec fn from_spec(id: &'a str) -> KeyID {
        choose|k: KeyID| k@ == KeyIdView::StringID(id@)
    }
}

/// A datastore key. The parent chain ends at the root ancestor.
#[derive(Debug, Eq, Hash)]
pub struct Key {
    kind: String,
    id: KeyID,
    parent: Option<Box<Key>>,
    namespace: Option<String>,
}

/// One key of a parent chain, without its parent.
pub struct KeyNode {
    pub kind: Seq<char>,
    pub id: KeyIdView,
    pub namespace: Option<Seq<char>>,
}

pub open spec fn option_str_view(s: Option<String>) -> Option<Seq<char>> {
    match s {
        Some(s) => Some(s@),
        None => None,
    }
}

/// The key itself, without its parent.
pub closed spec fn node_of(k: Key) -> KeyNode {
    KeyNode { kind: k.kind@, id: k.id@, namespace: option_str_view(k.namespace) }
}

/// The chain of a key, from the root ancestor down to the key itself.
pub closed spec fn key_chain(k: Key) -> Seq<KeyNode>
    decreases k,
{
    match k.parent {
        Some(p) => key_chain(*p).push(node_of(k)),
        None => seq![node_of(k)],
    }
}

impl View for Key {
    type V = Seq<KeyNode>;

    open spec fn view(&self) -> Seq<KeyNode> {
        key_chain(*self)
    }
}

/// A chain with its last key replaced.
pub open spec fn with_last(chain: Seq<KeyNode>, node: KeyNode) -> Seq<KeyNode> {
    chain.update(chain.len() - 1, node)
}

/// Every key chain has at least one key, and its last key is the key itself.
proof fn lemma_chain_shape(k: Key)
    ensures
        k@.len() >= 1,
        k@.last() == node_of(k),
        k.parent is None ==> k@.len() == 1,
        k.parent matches Some(p) ==> k@.drop_last() == (*p)@,
    decreases k,
{
    if let Some(p) = k.parent {
        lemma_chain_shape(*p);
        assert(k@.drop_last() =~= (*p)@);
    }
}

/// The namespace identifier that the API carries for a namespace: empty for none.
pub open spec fn namespace_id_of(namespace: Option<Seq<char>>) -> Seq<char> {
    match namespace {
        Some(ns) => ns,
        None => Seq::empty(),
    }
}

/// The namespace that an API namespace identifier stands for: none when empty.
pub open spec fn namespace_of_id(namespace_id: Seq<char>) -> Option<Seq<char>> {
    if namespace_id.len() == 0 {
        None
    } else {
        Some(namespace_id)
    }
}

/// The API key for a chain of keys in a project: the partition of the key
/// itself, and one path element per key of the chain, root first.
pub open spec fn wire_key_of(project_id: Seq<char>, chain: Seq<KeyNode>) -> api::KeyView {
    api::KeyView {
        partition_id: Some(
            api::PartitionView {
                project_id,
                namespace_id: namespace_id_of(chain.last().namespace),
            },
        ),
        path: chain.map_values(|n: KeyNode| api::PathView { kind: n.kind, id: n.id }),
    }
}

/// The chain of keys that an API key stands for: one key per path element,
/// each in the namespace of the partition.
pub open spec fn chain_of_wire(w: api::KeyView) -> Seq<KeyNode> {
    w.path.map_values(
        |e: api::PathView|
            KeyNode {
                kind: e.kind,
                id: e.id,
                namespace: namespace_of_id(w.partition_id->0.namespace_id),
            },
    )
}

/// Every key of the chain is in the same namespace as the last one, and that
/// namespace, when present, is not empty.
pub open spec fn uniform_namespace(chain: Seq<KeyNode>) -> bool {
    &&& chain.len() >= 1
    &&& forall|i: int| 0 <= i < chain.len() ==> #[trigger] chain[i].namespace == chain.last().namespace
    &&& chain.last().namespace != Some(Seq::<char>::empty())
}

fn same_namespace(a: &Option<String>, b: &Option<String>) -> (r: bool)
    ensures
        r == (option_str_view(*a) == option_str_view(*b)),
{
    match a {
        Some(x) => match b {
            Some(y) => x.eq(y),
            None => false,
        },
        None => b.is_none(),
    }
}

/// Two keys are equal when their chains are: the same kinds, identifiers and
/// namespaces, from the root ancestor down.
impl PartialEq for Key {
    fn eq(&self, other: &Self) -> (r: bool)
        decreases self,
    {
        proof {
            lemma_chain_shape(*self);
            lemma_chain_shape(*other);
        }
        let same_node = self.kind.eq(&other.kind) && self.id.eq(&other.id) && same_namespace(
            &self.namespace,
            &other.namespace,
        );
        let r = if !same_node {
            false
        } else {
            match &self.parent {
                Some(p) => match &other.parent {
                    Some(q) => (&**p).eq(&**q),
                    None => false,
                },
                None => other.parent.is_none(),
            }
        };
        proof {
            let a = key_chain(*self);
            let b = key_chain(*other);
            if self.parent is Some && other.parent is Some {
                let p = *(self.parent->0);
                let q = *(other.parent->0);
                lemma_chain_shape(p);
                lemma_chain_shape(q);
                assert(a == key_chain(p).push(node_of(*self)));
                assert(b == key_chain(q).push(node_of(*other)));
                if a == b {
                    assert(key_chain(p) =~= a.drop_last());
                    assert(key_chain(q) =~= b.drop_last());
                }
            }
            if a == b {
                assert(a.last() == b.last());
            }
            if r {
                assert(a =~= b);
            }
        }
        r
    }
}

impl vstd::std_specs::cmp::PartialEqSpecImpl for Key {
    open spec fn obeys_eq_spec() -> bool {
        true
    }

    open spec fn eq_spec(&self, other: &Self) -> bool {
        self@ == other@
    }
}

impl Clone for Key {
    fn clone(&self) -> (r: Key)
        ensures
            r == *self,
        decreases self,
    {
        let parent = match &self.parent {
            Some(p) => Some(Box::new((&**p).clone())),
            None => None,
        };
        let namespace = match &self.namespace {
            Some(s) => Some(s.clone()),
            None => None,
        };
        Key { kind: self.kind.clone(), id: self.id.clone(), parent, namespace }
    }
}

/// A key's chain is never empty: it holds at least the key itself.
pub proof fn lemma_key_chain_nonempty(k: Key)
    ensures
        k@.len() >= 1,
{
    lemma_chain_shape(k);
}

impl Key {
    /// A key of the given kind, with no identifier, parent or namespace.
    pub fn new(kind: String) -> (r: Key)
        ensures
            r@ == seq![KeyNode { kind: kind@, id: KeyIdView::Incomplete, namespace: None }],
    {
        Key { kind, id: KeyID::Incomplete, parent: None, namespace: None }
    }

    pub fn get_kind(&self) -> (r: &str)
        ensures
            r@ == self@.last().kind,
    {
        proof { lemma_chain_shape(*self); }
        self.kind.as_str()
    }

    /// The same key with the given identifier.
    pub fn id(self, id: KeyID) -> (r: Key)
        ensures
            r@ == with_last(self@, KeyNode { id: id@, ..self@.last() }),
    {
        proof { lemma_chain_shape(self); }
        let r = Key { id, ..self };
        proof {
            lemma_chain_shape(r);
            assert(r@ =~= with_last(self@, KeyNode { id: id@, ..self@.last() }));
        }
        r
    }

    pub fn get_id(&self) -> (r: &KeyID)
        ensures
            r@ == self@.last().id,
    {
        proof { lemma_chain_shape(*self); }
        &self.id
    }

    /// The same key under the given parent: the parent's chain followed by
    /// the key itself. A parent set before is replaced.
    pub fn parent(self, parent: Key) -> (r: Key)
        ensures
            r@ == parent@.push(self@.last()),
    {
        proof { lemma_chain_shape(self); }
        Key { parent: Some(Box::new(parent)), ..self }
    }

    pub fn get_parent(&self) -> (r: Option<&Key>)
        ensures
            r is None <==> self@.len() == 1,
            r matches Some(p) ==> p@ == self@.drop_last(),
    {
        proof { lemma_chain_shape(*self); }
        match &self.parent {
            Some(p) => Some(&**p),
            None => None,
        }
    }

    /// The same key in the given namespace.
    pub fn namespace(self, namespace: String) -> (r: Key)
        ensures
            r@ == with_last(self@, KeyNode { namespace: Some(namespace@), ..self@.last() }),
    {
        proof { lemma_chain_shape(self); }
        let ghost ns = namespace@;
        let r = Key { namespace: Some(namespace), ..self };
        proof {
            lemma_chain_shape(r);
            assert(r@ =~= with_last(self@, KeyNode { namespace: Some(ns), ..self@.last() }));
        }
        r
    }

    pub fn get_namespace(&self) -> (r: Option<&str>)
        ensures
            r is None <==> self@.last().namespace is None,
            r matches Some(s) ==> self@.last().namespace == Some(s@),
    {
        proof { lemma_chain_shape(*self); }
        match &self.namespace {
            Some(s) => Some(s.as_str()),
            None => None,
        }
    }

    pub fn is_incomplete(&self) -> (r: bool)
        ensures
            r == (self@.last().id is Incomplete),
    {
        self.get_id().is_incomplete()
    }

    /// The key that an API key stands for. The API always sends a partition
    /// and at least one path element.
    pub fn from_wire(key: api::Key) -> (r: Key)
        requires
            key.partition_id is Some,
            key.path.len() > 0,
        ensures
            r@ == chain_of_wire(key@),
    {
        let ghost target = chain_of_wire(key@);
        let namespace_id = match &key.partition_id {
            Some(p) => &p.namespace_id,
            None => {
                assert(false);
                return Key::new(String::new());
            },
        };
        let mut acc: Option<Key> = None;
        let mut i: usize = 0;
        while i < key.path.len()
            invariant
                i <= key.path.len(),
                key.partition_id is Some,
                namespace_id@ == key@.partition_id->0.namespace_id,
                target == chain_of_wire(key@),
                target.len() == key.path.len(),
                acc is None <==> i == 0,
                acc matches Some(a) ==> a@ == target.take(i as int),
            decreases key.path.len() - i,
        {
            let el = &key.path[i];
            let key_id = match &el.id_type {
                None => KeyID::Incomplete,
                Some(api::IdType::Id(n)) => KeyID::IntID(*n),
                Some(api::IdType::Name(s)) => KeyID::StringID(s.clone()),
            };
            let k = Key::new(el.kind.clone());
            let k = if namespace_id.as_str().is_empty() {
                k
            } else {
                k.namespace(namespace_id.clone())
            };
            let k = k.id(key_id);
            assert(k@ == seq![target[i as int]]);
            acc = match acc {
                Some(a) => {
                    let r = k.parent(a);
                    assert(r@ =~= target.take(i + 1));
                    Some(r)
                },
                None => {
                    assert(k@ =~= target.take(i + 1));
                    Some(k)
                },
            };
            i += 1;
        }
        assert(target.take(i as int) =~= target);
        match acc {
            Some(a) => a,
            None => {
                assert(false);
                Key::new(String::new())
            },
        }
    }
}

} // verus!

verus! {

/// A key sent to the datastore and read back is the same key: converting a
/// key to its API form and back gives it again, provided every key of its
/// chain is in the key's own namespace and that namespace is not empty.
pub proof fn law_key_wire_round_trip(project_id: Seq<char>, key: Key)
    requires
        uniform_namespace(key@),
    ensures
        chain_of_wire(wire_key_of(project_id, key@)) == key@,
{
    let c = key@;
    let w = wire_key_of(project_id, c);
    assert forall|i: int| 0 <= i < c.len() implies #[trigger] chain_of_wire(w)[i] == c[i] by {
        assert(c[i].namespace == c.last().namespace);
        if let Some(ns) = c.last().namespace {
            if ns.len() == 0 {
                assert(ns =~= Seq::<char>::empty());
            }
        }
    }
    assert(chain_of_wire(w) =~= c);
}

/// The API form that `convert_key` writes for a key can be read back with
/// `Key::from_wire`, and gives the same key, provided every key of its chain
/// is in the key's own namespace and that namespace is not empty.
pub proof fn law_key_survives_api(project_id: Seq<char>, key: Key, w: api::Key, back: Key)
    requires
        uniform_namespace(key@),
        w@ == wire_key_of(project_id, key@),
        back@ == chain_of_wire(w@),
    ensures
        w.partition_id is Some,
        w.path.len() > 0,
        back@ == key@,
{
    lemma_key_chain_nonempty(key);
    law_key_wire_round_trip(project_id, key);
}

/// An API key read into a key and sent back is the same API key, for every
/// API key that carries a partition and a path.
pub proof fn law_wire_key_round_trip(w: api::Key)
    requires
        w.partition_id is Some,
        w.path.len() > 0,
    ensures
        wire_key_of(w@.partition_id->0.project_id, chain_of_wire(w@)) == w@,
{
    let v = w@;
    let r = wire_key_of(v.partition_id->0.project_id, chain_of_wire(v));
    let ns = v.partition_id->0.namespace_id;
    assert(v.path.len() == w.path.len());
    assert(chain_of_wire(v).last().namespace == namespace_of_id(ns));
    if ns.len() == 0 {
        assert(ns =~= Seq::<char>::empty());
    }
    assert(r.path =~= v.path);
    assert(r.partition_id->0 == v.partition_id->0);
}

} // verus!
