//! Messages of the datastore v1 API, as plain values, with their views.
use vstd::prelude::*;

use crate::datastore::key::KeyIdView;

verus! {

/// Partition of a key: the project and the namespace it lives in.
#[derive(Debug, Clone, PartialEq)]
pub struct PartitionId {
    pub project_id: String,
    pub namespace_id: String,
}

/// The identifier of one element of a key path.
#[derive(Debug, Clone, PartialEq)]
pub enum IdType {
    Id(i64),
    Name(String),
}

/// One element of a key path: a kind and, for a complete key, an identifier.
#[derive(Debug, Clone, PartialEq)]
pub struct PathElement {
    pub kind: String,
    pub id_type: Option<IdType>,
}

/// A key as the datastore API carries it: a partition and a path from the
/// root ancestor down to the entity itself.
#[derive(Debug, Clone, PartialEq)]
pub struct Key {
    pub partition_id: Option<PartitionId>,
    pub path: Vec<PathElement>,
}

/// Abstract partition.
pub struct PartitionView {
    pub project_id: Seq<char>,
    pub namespace_id: Seq<char>,
}

/// Abstract path element; an absent identifier reads as `Incomplete`.
pub struct PathView {
    pub kind: Seq<char>,
    pub id: KeyIdView,
}

/// Abstract wire key.
pub struct KeyView {
    pub partition_id: Option<PartitionView>,
    pub path: Seq<PathView>,
}

pub open spec fn id_type_view(id: Option<IdType>) -> KeyIdView {
    match id {
        None => KeyIdView::Incomplete,
        Some(IdType::Id(n)) => KeyIdView::IntID(n),
        Some(IdType::Name(s)) => KeyIdView::StringID(s@),
    }
}

impl View for PartitionId {
    type V = PartitionView;

    open spec fn view(&self) -> PartitionView {
        PartitionView { project_id: self.project_id@, namespace_id: self.namespace_id@ }
    }
}

impl View for PathElement {
    type V = PathView;

    open spec fn view(&self) -> PathView {
        PathView { kind: self.kind@, id: id_type_view(self.id_type) }
    }
}

impl View for Key {
    type V = KeyView;

    open spec fn view(&self) -> KeyView {
        KeyView {
            partition_id: match self.partition_id {
                Some(p) => Some(p@),
                None => None,
            },
            path: self.path@.map_values(|e: PathElement| e@),
        }
    }
}

} // verus!

verus! {

/// A point in time: seconds since the Unix epoch and nanoseconds.
#[derive(Debug, Clone, PartialEq)]
pub struct Timestamp {
    pub seconds: i64,
    pub nanos: i32,
}

/// A geographic point; both coordinates as IEEE-754 bit patterns.
#[derive(Debug, Clone, PartialEq)]
pub struct LatLng {
    pub latitude: u64,
    pub longitude: u64,
}

/// A list of values.
#[derive(Debug, PartialEq)]
pub struct ArrayValue {
    pub values: Vec<Value>,
}

/// An entity: an optional key and named properties.
#[derive(Debug, PartialEq)]
pub struct Entity {
    pub key: Option<Key>,
    /// The properties, one value per name for an entity that `convert_entity`
    /// writes from one built by `Entity::new`.
    pub properties: Vec<(String, Value)>,
}

/// The typed content of a value.
#[derive(Debug, PartialEq)]
pub enum ValueType {
    BooleanValue(bool),
    IntegerValue(i64),
    DoubleValue(u64),
    TimestampValue(Timestamp),
    KeyValue(Key),
    StringValue(String),
    BlobValue(Vec<u8>),
    GeoPointValue(LatLng),
    EntityValue(Entity),
    ArrayValue(ArrayValue),
}

/// A value with its meaning and indexing flags.
#[derive(Debug, PartialEq)]
pub struct Value {
    pub meaning: i32,
    pub exclude_from_indexes: bool,
    pub value_type: Option<ValueType>,
}

} // verus!

verus! {

/// A write to apply in a commit.
#[derive(Debug, PartialEq)]
pub enum Operation {
    Insert(Entity),
    Update(Entity),
    Upsert(Entity),
    Delete(Key),
}

/// One mutation of a commit request.
#[derive(Debug, PartialEq)]
pub struct Mutation {
    pub operation: Option<Operation>,
}

/// A reference to a property by name.
#[derive(Debug, Clone, PartialEq)]
pub struct PropertyReference {
    pub name: String,
}

/// The comparison of a property filter.
#[derive(Debug, PartialEq, Eq, Clone, Copy)]
pub enum PropertyOperator {
    LessThan,
    LessThanOrEqual,
    GreaterThan,
    GreaterThanOrEqual,
    Equal,
}

/// A filter on one property.
#[derive(Debug, PartialEq)]
pub struct PropertyFilter {
    pub property: Option<PropertyReference>,
    pub op: PropertyOperator,
    pub value: Option<Value>,
}

/// How the filters of a composite filter combine.
#[derive(Debug, PartialEq, Eq, Clone, Copy)]
pub enum CompositeOperator {
    And,
}

/// A combination of filters.
#[derive(Debug, PartialEq)]
pub struct CompositeFilter {
    pub op: CompositeOperator,
    pub filters: Vec<Filter>,
}

/// The kind of a filter.
#[derive(Debug, PartialEq)]
pub enum FilterType {
    CompositeFilter(CompositeFilter),
    PropertyFilter(PropertyFilter),
}

/// A query filter.
#[derive(Debug, PartialEq)]
pub struct Filter {
    pub filter_type: Option<FilterType>,
}

} // verus!

verus! {

/// A kind to query.
#[derive(Debug, Clone, PartialEq)]
pub struct KindExpression {
    pub name: String,
}

/// A property to return.
#[derive(Debug, Clone, PartialEq)]
pub struct Projection {
    pub property: Option<PropertyReference>,
}

/// A sort direction.
#[derive(Debug, PartialEq, Eq, Clone, Copy)]
pub enum Direction {
    Ascending,
    Descending,
}

/// A sort order on a property.
#[derive(Debug, Clone, PartialEq)]
pub struct PropertyOrder {
    pub property: Option<PropertyReference>,
    pub direction: Direction,
}

/// A query as the API carries it.
#[derive(Debug, PartialEq)]
pub struct Query {
    pub kind: Vec<KindExpression>,
    pub projection: Vec<Projection>,
    pub filter: Option<Filter>,
    pub order: Vec<PropertyOrder>,
    pub offset: i32,
    pub limit: Option<i32>,
    pub start_cursor: Vec<u8>,
    pub end_cursor: Vec<u8>,
    pub distinct_on: Vec<PropertyReference>,
}

/// The consistency that a read asks for.
#[derive(Debug, PartialEq, Eq, Clone, Copy)]
pub enum ReadConsistency {
    Strong,
    Eventual,
}

/// What a read is consistent with: a consistency level, or a transaction.
#[derive(Debug, Clone, PartialEq)]
pub enum ConsistencyType {
    ReadConsistency(ReadConsistency),
    Transaction(Vec<u8>),
}

/// Options of a read.
#[derive(Debug, Clone, PartialEq)]
pub struct ReadOptions {
    pub consistency_type: Option<ConsistencyType>,
}

/// What a query request runs.
#[derive(Debug, PartialEq)]
pub enum QueryType {
    Query(Query),
}

/// A request to run a query.
#[derive(Debug, PartialEq)]
pub struct RunQueryRequest {
    pub partition_id: Option<PartitionId>,
    pub query_type: Option<QueryType>,
    pub read_options: Option<ReadOptions>,
    pub project_id: String,
}

/// Whether more results follow a batch.
#[derive(Debug, PartialEq, Eq, Clone, Copy)]
pub enum MoreResultsType {
    NotFinished,
    MoreResultsAfterLimit,
    MoreResultsAfterCursor,
    NoMoreResults,
}

} // verus!

verus! {

/// `r` refers to the property of the given name.
pub open spec fn refers_to(r: Option<PropertyReference>, name: Seq<char>) -> bool {
    r matches Some(p) && p.name@ == name
}

} // verus!

verus! {

/// A request for identifiers for incomplete keys.
#[derive(Debug, Clone, PartialEq)]
pub struct AllocateIdsRequest {
    pub project_id: String,
    pub keys: Vec<Key>,
}

/// A request to read entities by key.
#[derive(Debug, Clone, PartialEq)]
pub struct LookupRequest {
    pub project_id: String,
    pub read_options: Option<ReadOptions>,
    pub keys: Vec<Key>,
}

/// Whether a commit applies within a transaction.
#[derive(Debug, PartialEq, Eq, Clone, Copy)]
pub enum CommitMode {
    Transactional,
    NonTransactional,
}

/// The transaction a commit belongs to.
#[derive(Debug, Clone, PartialEq)]
pub enum TransactionSelector {
    Transaction(Vec<u8>),
}

/// A request to apply mutations.
#[derive(Debug, PartialEq)]
pub struct CommitRequest {
    pub project_id: String,
    pub mode: CommitMode,
    pub mutations: Vec<Mutation>,
    pub transaction_selector: Option<TransactionSelector>,
}

/// The result of one mutation of a commit.
#[derive(Debug, Clone, PartialEq)]
pub struct MutationResult {
    pub key: Option<Key>,
    pub conflict_detected: bool,
}

/// The response to a commit.
#[derive(Debug, Clone, PartialEq)]
pub struct CommitResponse {
    pub mutation_results: Vec<MutationResult>,
}

/// A request to roll a transaction back.
#[derive(Debug, Clone, PartialEq)]
pub struct RollbackRequest {
    pub project_id: String,
    pub transaction: Vec<u8>,
}

/// Options of a read-write transaction.
#[derive(Debug, Clone, PartialEq)]
pub struct ReadWrite {
    pub previous_transaction: Vec<u8>,
}

/// The mode of a transaction.
#[derive(Debug, Clone, PartialEq)]
pub enum TransactionMode {
    ReadWrite(ReadWrite),
}

/// Options of a transaction.
#[derive(Debug, Clone, PartialEq)]
pub struct TransactionOptions {
    pub mode: Option<TransactionMode>,
}

/// A request to begin a transaction.
#[derive(Debug, Clone, PartialEq)]
pub struct BeginTransactionRequest {
    pub project_id: String,
    pub transaction_options: Option<TransactionOptions>,
}

} // verus!
