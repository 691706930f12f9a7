//! Queries over the entities of one kind, and the API requests that run them.
use vstd::prelude::*;

use crate::datastore::api;
use crate::datastore::convert::{convert_filter, converts_filters};
use crate::datastore::key::{namespace_id_of, Key, KeyNode};
use crate::datastore::value::{Entity, Value};

verus! {

/// A sort order on a property.
#[derive(Debug, Clone, PartialEq)]
pub enum Order {
    Asc(String),
    Desc(String),
}

/// A comparison of a property with a value.
#[derive(Debug, PartialEq)]
pub enum Filter {
    Equal(String, Value),
    GreaterThan(String, Value),
    LesserThan(String, Value),
    GreaterThanOrEqual(String, Value),
    LesserThanEqual(String, Value),
}

/// A query over the entities of one kind.
#[derive(Debug, PartialEq)]
pub struct Query {
    kind: String,
    eventual: bool,
    keys_only: bool,
    offset: i32,
    limit: Option<i32>,
    ancestor: Option<Key>,
    namespace: Option<String>,
    projections: Vec<String>,
    distinct_on: Vec<String>,
    ordering: Vec<Order>,
    filters: Vec<Filter>,
}

/// What a query asks for.
pub struct QueryView {
    pub kind: Seq<char>,
    pub eventual: bool,
    pub keys_only: bool,
    pub offset: i32,
    pub limit: Option<i32>,
    pub ancestor: Option<Seq<KeyNode>>,
    pub namespace: Option<Seq<char>>,
    pub projections: Seq<Seq<char>>,
    pub distinct_on: Seq<Seq<char>>,
    pub ordering: Seq<Order>,
    pub filters: Seq<Filter>,
}

pub open spec fn strings_view(v: Seq<String>) -> Seq<Seq<char>> {
    v.map_values(|s: String| s@)
}

impl View for Query {
    type V = QueryView;

    closed spec fn view(&self) -> QueryView {
        QueryView {
            kind: self.kind@,
            eventual: self.eventual,
            keys_only: self.keys_only,
            offset: self.offset,
            limit: self.limit,
            ancestor: match self.ancestor {
                Some(k) => Some(k@),
                None => None,
            },
            namespace: match self.namespace {
                Some(ns) => Some(ns@),
                None => None,
            },
            projections: strings_view(self.projections@),
            distinct_on: strings_view(self.distinct_on@),
            ordering: self.ordering@,
            filters: self.filters@,
        }
    }
}

/// The name and direction of a sort order.
pub open spec fn order_parts(o: Order) -> (Seq<char>, api::Direction) {
    match o {
        Order::Asc(n) => (n@, api::Direction::Ascending),
        Order::Desc(n) => (n@, api::Direction::Descending),
    }
}

/// `r` is the request that runs query `q` in the given project from the
/// given cursor: the query's partition (an absent namespace becomes the
/// empty one), its kind, projections, filters, sort orders, offset, limit
/// and distinct properties, and strong or eventual consistency as the query
/// asks.
pub open spec fn runs_query(
    project_id: Seq<char>,
    q: QueryView,
    cursor: Seq<u8>,
    r: api::RunQueryRequest,
) -> bool {
    &&& r.project_id@ == project_id
    &&& r.partition_id matches Some(p) && p.project_id@ == project_id && p.namespace_id@ == match q.namespace {
        Some(ns) => ns,
        None => Seq::empty(),
    }
    &&& r.read_options matches Some(ro) && ro.consistency_type == Some(
        api::ConsistencyType::ReadConsistency(
            if q.eventual {
                api::ReadConsistency::Eventual
            } else {
                api::ReadConsistency::Strong
            },
        ),
    )
    &&& r.query_type matches Some(api::QueryType::Query(aq)) && {
        &&& aq.kind.len() == 1 && aq.kind@[0].name@ == q.kind
        &&& aq.projection.len() == q.projections.len()
        &&& forall|i: int|
            0 <= i < q.projections.len() ==> api::refers_to(
                (#[trigger] aq.projection@[i]).property,
                q.projections[i],
            )
        &&& converts_filters(project_id, q.filters, aq.filter)
        &&& aq.order.len() == q.ordering.len()
        &&& forall|i: int|
            0 <= i < q.ordering.len() ==> {
                &&& api::refers_to((#[trigger] aq.order@[i]).property, order_parts(q.ordering[i]).0)
                &&& aq.order@[i].direction == order_parts(q.ordering[i]).1
            }
        &&& aq.offset == q.offset
        &&& aq.limit == q.limit
        &&& aq.start_cursor@ == cursor
        &&& aq.end_cursor@.len() == 0
        &&& aq.distinct_on.len() == q.distinct_on.len()
        &&& forall|i: int|
            0 <= i < q.distinct_on.len() ==> (#[trigger] aq.distinct_on@[i]).name@
                == q.distinct_on[i]
    }
}

impl Query {
    /// A query for the entities of the given kind: strongly consistent,
    /// returning whole entities, with no offset, limit, ancestor, namespace,
    /// projection, distinct properties, sort order or filter.
    pub fn new(kind: String) -> (r: Query)
        ensures
            r@ == (QueryView {
                kind: kind@,
                eventual: false,
                keys_only: false,
                offset: 0,
                limit: None,
                ancestor: None,
                namespace: None,
                projections: Seq::empty(),
                distinct_on: Seq::empty(),
                ordering: Seq::empty(),
                filters: Seq::empty(),
            }),
    {
        let r = Query {
            kind,
            eventual: false,
            keys_only: false,
            offset: 0,
            limit: None,
            ancestor: None,
            namespace: None,
            projections: Vec::new(),
            distinct_on: Vec::new(),
            ordering: Vec::new(),
            filters: Vec::new(),
        };
        assert(strings_view(r.projections@) =~= Seq::empty());
        assert(strings_view(r.distinct_on@) =~= Seq::empty());
        r
    }

    pub fn eventually_consistent(self) -> (r: Query)
        ensures
            r@ == (QueryView { eventual: true, ..self@ }),
    {
        Query { eventual: true, ..self }
    }

    pub fn keys_only(self) -> (r: Query)
        ensures
            r@ == (QueryView { keys_only: true, ..self@ }),
    {
        Query { keys_only: true, ..self }
    }

    pub fn offset(self, offset: i32) -> (r: Query)
        ensures
            r@ == (QueryView { offset, ..self@ }),
    {
        Query { offset, ..self }
    }

    pub fn limit(self, limit: i32) -> (r: Query)
        ensures
            r@ == (QueryView { limit: Some(limit), ..self@ }),
    {
        Query { limit: Some(limit), ..self }
    }

    pub fn ancestor(self, key: Key) -> (r: Query)
        ensures
            r@ == (QueryView { ancestor: Some(key@), ..self@ }),
    {
        Query { ancestor: Some(key), ..self }
    }

    pub fn namespace(self, namespace: String) -> (r: Query)
        ensures
            r@ == (QueryView { namespace: Some(namespace@), ..self@ }),
    {
        Query { namespace: Some(namespace), ..self }
    }

    /// The same query returning only the given properties; projections set
    /// before are replaced.
    pub fn project(self, projections: Vec<String>) -> (r: Query)
        ensures
            r@ == (QueryView { projections: strings_view(projections@), ..self@ }),
    {
        Query { projections, ..self }
    }

    /// The same query returning one result per combination of values of the
    /// given properties; properties set before are replaced.
    pub fn distinct_on(self, fields: Vec<String>) -> (r: Query)
        ensures
            r@ == (QueryView { distinct_on: strings_view(fields@), ..self@ }),
    {
        Query { distinct_on: fields, ..self }
    }

    /// The same query with one more filter, after those set before.
    pub fn filter(self, filter: Filter) -> (r: Query)
        ensures
            r@ == (QueryView { filters: self@.filters.push(filter), ..self@ }),
    {
        let mut q = self;
        q.filters.push(filter);
        q
    }

    /// The same query with one more sort order, after those set before.
    pub fn order(self, order: Order) -> (r: Query)
        ensures
            r@ == (QueryView { ordering: self@.ordering.push(order), ..self@ }),
    {
        let mut q = self;
        q.ordering.push(order);
        q
    }

    /// The request that runs this query in the given project, from the given
    /// cursor (empty for the first batch).
    pub fn run_query_request(&self, project_id: &str, cursor: Vec<u8>) -> (r: api::RunQueryRequest)
        ensures
            runs_query(project_id@, self@, cursor@, r),
    {
        let mut projection: Vec<api::Projection> = Vec::new();
        let mut i: usize = 0;
        while i < self.projections.len()
            invariant
                i <= self.projections.len(),
                projection.len() == i,
                forall|j: int|
                    0 <= j < i ==> api::refers_to(
                        (#[trigger] projection@[j]).property,
                        self.projections@[j]@,
                    ),
            decreases self.projections.len() - i,
        {
            projection.push(
                api::Projection {
                    property: Some(api::PropertyReference { name: self.projections[i].clone() }),
                },
            );
            i += 1;
        }
        let filter = convert_filter(project_id, &self.filters);
        let mut order: Vec<api::PropertyOrder> = Vec::new();
        let mut i: usize = 0;
        while i < self.ordering.len()
            invariant
                i <= self.ordering.len(),
                order.len() == i,
                forall|j: int|
                    0 <= j < i ==> {
                        &&& api::refers_to(
                            (#[trigger] order@[j]).property,
                            order_parts(self.ordering@[j]).0,
                        )
                        &&& order@[j].direction == order_parts(self.ordering@[j]).1
                    },
            decreases self.ordering.len() - i,
        {
            let (name, direction) = match &self.ordering[i] {
                Order::Asc(n) => (n.clone(), api::Direction::Ascending),
                Order::Desc(n) => (n.clone(), api::Direction::Descending),
            };
            order.push(
                api::PropertyOrder { property: Some(api::PropertyReference { name }), direction },
            );
            i += 1;
        }
        let mut distinct_on: Vec<api::PropertyReference> = Vec::new();
        let mut i: usize = 0;
        while i < self.distinct_on.len()
            invariant
                i <= self.distinct_on.len(),
                distinct_on.len() == i,
                forall|j: int|
                    0 <= j < i ==> (#[trigger] distinct_on@[j]).name@ == self.distinct_on@[j]@,
            decreases self.distinct_on.len() - i,
        {
            distinct_on.push(api::PropertyReference { name: self.distinct_on[i].clone() });
            i += 1;
        }
        let mut kind: Vec<api::KindExpression> = Vec::new();
        kind.push(api::KindExpression { name: self.kind.clone() });
        let api_query = api::Query {
            kind,
            projection,
            filter,
            order,
            offset: self.offset,
            limit: self.limit,
            start_cursor: cursor,
            end_cursor: Vec::new(),
            distinct_on,
        };
        let namespace_id = match &self.namespace {
            Some(ns) => ns.clone(),
            None => String::new(),
        };
        let consistency = if self.eventual {
            api::ReadConsistency::Eventual
        } else {
            api::ReadConsistency::Strong
        };
        api::RunQueryRequest {
            partition_id: Some(
                api::PartitionId { project_id: project_id.to_owned(), namespace_id },
            ),
            query_type: Some(api::QueryType::Query(api_query)),
            read_options: Some(
                api::ReadOptions {
                    consistency_type: Some(api::ConsistencyType::ReadConsistency(consistency)),
                },
            ),
            project_id: project_id.to_owned(),
        }
    }
}

/// What follows a batch of query results: the cursor to run the query from
/// again while the batch is not the last, nothing once it is.
pub fn next_query_cursor(more_results: api::MoreResultsType, end_cursor: Vec<u8>) -> (r: Option<
    Vec<u8>,
>)
    ensures
        more_results == api::MoreResultsType::NotFinished ==> r == Some(end_cursor),
        more_results != api::MoreResultsType::NotFinished ==> r is None,
{
    match more_results {
        api::MoreResultsType::NotFinished => Some(end_cursor),
        _ => None,
    }
}

/// One round of a paged query: the results gathered so far followed by this
/// batch's, and the cursor to run the query from again, none once this batch
/// is the last (see `law_rounds_gather_every_batch` for the whole run).
pub fn query_step(
    output: Vec<Entity>,
    batch: Vec<Entity>,
    more_results: api::MoreResultsType,
    end_cursor: Vec<u8>,
) -> (r: (Vec<Entity>, Option<Vec<u8>>))
    ensures
        r.0@ == output@ + batch@,
        more_results == api::MoreResultsType::NotFinished ==> r.1 == Some(end_cursor),
        more_results != api::MoreResultsType::NotFinished ==> r.1 is None,
{
    let mut out = output;
    let mut batch = batch;
    out.append(&mut batch);
    (out, next_query_cursor(more_results, end_cursor))
}

/// A page of a query is asked for in the requested project, in the query's
/// namespace (empty for none), for the query's kind, with its offset and
/// limit, strongly consistent unless the query asks for eventual
/// consistency, and starting from the given cursor.
pub proof fn law_query_page_request(
    project_id: Seq<char>,
    q: QueryView,
    cursor: Seq<u8>,
    r: api::RunQueryRequest,
)
    requires
        runs_query(project_id, q, cursor, r),
    ensures
        r.project_id@ == project_id,
        r.partition_id matches Some(p) && p.project_id@ == project_id && p.namespace_id@
            == namespace_id_of(q.namespace),
        r.read_options matches Some(ro) && (ro.consistency_type == Some(
            api::ConsistencyType::ReadConsistency(api::ReadConsistency::Strong),
        ) <==> !q.eventual),
        r.query_type matches Some(api::QueryType::Query(aq)) && {
            &&& aq.kind.len() == 1
            &&& aq.kind@[0].name@ == q.kind
            &&& aq.offset == q.offset
            &&& aq.limit == q.limit
            &&& aq.start_cursor@ == cursor
        },
{
}

/// Two pages of one query differ in their starting cursor alone.
pub proof fn law_query_pages_differ_in_cursor(
    project_id: Seq<char>,
    q: QueryView,
    c1: Seq<u8>,
    r1: api::RunQueryRequest,
    c2: Seq<u8>,
    r2: api::RunQueryRequest,
)
    requires
        runs_query(project_id, q, c1, r1),
        runs_query(project_id, q, c2, r2),
    ensures
        r1.project_id@ == r2.project_id@,
        r1.partition_id->0.project_id@ == r2.partition_id->0.project_id@,
        r1.partition_id->0.namespace_id@ == r2.partition_id->0.namespace_id@,
        r1.read_options == r2.read_options,
        r1.query_type->0->Query_0.kind@.len() == r2.query_type->0->Query_0.kind@.len(),
        r1.query_type->0->Query_0.kind@[0].name@ == r2.query_type->0->Query_0.kind@[0].name@,
        r1.query_type->0->Query_0.offset == r2.query_type->0->Query_0.offset,
        r1.query_type->0->Query_0.limit == r2.query_type->0->Query_0.limit,
        r1.query_type->0->Query_0.start_cursor@ == c1,
        r2.query_type->0->Query_0.start_cursor@ == c2,
{
}

} // verus!
