//! The state of a datastore transaction: the writes it gathers, and the
//! requests that commit or roll it back.
use vstd::prelude::*;

use crate::datastore::api;
use crate::datastore::convert::{generate_mutations, mutation_for};
use crate::datastore::value::{all_entities, Entity};
use crate::libmww::database::{database_cause, DatabaseError};
use crate::outside::{error_from_message, error_message};

verus! {

/// An open transaction: the project and namespace it works in, the
/// transaction identifier the datastore gave, and the writes gathered so far.
#[derive(Debug)]
pub struct Transaction {
    project_id: String,
    namespace: String,
    transaction: Vec<u8>,
    mutations: Vec<api::Mutation>,
}

/// What a transaction holds.
pub struct TransactionView {
    pub project_id: Seq<char>,
    pub namespace: Seq<char>,
    pub transaction: Seq<u8>,
    pub mutations: Seq<api::Mutation>,
}

impl View for Transaction {
    type V = TransactionView;

    closed spec fn view(&self) -> TransactionView {
        TransactionView {
            project_id: self.project_id@,
            namespace: self.namespace@,
            transaction: self.transaction@,
            mutations: self.mutations@,
        }
    }
}

/// `after` is `before` with the writes of `entities` gathered after those
/// gathered before: one write per entity, in order, under the same project,
/// namespace and transaction identifier.
pub open spec fn gathers(before: TransactionView, entities: Seq<Entity>, after: TransactionView) -> bool {
    &&& after.project_id == before.project_id
    &&& after.namespace == before.namespace
    &&& after.transaction == before.transaction
    &&& after.mutations.len() == before.mutations.len() + entities.len()
    &&& after.mutations.take(before.mutations.len() as int) == before.mutations
    &&& forall|i: int|
        0 <= i < entities.len() ==> mutation_for(
            before.project_id,
            entities[i],
            #[trigger] after.mutations[before.mutations.len() + i],
        )
}

/// `r` commits the writes that transaction `t` gathered, within it.
pub open spec fn commits(t: TransactionView, r: api::CommitRequest) -> bool {
    &&& r.project_id@ == t.project_id
    &&& r.mode == api::CommitMode::Transactional
    &&& r.mutations@ == t.mutations
    &&& r.transaction_selector matches Some(api::TransactionSelector::Transaction(x)) && x@
        == t.transaction
}

impl Transaction {
    /// The transaction with the given identifier, with no writes yet.
    pub fn new(project_id: String, namespace: String, transaction: Vec<u8>) -> (r: Result<
        Transaction,
        DatabaseError,
    >)
        ensures
            r matches Ok(t) && t@ == (TransactionView {
                project_id: project_id@,
                namespace: namespace@,
                transaction: transaction@,
                mutations: Seq::empty(),
            }),
    {
        Ok(Transaction { project_id, namespace, transaction, mutations: Vec::new() })
    }

    pub fn namespace(&self) -> (r: &String)
        ensures
            r@ == self@.namespace,
    {
        &self.namespace
    }

    /// The identifier of the transaction, which reads within it name.
    pub fn transaction_id(&self) -> (r: Vec<u8>)
        ensures
            r@ == self@.transaction,
    {
        let t = self.transaction.clone();
        assert(t@ =~= self.transaction@);
        t
    }

    /// Gathers the writes of the given entities after those gathered before:
    /// an insert for an incomplete key and an upsert otherwise.
    pub fn put_all(&mut self, entities: Vec<Entity>)
        requires
            forall|i: int|
                0 <= i < entities.len() ==> (#[trigger] entities@[i]).properties is EntityValue,
        ensures
            gathers(old(self)@, entities@, final(self)@),
    {
        let mut mutations = generate_mutations(self.project_id.as_str(), entities);
        let ghost added = mutations@;
        let ghost before = self.mutations@;
        self.mutations.append(&mut mutations);
        assert(self.mutations@.take(before.len() as int) =~= before);
        assert(forall|i: int| 0 <= i < added.len() ==> self.mutations@[before.len() + i] == added[i]);
    }

    /// Gathers the write of one entity.
    pub fn put(&mut self, entity: Entity)
        requires
            entity.properties is EntityValue,
        ensures
            final(self)@.project_id == old(self)@.project_id,
            final(self)@.namespace == old(self)@.namespace,
            final(self)@.transaction == old(self)@.transaction,
            final(self)@.mutations.len() == old(self)@.mutations.len() + 1,
            final(self)@.mutations.drop_last() == old(self)@.mutations,
            mutation_for(old(self)@.project_id, entity, final(self)@.mutations.last()),
    {
        let mut entities: Vec<Entity> = Vec::new();
        entities.push(entity);
        let ghost es = entities@;
        self.put_all(entities);
        assert(es[0] == entity);
        assert(mutation_for(
            old(self)@.project_id,
            es[0],
            self@.mutations[old(self)@.mutations.len() + 0int],
        ));
        assert(self@.mutations.drop_last() =~= self@.mutations.take(
            old(self)@.mutations.len() as int,
        ));
    }

    /// The request that commits the gathered writes within the transaction.
    pub fn commit_request(self) -> (r: api::CommitRequest)
        ensures
            commits(self@, r),
    {
        api::CommitRequest {
            project_id: self.project_id,
            mode: api::CommitMode::Transactional,
            mutations: self.mutations,
            transaction_selector: Some(api::TransactionSelector::Transaction(self.transaction)),
        }
    }

    /// The request that rolls the transaction back.
    pub fn rollback_request(self) -> (r: api::RollbackRequest)
        ensures
            r.project_id@ == self@.project_id,
            r.transaction@ == self@.transaction,
    {
        api::RollbackRequest { project_id: self.project_id, transaction: self.transaction }
    }
}

/// Some write of the commit met a conflict.
pub open spec fn has_conflict(response: api::CommitResponse) -> bool {
    exists|i: int|
        0 <= i < response.mutation_results.len()
            && (#[trigger] response.mutation_results@[i]).conflict_detected
}

/// A commit succeeds unless one of its writes met a conflict, in which case
/// it fails as a failed commit.
pub fn commit_outcome(response: &api::CommitResponse) -> (r: Result<(), DatabaseError>)
    ensures
        r is Ok <==> !has_conflict(*response),
        r matches Err(e) ==> e is FailedTransactionCommit && error_message(database_cause(e))
            == Some("conflit detected"@),
        forall|i: int|
            0 <= i < response.mutation_results.len()
                && (#[trigger] response.mutation_results@[i]).conflict_detected ==> r is Err,
        (forall|i: int|
            0 <= i < response.mutation_results.len()
                ==> !(#[trigger] response.mutation_results@[i]).conflict_detected) ==> r is Ok,
{
    let mut i: usize = 0;
    while i < response.mutation_results.len()
        invariant
            i <= response.mutation_results.len(),
            forall|j: int| 0 <= j < i ==> !(#[trigger] response.mutation_results@[j]).conflict_detected,
        decreases response.mutation_results.len() - i,
    {
        if response.mutation_results[i].conflict_detected {
            return Err(
                DatabaseError::FailedTransactionCommit(error_from_message("conflit detected".to_owned())),
            );
        }
        i += 1;
    }
    Ok(())
}

/// After the first `n` batches, a transaction that began with no writes holds
/// one write per entity of those batches, in order.
proof fn lemma_gathered_prefix(states: Seq<TransactionView>, batches: Seq<Seq<Entity>>, n: int)
    requires
        states.len() == batches.len() + 1,
        states[0].mutations.len() == 0,
        forall|k: int|
            0 <= k < batches.len() ==> gathers(states[k], #[trigger] batches[k], states[k + 1]),
        0 <= n <= batches.len(),
    ensures
        states[n].project_id == states[0].project_id,
        states[n].namespace == states[0].namespace,
        states[n].transaction == states[0].transaction,
        states[n].mutations.len() == all_entities(batches.take(n)).len(),
        forall|i: int|
            0 <= i < all_entities(batches.take(n)).len() ==> mutation_for(
                states[0].project_id,
                all_entities(batches.take(n))[i],
                #[trigger] states[n].mutations[i],
            ),
    decreases n,
{
    if n == 0 {
        assert(batches.take(0) =~= Seq::<Seq<Entity>>::empty());
    } else {
        lemma_gathered_prefix(states, batches, n - 1);
        let prev = batches.take(n - 1);
        let cur = batches.take(n);
        assert(cur.drop_last() =~= prev);
        let batch = batches[n - 1];
        assert(cur.last() == batch);
        let before = states[n - 1];
        let after = states[n];
        assert(gathers(before, batch, after));
        let ep = all_entities(prev);
        let ec = all_entities(cur);
        assert(ec == ep + batch);
        assert forall|i: int| 0 <= i < ec.len() implies mutation_for(
            states[0].project_id,
            ec[i],
            #[trigger] after.mutations[i],
        ) by {
            if i < ep.len() {
                assert(after.mutations[i] == after.mutations.take(before.mutations.len() as int)[i]);
                assert(ec[i] == ep[i]);
            } else {
                let j = i - ep.len();
                assert(ec[i] == batch[j]);
                assert(mutation_for(before.project_id, batch[j], after.mutations[before.mutations.len() + j]));
            }
        }
    }
}

/// A commit carries every write gathered since the transaction began, in the
/// order of the calls: after the writes of batches `E_1`, ..., `E_m` are
/// gathered into a transaction that began with none, the request that commits
/// it holds one mutation per entity of `E_1 ++ ... ++ E_m`, in that order,
/// within the transaction, under its project.
pub proof fn law_commit_carries_all_writes(
    states: Seq<TransactionView>,
    batches: Seq<Seq<Entity>>,
    request: api::CommitRequest,
)
    requires
        states.len() == batches.len() + 1,
        states[0].mutations.len() == 0,
        forall|k: int|
            0 <= k < batches.len() ==> gathers(states[k], #[trigger] batches[k], states[k + 1]),
        commits(states.last(), request),
    ensures
        request.project_id@ == states[0].project_id,
        request.mode == api::CommitMode::Transactional,
        request.transaction_selector matches Some(api::TransactionSelector::Transaction(x)) && x@
            == states[0].transaction,
        request.mutations@.len() == all_entities(batches).len(),
        forall|i: int|
            0 <= i < all_entities(batches).len() ==> mutation_for(
                states[0].project_id,
                all_entities(batches)[i],
                #[trigger] request.mutations@[i],
            ),
{
    lemma_gathered_prefix(states, batches, batches.len() as int);
    assert(batches.take(batches.len() as int) =~= batches);
    assert(states.last() == states[batches.len() as int]);
}

/// A commit fails exactly when some write met a conflict: a conflict
/// reported for the write at any place, the first included, fails it, and a
/// response with no conflict anywhere lets it succeed.
pub proof fn law_commit_fails_exactly_on_a_conflict(response: api::CommitResponse, i: int)
    ensures
        0 <= i < response.mutation_results.len() && response.mutation_results@[i].conflict_detected
            ==> has_conflict(response),
        (forall|j: int|
            0 <= j < response.mutation_results.len()
                ==> !(#[trigger] response.mutation_results@[j]).conflict_detected) ==> !has_conflict(
            response,
        ),
{
}

} // verus!
