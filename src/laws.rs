use vstd::prelude::*;
use web3::types::{H256, U256};
use crate::calls::{query_outcome, submission_outcome, Invocation, Query};
use crate::client::{invocation_plan, query_plan};
use crate::error::ClientError;
use crate::receipt::{confirmation_of, outcome_of, Confirmation, Receipt};

verus! {

/// A lookup that finds no receipt answers "not yet mined": it is never an
/// error.
pub proof fn lemma_missing_receipt_is_pending<E>(fetched: Result<Option<Receipt>, E>)
    requires
        fetched == Ok::<Option<Receipt>, E>(None),
    ensures
        confirmation_of(fetched) == Ok::<Confirmation, ClientError>(Confirmation::NotYetMined),
        confirmation_of(fetched) is Ok,
{
}

/// Two lookups that find the same receipt both answer "mined", with that
/// receipt and the same outcome: a status once seen does not flap.
pub proof fn lemma_mined_status_stable<E>(first: Result<Option<Receipt>, E>, second: Result<Option<Receipt>, E>)
    requires
        first is Ok && first->Ok_0 is Some,
        second is Ok && second->Ok_0 is Some,
        first->Ok_0->Some_0 == second->Ok_0->Some_0,
    ensures
        confirmation_of(first) == confirmation_of(second),
        confirmation_of(first) == Ok::<Confirmation, ClientError>(Confirmation::Mined(first->Ok_0->Some_0)),
        outcome_of(first->Ok_0->Some_0.status) == outcome_of(second->Ok_0->Some_0.status),
{
}

/// Against an interface that declares no function, every state-mutating call
/// is refused with `InvocationError` and every query with `QueryError`.
pub proof fn lemma_empty_interface_refuses(call: Invocation, query: Query)
    ensures
        invocation_plan(Seq::empty(), call) == Err::<Invocation, ClientError>(ClientError::InvocationError),
        query_plan(Seq::empty(), query) == Err::<Query, ClientError>(ClientError::QueryError),
{
}

/// Each submission reports the hash that its own submission returned: two
/// submissions of the same call that the node gave different hashes are
/// reported with different hashes. The client makes no call idempotent.
pub proof fn lemma_resubmission_reports_own_hash<E>(first: Result<H256, E>, second: Result<H256, E>)
    requires
        first is Ok,
        second is Ok,
    ensures
        submission_outcome(first) == Ok::<H256, ClientError>(first->Ok_0),
        submission_outcome(second) == Ok::<H256, ClientError>(second->Ok_0),
        first->Ok_0 != second->Ok_0 ==> submission_outcome(first) != submission_outcome(second),
{
}

/// The answer to one query of a batch: its refusal where the interface does
/// not declare its function, else what its own read returned.
pub open spec fn query_answer<E>(functions: Seq<Seq<char>>, query: Query, read: Result<U256, E>) -> Result<U256, ClientError> {
    match query_plan(functions, query) {
        Ok(_) => query_outcome(read),
        Err(e) => Err(e),
    }
}

/// In a batch of queries issued together, the answer in each place depends
/// on that place's query and read alone: two batches that agree in one place
/// answer alike there, and a declared query whose read returned `v` answers
/// `v`, whatever the other queries are.
pub proof fn lemma_batch_answers_independent<E>(
    functions: Seq<Seq<char>>,
    queries: Seq<Query>,
    reads: Seq<Result<U256, E>>,
    other_queries: Seq<Query>,
    other_reads: Seq<Result<U256, E>>,
    i: int,
    j: int,
)
    requires
        0 <= i < queries.len(),
        i < reads.len(),
        0 <= j < other_queries.len(),
        j < other_reads.len(),
        queries[i] == other_queries[j],
        reads[i] == other_reads[j],
    ensures
        query_answer(functions, queries[i], reads[i]) == query_answer(functions, other_queries[j], other_reads[j]),
        functions.contains(queries[i].function_name()) && reads[i] is Ok
            ==> query_answer(functions, queries[i], reads[i]) == Ok::<U256, ClientError>(reads[i]->Ok_0),
        !functions.contains(queries[i].function_name())
            ==> query_answer(functions, queries[i], reads[i]) == Err::<U256, ClientError>(ClientError::QueryError),
{
}

} // verus!
