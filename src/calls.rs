use vstd::prelude::*;
use web3::types::{H160 as Address, H256, U256};
use crate::error::ClientError;

verus! {

/// A state-mutating call of the farming contract, with its arguments and the
/// account that sends it.
pub enum Invocation {
    Deposit { amount: U256, from: Address },
    Withdraw { amount: U256, from: Address },
    ClaimRewards { from: Address },
}

/// A read-only call of the farming contract, with its arguments.
pub enum Query {
    StakedBalance { account: Address },
    PendingRewards { account: Address },
    TotalValueLocked,
    CurrentApy,
}

impl Invocation {
    /// The contract function that the call invokes.
    pub open spec fn function_name(&self) -> Seq<char> {
        match self {
            Invocation::Deposit { .. } => "deposit"@,
            Invocation::Withdraw { .. } => "withdraw"@,
            Invocation::ClaimRewards { .. } => "claimRewards"@,
        }
    }

    pub fn name(&self) -> (r: &'static str)
        ensures
            r@ == self.function_name(),
    {
        match self {
            Invocation::Deposit { .. } => "deposit",
            Invocation::Withdraw { .. } => "withdraw",
            Invocation::ClaimRewards { .. } => "claimRewards",
        }
    }
}

impl Query {
    /// The contract function that the query reads.
    pub open spec fn function_name(&self) -> Seq<char> {
        match self {
            Query::StakedBalance { .. } => "balanceOf"@,
            Query::PendingRewards { .. } => "pendingRewards"@,
            Query::TotalValueLocked => "totalValueLocked"@,
            Query::CurrentApy => "getCurrentAPY"@,
        }
    }

    pub fn name(&self) -> (r: &'static str)
        ensures
            r@ == self.function_name(),
    {
        match self {
            Query::StakedBalance { .. } => "balanceOf",
            Query::PendingRewards { .. } => "pendingRewards",
            Query::TotalValueLocked => "totalValueLocked",
            Query::CurrentApy => "getCurrentAPY",
        }
    }
}

/// What a submission through the transport came back with, as the client
/// reports it: the transaction hash, or `InvocationError`.
pub open spec fn submission_outcome<E>(sent: Result<H256, E>) -> Result<H256, ClientError> {
    match sent {
        Ok(h) => Ok(h),
        Err(_) => Err(ClientError::InvocationError),
    }
}

/// What a read through the transport came back with, as the client reports
/// it: the decoded amount, or `QueryError`.
pub open spec fn query_outcome<E>(read: Result<U256, E>) -> Result<U256, ClientError> {
    match read {
        Ok(v) => Ok(v),
        Err(_) => Err(ClientError::QueryError),
    }
}

/// Reports the outcome of submitting an invocation.
pub fn submitted(sent: Result<H256, web3::contract::Error>) -> (r: Result<H256, ClientError>)
    ensures
        r == submission_outcome(sent),
{
    match sent {
        Ok(h) => Ok(h),
        Err(_) => Err(ClientError::InvocationError),
    }
}

/// Reports the outcome of a read-only query.
pub fn queried(read: Result<U256, web3::contract::Error>) -> (r: Result<U256, ClientError>)
    ensures
        r == query_outcome(read),
{
    match read {
        Ok(v) => Ok(v),
        Err(_) => Err(ClientError::QueryError),
    }
}

} // verus!
