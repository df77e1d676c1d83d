use vstd::prelude::*;
use web3::types::{H160 as Address, U256};
use web3::transports::Http;
use crate::abi::{abi_text_admissible, is_admissible_abi_text, ContractInterface};
use crate::calls::{Invocation, Query};
use crate::chain::{abi_function_names, endpoint_url_parses, load_function_names, open_http};
use crate::error::ClientError;
use crate::receipt::{confirmation_of, head_number_of, Confirmation, Receipt};

verus! {

/// A client bound to one deployed farming contract over an HTTP JSON-RPC
/// transport. It is immutable once built: every operation takes `&self`.
pub struct YieldFarmingClient {
    transport: Http,
    contract_address: Address,
    abi: Vec<u8>,
    interface: ContractInterface,
}

/// What preparing a state-mutating call gives: the call itself where the
/// contract's ABI declares its function, else `InvocationError`.
pub open spec fn invocation_plan(functions: Seq<Seq<char>>, call: Invocation) -> Result<Invocation, ClientError> {
    if functions.contains(call.function_name()) {
        Ok(call)
    } else {
        Err(ClientError::InvocationError)
    }
}

/// What preparing a read-only call gives: the query itself where the
/// contract's ABI declares its function, else `QueryError`.
pub open spec fn query_plan(functions: Seq<Seq<char>>, query: Query) -> Result<Query, ClientError> {
    if functions.contains(query.function_name()) {
        Ok(query)
    } else {
        Err(ClientError::QueryError)
    }
}

impl YieldFarmingClient {
    /// The names of the functions that the bound contract's ABI declares.
    pub closed spec fn functions(&self) -> Seq<Seq<char>> {
        self.interface@
    }

    pub closed spec fn address(&self) -> Address {
        self.contract_address
    }

    /// The serialized ABI the client was built from.
    pub closed spec fn abi_bytes(&self) -> Seq<u8> {
        self.abi@
    }

    /// Builds a client from an endpoint, a contract address and a serialized
    /// ABI. The ABI is checked and parsed first: where it is refused no
    /// transport is set up. Nothing is sent over the network.
    pub fn new(rpc_url: &str, contract_address: Address, contract_abi: &[u8]) -> (r: Result<Self, ClientError>)
        ensures
            !abi_text_admissible(contract_abi@) ==> r == Err::<Self, ClientError>(ClientError::ConfigurationError),
            abi_function_names(contract_abi@) is None ==> r == Err::<Self, ClientError>(ClientError::ConfigurationError),
            !endpoint_url_parses(rpc_url@) ==> r == Err::<Self, ClientError>(ClientError::ConfigurationError),
            r is Err ==> r->Err_0 == ClientError::ConfigurationError,
            r is Ok ==> abi_text_admissible(contract_abi@),
            r is Ok ==> abi_function_names(contract_abi@) == Some(r->Ok_0.functions()),
            r is Ok ==> r->Ok_0.address() == contract_address,
            r is Ok ==> r->Ok_0.abi_bytes() == contract_abi@,
    {
        if !is_admissible_abi_text(contract_abi) {
            return Err(ClientError::ConfigurationError);
        }
        let names = match load_function_names(contract_abi) {
            Ok(names) => names,
            Err(_) => {
                return Err(ClientError::ConfigurationError);
            },
        };
        let interface = ContractInterface { functions: names };
        Self::with_transport(open_http(rpc_url), contract_address, contract_abi, interface)
    }

    /// Builds a client from a transport that was set up (or refused) already,
    /// and the interface that the ABI declares.
    pub fn with_transport(
        transport: Result<Http, web3::Error>,
        contract_address: Address,
        contract_abi: &[u8],
        interface: ContractInterface,
    ) -> (r: Result<Self, ClientError>)
        requires
            abi_function_names(contract_abi@) == Some(interface@),
        ensures
            r is Ok <==> transport is Ok,
            r is Err ==> r->Err_0 == ClientError::ConfigurationError,
            r is Ok ==> r->Ok_0.functions() == interface@,
            r is Ok ==> r->Ok_0.address() == contract_address,
            r is Ok ==> r->Ok_0.abi_bytes() == contract_abi@,
    {
        match transport {
            Ok(transport) => Ok(YieldFarmingClient {
                transport,
                contract_address,
                abi: vstd::slice::slice_to_vec(contract_abi),
                interface,
            }),
            Err(_) => Err(ClientError::ConfigurationError),
        }
    }

    /// The transport the client sends its calls over.
    pub fn transport(&self) -> &Http {
        &self.transport
    }

    pub fn contract_address(&self) -> (r: &Address)
        ensures
            *r == self.address(),
    {
        &self.contract_address
    }

    pub fn contract_abi(&self) -> (r: &[u8])
        ensures
            r@ == self.abi_bytes(),
    {
        self.abi.as_slice()
    }
    /// Checks a state-mutating call against the contract's ABI.
    pub fn prepare(&self, call: Invocation) -> (r: Result<Invocation, ClientError>)
        ensures
            r == invocation_plan(self.functions(), call),
    {
        if self.interface.has_function(call.name()) {
            Ok(call)
        } else {
            Err(ClientError::InvocationError)
        }
    }

    /// Checks a read-only call against the contract's ABI.
    pub fn prepare_query(&self, query: Query) -> (r: Result<Query, ClientError>)
        ensures
            r == query_plan(self.functions(), query),
    {
        if self.interface.has_function(query.name()) {
            Ok(query)
        } else {
            Err(ClientError::QueryError)
        }
    }

    /// Deposits `amount` into the pool from `account`.
    pub fn deposit(&self, amount: U256, account: Address) -> (r: Result<Invocation, ClientError>)
        ensures
            r == invocation_plan(self.functions(), Invocation::Deposit { amount, from: account }),
    {
        self.prepare(Invocation::Deposit { amount, from: account })
    }

    /// Withdraws `amount` from the pool to `account`.
    pub fn withdraw(&self, amount: U256, account: Address) -> (r: Result<Invocation, ClientError>)
        ensures
            r == invocation_plan(self.functions(), Invocation::Withdraw { amount, from: account }),
    {
        self.prepare(Invocation::Withdraw { amount, from: account })
    }

    /// Claims the rewards that `account` has earned.
    pub fn claim_rewards(&self, account: Address) -> (r: Result<Invocation, ClientError>)
        ensures
            r == invocation_plan(self.functions(), Invocation::ClaimRewards { from: account }),
    {
        self.prepare(Invocation::ClaimRewards { from: account })
    }

    /// Reads the balance that `account` has staked.
    pub fn get_staked_balance(&self, account: Address) -> (r: Result<Query, ClientError>)
        ensures
            r == query_plan(self.functions(), Query::StakedBalance { account }),
    {
        self.prepare_query(Query::StakedBalance { account })
    }

    /// Reads the rewards that `account` has pending.
    pub fn get_pending_rewards(&self, account: Address) -> (r: Result<Query, ClientError>)
        ensures
            r == query_plan(self.functions(), Query::PendingRewards { account }),
    {
        self.prepare_query(Query::PendingRewards { account })
    }

    /// Reads the total value locked in the pool.
    pub fn get_total_value_locked(&self) -> (r: Result<Query, ClientError>)
        ensures
            r == query_plan(self.functions(), Query::TotalValueLocked),
    {
        self.prepare_query(Query::TotalValueLocked)
    }

    /// Reads the pool's current annual percentage yield.
    pub fn get_current_apy(&self) -> (r: Result<Query, ClientError>)
        ensures
            r == query_plan(self.functions(), Query::CurrentApy),
    {
        self.prepare_query(Query::CurrentApy)
    }

    /// Checks a batch of independent queries, to be issued together. Each
    /// answer is the one its query would get alone, in the same place.
    pub fn prepare_queries(&self, queries: Vec<Query>) -> (r: Vec<Result<Query, ClientError>>)
        ensures
            r@.len() == queries@.len(),
            forall|i: int| 0 <= i < r@.len() ==> r@[i] == query_plan(self.functions(), queries@[i]),
    {
        let ghost all = queries@;
        let mut rest = queries;
        let mut out: Vec<Result<Query, ClientError>> = Vec::new();
        while rest.len() > 0
            invariant
                out@.len() + rest@.len() == all.len(),
                rest@ == all.subrange(out@.len() as int, all.len() as int),
                forall|i: int| 0 <= i < out@.len() ==> out@[i] == query_plan(self.functions(), all[i]),
            decreases rest@.len(),
        {
            let q = rest.remove(0);
            let a = self.prepare_query(q);
            out.push(a);
            assert(rest@ =~= all.subrange(out@.len() as int, all.len() as int));
        }
        out
    }

    /// Interprets one receipt lookup for a transaction: a missing receipt is
    /// the ordinary not-yet-mined answer, never an error.
    pub fn wait_for_transaction(&self, fetched: Result<Option<Receipt>, web3::Error>) -> (r: Result<Confirmation, ClientError>)
        ensures
            r == confirmation_of(fetched),
    {
        match fetched {
            Ok(Some(receipt)) => Ok(Confirmation::Mined(receipt)),
            Ok(None) => Ok(Confirmation::NotYetMined),
            Err(_) => Err(ClientError::LookupError),
        }
    }

    /// Interprets a lookup of the latest block, given as the head's number
    /// where the node reported a head.
    pub fn get_latest_block(&self, fetched: Result<Option<Option<u64>>, web3::Error>) -> (r: Result<u64, ClientError>)
        ensures
            r == head_number_of(fetched),
    {
        match fetched {
            Ok(Some(Some(n))) => Ok(n),
            Ok(Some(None)) => Err(ClientError::LookupError),
            Ok(None) => Err(ClientError::LookupError),
            Err(_) => Err(ClientError::LookupError),
        }
    }
}

} // verus!
