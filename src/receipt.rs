use vstd::prelude::*;
use web3::types::H256;
use crate::error::ClientError;

verus! {

/// The outcome record of a mined transaction, as the client reads it.
pub struct Receipt {
    pub transaction_hash: H256,
    /// The block that includes the transaction, where the node reports it.
    pub block_number: Option<u64>,
    /// The status code: 1 for success, 0 for failure; absent on chains that
    /// predate status codes.
    pub status: Option<u64>,
}

/// How a mined transaction ended.
#[derive(PartialEq, Eq, Structural, Clone, Copy, Debug)]
pub enum Outcome {
    Succeeded,
    Failed,
    Unknown,
}

/// The answer to a confirmation lookup: not mined yet, or the receipt.
pub enum Confirmation {
    NotYetMined,
    Mined(Receipt),
}

pub open spec fn outcome_of(status: Option<u64>) -> Outcome {
    match status {
        Some(code) => if code == 1 { Outcome::Succeeded } else { Outcome::Failed },
        None => Outcome::Unknown,
    }
}

impl Receipt {
    pub fn outcome(&self) -> (r: Outcome)
        ensures
            r == outcome_of(self.status),
    {
        match self.status {
            Some(code) => if code == 1 { Outcome::Succeeded } else { Outcome::Failed },
            None => Outcome::Unknown,
        }
    }
}

/// What a single receipt lookup means to the caller: a missing receipt is the
/// ordinary not-yet-mined answer; only a transport failure is an error.
pub open spec fn confirmation_of<E>(fetched: Result<Option<Receipt>, E>) -> Result<Confirmation, ClientError> {
    match fetched {
        Ok(Some(receipt)) => Ok(Confirmation::Mined(receipt)),
        Ok(None) => Ok(Confirmation::NotYetMined),
        Err(_) => Err(ClientError::LookupError),
    }
}

/// The chain head's number from a block lookup: the node must report a head
/// and the head must carry a number.
pub open spec fn head_number_of<E>(fetched: Result<Option<Option<u64>>, E>) -> Result<u64, ClientError> {
    match fetched {
        Ok(Some(Some(n))) => Ok(n),
        _ => Err(ClientError::LookupError),
    }
}

} // verus!
