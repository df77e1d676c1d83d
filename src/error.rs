use vstd::prelude::*;

verus! {

/// The kinds of failure a client operation can end in.
#[derive(PartialEq, Eq, Structural, Clone, Copy, Debug)]
pub enum ClientError {
    /// The endpoint or the ABI given at construction was refused.
    ConfigurationError,
    /// A state-mutating call could not be submitted.
    InvocationError,
    /// A read-only call failed or its result could not be decoded.
    QueryError,
    /// A receipt or block lookup failed at the transport.
    LookupError,
}

} // verus!
