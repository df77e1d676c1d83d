pub mod abi;
pub mod chain;
pub mod error;
pub mod calls;
pub mod receipt;
pub mod client;
pub mod laws;
