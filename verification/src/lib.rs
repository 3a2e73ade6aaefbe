//! Token-mint orchestration: builds the instruction lists and transaction
//! plans for minting fungible tokens on a remote ledger, resolves associated
//! token accounts, decodes ledger addresses, and maps every outcome of the
//! blocking RPC bridge to a typed error.
//!
//! The network calls themselves (RPC reads, transaction submission) live
//! outside this library; it receives their outcomes as plain values and
//! decides everything else.

pub mod bridge;
pub mod builder;
pub mod codec;
pub mod errors;
pub mod instructions;
pub mod orchestrator;
pub mod resolver;
