//! Batch value transfers on a Solana-style ledger: credential and address
//! parsing, transaction construction, JSON-RPC response handling, the per-transfer
//! state machine, batch planning and result statistics.

pub mod units;
pub mod codec;
pub mod rpc;
pub mod transaction;
pub mod transfer;
pub mod batch;
pub mod stats;
