//! Ledger state engine for a staked-governance token: fixed-layout record
//! codecs, a staking engine with time-locked withdrawal penalties, a
//! stake-weighted governance engine, and a lock/release bridge.
//!
//! Every operation reads caller-supplied record bytes, checks authorization
//! and lifecycle invariants, and writes the updated record back. Value
//! movement is never performed here: operations hand back the transfer that
//! the host must carry out.

pub mod bytes;
pub mod cross_chain_bridge_contract;
pub mod error;
pub mod governance_contract;
pub mod instruction;
pub mod pubkey;
pub mod staking_contract;
pub mod token_contract;
pub mod transfer;
