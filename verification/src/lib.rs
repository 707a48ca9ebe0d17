//! A custodial concentrated-liquidity position manager with encrypted
//! profit accounting.
//!
//! The crate holds the decision logic of the vault: the global
//! configuration with its two-step admin rotation and pause switch, the
//! per-user custody record with its reentrancy lock, the per-position
//! encrypted ledger, the four fund-moving flows, the wire encodings of the
//! collaborator calls, and the attested-decryption verifier.  Everything
//! that touches the hosting chain (account loading, cross-program
//! invocation, the clock) stays with the caller, which hands the library
//! plain values: the collaborators' responses, balances measured around
//! the calls, and the current time.

pub mod admin;
pub mod collect_profits;
pub mod create_position;
pub mod errors;
pub mod handle;
pub mod inco_lightning;
pub mod initialize;
pub mod keys;
pub mod laws;
pub mod position_tracker;
pub mod rebalance;
pub mod slippage;
pub mod vault_config;
pub mod vault_pda;
pub mod verify_decryption;
pub mod whirlpool;
pub mod withdraw_position;
pub mod wire;
