//! The one error type a fund-moving flow surfaces.
//!
//! A flow can be refused by any of its gates or collaborators; the flow
//! hands its caller the component's own error, wrapped so the source is
//! visible.  Every error aborts the whole flow with no partial commit.

use vstd::prelude::*;
use crate::vault_config::ConfigError;
use crate::vault_pda::VaultError;

verus! {

/// Errors of the create-position flow.
#[derive(Clone, Copy, Debug, PartialEq, Eq, Structural)]
pub enum CreatePositionError {
    /// The caller does not own the custody this flow works on.
    InvalidOwner,
    /// Slippage bound arithmetic overflowed.
    Overflow,
    /// The pool accepted less than the slippage bound allowed.
    SlippageExceeded,
}

/// Errors of the collect-profits flow.
#[derive(Clone, Copy, Debug, PartialEq, Eq, Structural)]
pub enum CollectError {
    /// The caller does not own the position this flow works on.
    Unauthorized,
}

/// Errors of the withdraw-position flow.
#[derive(Clone, Copy, Debug, PartialEq, Eq, Structural)]
pub enum WithdrawError {
    /// The caller does not own the custody or position.
    InvalidOwner,
    /// More liquidity was asked back than the position holds.
    InsufficientLiquidity,
}

/// Errors of the rebalance flow.
#[derive(Clone, Copy, Debug, PartialEq, Eq, Structural)]
pub enum RebalanceError {
    /// The caller does not own the position this flow works on.
    Unauthorized,
    /// Slippage bound arithmetic overflowed.
    Overflow,
}

/// Whatever refused a flow, with its source.
#[derive(Clone, Copy, Debug, PartialEq, Eq, Structural)]
pub enum FlowError {
    /// A configuration gate refused.
    Config(ConfigError),
    /// The custody guard refused.
    Custody(VaultError),
    /// The Encrypted Compute Service call path refused.
    Enc(crate::inco_lightning::ErrorCode),
    /// The pool engine call path refused.
    Pool(crate::whirlpool::ErrorCode),
    /// The create-position flow itself refused.
    Create(CreatePositionError),
    /// The collect-profits flow itself refused.
    Collect(CollectError),
    /// The withdraw-position flow itself refused.
    Withdraw(WithdrawError),
    /// The rebalance flow itself refused.
    Rebalance(RebalanceError),
}

} // verus!
