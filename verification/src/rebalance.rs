//! The rebalance flow.
//!
//! Harvest everything pending, drain the old receipt, retire it, open a
//! replacement at the new tick range, and re-deposit what was recovered
//! under a slippage bound.  The old receipt is gone before the new one
//! exists, which makes this the highest-risk flow: the ledger must keep
//! pointing at the old receipt until the new one is confirmed open, so a
//! failure can never leave the user with neither proof object.

use vstd::prelude::*;
use crate::errors::FlowError;
use crate::errors::RebalanceError;
use crate::keys::Pubkey;
use crate::position_tracker::PositionTracker;
use crate::slippage::apply_slippage_bps;
use crate::slippage::resolve_slippage;
use crate::slippage::spec_resolve_slippage;
use crate::vault_config::ConfigError;
use crate::vault_config::VaultConfig;
use crate::vault_pda::VaultError;
use crate::vault_pda::VaultPDA;

verus! {

/// Emitted when a rebalance completes.
#[derive(Debug)]
pub struct PositionRebalanced {
    pub user: Pubkey,
    pub old_position: Pubkey,
    pub new_position: Pubkey,
    pub old_tick_lower: i32,
    pub old_tick_upper: i32,
    pub new_tick_lower: i32,
    pub new_tick_upper: i32,
    pub liquidity: u128,
    pub rebalance_count: u16,
    pub timestamp: i64,
}

/// The collaborator outcomes the flow consumes, in call order: the
/// harvest, the removal of the old receipt's whole liquidity, its
/// retirement, the opening of the replacement, and the re-deposit.
pub struct RebalanceCalls {
    /// Outcome of harvesting pending fees and rewards.
    pub harvest_res: Result<(), crate::whirlpool::ErrorCode>,
    /// Outcome of removing the old receipt's liquidity; consulted only
    /// when there is liquidity to remove.
    pub remove_res: Result<(), crate::whirlpool::ErrorCode>,
    /// Outcome of retiring the old receipt.
    pub retire_res: Result<(), crate::whirlpool::ErrorCode>,
    /// Outcome of opening the replacement receipt.
    pub open_res: Result<(), crate::whirlpool::ErrorCode>,
    /// Outcome of re-depositing the recovered balances.
    pub deposit_res: Result<(), crate::whirlpool::ErrorCode>,
}

/// The ledger after a committed rebalance: the replacement receipt, the
/// new tick range, a saturating bump of the rebalance counter.
pub open spec fn spec_rebalanced_tracker(
    tracker: PositionTracker,
    new_position_mint: Pubkey,
    new_tick_lower: i32,
    new_tick_upper: i32,
    now: i64,
) -> PositionTracker {
    PositionTracker {
        lp_position_mint: new_position_mint,
        tick_lower: new_tick_lower,
        tick_upper: new_tick_upper,
        rebalance_count: if tracker.rebalance_count == u16::MAX {
            u16::MAX
        } else {
            (tracker.rebalance_count + 1) as u16
        },
        last_update: now,
        ..tracker
    }
}

/// The whole outcome of the flow: checks and calls in their fixed
/// order, the first refusal naming the error.
pub open spec fn spec_rebalance_outcome(
    config: VaultConfig,
    vault: VaultPDA,
    tracker: PositionTracker,
    caller: Pubkey,
    new_position_mint: Pubkey,
    calls: RebalanceCalls,
    new_tick_lower: i32,
    new_tick_upper: i32,
    max_slippage_bps: Option<u16>,
    current_liquidity: u128,
    new_liquidity: u128,
    balance_a: u64,
    balance_b: u64,
    now: i64,
) -> Result<PositionRebalanced, FlowError> {
    let bps = spec_resolve_slippage(config.default_max_slippage_bps, max_slippage_bps);
    if caller != tracker.user {
        Err(FlowError::Rebalance(RebalanceError::Unauthorized))
    } else if config.paused {
        Err(FlowError::Config(ConfigError::VaultPaused))
    } else if vault.locked {
        Err(FlowError::Custody(VaultError::VaultLocked))
    } else if calls.harvest_res is Err {
        Err(FlowError::Pool(calls.harvest_res.unwrap_err()))
    } else if current_liquidity > 0 && calls.remove_res is Err {
        Err(FlowError::Pool(calls.remove_res.unwrap_err()))
    } else if calls.retire_res is Err {
        Err(FlowError::Pool(calls.retire_res.unwrap_err()))
    } else if calls.open_res is Err {
        Err(FlowError::Pool(calls.open_res.unwrap_err()))
    } else if balance_a * (10000 + bps) > u64::MAX || balance_b * (10000 + bps) > u64::MAX {
        Err(FlowError::Rebalance(RebalanceError::Overflow))
    } else if calls.deposit_res is Err {
        Err(FlowError::Pool(calls.deposit_res.unwrap_err()))
    } else {
        Ok(
            PositionRebalanced {
                user: caller,
                old_position: tracker.lp_position_mint,
                new_position: new_position_mint,
                old_tick_lower: tracker.tick_lower,
                old_tick_upper: tracker.tick_upper,
                new_tick_lower,
                new_tick_upper,
                liquidity: new_liquidity,
                rebalance_count: if tracker.rebalance_count == u16::MAX {
                    u16::MAX
                } else {
                    (tracker.rebalance_count + 1) as u16
                },
                timestamp: now,
            },
        )
    }
}

/// Run the rebalance flow against the given collaborator outcomes.
/// `current_liquidity` is what the old receipt held, `balance_a` /
/// `balance_b` what its removal recovered, and `new_liquidity` what the
/// pool engine's math grants for re-depositing them.  The ledger
/// commits the replacement receipt and tick range exactly when every
/// call through the re-deposit succeeded; on any refusal the ledger
/// still points at the old receipt, its rebalance count untouched.
pub fn handler(
    config: &VaultConfig,
    vault: &mut VaultPDA,
    tracker: &mut PositionTracker,
    caller: Pubkey,
    new_position_mint: Pubkey,
    calls: RebalanceCalls,
    new_tick_lower: i32,
    new_tick_upper: i32,
    max_slippage_bps: Option<u16>,
    current_liquidity: u128,
    new_liquidity: u128,
    balance_a: u64,
    balance_b: u64,
    now: i64,
) -> (r: Result<PositionRebalanced, FlowError>)
    requires
        new_tick_lower < new_tick_upper,
    ensures
        r == spec_rebalance_outcome(
            *config,
            *old(vault),
            *old(tracker),
            caller,
            new_position_mint,
            calls,
            new_tick_lower,
            new_tick_upper,
            max_slippage_bps,
            current_liquidity,
            new_liquidity,
            balance_a,
            balance_b,
            now,
        ),
        r is Ok ==> *final(tracker) == spec_rebalanced_tracker(
            *old(tracker),
            new_position_mint,
            new_tick_lower,
            new_tick_upper,
            now,
        ) && final(tracker).wf(),
        r is Err ==> *final(tracker) == *old(tracker),
        *final(vault) == *old(vault),
        old(vault).locked == false ==> final(vault).locked == false,
{
    if !(caller == tracker.user) {
        return Err(FlowError::Rebalance(RebalanceError::Unauthorized));
    }
    if let Err(e) = config.require_not_paused() {
        return Err(FlowError::Config(e));
    }
    if let Err(e) = vault.lock() {
        return Err(FlowError::Custody(e));
    }
    // From here on, a refusal aborts the flow; the hosting transaction
    // model rolls the lock acquisition back together with everything
    // else, which releasing it before returning reproduces.
    if let Err(e) = calls.harvest_res {
        vault.unlock();
        return Err(FlowError::Pool(e));
    }
    if current_liquidity > 0 {
        if let Err(e) = calls.remove_res {
            vault.unlock();
            return Err(FlowError::Pool(e));
        }
    }
    if let Err(e) = calls.retire_res {
        vault.unlock();
        return Err(FlowError::Pool(e));
    }
    if let Err(e) = calls.open_res {
        vault.unlock();
        return Err(FlowError::Pool(e));
    }
    let bps = resolve_slippage(config.default_max_slippage_bps, max_slippage_bps);
    let _max_a: u64 = match apply_slippage_bps(balance_a, bps) {
        Some(v) => v,
        None => {
            vault.unlock();
            return Err(FlowError::Rebalance(RebalanceError::Overflow));
        },
    };
    let _max_b: u64 = match apply_slippage_bps(balance_b, bps) {
        Some(v) => v,
        None => {
            vault.unlock();
            return Err(FlowError::Rebalance(RebalanceError::Overflow));
        },
    };
    // The re-deposit call carries `new_liquidity` bounded by the two
    // slippage-adjusted maxima on the wire.
    if let Err(e) = calls.deposit_res {
        vault.unlock();
        return Err(FlowError::Pool(e));
    }
    let old_tick_lower = tracker.tick_lower;
    let old_tick_upper = tracker.tick_upper;
    let old_position = tracker.lp_position_mint;
    tracker.lp_position_mint = new_position_mint;
    tracker.tick_lower = new_tick_lower;
    tracker.tick_upper = new_tick_upper;
    tracker.rebalance_count = if tracker.rebalance_count == u16::MAX {
        u16::MAX
    } else {
        tracker.rebalance_count + 1
    };
    tracker.last_update = now;
    vault.unlock();
    Ok(
        PositionRebalanced {
            user: caller,
            old_position,
            new_position: new_position_mint,
            old_tick_lower,
            old_tick_upper,
            new_tick_lower,
            new_tick_upper,
            liquidity: new_liquidity,
            rebalance_count: tracker.rebalance_count,
            timestamp: now,
        },
    )
}

} // verus!
