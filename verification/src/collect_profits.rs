//! The collect-profits flow.
//!
//! Harvest the position's fee balances, measure what actually arrived as
//! a balance delta — never trusting an amount the collaborator reports —
//! and fold each non-zero amount into the matching encrypted
//! accumulator.
//!
//! Reward slots: harvested reward amounts are currently pinned at zero
//! pending the collaborator's reward harvest call, so no reward
//! accumulator moves here yet; slot 0 would fold through the handle path
//! and slots 1 and 2 accumulate as plain integers.

use vstd::prelude::*;
use crate::errors::CollectError;
use crate::errors::FlowError;
use crate::handle::Handle;
use crate::keys::Pubkey;
use crate::position_tracker::PositionTracker;
use crate::vault_config::ConfigError;
use crate::vault_config::VaultConfig;
use crate::vault_pda::VaultError;
use crate::vault_pda::VaultPDA;

verus! {

/// Emitted when profits are collected.
#[derive(Debug)]
pub struct ProfitCollected {
    pub position: Pubkey,
    pub fee_a: u64,
    pub fee_b: u64,
    pub reward_0: u64,
    pub reward_1: u64,
    pub reward_2: u64,
    pub timestamp: i64,
}

/// The collaborator outcomes the flow consumes: the fee harvest, and
/// the create-and-fold service responses for whichever legs turn out to
/// have harvested a non-zero amount.  A fold response is consulted only
/// when its leg's amount is non-zero.
pub struct CollectCalls {
    /// Outcome of the fee harvest call.
    pub collect_fees_res: Result<(), crate::whirlpool::ErrorCode>,
    /// Folded token A profit accumulator, where fee A is non-zero.
    pub fold_a: Result<Handle, crate::inco_lightning::ErrorCode>,
    /// Folded token B profit accumulator, where fee B is non-zero.
    pub fold_b: Result<Handle, crate::inco_lightning::ErrorCode>,
    /// Folded reward 0 accumulator, where that harvest is non-zero;
    /// unused while reward amounts are pinned at zero.
    pub fold_reward_0: Result<Handle, crate::inco_lightning::ErrorCode>,
}

/// Balances of one custody token account measured before and after a
/// harvest; the harvested amount is their difference, never below zero.
pub struct BalanceDelta {
    /// Balance before the call.
    pub pre: u64,
    /// Balance after the call.
    pub post: u64,
}

/// The harvested amount a balance pair witnesses.
pub open spec fn spec_delta(d: BalanceDelta) -> u64 {
    if d.post >= d.pre {
        (d.post - d.pre) as u64
    } else {
        0u64
    }
}

/// Measure a harvested amount as a balance delta.
pub fn measured_delta(d: &BalanceDelta) -> (r: u64)
    ensures
        r == spec_delta(*d),
{
    if d.post >= d.pre {
        d.post - d.pre
    } else {
        0
    }
}

/// The ledger after a successful collection: each leg with a non-zero
/// harvest carries the freshly folded accumulator handle.
pub open spec fn spec_collected_tracker(
    tracker: PositionTracker,
    fee_a: u64,
    fee_b: u64,
    fold_a: Result<Handle, crate::inco_lightning::ErrorCode>,
    fold_b: Result<Handle, crate::inco_lightning::ErrorCode>,
    now: i64,
) -> PositionTracker {
    PositionTracker {
        encrypted_realized_profit_a: if fee_a > 0 {
            fold_a.unwrap()
        } else {
            tracker.encrypted_realized_profit_a
        },
        encrypted_realized_profit_b: if fee_b > 0 {
            fold_b.unwrap()
        } else {
            tracker.encrypted_realized_profit_b
        },
        last_update: now,
        ..tracker
    }
}

/// The whole outcome of the flow: checks and calls in their fixed
/// order, the first refusal naming the error.
pub open spec fn spec_collect_outcome(
    config: VaultConfig,
    vault: VaultPDA,
    tracker: PositionTracker,
    caller: Pubkey,
    calls: CollectCalls,
    delta_a: BalanceDelta,
    delta_b: BalanceDelta,
    now: i64,
) -> Result<ProfitCollected, FlowError> {
    let fee_a = spec_delta(delta_a);
    let fee_b = spec_delta(delta_b);
    if caller != tracker.user {
        Err(FlowError::Collect(CollectError::Unauthorized))
    } else if config.paused {
        Err(FlowError::Config(ConfigError::VaultPaused))
    } else if vault.locked {
        Err(FlowError::Custody(VaultError::VaultLocked))
    } else if calls.collect_fees_res is Err {
        Err(FlowError::Pool(calls.collect_fees_res.unwrap_err()))
    } else if fee_a > 0 && calls.fold_a is Err {
        Err(FlowError::Enc(calls.fold_a.unwrap_err()))
    } else if fee_b > 0 && calls.fold_b is Err {
        Err(FlowError::Enc(calls.fold_b.unwrap_err()))
    } else {
        Ok(
            ProfitCollected {
                position: tracker.lp_position_mint,
                fee_a,
                fee_b,
                reward_0: 0u64,
                reward_1: 0u64,
                reward_2: 0u64,
                timestamp: now,
            },
        )
    }
}

/// Run the collect-profits flow against the given collaborator
/// outcomes and measured balances.  On success the ledger carries the
/// folded accumulators and a fresh update time; on any refusal both the
/// custody and the ledger are left exactly as they were.
pub fn handler(
    config: &VaultConfig,
    vault: &mut VaultPDA,
    tracker: &mut PositionTracker,
    caller: Pubkey,
    calls: CollectCalls,
    delta_a: BalanceDelta,
    delta_b: BalanceDelta,
    now: i64,
) -> (r: Result<ProfitCollected, FlowError>)
    ensures
        r == spec_collect_outcome(
            *config,
            *old(vault),
            *old(tracker),
            caller,
            calls,
            delta_a,
            delta_b,
            now,
        ),
        r is Ok ==> *final(tracker) == spec_collected_tracker(
            *old(tracker),
            spec_delta(delta_a),
            spec_delta(delta_b),
            calls.fold_a,
            calls.fold_b,
            now,
        ),
        *final(vault) == *old(vault),
        r is Err ==> *final(tracker) == *old(tracker),
        old(vault).locked == false ==> final(vault).locked == false,
{
    if !(caller == tracker.user) {
        return Err(FlowError::Collect(CollectError::Unauthorized));
    }
    if let Err(e) = config.require_not_paused() {
        return Err(FlowError::Config(e));
    }
    if let Err(e) = vault.lock() {
        return Err(FlowError::Custody(e));
    }
    // From here on, a refusal aborts the flow; the hosting transaction
    // model rolls the lock acquisition back together with everything
    // else, which releasing it before returning reproduces.
    if let Err(e) = calls.collect_fees_res {
        vault.unlock();
        return Err(FlowError::Pool(e));
    }
    let fee_a = measured_delta(&delta_a);
    let fee_b = measured_delta(&delta_b);
    // Reward amounts stay at zero until the reward harvest call lands.
    let reward_0: u64 = 0;
    let reward_1: u64 = 0;
    let reward_2: u64 = 0;
    // Nothing is committed to the ledger until every fold response has
    // been accepted: an abort must leave no partial state.
    let new_profit_a = if fee_a > 0 {
        match calls.fold_a {
            Ok(folded) => folded,
            Err(e) => {
                vault.unlock();
                return Err(FlowError::Enc(e));
            },
        }
    } else {
        tracker.encrypted_realized_profit_a
    };
    let new_profit_b = if fee_b > 0 {
        match calls.fold_b {
            Ok(folded) => folded,
            Err(e) => {
                vault.unlock();
                return Err(FlowError::Enc(e));
            },
        }
    } else {
        tracker.encrypted_realized_profit_b
    };
    let new_reward_0 = if reward_0 > 0 {
        match calls.fold_reward_0 {
            Ok(folded) => folded,
            Err(e) => {
                vault.unlock();
                return Err(FlowError::Enc(e));
            },
        }
    } else {
        tracker.encrypted_reward_0
    };
    let new_reward_1 = if reward_1 > 0 {
        if tracker.encrypted_reward_1 > u128::MAX - (reward_1 as u128) {
            u128::MAX
        } else {
            tracker.encrypted_reward_1 + (reward_1 as u128)
        }
    } else {
        tracker.encrypted_reward_1
    };
    let new_reward_2 = if reward_2 > 0 {
        if tracker.encrypted_reward_2 > u128::MAX - (reward_2 as u128) {
            u128::MAX
        } else {
            tracker.encrypted_reward_2 + (reward_2 as u128)
        }
    } else {
        tracker.encrypted_reward_2
    };
    tracker.encrypted_realized_profit_a = new_profit_a;
    tracker.encrypted_realized_profit_b = new_profit_b;
    tracker.encrypted_reward_0 = new_reward_0;
    tracker.encrypted_reward_1 = new_reward_1;
    tracker.encrypted_reward_2 = new_reward_2;
    tracker.last_update = now;
    vault.unlock();
    Ok(
        ProfitCollected {
            position: tracker.lp_position_mint,
            fee_a,
            fee_b,
            reward_0,
            reward_1,
            reward_2,
            timestamp: now,
        },
    )
}

} // verus!
