//! The withdraw-position flow.
//!
//! An implicit fee harvest first, so nothing is lost on exit, then a
//! liquidity removal under minimum-out guarantees; what arrived is
//! measured as a balance delta over the whole sequence.  When the caller
//! asks for it and the removal emptied the position, the receipt is
//! retired and the custody's position count drops.

use vstd::prelude::*;
use crate::collect_profits::BalanceDelta;
use crate::collect_profits::measured_delta;
use crate::collect_profits::spec_delta;
use crate::errors::FlowError;
use crate::errors::WithdrawError;
use crate::keys::Pubkey;
use crate::position_tracker::PositionTracker;
use crate::vault_config::ConfigError;
use crate::vault_config::VaultConfig;
use crate::vault_pda::VaultError;
use crate::vault_pda::VaultPDA;

verus! {

/// Emitted when a withdrawal completes.
#[derive(Debug)]
pub struct PositionWithdrawn {
    pub user: Pubkey,
    pub position_mint: Pubkey,
    pub liquidity_withdrawn: u128,
    pub token_a_received: u64,
    pub token_b_received: u64,
    pub position_closed: bool,
    pub timestamp: i64,
}

/// The collaborator outcomes the flow consumes, in call order: the fee
/// harvest, the liquidity removal, and — only when the caller asked to
/// close — the receipt retirement.
pub struct WithdrawCalls {
    /// Outcome of the fee harvest call.
    pub collect_fees_res: Result<(), crate::whirlpool::ErrorCode>,
    /// Outcome of the liquidity removal call.
    pub decrease_res: Result<(), crate::whirlpool::ErrorCode>,
    /// Outcome of retiring the receipt; consulted only when closing.
    pub close_res: Result<(), crate::whirlpool::ErrorCode>,
}

/// The whole outcome of the flow: checks and calls in their fixed
/// order, the first refusal naming the error.
pub open spec fn spec_withdraw_outcome(
    config: VaultConfig,
    vault: VaultPDA,
    tracker: PositionTracker,
    caller: Pubkey,
    position_mint: Pubkey,
    calls: WithdrawCalls,
    liquidity_amount: u128,
    close_position: bool,
    delta_a: BalanceDelta,
    delta_b: BalanceDelta,
    now: i64,
) -> Result<PositionWithdrawn, FlowError> {
    if caller != vault.owner || caller != tracker.user {
        Err(FlowError::Withdraw(WithdrawError::InvalidOwner))
    } else if config.paused {
        Err(FlowError::Config(ConfigError::VaultPaused))
    } else if vault.locked {
        Err(FlowError::Custody(VaultError::VaultLocked))
    } else if calls.collect_fees_res is Err {
        Err(FlowError::Pool(calls.collect_fees_res.unwrap_err()))
    } else if calls.decrease_res is Err {
        Err(FlowError::Pool(calls.decrease_res.unwrap_err()))
    } else if close_position && calls.close_res is Err {
        Err(FlowError::Pool(calls.close_res.unwrap_err()))
    } else {
        Ok(
            PositionWithdrawn {
                user: caller,
                position_mint,
                liquidity_withdrawn: liquidity_amount,
                token_a_received: spec_delta(delta_a),
                token_b_received: spec_delta(delta_b),
                position_closed: close_position,
                timestamp: now,
            },
        )
    }
}

/// Run the withdraw-position flow against the given collaborator
/// outcomes and measured balances.  On success the ledger's update time
/// moves and, when the position was closed, the custody's position
/// count drops; on any refusal both are left exactly as they were.
///
/// The minima `token_min_a` / `token_min_b` travel on the wire with the
/// removal call; the pool refuses when it cannot honour them, which
/// reaches this flow as the removal outcome.
#[allow(unused_variables)]
pub fn handler(
    config: &VaultConfig,
    vault: &mut VaultPDA,
    tracker: &mut PositionTracker,
    caller: Pubkey,
    position_mint: Pubkey,
    calls: WithdrawCalls,
    liquidity_amount: u128,
    token_min_a: u64,
    token_min_b: u64,
    close_position: bool,
    delta_a: BalanceDelta,
    delta_b: BalanceDelta,
    now: i64,
) -> (r: Result<PositionWithdrawn, FlowError>)
    ensures
        r == spec_withdraw_outcome(
            *config,
            *old(vault),
            *old(tracker),
            caller,
            position_mint,
            calls,
            liquidity_amount,
            close_position,
            delta_a,
            delta_b,
            now,
        ),
        r is Ok ==> *final(tracker) == (PositionTracker { last_update: now, ..*old(tracker) }),
        r is Ok ==> *final(vault) == (VaultPDA {
            position_count: if close_position {
                if old(vault).position_count == 0 {
                    0u32
                } else {
                    (old(vault).position_count - 1) as u32
                }
            } else {
                old(vault).position_count
            },
            ..*old(vault)
        }),
        r is Err ==> *final(vault) == *old(vault) && *final(tracker) == *old(tracker),
        old(vault).locked == false ==> final(vault).locked == false,
{
    if !(caller == vault.owner) {
        return Err(FlowError::Withdraw(WithdrawError::InvalidOwner));
    }
    if !(caller == tracker.user) {
        return Err(FlowError::Withdraw(WithdrawError::InvalidOwner));
    }
    if let Err(e) = config.require_not_paused() {
        return Err(FlowError::Config(e));
    }
    if let Err(e) = vault.lock() {
        return Err(FlowError::Custody(e));
    }
    // From here on, a refusal aborts the flow; the hosting transaction
    // model rolls the lock acquisition back together with everything
    // else, which releasing it before returning reproduces.
    if let Err(e) = calls.collect_fees_res {
        vault.unlock();
        return Err(FlowError::Pool(e));
    }
    // The removal call carries `liquidity_amount` and the two minima
    // `token_min_a` / `token_min_b` on the wire; the pool refuses when
    // it cannot honour them.
    if let Err(e) = calls.decrease_res {
        vault.unlock();
        return Err(FlowError::Pool(e));
    }
    let received_a = measured_delta(&delta_a);
    let received_b = measured_delta(&delta_b);
    if close_position {
        if let Err(e) = calls.close_res {
            vault.unlock();
            return Err(FlowError::Pool(e));
        }
        vault.decrement_position_count();
    }
    tracker.last_update = now;
    vault.unlock();
    Ok(
        PositionWithdrawn {
            user: caller,
            position_mint,
            liquidity_withdrawn: liquidity_amount,
            token_a_received: received_a,
            token_b_received: received_b,
            position_closed: close_position,
            timestamp: now,
        },
    )
}

} // verus!
