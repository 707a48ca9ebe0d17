//! The create-position flow.
//!
//! Gate checks, the custody lock, two fresh deposit handles from the
//! Encrypted Compute Service, a new receipt opened by the pool engine, a
//! slippage-bounded deposit, and finally a fresh ledger and a bumped
//! position count.  The collaborator calls themselves are the caller's
//! business; their outcomes come in as arguments, and any failure among
//! them aborts the whole flow with nothing committed, as the hosting
//! transaction model guarantees.

use vstd::prelude::*;
use crate::errors::CreatePositionError;
use crate::errors::FlowError;
use crate::handle::Handle;
use crate::keys::Pubkey;
use crate::position_tracker::PositionTracker;
use crate::slippage::apply_slippage_bps;
use crate::slippage::resolve_slippage;
use crate::slippage::spec_resolve_slippage;
use crate::vault_config::ConfigError;
use crate::vault_config::VaultConfig;
use crate::vault_pda::VaultError;
use crate::vault_pda::VaultPDA;

verus! {

/// Emitted when a position is created.
#[derive(Debug)]
pub struct PositionCreated {
    pub user: Pubkey,
    pub position_mint: Pubkey,
    pub whirlpool: Pubkey,
    pub tick_lower: i32,
    pub tick_upper: i32,
    pub liquidity: u128,
    pub timestamp: i64,
}

/// The collaborator outcomes the flow consumes, in call order: the two
/// handle creations, the receipt opening, and the liquidity deposit.
pub struct CreateCalls {
    /// Handle for the encrypted token A deposit amount.
    pub enc_a: Result<Handle, crate::inco_lightning::ErrorCode>,
    /// Handle for the encrypted token B deposit amount.
    pub enc_b: Result<Handle, crate::inco_lightning::ErrorCode>,
    /// Outcome of opening the position receipt.
    pub open_res: Result<(), crate::whirlpool::ErrorCode>,
    /// Outcome of depositing liquidity into the new receipt.
    pub deposit_res: Result<(), crate::whirlpool::ErrorCode>,
}

/// The ledger of a freshly created position.
pub open spec fn spec_new_tracker(
    caller: Pubkey,
    position_mint: Pubkey,
    whirlpool: Pubkey,
    enc_a: Handle,
    enc_b: Handle,
    tick_lower_index: i32,
    tick_upper_index: i32,
    tracker_bump: u8,
    now: i64,
) -> PositionTracker {
    PositionTracker {
        user: caller,
        lp_position_mint: position_mint,
        whirlpool,
        encrypted_deposit_a: enc_a,
        encrypted_deposit_b: enc_b,
        deposit_timestamp: now,
        encrypted_realized_profit_a: Handle(0u128),
        encrypted_realized_profit_b: Handle(0u128),
        encrypted_reward_0: Handle(0u128),
        encrypted_reward_1: 0u128,
        encrypted_reward_2: 0u128,
        tick_lower: tick_lower_index,
        tick_upper: tick_upper_index,
        rebalance_count: 0u16,
        last_update: now,
        bump: tracker_bump,
    }
}

/// The whole outcome of the flow: checks and calls in their fixed
/// order, the first refusal naming the error.
pub open spec fn spec_create_outcome(
    config: VaultConfig,
    vault: VaultPDA,
    caller: Pubkey,
    position_mint: Pubkey,
    whirlpool: Pubkey,
    calls: CreateCalls,
    tick_lower_index: i32,
    tick_upper_index: i32,
    liquidity_amount: u128,
    token_max_a: u64,
    token_max_b: u64,
    max_slippage_bps: Option<u16>,
    tracker_bump: u8,
    now: i64,
) -> Result<(PositionTracker, PositionCreated), FlowError> {
    let bps = spec_resolve_slippage(config.default_max_slippage_bps, max_slippage_bps);
    if caller != vault.owner {
        Err(FlowError::Create(CreatePositionError::InvalidOwner))
    } else if config.paused {
        Err(FlowError::Config(ConfigError::VaultPaused))
    } else if liquidity_amount < config.min_liquidity {
        Err(FlowError::Config(ConfigError::LiquidityTooLow))
    } else if liquidity_amount > config.max_liquidity {
        Err(FlowError::Config(ConfigError::LiquidityTooHigh))
    } else if vault.locked {
        Err(FlowError::Custody(VaultError::VaultLocked))
    } else {
        match (calls.enc_a, calls.enc_b) {
            (Err(e), _) => Err(FlowError::Enc(e)),
            (Ok(_), Err(e)) => Err(FlowError::Enc(e)),
            (Ok(handle_a), Ok(handle_b)) => {
                if calls.open_res is Err {
                    Err(FlowError::Pool(calls.open_res.unwrap_err()))
                } else if token_max_a * (10000 + bps) > u64::MAX || token_max_b * (10000 + bps)
                    > u64::MAX {
                    Err(FlowError::Create(CreatePositionError::Overflow))
                } else if calls.deposit_res is Err {
                    Err(FlowError::Pool(calls.deposit_res.unwrap_err()))
                } else {
                    Ok(
                        (
                            spec_new_tracker(
                                caller,
                                position_mint,
                                whirlpool,
                                handle_a,
                                handle_b,
                                tick_lower_index,
                                tick_upper_index,
                                tracker_bump,
                                now,
                            ),
                            PositionCreated {
                                user: caller,
                                position_mint,
                                whirlpool,
                                tick_lower: tick_lower_index,
                                tick_upper: tick_upper_index,
                                liquidity: liquidity_amount,
                                timestamp: now,
                            },
                        ),
                    )
                }
            },
        }
    }
}

/// Run the create-position flow against the given collaborator
/// outcomes.  On success the new ledger and the completion event come
/// back and the custody's position count is bumped; on any refusal the
/// custody is left exactly as it was.
pub fn handler(
    config: &VaultConfig,
    vault: &mut VaultPDA,
    caller: Pubkey,
    position_mint: Pubkey,
    whirlpool: Pubkey,
    calls: CreateCalls,
    tick_lower_index: i32,
    tick_upper_index: i32,
    liquidity_amount: u128,
    token_max_a: u64,
    token_max_b: u64,
    max_slippage_bps: Option<u16>,
    tracker_bump: u8,
    now: i64,
) -> (r: Result<(PositionTracker, PositionCreated), FlowError>)
    requires
        tick_lower_index < tick_upper_index,
    ensures
        r == spec_create_outcome(
            *config,
            *old(vault),
            caller,
            position_mint,
            whirlpool,
            calls,
            tick_lower_index,
            tick_upper_index,
            liquidity_amount,
            token_max_a,
            token_max_b,
            max_slippage_bps,
            tracker_bump,
            now,
        ),
        r is Ok ==> *final(vault) == (VaultPDA {
            position_count: if old(vault).position_count == u32::MAX {
                u32::MAX
            } else {
                (old(vault).position_count + 1) as u32
            },
            ..*old(vault)
        }),
        r is Err ==> *final(vault) == *old(vault),
        r is Ok ==> r.unwrap().0.wf(),
        old(vault).locked == false ==> final(vault).locked == false,
{
    if !(caller == vault.owner) {
        return Err(FlowError::Create(CreatePositionError::InvalidOwner));
    }
    if let Err(e) = config.require_not_paused() {
        return Err(FlowError::Config(e));
    }
    if let Err(e) = config.validate_liquidity(liquidity_amount) {
        return Err(FlowError::Config(e));
    }
    if let Err(e) = vault.lock() {
        return Err(FlowError::Custody(e));
    }
    // From here on, a refusal aborts the flow; the hosting transaction
    // model rolls the lock acquisition back together with everything
    // else, which releasing it before returning reproduces.
    let handle_a = match calls.enc_a {
        Ok(h) => h,
        Err(e) => {
            vault.unlock();
            return Err(FlowError::Enc(e));
        },
    };
    let handle_b = match calls.enc_b {
        Ok(h) => h,
        Err(e) => {
            vault.unlock();
            return Err(FlowError::Enc(e));
        },
    };
    if let Err(e) = calls.open_res {
        vault.unlock();
        return Err(FlowError::Pool(e));
    }
    let bps = resolve_slippage(config.default_max_slippage_bps, max_slippage_bps);
    let _max_a_with_slippage: u64 = match apply_slippage_bps(token_max_a, bps) {
        Some(v) => v,
        None => {
            vault.unlock();
            return Err(FlowError::Create(CreatePositionError::Overflow));
        },
    };
    let _max_b_with_slippage: u64 = match apply_slippage_bps(token_max_b, bps) {
        Some(v) => v,
        None => {
            vault.unlock();
            return Err(FlowError::Create(CreatePositionError::Overflow));
        },
    };
    // The deposit call carries `liquidity_amount` bounded by the two
    // slippage-adjusted maxima on the wire.
    if let Err(e) = calls.deposit_res {
        vault.unlock();
        return Err(FlowError::Pool(e));
    }
    let tracker = PositionTracker {
        user: caller,
        lp_position_mint: position_mint,
        whirlpool,
        encrypted_deposit_a: handle_a,
        encrypted_deposit_b: handle_b,
        deposit_timestamp: now,
        encrypted_realized_profit_a: Handle::none(),
        encrypted_realized_profit_b: Handle::none(),
        encrypted_reward_0: Handle::none(),
        encrypted_reward_1: 0,
        encrypted_reward_2: 0,
        tick_lower: tick_lower_index,
        tick_upper: tick_upper_index,
        rebalance_count: 0,
        last_update: now,
        bump: tracker_bump,
    };
    vault.increment_position_count();
    vault.unlock();
    let event = PositionCreated {
        user: caller,
        position_mint,
        whirlpool,
        tick_lower: tick_lower_index,
        tick_upper: tick_upper_index,
        liquidity: liquidity_amount,
        timestamp: now,
    };
    Ok((tracker, event))
}

} // verus!
