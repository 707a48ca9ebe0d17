//! The library-wide laws, stated and proved once over the flow
//! outcomes.
//!
//! Each flow handler already pins its exact outcome to a spec-level
//! outcome function and guarantees that a refused flow changes nothing.
//! These lemmas state the cross-cutting laws over those outcome
//! functions, so they hold of every call of every flow.

use vstd::prelude::*;
use crate::admin::admin_gate_ok;
use crate::admin::spec_rotated;
use crate::collect_profits::BalanceDelta;
use crate::collect_profits::CollectCalls;
use crate::collect_profits::spec_collect_outcome;
use crate::create_position::CreateCalls;
use crate::create_position::spec_create_outcome;
use crate::errors::FlowError;
use crate::keys::Pubkey;
use crate::position_tracker::PositionTracker;
use crate::rebalance::RebalanceCalls;
use crate::rebalance::spec_rebalance_outcome;
use crate::vault_config::ConfigError;
use crate::vault_config::VaultConfig;
use crate::vault_pda::VaultError;
use crate::vault_pda::VaultPDA;
use crate::withdraw_position::WithdrawCalls;
use crate::withdraw_position::spec_withdraw_outcome;

verus! {

/// While the vault is paused, every fund-moving flow an owner attempts
/// is refused with `VaultPaused` — whatever its other inputs, so no
/// collaborator outcome can smuggle a flow past the pause switch.
/// Each handler separately guarantees that a refused flow changes no
/// custody or ledger state.
pub proof fn lemma_paused_rejects_flows(
    config: VaultConfig,
    vault: VaultPDA,
    tracker: PositionTracker,
    caller: Pubkey,
    position_mint: Pubkey,
    whirlpool: Pubkey,
    create_calls: CreateCalls,
    collect_calls: CollectCalls,
    withdraw_calls: WithdrawCalls,
    rebalance_calls: RebalanceCalls,
    tick_lower: i32,
    tick_upper: i32,
    liquidity_amount: u128,
    token_max_a: u64,
    token_max_b: u64,
    token_min_a: u64,
    token_min_b: u64,
    max_slippage_bps: Option<u16>,
    close_position: bool,
    current_liquidity: u128,
    new_liquidity: u128,
    balance_a: u64,
    balance_b: u64,
    delta_a: BalanceDelta,
    delta_b: BalanceDelta,
    tracker_bump: u8,
    now: i64,
)
    requires
        config.paused,
        caller == vault.owner,
        caller == tracker.user,
        config.min_liquidity <= liquidity_amount <= config.max_liquidity,
    ensures
        spec_create_outcome(
            config,
            vault,
            caller,
            position_mint,
            whirlpool,
            create_calls,
            tick_lower,
            tick_upper,
            liquidity_amount,
            token_max_a,
            token_max_b,
            max_slippage_bps,
            tracker_bump,
            now,
        ) == Err::<(PositionTracker, crate::create_position::PositionCreated), FlowError>(
            FlowError::Config(ConfigError::VaultPaused),
        ),
        spec_collect_outcome(
            config,
            vault,
            tracker,
            caller,
            collect_calls,
            delta_a,
            delta_b,
            now,
        ) == Err::<crate::collect_profits::ProfitCollected, FlowError>(
            FlowError::Config(ConfigError::VaultPaused),
        ),
        spec_withdraw_outcome(
            config,
            vault,
            tracker,
            caller,
            position_mint,
            withdraw_calls,
            liquidity_amount,
            close_position,
            delta_a,
            delta_b,
            now,
        ) == Err::<crate::withdraw_position::PositionWithdrawn, FlowError>(
            FlowError::Config(ConfigError::VaultPaused),
        ),
        spec_rebalance_outcome(
            config,
            vault,
            tracker,
            caller,
            position_mint,
            rebalance_calls,
            tick_lower,
            tick_upper,
            max_slippage_bps,
            current_liquidity,
            new_liquidity,
            balance_a,
            balance_b,
            now,
        ) == Err::<crate::rebalance::PositionRebalanced, FlowError>(
            FlowError::Config(ConfigError::VaultPaused),
        ),
{
}

/// While one flow holds a custody's lock, every further flow an owner
/// attempts on that custody is refused with `VaultLocked`, immediately
/// and without blocking — whatever its other inputs.  Each handler
/// separately guarantees that a refused flow changes nothing, and that
/// a custody that enters a flow unlocked leaves it unlocked whether the
/// flow commits or aborts.
pub proof fn lemma_locked_excludes_second_flow(
    config: VaultConfig,
    vault: VaultPDA,
    tracker: PositionTracker,
    caller: Pubkey,
    position_mint: Pubkey,
    whirlpool: Pubkey,
    create_calls: CreateCalls,
    collect_calls: CollectCalls,
    withdraw_calls: WithdrawCalls,
    rebalance_calls: RebalanceCalls,
    tick_lower: i32,
    tick_upper: i32,
    liquidity_amount: u128,
    token_max_a: u64,
    token_max_b: u64,
    max_slippage_bps: Option<u16>,
    close_position: bool,
    current_liquidity: u128,
    new_liquidity: u128,
    balance_a: u64,
    balance_b: u64,
    delta_a: BalanceDelta,
    delta_b: BalanceDelta,
    tracker_bump: u8,
    now: i64,
)
    requires
        vault.locked,
        !config.paused,
        caller == vault.owner,
        caller == tracker.user,
        config.min_liquidity <= liquidity_amount <= config.max_liquidity,
    ensures
        spec_create_outcome(
            config,
            vault,
            caller,
            position_mint,
            whirlpool,
            create_calls,
            tick_lower,
            tick_upper,
            liquidity_amount,
            token_max_a,
            token_max_b,
            max_slippage_bps,
            tracker_bump,
            now,
        ) == Err::<(PositionTracker, crate::create_position::PositionCreated), FlowError>(
            FlowError::Custody(VaultError::VaultLocked),
        ),
        spec_collect_outcome(
            config,
            vault,
            tracker,
            caller,
            collect_calls,
            delta_a,
            delta_b,
            now,
        ) == Err::<crate::collect_profits::ProfitCollected, FlowError>(
            FlowError::Custody(VaultError::VaultLocked),
        ),
        spec_withdraw_outcome(
            config,
            vault,
            tracker,
            caller,
            position_mint,
            withdraw_calls,
            liquidity_amount,
            close_position,
            delta_a,
            delta_b,
            now,
        ) == Err::<crate::withdraw_position::PositionWithdrawn, FlowError>(
            FlowError::Custody(VaultError::VaultLocked),
        ),
        spec_rebalance_outcome(
            config,
            vault,
            tracker,
            caller,
            position_mint,
            rebalance_calls,
            tick_lower,
            tick_upper,
            max_slippage_bps,
            current_liquidity,
            new_liquidity,
            balance_a,
            balance_b,
            now,
        ) == Err::<crate::rebalance::PositionRebalanced, FlowError>(
            FlowError::Custody(VaultError::VaultLocked),
        ),
{
}

/// A completed admin rotation transfers every admin-gated capability:
/// the accepting principal holds admin authority afterwards, and the
/// previous admin — when distinct — no longer passes the admin check
/// anywhere it is consulted.
pub proof fn lemma_admin_rotation_revokes(config: VaultConfig, accepted: Pubkey)
    requires
        accepted == config.pending_admin,
    ensures
        admin_gate_ok(spec_rotated(config, accepted), accepted),
        config.admin != accepted ==> !admin_gate_ok(spec_rotated(config, accepted), config.admin),
{
}

/// A rebalance commits the replacement receipt and tick range exactly
/// when the opening of the replacement was confirmed: a flow whose
/// open call failed can only be refused, and the handler separately
/// guarantees that a refused flow leaves the ledger pointing at the old
/// receipt with its rebalance count untouched.
pub proof fn lemma_rebalance_commits_only_when_opened(
    config: VaultConfig,
    vault: VaultPDA,
    tracker: PositionTracker,
    caller: Pubkey,
    new_position_mint: Pubkey,
    calls: RebalanceCalls,
    new_tick_lower: i32,
    new_tick_upper: i32,
    max_slippage_bps: Option<u16>,
    current_liquidity: u128,
    new_liquidity: u128,
    balance_a: u64,
    balance_b: u64,
    now: i64,
)
    ensures
        spec_rebalance_outcome(
            config,
            vault,
            tracker,
            caller,
            new_position_mint,
            calls,
            new_tick_lower,
            new_tick_upper,
            max_slippage_bps,
            current_liquidity,
            new_liquidity,
            balance_a,
            balance_b,
            now,
        ) is Ok ==> calls.open_res is Ok,
        calls.open_res is Err ==> spec_rebalance_outcome(
            config,
            vault,
            tracker,
            caller,
            new_position_mint,
            calls,
            new_tick_lower,
            new_tick_upper,
            max_slippage_bps,
            current_liquidity,
            new_liquidity,
            balance_a,
            balance_b,
            now,
        ) is Err,
{
}

} // verus!
