//! The state records and identifiers directly.

use inco_vault::handle::Handle;
use inco_vault::keys::{
    covalidator_key, ed25519_program_id, inco_lightning_id, whirlpool_program_id, Pubkey,
};
use inco_vault::position_tracker::PositionTracker;
use inco_vault::vault_config::{ConfigError, VaultConfig};
use inco_vault::vault_pda::VaultPDA;

fn key(n: u8) -> Pubkey {
    Pubkey([n; 32])
}

#[test]
fn program_identifiers_are_fixed_and_distinct() {
    assert_eq!(
        ed25519_program_id().0,
        [
            3, 125, 70, 214, 124, 147, 251, 190, 18, 249, 66, 143, 131, 141, 64, 255, 5, 112, 116,
            73, 39, 244, 138, 100, 252, 202, 112, 68, 128, 0, 0, 0,
        ]
    );
    assert_eq!(
        inco_lightning_id().0,
        [
            72, 109, 138, 238, 163, 139, 180, 197, 134, 126, 79, 99, 196, 95, 65, 212, 87, 50, 11,
            181, 166, 87, 194, 215, 222, 102, 28, 190, 163, 126, 167, 52,
        ]
    );
    assert_eq!(
        whirlpool_program_id().0,
        [
            14, 3, 104, 95, 142, 144, 144, 83, 228, 88, 18, 28, 102, 245, 167, 106, 237, 199, 112,
            106, 161, 28, 130, 248, 170, 149, 42, 143, 43, 120, 121, 169,
        ]
    );
    assert_ne!(ed25519_program_id(), inco_lightning_id());
    assert_ne!(ed25519_program_id(), whirlpool_program_id());
    assert_ne!(inco_lightning_id(), whirlpool_program_id());
    assert_eq!(covalidator_key(), Pubkey::zero());
}

#[test]
fn pubkey_equality_is_by_bytes() {
    assert_eq!(key(5), key(5));
    assert_ne!(key(5), key(6));
    let mut a = [7u8; 32];
    a[31] = 8;
    assert_ne!(Pubkey(a), key(7));
}

#[test]
fn config_record_round_trip() {
    let mut config = VaultConfig {
        admin: key(0),
        pending_admin: key(0),
        paused: true,
        pause_timestamp: 9,
        default_max_slippage_bps: 0,
        min_liquidity: 0,
        max_liquidity: 0,
        bump: 0,
    };
    config.initialize(key(1), 5);
    assert_eq!(config.admin, key(1));
    assert!(!config.paused);
    assert_eq!(config.bump, 5);

    config.pause(33);
    assert!(config.paused);
    assert_eq!(config.pause_timestamp, 33);
    assert!(matches!(
        config.require_not_paused(),
        Err(ConfigError::VaultPaused)
    ));
    config.unpause();
    assert!(config.require_not_paused().is_ok());

    config.propose_admin(key(2));
    assert!(matches!(
        config.accept_admin(key(3)),
        Err(ConfigError::NotPendingAdmin)
    ));
    config.accept_admin(key(2)).unwrap();
    assert_eq!(config.admin, key(2));
    assert_eq!(config.pending_admin, key(0));
}

#[test]
fn liquidity_window_is_inclusive() {
    let mut config = VaultConfig {
        admin: key(1),
        pending_admin: key(0),
        paused: false,
        pause_timestamp: 0,
        default_max_slippage_bps: 100,
        min_liquidity: 0,
        max_liquidity: 0,
        bump: 0,
    };
    config.initialize(key(1), 0);
    assert!(matches!(
        config.validate_liquidity(999),
        Err(ConfigError::LiquidityTooLow)
    ));
    assert!(config.validate_liquidity(1_000).is_ok());
    assert!(config.validate_liquidity(1_000_000_000_000_000).is_ok());
    assert!(matches!(
        config.validate_liquidity(1_000_000_000_000_001),
        Err(ConfigError::LiquidityTooHigh)
    ));
}

#[test]
fn tracker_initialize_zeroes_accumulators() {
    let mut tracker = PositionTracker {
        user: key(0),
        lp_position_mint: key(0),
        whirlpool: key(0),
        encrypted_deposit_a: Handle(9),
        encrypted_deposit_b: Handle(9),
        deposit_timestamp: 9,
        encrypted_realized_profit_a: Handle(9),
        encrypted_realized_profit_b: Handle(9),
        encrypted_reward_0: Handle(9),
        encrypted_reward_1: 9,
        encrypted_reward_2: 9,
        tick_lower: 0,
        tick_upper: 1,
        rebalance_count: 9,
        last_update: 9,
        bump: 0,
    };
    tracker.initialize(key(1), key(2), key(3), Handle(41), Handle(42), -30, 30, 6, 500);
    assert_eq!(tracker.user, key(1));
    assert_eq!(tracker.lp_position_mint, key(2));
    assert_eq!(tracker.whirlpool, key(3));
    assert_eq!(tracker.encrypted_deposit_a, Handle(41));
    assert_eq!(tracker.encrypted_deposit_b, Handle(42));
    assert_eq!(tracker.encrypted_realized_profit_a, Handle(0));
    assert_eq!(tracker.encrypted_realized_profit_b, Handle(0));
    assert_eq!(tracker.encrypted_reward_0, Handle(0));
    assert_eq!(tracker.encrypted_reward_1, 0);
    assert_eq!(tracker.encrypted_reward_2, 0);
    assert_eq!((tracker.tick_lower, tracker.tick_upper), (-30, 30));
    assert_eq!(tracker.rebalance_count, 0);
    assert_eq!(tracker.deposit_timestamp, 500);
    assert_eq!(tracker.last_update, 500);
    assert_eq!(tracker.bump, 6);

    tracker.update_after_rebalance(key(4), -60, 60, 600);
    assert_eq!(tracker.lp_position_mint, key(4));
    assert_eq!((tracker.tick_lower, tracker.tick_upper), (-60, 60));
    assert_eq!(tracker.rebalance_count, 1);
    assert_eq!(tracker.last_update, 600);
    // The deposit record is untouched by a rebalance.
    assert_eq!(tracker.encrypted_deposit_a, Handle(41));
    assert_eq!(tracker.deposit_timestamp, 500);
}

#[test]
fn vault_record_initialize() {
    let mut vault = VaultPDA {
        owner: key(0),
        locked: true,
        position_count: 9,
        bump: 0,
    };
    vault.initialize(key(1), 2);
    assert_eq!(vault.owner, key(1));
    assert!(!vault.locked);
    assert_eq!(vault.position_count, 0);
    assert_eq!(vault.bump, 2);
}

#[test]
fn handle_none_is_the_zero_handle() {
    assert_eq!(Handle::none(), Handle(0));
}
