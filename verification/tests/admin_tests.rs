//! Admin operations: rotation, pause, parameters.

use inco_vault::admin::{
    handler_accept_admin, handler_pause, handler_propose_admin, handler_unpause,
    handler_update_params, AdminError,
};
use inco_vault::initialize::{handler_init_config, handler_init_vault};
use inco_vault::keys::Pubkey;

fn key(n: u8) -> Pubkey {
    Pubkey([n; 32])
}

#[test]
fn init_config_defaults() {
    let config = handler_init_config(key(1), 7);
    assert_eq!(config.admin, key(1));
    assert_eq!(config.pending_admin, key(0));
    assert!(!config.paused);
    assert_eq!(config.pause_timestamp, 0);
    assert_eq!(config.default_max_slippage_bps, 100);
    assert_eq!(config.min_liquidity, 1_000);
    assert_eq!(config.max_liquidity, 1_000_000_000_000_000);
    assert_eq!(config.bump, 7);
}

#[test]
fn init_vault_defaults() {
    let vault = handler_init_vault(key(9), 3);
    assert_eq!(vault.owner, key(9));
    assert!(!vault.locked);
    assert_eq!(vault.position_count, 0);
    assert_eq!(vault.bump, 3);
}

#[test]
fn pause_requires_admin() {
    let mut config = handler_init_config(key(1), 0);
    let r = handler_pause(&mut config, key(2), 50);
    assert!(matches!(r, Err(AdminError::Unauthorized)));
    assert!(!config.paused);

    let ev = handler_pause(&mut config, key(1), 50).unwrap();
    assert!(config.paused);
    assert_eq!(config.pause_timestamp, 50);
    assert_eq!(ev.admin, key(1));
    assert_eq!(ev.timestamp, 50);
}

#[test]
fn unpause_requires_admin_and_clears_timestamp() {
    let mut config = handler_init_config(key(1), 0);
    handler_pause(&mut config, key(1), 50).unwrap();
    let r = handler_unpause(&mut config, key(2), 60);
    assert!(matches!(r, Err(AdminError::Unauthorized)));
    assert!(config.paused);

    let ev = handler_unpause(&mut config, key(1), 60).unwrap();
    assert!(!config.paused);
    assert_eq!(config.pause_timestamp, 0);
    assert_eq!(ev.admin, key(1));
}

#[test]
fn propose_requires_admin_and_changes_no_authority() {
    let mut config = handler_init_config(key(1), 0);
    let r = handler_propose_admin(&mut config, key(2), key(2), 10);
    assert!(matches!(r, Err(AdminError::Unauthorized)));
    assert_eq!(config.pending_admin, key(0));

    let ev = handler_propose_admin(&mut config, key(1), key(2), 10).unwrap();
    assert_eq!(config.admin, key(1));
    assert_eq!(config.pending_admin, key(2));
    assert_eq!(ev.current_admin, key(1));
    assert_eq!(ev.proposed_admin, key(2));

    // A proposal alone never changes authority.
    assert!(matches!(
        handler_pause(&mut config, key(2), 11),
        Err(AdminError::Unauthorized)
    ));
}

#[test]
fn accept_admin_requires_exact_pending() {
    let mut config = handler_init_config(key(1), 0);
    handler_propose_admin(&mut config, key(1), key(2), 10).unwrap();

    let r = handler_accept_admin(&mut config, key(3), 20);
    assert!(matches!(r, Err(AdminError::NotPendingAdmin)));
    assert_eq!(config.admin, key(1));

    // The current admin cannot accept either.
    let r = handler_accept_admin(&mut config, key(1), 20);
    assert!(matches!(r, Err(AdminError::NotPendingAdmin)));

    let ev = handler_accept_admin(&mut config, key(2), 20).unwrap();
    assert_eq!(config.admin, key(2));
    assert_eq!(config.pending_admin, key(0));
    assert_eq!(ev.old_admin, key(1));
    assert_eq!(ev.new_admin, key(2));
}

#[test]
fn rotation_revokes_old_admin() {
    let mut config = handler_init_config(key(1), 0);
    handler_propose_admin(&mut config, key(1), key(2), 10).unwrap();
    handler_accept_admin(&mut config, key(2), 20).unwrap();

    // The old admin lost every admin-gated capability.
    assert!(matches!(
        handler_pause(&mut config, key(1), 30),
        Err(AdminError::Unauthorized)
    ));
    assert!(matches!(
        handler_unpause(&mut config, key(1), 30),
        Err(AdminError::Unauthorized)
    ));
    assert!(matches!(
        handler_propose_admin(&mut config, key(1), key(1), 30),
        Err(AdminError::Unauthorized)
    ));
    assert!(matches!(
        handler_update_params(&mut config, key(1), Some(50), None, None),
        Err(AdminError::Unauthorized)
    ));

    // The new admin holds them.
    handler_pause(&mut config, key(2), 30).unwrap();
    handler_unpause(&mut config, key(2), 31).unwrap();
}

#[test]
fn update_params_accepts_the_slippage_ceiling() {
    let mut config = handler_init_config(key(1), 0);
    handler_update_params(&mut config, key(1), Some(10000), None, None).unwrap();
    assert_eq!(config.default_max_slippage_bps, 10000);
}

#[test]
fn update_params_rejects_slippage_above_the_ceiling() {
    let mut config = handler_init_config(key(1), 0);
    let r = handler_update_params(&mut config, key(1), Some(10001), None, None);
    assert!(matches!(r, Err(AdminError::InvalidSlippage)));
    assert_eq!(config.default_max_slippage_bps, 100);
}

#[test]
fn update_params_requires_max_above_min() {
    let mut config = handler_init_config(key(1), 0);
    let r = handler_update_params(&mut config, key(1), None, Some(500), Some(500));
    assert!(matches!(r, Err(AdminError::InvalidLiquidityBounds)));
    assert_eq!(config.min_liquidity, 1_000);
    assert_eq!(config.max_liquidity, 1_000_000_000_000_000);

    handler_update_params(&mut config, key(1), None, Some(500), Some(501)).unwrap();
    assert_eq!(config.min_liquidity, 500);
    assert_eq!(config.max_liquidity, 501);
}

#[test]
fn update_params_checks_new_max_against_new_min() {
    let mut config = handler_init_config(key(1), 0);
    // The new maximum is measured against the just-updated minimum.
    let r = handler_update_params(&mut config, key(1), None, Some(2_000_000), Some(1_999_999));
    assert!(matches!(r, Err(AdminError::InvalidLiquidityBounds)));
    assert_eq!(config.min_liquidity, 1_000);
}
