//! Admin operations: pause, unpause, two-step rotation, parameters.
//!
//! Every operation here is gated on the caller's identity.  Rotation is
//! strictly two-step: a proposal alone never changes authority; only an
//! acceptance by the exact proposed principal completes it.

use vstd::prelude::*;
use crate::keys::Pubkey;
use crate::keys::spec_zero_key;
use crate::vault_config::VaultConfig;

verus! {

/// Errors of the admin operations.
#[derive(Clone, Copy, Debug, PartialEq, Eq, Structural)]
pub enum AdminError {
    /// The caller is not the admin.
    Unauthorized,
    /// The caller is not the pending admin.
    NotPendingAdmin,
    /// A slippage above one whole unit was supplied.
    InvalidSlippage,
    /// The liquidity bounds would not leave a non-empty window.
    InvalidLiquidityBounds,
}

/// Emitted when the vault is paused.
#[derive(Debug)]
pub struct VaultPaused {
    pub admin: Pubkey,
    pub timestamp: i64,
}

/// Emitted when the vault is unpaused.
#[derive(Debug)]
pub struct VaultUnpaused {
    pub admin: Pubkey,
    pub timestamp: i64,
}

/// Emitted when a new admin is proposed.
#[derive(Debug)]
pub struct AdminProposed {
    pub current_admin: Pubkey,
    pub proposed_admin: Pubkey,
    pub timestamp: i64,
}

/// Emitted when a rotation completes.
#[derive(Debug)]
pub struct AdminRotated {
    pub old_admin: Pubkey,
    pub new_admin: Pubkey,
    pub timestamp: i64,
}

/// Whether a caller holds admin authority over this configuration.
pub open spec fn admin_gate_ok(config: VaultConfig, caller: Pubkey) -> bool {
    caller == config.admin
}

/// The configuration after a completed rotation to `new_admin`.
pub open spec fn spec_rotated(config: VaultConfig, new_admin: Pubkey) -> VaultConfig {
    VaultConfig { admin: new_admin, pending_admin: spec_zero_key(), ..config }
}

/// Pause the vault; admin only.
pub fn handler_pause(config: &mut VaultConfig, caller: Pubkey, now: i64) -> (r: Result<
    VaultPaused,
    AdminError,
>)
    ensures
        r is Ok <==> admin_gate_ok(*old(config), caller),
        r is Ok ==> *final(config) == (VaultConfig {
            paused: true,
            pause_timestamp: now,
            ..*old(config)
        }) && r.unwrap() == (VaultPaused { admin: caller, timestamp: now }),
        r is Err ==> *final(config) == *old(config) && r == Err::<VaultPaused, AdminError>(
            AdminError::Unauthorized,
        ),
{
    if !(caller == config.admin) {
        return Err(AdminError::Unauthorized);
    }
    config.pause(now);
    Ok(VaultPaused { admin: caller, timestamp: now })
}

/// Unpause the vault; admin only.
pub fn handler_unpause(config: &mut VaultConfig, caller: Pubkey, now: i64) -> (r: Result<
    VaultUnpaused,
    AdminError,
>)
    ensures
        r is Ok <==> admin_gate_ok(*old(config), caller),
        r is Ok ==> *final(config) == (VaultConfig {
            paused: false,
            pause_timestamp: 0,
            ..*old(config)
        }) && r.unwrap() == (VaultUnpaused { admin: caller, timestamp: now }),
        r is Err ==> *final(config) == *old(config) && r == Err::<VaultUnpaused, AdminError>(
            AdminError::Unauthorized,
        ),
{
    if !(caller == config.admin) {
        return Err(AdminError::Unauthorized);
    }
    config.unpause();
    Ok(VaultUnpaused { admin: caller, timestamp: now })
}

/// Record a rotation proposal; admin only, changes no authority.
pub fn handler_propose_admin(
    config: &mut VaultConfig,
    caller: Pubkey,
    new_admin: Pubkey,
    now: i64,
) -> (r: Result<AdminProposed, AdminError>)
    ensures
        r is Ok <==> admin_gate_ok(*old(config), caller),
        r is Ok ==> *final(config) == (VaultConfig { pending_admin: new_admin, ..*old(config) })
            && r.unwrap() == (AdminProposed {
            current_admin: caller,
            proposed_admin: new_admin,
            timestamp: now,
        }),
        r is Err ==> *final(config) == *old(config) && r == Err::<AdminProposed, AdminError>(
            AdminError::Unauthorized,
        ),
{
    if !(caller == config.admin) {
        return Err(AdminError::Unauthorized);
    }
    config.propose_admin(new_admin);
    Ok(AdminProposed { current_admin: caller, proposed_admin: new_admin, timestamp: now })
}

/// Complete a rotation; callable only by the exact pending admin.
pub fn handler_accept_admin(config: &mut VaultConfig, caller: Pubkey, now: i64) -> (r: Result<
    AdminRotated,
    AdminError,
>)
    ensures
        r is Ok <==> caller == old(config).pending_admin,
        r is Ok ==> *final(config) == spec_rotated(*old(config), caller) && r.unwrap()
            == (AdminRotated { old_admin: old(config).admin, new_admin: caller, timestamp: now }),
        r is Err ==> *final(config) == *old(config) && r == Err::<AdminRotated, AdminError>(
            AdminError::NotPendingAdmin,
        ),
{
    let old_admin = config.admin;
    match config.accept_admin(caller) {
        Ok(()) => Ok(AdminRotated { old_admin, new_admin: caller, timestamp: now }),
        Err(_) => Err(AdminError::NotPendingAdmin),
    }
}

/// The configuration after a parameter update, before validity checks.
pub open spec fn spec_updated_params(
    config: VaultConfig,
    max_slippage_bps: Option<u16>,
    min_liquidity: Option<u128>,
    max_liquidity: Option<u128>,
) -> VaultConfig {
    VaultConfig {
        default_max_slippage_bps: match max_slippage_bps {
            Some(s) => s,
            None => config.default_max_slippage_bps,
        },
        min_liquidity: match min_liquidity {
            Some(m) => m,
            None => config.min_liquidity,
        },
        max_liquidity: match max_liquidity {
            Some(m) => m,
            None => config.max_liquidity,
        },
        ..config
    }
}

/// Update protocol parameters; admin only.  A slippage above 10000 basis
/// points is refused, and whenever a new maximum is set it must exceed
/// the (possibly just updated) minimum.  On any refusal nothing changes.
pub fn handler_update_params(
    config: &mut VaultConfig,
    caller: Pubkey,
    max_slippage_bps: Option<u16>,
    min_liquidity: Option<u128>,
    max_liquidity: Option<u128>,
) -> (r: Result<(), AdminError>)
    ensures
        r is Ok <==> {
            &&& admin_gate_ok(*old(config), caller)
            &&& (max_slippage_bps matches Some(s) ==> s <= 10000)
            &&& (max_liquidity matches Some(m) ==> m > spec_updated_params(
                *old(config),
                max_slippage_bps,
                min_liquidity,
                max_liquidity,
            ).min_liquidity)
        },
        r is Ok ==> *final(config) == spec_updated_params(
            *old(config),
            max_slippage_bps,
            min_liquidity,
            max_liquidity,
        ),
        r is Err ==> *final(config) == *old(config),
        !admin_gate_ok(*old(config), caller) ==> r == Err::<(), AdminError>(
            AdminError::Unauthorized,
        ),
        admin_gate_ok(*old(config), caller) && (max_slippage_bps matches Some(s) && s > 10000)
            ==> r == Err::<(), AdminError>(AdminError::InvalidSlippage),
        admin_gate_ok(*old(config), caller) && (max_slippage_bps matches Some(s) ==> s <= 10000)
            && (max_liquidity matches Some(m) && m <= spec_updated_params(
            *old(config),
            max_slippage_bps,
            min_liquidity,
            max_liquidity,
        ).min_liquidity) ==> r == Err::<(), AdminError>(AdminError::InvalidLiquidityBounds),
{
    if !(caller == config.admin) {
        return Err(AdminError::Unauthorized);
    }
    let new_slippage: u16 = match max_slippage_bps {
        Some(s) => {
            if s > 10000 {
                return Err(AdminError::InvalidSlippage);
            }
            s
        },
        None => config.default_max_slippage_bps,
    };
    let new_min: u128 = match min_liquidity {
        Some(m) => m,
        None => config.min_liquidity,
    };
    let new_max: u128 = match max_liquidity {
        Some(m) => {
            if m <= new_min {
                return Err(AdminError::InvalidLiquidityBounds);
            }
            m
        },
        None => config.max_liquidity,
    };
    config.default_max_slippage_bps = new_slippage;
    config.min_liquidity = new_min;
    config.max_liquidity = new_max;
    Ok(())
}

} // verus!
