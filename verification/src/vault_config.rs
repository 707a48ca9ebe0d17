//! Global configuration with emergency controls.
//!
//! One record gates every fund-moving flow: it names the admin (with a
//! two-step rotation), carries the pause switch, and holds the numeric
//! bounds the flows consult.

use vstd::prelude::*;
use crate::keys::Pubkey;
use crate::keys::spec_zero_key;

verus! {

/// Errors of the configuration gates.
#[derive(Clone, Copy, Debug, PartialEq, Eq, Structural)]
pub enum ConfigError {
    /// The vault is paused.
    VaultPaused,
    /// The caller is not the pending admin.
    NotPendingAdmin,
    /// The liquidity amount is under the configured minimum.
    LiquidityTooLow,
    /// The liquidity amount is over the configured maximum.
    LiquidityTooHigh,
}

/// Global vault configuration with emergency controls.
#[derive(Debug)]
pub struct VaultConfig {
    /// Current admin, who holds pause and parameter authority.
    pub admin: Pubkey,
    /// Pending admin of a two-step rotation; the zero key means none.
    pub pending_admin: Pubkey,
    /// Whether the vault is paused.
    pub paused: bool,
    /// When the vault was paused; zero when it is not.
    pub pause_timestamp: i64,
    /// Default maximum slippage in basis points (100 = 1%).
    pub default_max_slippage_bps: u16,
    /// Minimum liquidity per position (dust protection).
    pub min_liquidity: u128,
    /// Maximum liquidity per position (sanity cap).
    pub max_liquidity: u128,
    /// Derivation bump seed of the record's address.
    pub bump: u8,
}

/// Default minimum liquidity per position.
pub const DEFAULT_MIN_LIQUIDITY: u128 = 1_000;

/// Default maximum liquidity per position.
pub const DEFAULT_MAX_LIQUIDITY: u128 = 1_000_000_000_000_000;

/// Default maximum slippage (1%).
pub const DEFAULT_MAX_SLIPPAGE_BPS: u16 = 100;

impl VaultConfig {
    /// The numeric bounds are coherent: slippage stays within one whole
    /// unit and the liquidity window is non-empty.
    pub open spec fn wf(&self) -> bool {
        &&& self.default_max_slippage_bps <= 10000
        &&& self.min_liquidity < self.max_liquidity
    }

    /// Set up the configuration with its defaults and no pending admin.
    pub fn initialize(&mut self, admin: Pubkey, bump: u8)
        ensures
            final(self).admin == admin,
            final(self).pending_admin == spec_zero_key(),
            !final(self).paused,
            final(self).pause_timestamp == 0,
            final(self).default_max_slippage_bps == DEFAULT_MAX_SLIPPAGE_BPS,
            final(self).min_liquidity == DEFAULT_MIN_LIQUIDITY,
            final(self).max_liquidity == DEFAULT_MAX_LIQUIDITY,
            final(self).bump == bump,
            final(self).wf(),
    {
        self.admin = admin;
        self.pending_admin = Pubkey::zero();
        self.paused = false;
        self.pause_timestamp = 0;
        self.default_max_slippage_bps = DEFAULT_MAX_SLIPPAGE_BPS;
        self.min_liquidity = DEFAULT_MIN_LIQUIDITY;
        self.max_liquidity = DEFAULT_MAX_LIQUIDITY;
        self.bump = bump;
    }

    /// Pause the vault at the given time.
    pub fn pause(&mut self, now: i64)
        ensures
            *final(self) == (VaultConfig { paused: true, pause_timestamp: now, ..*old(self) }),
    {
        self.paused = true;
        self.pause_timestamp = now;
    }

    /// Unpause the vault.
    pub fn unpause(&mut self)
        ensures
            *final(self) == (VaultConfig { paused: false, pause_timestamp: 0, ..*old(self) }),
    {
        self.paused = false;
        self.pause_timestamp = 0;
    }

    /// Record a proposed admin; the first step of a rotation changes no
    /// authority.
    pub fn propose_admin(&mut self, new_admin: Pubkey)
        ensures
            *final(self) == (VaultConfig { pending_admin: new_admin, ..*old(self) }),
    {
        self.pending_admin = new_admin;
    }

    /// Complete a rotation: only the exact pending admin may take over,
    /// and the proposal slot is cleared.
    pub fn accept_admin(&mut self, new_admin: Pubkey) -> (r: Result<(), ConfigError>)
        ensures
            r is Ok <==> new_admin == old(self).pending_admin,
            r is Ok ==> *final(self) == (VaultConfig {
                admin: new_admin,
                pending_admin: spec_zero_key(),
                ..*old(self)
            }),
            r is Err ==> *final(self) == *old(self) && r == Err::<(), ConfigError>(
                ConfigError::NotPendingAdmin,
            ),
    {
        if !(self.pending_admin == new_admin) {
            return Err(ConfigError::NotPendingAdmin);
        }
        self.admin = new_admin;
        self.pending_admin = Pubkey::zero();
        Ok(())
    }

    /// Gate of every fund-moving flow: refuse when paused.
    pub fn require_not_paused(&self) -> (r: Result<(), ConfigError>)
        ensures
            r is Ok <==> !self.paused,
            r is Err ==> r == Err::<(), ConfigError>(ConfigError::VaultPaused),
    {
        if self.paused {
            return Err(ConfigError::VaultPaused);
        }
        Ok(())
    }

    /// Check a liquidity amount against the configured window.
    pub fn validate_liquidity(&self, amount: u128) -> (r: Result<(), ConfigError>)
        ensures
            r is Ok <==> self.min_liquidity <= amount <= self.max_liquidity,
            amount < self.min_liquidity ==> r == Err::<(), ConfigError>(
                ConfigError::LiquidityTooLow,
            ),
            amount >= self.min_liquidity && amount > self.max_liquidity ==> r == Err::<
                (),
                ConfigError,
            >(ConfigError::LiquidityTooHigh),
    {
        if amount < self.min_liquidity {
            return Err(ConfigError::LiquidityTooLow);
        }
        if amount > self.max_liquidity {
            return Err(ConfigError::LiquidityTooHigh);
        }
        Ok(())
    }
}

} // verus!
