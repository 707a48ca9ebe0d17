//! Creation of the two singletons: the global configuration and a
//! user's custody record.

use vstd::prelude::*;
use crate::keys::Pubkey;
use crate::keys::spec_zero_key;
use crate::vault_config::VaultConfig;
use crate::vault_config::DEFAULT_MAX_SLIPPAGE_BPS;
use crate::vault_config::DEFAULT_MIN_LIQUIDITY;
use crate::vault_config::DEFAULT_MAX_LIQUIDITY;
use crate::vault_pda::VaultPDA;

verus! {

/// Create the global configuration with its defaults, unpaused, with no
/// pending admin.
pub fn handler_init_config(admin: Pubkey, bump: u8) -> (r: VaultConfig)
    ensures
        r == (VaultConfig {
            admin,
            pending_admin: spec_zero_key(),
            paused: false,
            pause_timestamp: 0,
            default_max_slippage_bps: DEFAULT_MAX_SLIPPAGE_BPS,
            min_liquidity: DEFAULT_MIN_LIQUIDITY,
            max_liquidity: DEFAULT_MAX_LIQUIDITY,
            bump,
        }),
        r.wf(),
{
    VaultConfig {
        admin,
        pending_admin: Pubkey::zero(),
        paused: false,
        pause_timestamp: 0,
        default_max_slippage_bps: DEFAULT_MAX_SLIPPAGE_BPS,
        min_liquidity: DEFAULT_MIN_LIQUIDITY,
        max_liquidity: DEFAULT_MAX_LIQUIDITY,
        bump,
    }
}

/// Create a user's custody record: unlocked, no positions.
pub fn handler_init_vault(owner: Pubkey, bump: u8) -> (r: VaultPDA)
    ensures
        r == (VaultPDA { owner, locked: false, position_count: 0u32, bump }),
{
    VaultPDA { owner, locked: false, position_count: 0, bump }
}

} // verus!
