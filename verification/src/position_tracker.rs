//! Per-position encrypted ledger.
//!
//! One record per open position carries the position receipt reference,
//! the encrypted deposit and profit accumulators, and the tick range.
//! Amounts on the handle path are only ever replaced by handles the
//! Encrypted Compute Service returns, never computed locally.
//!
//! Reward accounting is currently split: slot 0 and both fee legs go
//! through the encrypted-handle path, while slots 1 and 2 accumulate as
//! plain integers.  The types keep the two paths visibly apart rather
//! than paper over the asymmetry; uniform encrypted accounting across all
//! profit fields is the likely intended end state.

use vstd::prelude::*;
use crate::handle::Handle;
use crate::keys::Pubkey;

verus! {

/// The encrypted economic record of one open position.
#[derive(Debug)]
pub struct PositionTracker {
    /// User who owns this position.
    pub user: Pubkey,
    /// Mint of the receipt for the currently open position; replaced on
    /// rebalance.
    pub lp_position_mint: Pubkey,
    /// Pool this position is in.
    pub whirlpool: Pubkey,
    /// Handle for the encrypted token A deposit amount.
    pub encrypted_deposit_a: Handle,
    /// Handle for the encrypted token B deposit amount.
    pub encrypted_deposit_b: Handle,
    /// When the initial deposit was made.
    pub deposit_timestamp: i64,
    /// Handle for the encrypted token A realized profit.
    pub encrypted_realized_profit_a: Handle,
    /// Handle for the encrypted token B realized profit.
    pub encrypted_realized_profit_b: Handle,
    /// Handle for the encrypted reward 0 balance.
    pub encrypted_reward_0: Handle,
    /// Reward 1 balance, accumulated as a plain integer.
    pub encrypted_reward_1: u128,
    /// Reward 2 balance, accumulated as a plain integer.
    pub encrypted_reward_2: u128,
    /// Lower tick index of the position's range.
    pub tick_lower: i32,
    /// Upper tick index of the position's range.
    pub tick_upper: i32,
    /// How many times this position has been rebalanced; saturating.
    pub rebalance_count: u16,
    /// When the record last changed.
    pub last_update: i64,
    /// Derivation bump seed of the record's address.
    pub bump: u8,
}

impl PositionTracker {
    /// The tick range is a half-open interval and must be non-empty.
    pub open spec fn wf(&self) -> bool {
        self.tick_lower < self.tick_upper
    }

    /// Set up the ledger of a freshly opened position: the two deposit
    /// handles as delivered, every profit and reward accumulator at
    /// zero.
    pub fn initialize(
        &mut self,
        user: Pubkey,
        lp_position_mint: Pubkey,
        whirlpool: Pubkey,
        encrypted_deposit_a: Handle,
        encrypted_deposit_b: Handle,
        tick_lower: i32,
        tick_upper: i32,
        bump: u8,
        now: i64,
    )
        requires
            tick_lower < tick_upper,
        ensures
            *final(self) == (PositionTracker {
                user,
                lp_position_mint,
                whirlpool,
                encrypted_deposit_a,
                encrypted_deposit_b,
                deposit_timestamp: now,
                encrypted_realized_profit_a: Handle(0u128),
                encrypted_realized_profit_b: Handle(0u128),
                encrypted_reward_0: Handle(0u128),
                encrypted_reward_1: 0u128,
                encrypted_reward_2: 0u128,
                tick_lower,
                tick_upper,
                rebalance_count: 0u16,
                last_update: now,
                bump,
            }),
            final(self).wf(),
    {
        self.user = user;
        self.lp_position_mint = lp_position_mint;
        self.whirlpool = whirlpool;
        self.encrypted_deposit_a = encrypted_deposit_a;
        self.encrypted_deposit_b = encrypted_deposit_b;
        self.deposit_timestamp = now;
        self.encrypted_realized_profit_a = Handle::none();
        self.encrypted_realized_profit_b = Handle::none();
        self.encrypted_reward_0 = Handle::none();
        self.encrypted_reward_1 = 0;
        self.encrypted_reward_2 = 0;
        self.tick_lower = tick_lower;
        self.tick_upper = tick_upper;
        self.rebalance_count = 0;
        self.last_update = now;
        self.bump = bump;
    }

    /// Point the ledger at the replacement receipt and tick range after
    /// a rebalance; the rebalance counter saturates.
    pub fn update_after_rebalance(
        &mut self,
        new_lp_position_mint: Pubkey,
        new_tick_lower: i32,
        new_tick_upper: i32,
        now: i64,
    )
        requires
            new_tick_lower < new_tick_upper,
        ensures
            *final(self) == (PositionTracker {
                lp_position_mint: new_lp_position_mint,
                tick_lower: new_tick_lower,
                tick_upper: new_tick_upper,
                rebalance_count: if old(self).rebalance_count == u16::MAX {
                    u16::MAX
                } else {
                    (old(self).rebalance_count + 1) as u16
                },
                last_update: now,
                ..*old(self)
            }),
            final(self).wf(),
    {
        self.lp_position_mint = new_lp_position_mint;
        self.tick_lower = new_tick_lower;
        self.tick_upper = new_tick_upper;
        self.rebalance_count = if self.rebalance_count == u16::MAX {
            u16::MAX
        } else {
            self.rebalance_count + 1
        };
        self.last_update = now;
    }
}

} // verus!
