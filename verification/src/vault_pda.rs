//! Per-user custody record with the reentrancy guard.
//!
//! One record per user custodies that user's tokens and position
//! receipts.  Its `locked` flag is non-blocking mutual exclusion: a second
//! flow attempted while one is in flight must fail at once, never queue.

use vstd::prelude::*;
use crate::keys::Pubkey;

verus! {

/// Errors of the custody record.
#[derive(Clone, Copy, Debug, PartialEq, Eq, Structural)]
pub enum VaultError {
    /// A flow is already in progress for this custody.
    VaultLocked,
}

/// Program-owned custody record for one user.
#[derive(Debug)]
pub struct VaultPDA {
    /// User who owns this custody.
    pub owner: Pubkey,
    /// Reentrancy guard: true exactly while one flow is in flight.
    pub locked: bool,
    /// Number of open positions created through this custody.
    pub position_count: u32,
    /// Derivation bump seed of the record's address.
    pub bump: u8,
}

impl VaultPDA {
    /// Set up a fresh custody record: unlocked, no positions.
    pub fn initialize(&mut self, owner: Pubkey, bump: u8)
        ensures
            *final(self) == (VaultPDA { owner, locked: false, position_count: 0, bump }),
    {
        self.owner = owner;
        self.locked = false;
        self.position_count = 0;
        self.bump = bump;
    }

    /// Acquire the guard: fails without blocking when a flow already
    /// holds it.
    pub fn lock(&mut self) -> (r: Result<(), VaultError>)
        ensures
            r is Ok <==> !old(self).locked,
            r is Ok ==> *final(self) == (VaultPDA { locked: true, ..*old(self) }),
            r is Err ==> *final(self) == *old(self) && r == Err::<(), VaultError>(
                VaultError::VaultLocked,
            ),
    {
        if self.locked {
            return Err(VaultError::VaultLocked);
        }
        self.locked = true;
        Ok(())
    }

    /// Release the guard unconditionally.
    pub fn unlock(&mut self)
        ensures
            *final(self) == (VaultPDA { locked: false, ..*old(self) }),
    {
        self.locked = false;
    }

    /// Count one more open position; saturates instead of wrapping.
    pub fn increment_position_count(&mut self)
        ensures
            *final(self) == (VaultPDA {
                position_count: if old(self).position_count == u32::MAX {
                    u32::MAX
                } else {
                    (old(self).position_count + 1) as u32
                },
                ..*old(self)
            }),
    {
        self.position_count = if self.position_count == u32::MAX {
            u32::MAX
        } else {
            self.position_count + 1
        };
    }

    /// Count one position closed; saturates at zero.
    pub fn decrement_position_count(&mut self)
        ensures
            *final(self) == (VaultPDA {
                position_count: if old(self).position_count == 0 {
                    0u32
                } else {
                    (old(self).position_count - 1) as u32
                },
                ..*old(self)
            }),
    {
        self.position_count = if self.position_count == 0 {
            0
        } else {
            self.position_count - 1
        };
    }
}

} // verus!
