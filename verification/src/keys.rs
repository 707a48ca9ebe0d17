//! Principal and program identifiers.
//!
//! Every actor and collaborator of the vault is named by a 32-byte key.
//! The library never interprets a key; it only compares them, so the type
//! carries equality and nothing else.

use vstd::prelude::*;

verus! {

broadcast use vstd::array::group_array_axioms;

/// A 32-byte principal or program identifier.
#[derive(Clone, Copy, Debug)]
pub struct Pubkey(pub [u8; 32]);

/// The byte sequence of the all-zero key, which stands for "no principal".
pub open spec fn zero_key_bytes() -> Seq<u8> {
    Seq::new(32, |i: int| 0u8)
}

/// The all-zero key as a value.
pub open spec fn spec_zero_key() -> Pubkey {
    Pubkey(
        [
            0u8, 0, 0, 0, 0, 0, 0, 0, 0, 0, 0, 0, 0, 0, 0, 0, 0, 0, 0, 0, 0, 0, 0, 0, 0, 0, 0, 0,
            0, 0, 0, 0,
        ],
    )
}

impl Pubkey {
    /// The all-zero key.
    pub fn zero() -> (r: Pubkey)
        ensures
            r == spec_zero_key(),
            r.0@ == zero_key_bytes(),
    {
        let r = Pubkey(
            [
                0u8, 0, 0, 0, 0, 0, 0, 0, 0, 0, 0, 0, 0, 0, 0, 0, 0, 0, 0, 0, 0, 0, 0, 0, 0, 0, 0,
                0, 0, 0, 0, 0,
            ],
        );
        proof {
            assert(r.0@ =~= zero_key_bytes());
        }
        r
    }
}

/// The native Ed25519 signature-verification facility of the hosting
/// chain.  An attestation record is only trusted when it targets exactly
/// this program.
pub open spec fn spec_ed25519_program_id() -> Pubkey {
    Pubkey(
        [
            3u8, 125, 70, 214, 124, 147, 251, 190, 18, 249, 66, 143, 131, 141, 64, 255, 5, 112,
            116, 73, 39, 244, 138, 100, 252, 202, 112, 68, 128, 0, 0, 0,
        ],
    )
}

/// Executable copy of [`spec_ed25519_program_id`].
pub fn ed25519_program_id() -> (r: Pubkey)
    ensures
        r == spec_ed25519_program_id(),
{
    Pubkey(
        [
            3u8, 125, 70, 214, 124, 147, 251, 190, 18, 249, 66, 143, 131, 141, 64, 255, 5, 112,
            116, 73, 39, 244, 138, 100, 252, 202, 112, 68, 128, 0, 0, 0,
        ],
    )
}

/// The Encrypted Compute Service program.  Return data of a handle call
/// is only accepted when it is attributed to exactly this program.
pub open spec fn spec_inco_lightning_id() -> Pubkey {
    Pubkey(
        [
            72u8, 109, 138, 238, 163, 139, 180, 197, 134, 126, 79, 99, 196, 95, 65, 212, 87, 50,
            11, 181, 166, 87, 194, 215, 222, 102, 28, 190, 163, 126, 167, 52,
        ],
    )
}

/// Executable copy of [`spec_inco_lightning_id`].
pub fn inco_lightning_id() -> (r: Pubkey)
    ensures
        r == spec_inco_lightning_id(),
{
    Pubkey(
        [
            72u8, 109, 138, 238, 163, 139, 180, 197, 134, 126, 79, 99, 196, 95, 65, 212, 87, 50,
            11, 181, 166, 87, 194, 215, 222, 102, 28, 190, 163, 126, 167, 52,
        ],
    )
}

/// The pool engine program that manages liquidity positions.
pub open spec fn spec_whirlpool_program_id() -> Pubkey {
    Pubkey(
        [
            14u8, 3, 104, 95, 142, 144, 144, 83, 228, 88, 18, 28, 102, 245, 167, 106, 237, 199,
            112, 106, 161, 28, 130, 248, 170, 149, 42, 143, 43, 120, 121, 169,
        ],
    )
}

/// Executable copy of [`spec_whirlpool_program_id`].
pub fn whirlpool_program_id() -> (r: Pubkey)
    ensures
        r == spec_whirlpool_program_id(),
{
    Pubkey(
        [
            14u8, 3, 104, 95, 142, 144, 144, 83, 228, 88, 18, 28, 102, 245, 167, 106, 237, 199,
            112, 106, 161, 28, 130, 248, 170, 149, 42, 143, 43, 120, 121, 169,
        ],
    )
}

/// The one trusted covalidator identity whose attestations are accepted.
/// The deployment configures the real key; the library compares against
/// whatever stands here.
pub open spec fn spec_covalidator_key() -> Pubkey {
    Pubkey(
        [
            0u8, 0, 0, 0, 0, 0, 0, 0, 0, 0, 0, 0, 0, 0, 0, 0, 0, 0, 0, 0, 0, 0, 0, 0, 0, 0, 0, 0,
            0, 0, 0, 0,
        ],
    )
}

/// Executable copy of [`spec_covalidator_key`].
pub fn covalidator_key() -> (r: Pubkey)
    ensures
        r == spec_covalidator_key(),
{
    Pubkey(
        [
            0u8, 0, 0, 0, 0, 0, 0, 0, 0, 0, 0, 0, 0, 0, 0, 0, 0, 0, 0, 0, 0, 0, 0, 0, 0, 0, 0, 0,
            0, 0, 0, 0,
        ],
    )
}

impl PartialEq for Pubkey {
    fn eq(&self, other: &Pubkey) -> (r: bool) {
        let mut i: usize = 0;
        while i < 32
            invariant
                i <= 32,
                forall|j: int| 0 <= j < i ==> self.0@[j] == other.0@[j],
            decreases 32 - i,
        {
            if self.0[i] != other.0[i] {
                return false;
            }
            i = i + 1;
        }
        proof {
            assert(self.0 =~= other.0);
        }
        true
    }
}

impl vstd::std_specs::cmp::PartialEqSpecImpl for Pubkey {
    open spec fn obeys_eq_spec() -> bool {
        true
    }

    open spec fn eq_spec(&self, other: &Pubkey) -> bool {
        self == other
    }
}

} // verus!
