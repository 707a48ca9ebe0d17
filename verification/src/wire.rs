//! Byte-buffer helpers shared by the instruction codecs and the
//! attestation parser.

use vstd::prelude::*;
use crate::keys::Pubkey;

verus! {

/// One account a call names, with the access it asks for.  The account
/// list of a call is as much a compatibility contract as its data
/// bytes: the callee reads its inputs by position.
#[derive(Clone, Copy, Debug)]
pub struct AccountMeta {
    /// The account named.
    pub key: Pubkey,
    /// Whether the caller vouches for this account's signature.
    pub is_signer: bool,
    /// Whether the callee may write the account.
    pub is_writable: bool,
}

/// An account entry as a value.
pub open spec fn spec_meta(key: Pubkey, is_signer: bool, is_writable: bool) -> AccountMeta {
    AccountMeta { key, is_signer, is_writable }
}

/// Build one account entry.
pub fn meta(key: Pubkey, is_signer: bool, is_writable: bool) -> (r: AccountMeta)
    ensures
        r == spec_meta(key, is_signer, is_writable),
{
    AccountMeta { key, is_signer, is_writable }
}

/// Append a copy of `src` to `dst`.
pub fn push_all(dst: &mut Vec<u8>, src: &Vec<u8>)
    ensures
        final(dst)@ == old(dst)@ + src@,
{
    let ghost entry = old(dst)@;
    let mut i: usize = 0;
    while i < src.len()
        invariant
            i <= src.len(),
            dst@ == entry + src@.subrange(0, i as int),
        decreases src.len() - i,
    {
        proof {
            assert(entry + src@.subrange(0, i as int + 1) =~= (entry + src@.subrange(0, i as int)).push(
                src@[i as int],
            ));
        }
        let b = src[i];
        dst.push(b);
        i = i + 1;
    }
    proof {
        assert(src@.subrange(0, src.len() as int) =~= src@);
    }
}

/// Append eight given bytes to `dst`.
pub fn push8(dst: &mut Vec<u8>, b0: u8, b1: u8, b2: u8, b3: u8, b4: u8, b5: u8, b6: u8, b7: u8)
    ensures
        final(dst)@ == old(dst)@ + seq![b0, b1, b2, b3, b4, b5, b6, b7],
{
    dst.push(b0);
    dst.push(b1);
    dst.push(b2);
    dst.push(b3);
    dst.push(b4);
    dst.push(b5);
    dst.push(b6);
    dst.push(b7);
    proof {
        assert(dst@ =~= old(dst)@ + seq![b0, b1, b2, b3, b4, b5, b6, b7]);
    }
}

/// The unsigned 16-bit value encoded little-endian by two bytes.
pub open spec fn spec_u16_of_le(lo: u8, hi: u8) -> int {
    lo + 256 * hi
}

/// Read the little-endian 16-bit value at two given bytes, as a usize.
pub fn u16_of_le(lo: u8, hi: u8) -> (r: usize)
    ensures
        r == spec_u16_of_le(lo, hi),
        r <= 65535,
{
    (lo as usize) + 256 * (hi as usize)
}

} // verus!
