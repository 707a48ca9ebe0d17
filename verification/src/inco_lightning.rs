//! Wire format of the Encrypted Compute Service calls.
//!
//! The service is reached by raw instructions.  This module fixes the
//! two instruction encodings — create a fresh handle from a payload, and
//! homomorphically add two handles — and validates the return data every
//! such call must come back with.  Performing the call is the caller's
//! business; the bytes and the acceptance rules are the library's.

use vstd::prelude::*;
use vstd::bytes::spec_u32_to_le_bytes;
use vstd::bytes::spec_u128_to_le_bytes;
use vstd::bytes::spec_u128_from_le_bytes;
use vstd::bytes::u32_to_le_bytes;
use vstd::bytes::u128_to_le_bytes;
use vstd::bytes::u128_from_le_bytes;
use crate::handle::Handle;
use crate::keys::Pubkey;
use crate::keys::spec_inco_lightning_id;
use crate::keys::inco_lightning_id;
use crate::wire::AccountMeta;
use crate::wire::meta;
use crate::wire::push_all;
use crate::wire::spec_meta;
use crate::wire::push8;

verus! {

/// Errors of the service-call return path.
#[derive(Clone, Copy, Debug, PartialEq, Eq, Structural)]
pub enum ErrorCode {
    /// The service call produced no return data.
    NoReturnData,
    /// The return data was not attributed to the expected service.
    InvalidReturnDataKey,
    /// The returned reference is not exactly 128 bits.
    InvalidReturnDataLength,
}

/// Discriminator of the create-handle instruction.
pub open spec fn new_euint128_disc() -> Seq<u8> {
    seq![110u8, 227u8, 5u8, 34u8, 118u8, 228u8, 61u8, 138u8]
}

/// Discriminator of the homomorphic-add instruction.
pub open spec fn e_add_disc() -> Seq<u8> {
    seq![31u8, 7u8, 134u8, 6u8, 200u8, 51u8, 244u8, 130u8]
}

/// The create-handle instruction: discriminator, length-prefixed
/// payload, and the amount type tag.
pub open spec fn spec_encode_new_euint128(payload: Seq<u8>, amount_type: u8) -> Seq<u8> {
    new_euint128_disc() + spec_u32_to_le_bytes(payload.len() as u32) + payload + seq![amount_type]
}

/// The homomorphic-add instruction: discriminator and the two handles,
/// destination first, each little-endian.
pub open spec fn spec_encode_e_add(dest: Handle, src: Handle) -> Seq<u8> {
    e_add_disc() + spec_u128_to_le_bytes(dest.0) + spec_u128_to_le_bytes(src.0)
}

/// Build the create-handle instruction data.
pub fn encode_new_euint128(payload: &Vec<u8>, amount_type: u8) -> (r: Vec<u8>)
    requires
        payload@.len() <= u32::MAX,
    ensures
        r@ == spec_encode_new_euint128(payload@, amount_type),
{
    let mut data: Vec<u8> = Vec::new();
    push8(&mut data, 110, 227, 5, 34, 118, 228, 61, 138);
    proof {
        assert(data@ =~= new_euint128_disc());
    }
    let mut len_bytes = u32_to_le_bytes(payload.len() as u32);
    data.append(&mut len_bytes);
    push_all(&mut data, payload);
    data.push(amount_type);
    proof {
        assert(data@ =~= spec_encode_new_euint128(payload@, amount_type));
    }
    data
}

/// Build the homomorphic-add instruction data.
pub fn encode_e_add(dest: Handle, src: Handle) -> (r: Vec<u8>)
    ensures
        r@ == spec_encode_e_add(dest, src),
{
    let mut data: Vec<u8> = Vec::new();
    push8(&mut data, 31, 7, 134, 6, 200, 51, 244, 130);
    proof {
        assert(data@ =~= e_add_disc());
    }
    let mut dest_bytes = u128_to_le_bytes(dest.0);
    data.append(&mut dest_bytes);
    let mut src_bytes = u128_to_le_bytes(src.0);
    data.append(&mut src_bytes);
    proof {
        assert(data@ =~= spec_encode_e_add(dest, src));
    }
    data
}

/// What the return data of a service call must yield: refused unless it
/// is present, attributed to the service, and exactly 128 bits wide.
pub open spec fn spec_parse_handle_return(ret: Option<(Pubkey, Seq<u8>)>) -> Result<
    Handle,
    ErrorCode,
> {
    match ret {
        None => Err(ErrorCode::NoReturnData),
        Some((key, data)) => {
            if key != spec_inco_lightning_id() {
                Err(ErrorCode::InvalidReturnDataKey)
            } else if data.len() != 16 {
                Err(ErrorCode::InvalidReturnDataLength)
            } else {
                Ok(Handle(spec_u128_from_le_bytes(data)))
            }
        },
    }
}

/// Validate a service call's return data and read the handle out of it.
pub fn parse_handle_return(ret: Option<(Pubkey, Vec<u8>)>) -> (r: Result<Handle, ErrorCode>)
    ensures
        r == spec_parse_handle_return(
            match ret {
                None => None,
                Some((key, data)) => Some((key, data@)),
            },
        ),
{
    match ret {
        None => Err(ErrorCode::NoReturnData),
        Some((key, data)) => {
            if !(key == inco_lightning_id()) {
                Err(ErrorCode::InvalidReturnDataKey)
            } else if data.len() != 16 {
                Err(ErrorCode::InvalidReturnDataLength)
            } else {
                Ok(Handle(u128_from_le_bytes(data.as_slice())))
            }
        },
    }
}

/// The account list of either service call: the authority alone, as a
/// read-only signer.
pub open spec fn spec_service_call_accounts(authority: Pubkey) -> Seq<AccountMeta> {
    seq![spec_meta(authority, true, false)]
}

/// Build the account list of a service call.
pub fn service_call_accounts(authority: Pubkey) -> (r: Vec<AccountMeta>)
    ensures
        r@ == spec_service_call_accounts(authority),
{
    let mut accounts: Vec<AccountMeta> = Vec::new();
    accounts.push(meta(authority, true, false));
    proof {
        assert(accounts@ =~= spec_service_call_accounts(authority));
    }
    accounts
}

} // verus!
