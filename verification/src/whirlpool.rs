//! Wire format of the pool engine calls.
//!
//! The pool engine is reached by raw instructions whose discriminators
//! come from its published interface.  This module fixes the data
//! encoding of each operation the vault drives: open a position, change
//! its liquidity, harvest fees and rewards, retire it.  Performing the
//! call is the caller's business.

use vstd::prelude::*;
use vstd::bytes::spec_u32_to_le_bytes;
use vstd::bytes::spec_u64_to_le_bytes;
use vstd::bytes::spec_u128_to_le_bytes;
use vstd::bytes::u32_to_le_bytes;
use vstd::bytes::u64_to_le_bytes;
use vstd::bytes::u128_to_le_bytes;
use crate::keys::Pubkey;
use crate::wire::AccountMeta;
use crate::wire::meta;
use crate::wire::push8;
use crate::wire::spec_meta;

verus! {

/// Errors of the pool engine call path.
#[derive(Clone, Copy, Debug, PartialEq, Eq, Structural)]
pub enum ErrorCode {
    /// The call into the pool engine failed.
    CpiError,
}

/// Discriminator of the open-position instruction.
pub open spec fn open_position_disc() -> Seq<u8> {
    seq![135u8, 128u8, 47u8, 77u8, 15u8, 152u8, 240u8, 49u8]
}

/// Discriminator of the increase-liquidity instruction.
pub open spec fn increase_liquidity_disc() -> Seq<u8> {
    seq![46u8, 156u8, 243u8, 118u8, 13u8, 205u8, 251u8, 178u8]
}

/// Discriminator of the decrease-liquidity instruction.
pub open spec fn decrease_liquidity_disc() -> Seq<u8> {
    seq![160u8, 38u8, 208u8, 111u8, 172u8, 195u8, 133u8, 136u8]
}

/// Discriminator of the collect-fees instruction.
pub open spec fn collect_fees_disc() -> Seq<u8> {
    seq![164u8, 152u8, 207u8, 99u8, 30u8, 186u8, 19u8, 182u8]
}

/// Discriminator of the collect-reward instruction.
pub open spec fn collect_reward_disc() -> Seq<u8> {
    seq![70u8, 5u8, 132u8, 87u8, 86u8, 235u8, 177u8, 34u8]
}

/// Discriminator of the close-position instruction.
pub open spec fn close_position_disc() -> Seq<u8> {
    seq![123u8, 134u8, 81u8, 0u8, 49u8, 68u8, 98u8, 98u8]
}

/// A tick index reinterpreted as its unsigned two's-complement image,
/// which is what goes on the wire little-endian.
pub open spec fn spec_tick_as_u32(tick: i32) -> u32 {
    tick as u32
}

/// The open-position instruction: discriminator, receipt bump, and the
/// two tick indices little-endian.
pub open spec fn spec_encode_open_position(
    position_bump: u8,
    tick_lower_index: i32,
    tick_upper_index: i32,
) -> Seq<u8> {
    open_position_disc() + seq![position_bump] + spec_u32_to_le_bytes(
        spec_tick_as_u32(tick_lower_index),
    ) + spec_u32_to_le_bytes(spec_tick_as_u32(tick_upper_index))
}

/// The increase-liquidity instruction: discriminator, liquidity amount,
/// and the two token maxima, all little-endian.
pub open spec fn spec_encode_increase_liquidity(
    liquidity_amount: u128,
    token_max_a: u64,
    token_max_b: u64,
) -> Seq<u8> {
    increase_liquidity_disc() + spec_u128_to_le_bytes(liquidity_amount) + spec_u64_to_le_bytes(
        token_max_a,
    ) + spec_u64_to_le_bytes(token_max_b)
}

/// The decrease-liquidity instruction: discriminator, liquidity amount,
/// and the two token minima, all little-endian.
pub open spec fn spec_encode_decrease_liquidity(
    liquidity_amount: u128,
    token_min_a: u64,
    token_min_b: u64,
) -> Seq<u8> {
    decrease_liquidity_disc() + spec_u128_to_le_bytes(liquidity_amount) + spec_u64_to_le_bytes(
        token_min_a,
    ) + spec_u64_to_le_bytes(token_min_b)
}

/// Build the open-position instruction data.
pub fn encode_open_position(position_bump: u8, tick_lower_index: i32, tick_upper_index: i32) -> (r:
    Vec<u8>)
    ensures
        r@ == spec_encode_open_position(position_bump, tick_lower_index, tick_upper_index),
{
    let mut data: Vec<u8> = Vec::new();
    push8(&mut data, 135, 128, 47, 77, 15, 152, 240, 49);
    proof {
        assert(data@ =~= open_position_disc());
    }
    data.push(position_bump);
    let mut lower = u32_to_le_bytes(#[verifier::truncate] (tick_lower_index as u32));
    data.append(&mut lower);
    let mut upper = u32_to_le_bytes(#[verifier::truncate] (tick_upper_index as u32));
    data.append(&mut upper);
    proof {
        assert(data@ =~= spec_encode_open_position(
            position_bump,
            tick_lower_index,
            tick_upper_index,
        ));
    }
    data
}

/// Build the increase-liquidity instruction data.
pub fn encode_increase_liquidity(liquidity_amount: u128, token_max_a: u64, token_max_b: u64) -> (r:
    Vec<u8>)
    ensures
        r@ == spec_encode_increase_liquidity(liquidity_amount, token_max_a, token_max_b),
{
    let mut data: Vec<u8> = Vec::new();
    push8(&mut data, 46, 156, 243, 118, 13, 205, 251, 178);
    proof {
        assert(data@ =~= increase_liquidity_disc());
    }
    let mut liq = u128_to_le_bytes(liquidity_amount);
    data.append(&mut liq);
    let mut max_a = u64_to_le_bytes(token_max_a);
    data.append(&mut max_a);
    let mut max_b = u64_to_le_bytes(token_max_b);
    data.append(&mut max_b);
    proof {
        assert(data@ =~= spec_encode_increase_liquidity(liquidity_amount, token_max_a, token_max_b));
    }
    data
}

/// Build the decrease-liquidity instruction data.
pub fn encode_decrease_liquidity(liquidity_amount: u128, token_min_a: u64, token_min_b: u64) -> (r:
    Vec<u8>)
    ensures
        r@ == spec_encode_decrease_liquidity(liquidity_amount, token_min_a, token_min_b),
{
    let mut data: Vec<u8> = Vec::new();
    push8(&mut data, 160, 38, 208, 111, 172, 195, 133, 136);
    proof {
        assert(data@ =~= decrease_liquidity_disc());
    }
    let mut liq = u128_to_le_bytes(liquidity_amount);
    data.append(&mut liq);
    let mut min_a = u64_to_le_bytes(token_min_a);
    data.append(&mut min_a);
    let mut min_b = u64_to_le_bytes(token_min_b);
    data.append(&mut min_b);
    proof {
        assert(data@ =~= spec_encode_decrease_liquidity(liquidity_amount, token_min_a, token_min_b));
    }
    data
}

/// Build the collect-fees instruction data: the discriminator alone.
pub fn encode_collect_fees() -> (r: Vec<u8>)
    ensures
        r@ == collect_fees_disc(),
{
    let mut data: Vec<u8> = Vec::new();
    push8(&mut data, 164, 152, 207, 99, 30, 186, 19, 182);
    proof {
        assert(data@ =~= collect_fees_disc());
    }
    data
}

/// Build the collect-reward instruction data: discriminator and slot.
pub fn encode_collect_reward(reward_index: u8) -> (r: Vec<u8>)
    ensures
        r@ == collect_reward_disc() + seq![reward_index],
{
    let mut data: Vec<u8> = Vec::new();
    push8(&mut data, 70, 5, 132, 87, 86, 235, 177, 34);
    proof {
        assert(data@ =~= collect_reward_disc());
    }
    data.push(reward_index);
    data
}

/// Build the close-position instruction data: the discriminator alone.
pub fn encode_close_position() -> (r: Vec<u8>)
    ensures
        r@ == close_position_disc(),
{
    let mut data: Vec<u8> = Vec::new();
    push8(&mut data, 123, 134, 81, 0, 49, 68, 98, 98);
    proof {
        assert(data@ =~= close_position_disc());
    }
    data
}

/// The account list of the open-position instruction, in the
/// callee's expected order.
pub open spec fn spec_open_position_accounts(
    funder: Pubkey,
    owner: Pubkey,
    position: Pubkey,
    position_mint: Pubkey,
    position_token_account: Pubkey,
    whirlpool: Pubkey,
    token_program: Pubkey,
    system_program: Pubkey,
    rent: Pubkey,
    associated_token_program: Pubkey,
) -> Seq<AccountMeta> {
    seq![
        spec_meta(funder, true, true),
        spec_meta(owner, false, false),
        spec_meta(position, false, true),
        spec_meta(position_mint, true, true),
        spec_meta(position_token_account, false, true),
        spec_meta(whirlpool, false, false),
        spec_meta(token_program, false, false),
        spec_meta(system_program, false, false),
        spec_meta(rent, false, false),
        spec_meta(associated_token_program, false, false),
    ]
}

/// Build the open-position account list.
pub fn open_position_accounts(
    funder: Pubkey,
    owner: Pubkey,
    position: Pubkey,
    position_mint: Pubkey,
    position_token_account: Pubkey,
    whirlpool: Pubkey,
    token_program: Pubkey,
    system_program: Pubkey,
    rent: Pubkey,
    associated_token_program: Pubkey,
) -> (r: Vec<AccountMeta>)
    ensures
        r@ == spec_open_position_accounts(
            funder,
            owner,
            position,
            position_mint,
            position_token_account,
            whirlpool,
            token_program,
            system_program,
            rent,
            associated_token_program,
        ),
{
    let mut accounts: Vec<AccountMeta> = Vec::new();
    accounts.push(meta(funder, true, true));
    accounts.push(meta(owner, false, false));
    accounts.push(meta(position, false, true));
    accounts.push(meta(position_mint, true, true));
    accounts.push(meta(position_token_account, false, true));
    accounts.push(meta(whirlpool, false, false));
    accounts.push(meta(token_program, false, false));
    accounts.push(meta(system_program, false, false));
    accounts.push(meta(rent, false, false));
    accounts.push(meta(associated_token_program, false, false));
    proof {
        assert(accounts@ =~= spec_open_position_accounts(
            funder,
            owner,
            position,
            position_mint,
            position_token_account,
            whirlpool,
            token_program,
            system_program,
            rent,
            associated_token_program,
        ));
    }
    accounts
}

/// The account list of the increase-liquidity instruction, in the
/// callee's expected order.
pub open spec fn spec_increase_liquidity_accounts(
    whirlpool: Pubkey,
    token_program: Pubkey,
    position_authority: Pubkey,
    position: Pubkey,
    position_token_account: Pubkey,
    token_owner_account_a: Pubkey,
    token_owner_account_b: Pubkey,
    token_vault_a: Pubkey,
    token_vault_b: Pubkey,
    tick_array_lower: Pubkey,
    tick_array_upper: Pubkey,
) -> Seq<AccountMeta> {
    seq![
        spec_meta(whirlpool, false, true),
        spec_meta(token_program, false, false),
        spec_meta(position_authority, true, false),
        spec_meta(position, false, true),
        spec_meta(position_token_account, false, false),
        spec_meta(token_owner_account_a, false, true),
        spec_meta(token_owner_account_b, false, true),
        spec_meta(token_vault_a, false, true),
        spec_meta(token_vault_b, false, true),
        spec_meta(tick_array_lower, false, true),
        spec_meta(tick_array_upper, false, true),
    ]
}

/// Build the increase-liquidity account list.
pub fn increase_liquidity_accounts(
    whirlpool: Pubkey,
    token_program: Pubkey,
    position_authority: Pubkey,
    position: Pubkey,
    position_token_account: Pubkey,
    token_owner_account_a: Pubkey,
    token_owner_account_b: Pubkey,
    token_vault_a: Pubkey,
    token_vault_b: Pubkey,
    tick_array_lower: Pubkey,
    tick_array_upper: Pubkey,
) -> (r: Vec<AccountMeta>)
    ensures
        r@ == spec_increase_liquidity_accounts(
            whirlpool,
            token_program,
            position_authority,
            position,
            position_token_account,
            token_owner_account_a,
            token_owner_account_b,
            token_vault_a,
            token_vault_b,
            tick_array_lower,
            tick_array_upper,
        ),
{
    let mut accounts: Vec<AccountMeta> = Vec::new();
    accounts.push(meta(whirlpool, false, true));
    accounts.push(meta(token_program, false, false));
    accounts.push(meta(position_authority, true, false));
    accounts.push(meta(position, false, true));
    accounts.push(meta(position_token_account, false, false));
    accounts.push(meta(token_owner_account_a, false, true));
    accounts.push(meta(token_owner_account_b, false, true));
    accounts.push(meta(token_vault_a, false, true));
    accounts.push(meta(token_vault_b, false, true));
    accounts.push(meta(tick_array_lower, false, true));
    accounts.push(meta(tick_array_upper, false, true));
    proof {
        assert(accounts@ =~= spec_increase_liquidity_accounts(
            whirlpool,
            token_program,
            position_authority,
            position,
            position_token_account,
            token_owner_account_a,
            token_owner_account_b,
            token_vault_a,
            token_vault_b,
            tick_array_lower,
            tick_array_upper,
        ));
    }
    accounts
}

/// The account list of the decrease-liquidity instruction, in the
/// callee's expected order.
pub open spec fn spec_decrease_liquidity_accounts(
    whirlpool: Pubkey,
    token_program: Pubkey,
    position_authority: Pubkey,
    position: Pubkey,
    position_token_account: Pubkey,
    token_owner_account_a: Pubkey,
    token_owner_account_b: Pubkey,
    token_vault_a: Pubkey,
    token_vault_b: Pubkey,
    tick_array_lower: Pubkey,
    tick_array_upper: Pubkey,
) -> Seq<AccountMeta> {
    seq![
        spec_meta(whirlpool, false, true),
        spec_meta(token_program, false, false),
        spec_meta(position_authority, true, false),
        spec_meta(position, false, true),
        spec_meta(position_token_account, false, false),
        spec_meta(token_owner_account_a, false, true),
        spec_meta(token_owner_account_b, false, true),
        spec_meta(token_vault_a, false, true),
        spec_meta(token_vault_b, false, true),
        spec_meta(tick_array_lower, false, true),
        spec_meta(tick_array_upper, false, true),
    ]
}

/// Build the decrease-liquidity account list.
pub fn decrease_liquidity_accounts(
    whirlpool: Pubkey,
    token_program: Pubkey,
    position_authority: Pubkey,
    position: Pubkey,
    position_token_account: Pubkey,
    token_owner_account_a: Pubkey,
    token_owner_account_b: Pubkey,
    token_vault_a: Pubkey,
    token_vault_b: Pubkey,
    tick_array_lower: Pubkey,
    tick_array_upper: Pubkey,
) -> (r: Vec<AccountMeta>)
    ensures
        r@ == spec_decrease_liquidity_accounts(
            whirlpool,
            token_program,
            position_authority,
            position,
            position_token_account,
            token_owner_account_a,
            token_owner_account_b,
            token_vault_a,
            token_vault_b,
            tick_array_lower,
            tick_array_upper,
        ),
{
    let mut accounts: Vec<AccountMeta> = Vec::new();
    accounts.push(meta(whirlpool, false, true));
    accounts.push(meta(token_program, false, false));
    accounts.push(meta(position_authority, true, false));
    accounts.push(meta(position, false, true));
    accounts.push(meta(position_token_account, false, false));
    accounts.push(meta(token_owner_account_a, false, true));
    accounts.push(meta(token_owner_account_b, false, true));
    accounts.push(meta(token_vault_a, false, true));
    accounts.push(meta(token_vault_b, false, true));
    accounts.push(meta(tick_array_lower, false, true));
    accounts.push(meta(tick_array_upper, false, true));
    proof {
        assert(accounts@ =~= spec_decrease_liquidity_accounts(
            whirlpool,
            token_program,
            position_authority,
            position,
            position_token_account,
            token_owner_account_a,
            token_owner_account_b,
            token_vault_a,
            token_vault_b,
            tick_array_lower,
            tick_array_upper,
        ));
    }
    accounts
}

/// The account list of the collect-fees instruction, in the
/// callee's expected order.
pub open spec fn spec_collect_fees_accounts(
    whirlpool: Pubkey,
    position_authority: Pubkey,
    position: Pubkey,
    position_token_account: Pubkey,
    token_owner_account_a: Pubkey,
    token_vault_a: Pubkey,
    token_owner_account_b: Pubkey,
    token_vault_b: Pubkey,
    token_program: Pubkey,
) -> Seq<AccountMeta> {
    seq![
        spec_meta(whirlpool, false, false),
        spec_meta(position_authority, true, false),
        spec_meta(position, false, true),
        spec_meta(position_token_account, false, false),
        spec_meta(token_owner_account_a, false, true),
        spec_meta(token_vault_a, false, true),
        spec_meta(token_owner_account_b, false, true),
        spec_meta(token_vault_b, false, true),
        spec_meta(token_program, false, false),
    ]
}

/// Build the collect-fees account list.
pub fn collect_fees_accounts(
    whirlpool: Pubkey,
    position_authority: Pubkey,
    position: Pubkey,
    position_token_account: Pubkey,
    token_owner_account_a: Pubkey,
    token_vault_a: Pubkey,
    token_owner_account_b: Pubkey,
    token_vault_b: Pubkey,
    token_program: Pubkey,
) -> (r: Vec<AccountMeta>)
    ensures
        r@ == spec_collect_fees_accounts(
            whirlpool,
            position_authority,
            position,
            position_token_account,
            token_owner_account_a,
            token_vault_a,
            token_owner_account_b,
            token_vault_b,
            token_program,
        ),
{
    let mut accounts: Vec<AccountMeta> = Vec::new();
    accounts.push(meta(whirlpool, false, false));
    accounts.push(meta(position_authority, true, false));
    accounts.push(meta(position, false, true));
    accounts.push(meta(position_token_account, false, false));
    accounts.push(meta(token_owner_account_a, false, true));
    accounts.push(meta(token_vault_a, false, true));
    accounts.push(meta(token_owner_account_b, false, true));
    accounts.push(meta(token_vault_b, false, true));
    accounts.push(meta(token_program, false, false));
    proof {
        assert(accounts@ =~= spec_collect_fees_accounts(
            whirlpool,
            position_authority,
            position,
            position_token_account,
            token_owner_account_a,
            token_vault_a,
            token_owner_account_b,
            token_vault_b,
            token_program,
        ));
    }
    accounts
}

/// The account list of the collect-reward instruction, in the
/// callee's expected order.
pub open spec fn spec_collect_reward_accounts(
    whirlpool: Pubkey,
    position_authority: Pubkey,
    position: Pubkey,
    position_token_account: Pubkey,
    reward_owner_account: Pubkey,
    reward_vault: Pubkey,
    token_program: Pubkey,
) -> Seq<AccountMeta> {
    seq![
        spec_meta(whirlpool, false, false),
        spec_meta(position_authority, true, false),
        spec_meta(position, false, true),
        spec_meta(position_token_account, false, false),
        spec_meta(reward_owner_account, false, true),
        spec_meta(reward_vault, false, true),
        spec_meta(token_program, false, false),
    ]
}

/// Build the collect-reward account list.
pub fn collect_reward_accounts(
    whirlpool: Pubkey,
    position_authority: Pubkey,
    position: Pubkey,
    position_token_account: Pubkey,
    reward_owner_account: Pubkey,
    reward_vault: Pubkey,
    token_program: Pubkey,
) -> (r: Vec<AccountMeta>)
    ensures
        r@ == spec_collect_reward_accounts(
            whirlpool,
            position_authority,
            position,
            position_token_account,
            reward_owner_account,
            reward_vault,
            token_program,
        ),
{
    let mut accounts: Vec<AccountMeta> = Vec::new();
    accounts.push(meta(whirlpool, false, false));
    accounts.push(meta(position_authority, true, false));
    accounts.push(meta(position, false, true));
    accounts.push(meta(position_token_account, false, false));
    accounts.push(meta(reward_owner_account, false, true));
    accounts.push(meta(reward_vault, false, true));
    accounts.push(meta(token_program, false, false));
    proof {
        assert(accounts@ =~= spec_collect_reward_accounts(
            whirlpool,
            position_authority,
            position,
            position_token_account,
            reward_owner_account,
            reward_vault,
            token_program,
        ));
    }
    accounts
}

/// The account list of the close-position instruction, in the
/// callee's expected order.
pub open spec fn spec_close_position_accounts(
    position_authority: Pubkey,
    receiver: Pubkey,
    position: Pubkey,
    position_mint: Pubkey,
    position_token_account: Pubkey,
    token_program: Pubkey,
) -> Seq<AccountMeta> {
    seq![
        spec_meta(position_authority, true, false),
        spec_meta(receiver, false, true),
        spec_meta(position, false, true),
        spec_meta(position_mint, false, true),
        spec_meta(position_token_account, false, true),
        spec_meta(token_program, false, false),
    ]
}

/// Build the close-position account list.
pub fn close_position_accounts(
    position_authority: Pubkey,
    receiver: Pubkey,
    position: Pubkey,
    position_mint: Pubkey,
    position_token_account: Pubkey,
    token_program: Pubkey,
) -> (r: Vec<AccountMeta>)
    ensures
        r@ == spec_close_position_accounts(
            position_authority,
            receiver,
            position,
            position_mint,
            position_token_account,
            token_program,
        ),
{
    let mut accounts: Vec<AccountMeta> = Vec::new();
    accounts.push(meta(position_authority, true, false));
    accounts.push(meta(receiver, false, true));
    accounts.push(meta(position, false, true));
    accounts.push(meta(position_mint, false, true));
    accounts.push(meta(position_token_account, false, true));
    accounts.push(meta(token_program, false, false));
    proof {
        assert(accounts@ =~= spec_close_position_accounts(
            position_authority,
            receiver,
            position,
            position_mint,
            position_token_account,
            token_program,
        ));
    }
    accounts
}

} // verus!
