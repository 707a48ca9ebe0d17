//! Wire encodings, return-data validation, slippage arithmetic, and the
//! accumulator protocol against a fake Encrypted Compute Service.

use inco_vault::collect_profits::{BalanceDelta, CollectCalls};
use inco_vault::handle::Handle;
use inco_vault::inco_lightning::{
    encode_e_add, encode_new_euint128, parse_handle_return, ErrorCode as EncError,
};
use inco_vault::initialize::{handler_init_config, handler_init_vault};
use inco_vault::keys::{inco_lightning_id, Pubkey};
use inco_vault::slippage::apply_slippage_bps;
use inco_vault::whirlpool::{
    encode_close_position, encode_collect_fees, encode_collect_reward, encode_decrease_liquidity,
    encode_increase_liquidity, encode_open_position,
};

fn key(n: u8) -> Pubkey {
    Pubkey([n; 32])
}

// ---------- slippage ----------

#[test]
fn slippage_bound_exact_value() {
    assert_eq!(apply_slippage_bps(1_000_000, 100), Some(1_010_000));
}

#[test]
fn slippage_zero_bps_is_identity() {
    assert_eq!(apply_slippage_bps(123_456, 0), Some(123_456));
}

#[test]
fn slippage_full_unit_doubles() {
    assert_eq!(apply_slippage_bps(500, 10000), Some(1_000));
}

#[test]
fn slippage_rounds_down() {
    // 99 * 10001 / 10000 = 990099 / 10000 -> 99, the floor.
    assert_eq!(apply_slippage_bps(99, 1), Some(99));
}

#[test]
fn slippage_overflow_is_refused() {
    assert_eq!(apply_slippage_bps(u64::MAX, 1), None);
    assert_eq!(apply_slippage_bps(u64::MAX, 0), None);
    assert_eq!(apply_slippage_bps(u64::MAX / 10000, 0), Some(u64::MAX / 10000));
}

// ---------- service instruction encodings ----------

#[test]
fn new_euint128_encoding_is_exact() {
    let payload = vec![0xAA, 0xBB, 0xCC];
    let data = encode_new_euint128(&payload, 7);
    let mut expected = vec![110, 227, 5, 34, 118, 228, 61, 138];
    expected.extend_from_slice(&3u32.to_le_bytes());
    expected.extend_from_slice(&payload);
    expected.push(7);
    assert_eq!(data, expected);
}

#[test]
fn e_add_encoding_is_exact() {
    let data = encode_e_add(Handle(0x0102030405060708090A0B0C0D0E0F10), Handle(42));
    let mut expected = vec![31, 7, 134, 6, 200, 51, 244, 130];
    expected.extend_from_slice(&0x0102030405060708090A0B0C0D0E0F10u128.to_le_bytes());
    expected.extend_from_slice(&42u128.to_le_bytes());
    assert_eq!(data, expected);
}

#[test]
fn handle_return_requires_presence_key_and_width() {
    assert_eq!(parse_handle_return(None), Err(EncError::NoReturnData));
    assert_eq!(
        parse_handle_return(Some((key(3), vec![0u8; 16]))),
        Err(EncError::InvalidReturnDataKey)
    );
    assert_eq!(
        parse_handle_return(Some((inco_lightning_id(), vec![0u8; 15]))),
        Err(EncError::InvalidReturnDataLength)
    );
    assert_eq!(
        parse_handle_return(Some((inco_lightning_id(), vec![0u8; 17]))),
        Err(EncError::InvalidReturnDataLength)
    );
    let handle_bytes = 77_000u128.to_le_bytes().to_vec();
    assert_eq!(
        parse_handle_return(Some((inco_lightning_id(), handle_bytes))),
        Ok(Handle(77_000))
    );
}

// ---------- pool instruction encodings ----------

#[test]
fn open_position_encoding_is_exact() {
    let data = encode_open_position(255, -7, 9);
    let mut expected = vec![135, 128, 47, 77, 15, 152, 240, 49, 255];
    expected.extend_from_slice(&(-7i32).to_le_bytes());
    expected.extend_from_slice(&9i32.to_le_bytes());
    assert_eq!(data, expected);
}

#[test]
fn increase_liquidity_encoding_is_exact() {
    let data = encode_increase_liquidity(1_000_000, 11, 22);
    let mut expected = vec![46, 156, 243, 118, 13, 205, 251, 178];
    expected.extend_from_slice(&1_000_000u128.to_le_bytes());
    expected.extend_from_slice(&11u64.to_le_bytes());
    expected.extend_from_slice(&22u64.to_le_bytes());
    assert_eq!(data, expected);
}

#[test]
fn decrease_liquidity_encoding_is_exact() {
    let data = encode_decrease_liquidity(5, 1, 2);
    let mut expected = vec![160, 38, 208, 111, 172, 195, 133, 136];
    expected.extend_from_slice(&5u128.to_le_bytes());
    expected.extend_from_slice(&1u64.to_le_bytes());
    expected.extend_from_slice(&2u64.to_le_bytes());
    assert_eq!(data, expected);
}

#[test]
fn harvest_and_close_encodings_are_exact() {
    assert_eq!(
        encode_collect_fees(),
        vec![164, 152, 207, 99, 30, 186, 19, 182]
    );
    assert_eq!(
        encode_collect_reward(2),
        vec![70, 5, 132, 87, 86, 235, 177, 34, 2]
    );
    assert_eq!(
        encode_close_position(),
        vec![123, 134, 81, 0, 49, 68, 98, 98]
    );
}

// ---------- account lists ----------

#[test]
fn open_position_account_order_and_access() {
    let metas = inco_vault::whirlpool::open_position_accounts(
        key(1),
        key(2),
        key(3),
        key(4),
        key(5),
        key(6),
        key(7),
        key(8),
        key(9),
        key(10),
    );
    assert_eq!(metas.len(), 10);
    let expected: [(u8, bool, bool); 10] = [
        (1, true, true),
        (2, false, false),
        (3, false, true),
        (4, true, true),
        (5, false, true),
        (6, false, false),
        (7, false, false),
        (8, false, false),
        (9, false, false),
        (10, false, false),
    ];
    for (meta, (k, signer, writable)) in metas.iter().zip(expected.iter()) {
        assert_eq!(meta.key, key(*k));
        assert_eq!(meta.is_signer, *signer);
        assert_eq!(meta.is_writable, *writable);
    }
}

#[test]
fn collect_fees_account_order_and_access() {
    let metas = inco_vault::whirlpool::collect_fees_accounts(
        key(1),
        key(2),
        key(3),
        key(4),
        key(5),
        key(6),
        key(7),
        key(8),
        key(9),
    );
    assert_eq!(metas.len(), 9);
    // Only the position authority signs; the position and the four
    // token accounts are written.
    assert!(metas[1].is_signer);
    assert!(!metas[1].is_writable);
    for i in [2usize, 4, 5, 6, 7] {
        assert!(metas[i].is_writable);
    }
    for i in [0usize, 3, 8] {
        assert!(!metas[i].is_writable);
    }
}

#[test]
fn service_call_names_the_signing_authority_alone() {
    let metas = inco_vault::inco_lightning::service_call_accounts(key(7));
    assert_eq!(metas.len(), 1);
    assert_eq!(metas[0].key, key(7));
    assert!(metas[0].is_signer);
    assert!(!metas[0].is_writable);
}

// ---------- the accumulator protocol over a fake service ----------

/// A fake Encrypted Compute Service: a handle simply carries its
/// cleartext, and the homomorphic add sums them.
fn fake_new_handle(clear: u64) -> Handle {
    Handle(clear as u128)
}

fn fake_add(a: Handle, b: Handle) -> Handle {
    Handle(a.0.wrapping_add(b.0))
}

#[test]
fn fake_service_add_is_associative() {
    let (x, y, z) = (fake_new_handle(5), fake_new_handle(7), fake_new_handle(11));
    assert_eq!(fake_add(fake_add(x, y), z), fake_add(x, fake_add(y, z)));
}

/// Folding profits leg by leg across several collections reaches the
/// same accumulator handle as one fold over the combined amount.
#[test]
fn folding_order_does_not_change_the_accumulator() {
    let config = handler_init_config(key(1), 0);
    let owner = key(9);
    let amounts = [5u64, 7, 11];

    // One collection per amount.
    let mut vault = handler_init_vault(owner, 0);
    let mut tracker = {
        let calls = inco_vault::create_position::CreateCalls {
            enc_a: Ok(fake_new_handle(0)),
            enc_b: Ok(fake_new_handle(0)),
            open_res: Ok(()),
            deposit_res: Ok(()),
        };
        inco_vault::create_position::handler(
            &config, &mut vault, owner, key(11), key(12), calls, -10, 10, 50_000, 0, 0, None, 0, 1,
        )
        .unwrap()
        .0
    };
    for (i, amount) in amounts.iter().enumerate() {
        let folded = fake_add(tracker.encrypted_realized_profit_a, fake_new_handle(*amount));
        let calls = CollectCalls {
            collect_fees_res: Ok(()),
            fold_a: Ok(folded),
            fold_b: Ok(Handle(0)),
            fold_reward_0: Ok(Handle(0)),
        };
        inco_vault::collect_profits::handler(
            &config,
            &mut vault,
            &mut tracker,
            owner,
            calls,
            BalanceDelta {
                pre: 0,
                post: *amount,
            },
            BalanceDelta { pre: 0, post: 0 },
            2 + i as i64,
        )
        .unwrap();
    }
    let stepwise = tracker.encrypted_realized_profit_a;

    // One collection over the combined amount.
    let mut vault2 = handler_init_vault(owner, 0);
    let mut tracker2 = {
        let calls = inco_vault::create_position::CreateCalls {
            enc_a: Ok(fake_new_handle(0)),
            enc_b: Ok(fake_new_handle(0)),
            open_res: Ok(()),
            deposit_res: Ok(()),
        };
        inco_vault::create_position::handler(
            &config, &mut vault2, owner, key(11), key(12), calls, -10, 10, 50_000, 0, 0, None, 0,
            1,
        )
        .unwrap()
        .0
    };
    let total: u64 = amounts.iter().sum();
    let folded = fake_add(
        tracker2.encrypted_realized_profit_a,
        fake_new_handle(total),
    );
    let calls = CollectCalls {
        collect_fees_res: Ok(()),
        fold_a: Ok(folded),
        fold_b: Ok(Handle(0)),
        fold_reward_0: Ok(Handle(0)),
    };
    inco_vault::collect_profits::handler(
        &config,
        &mut vault2,
        &mut tracker2,
        owner,
        calls,
        BalanceDelta {
            pre: 0,
            post: total,
        },
        BalanceDelta { pre: 0, post: 0 },
        2,
    )
    .unwrap();

    assert_eq!(stepwise, tracker2.encrypted_realized_profit_a);
    assert_eq!(stepwise, Handle(23));
}
