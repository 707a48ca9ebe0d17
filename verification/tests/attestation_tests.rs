//! The attested-decryption verifier against crafted instruction logs.

use inco_vault::keys::{covalidator_key, ed25519_program_id, Pubkey};
use inco_vault::verify_decryption::{handler, IxRecord, VerifyError};

fn key(n: u8) -> Pubkey {
    Pubkey([n; 32])
}

/// Build a well-formed signature-verification record for the given
/// signer and message: a 16-byte offset header, the 32-byte public key,
/// then the message.
fn make_record(signer: [u8; 32], message: &[u8]) -> IxRecord {
    let pk_off: u16 = 16;
    let msg_off: u16 = 48;
    let mut data = vec![0u8; 16];
    data[0] = 1; // signature count
    data[2..4].copy_from_slice(&0u16.to_le_bytes()); // signature offset (unused here)
    data[6..8].copy_from_slice(&pk_off.to_le_bytes());
    data[10..12].copy_from_slice(&msg_off.to_le_bytes());
    data[12..14].copy_from_slice(&(message.len() as u16).to_le_bytes());
    data.extend_from_slice(&signer);
    data.extend_from_slice(message);
    IxRecord {
        program_id: ed25519_program_id(),
        data,
    }
}

fn one_pair() -> (Vec<[u8; 16]>, Vec<[u8; 16]>, Vec<u8>) {
    let handle = [0x11u8; 16];
    let plaintext = [0x22u8; 16];
    let mut message = Vec::new();
    message.extend_from_slice(&handle);
    message.extend_from_slice(&plaintext);
    (vec![handle], vec![plaintext], message)
}

#[test]
fn verifies_one_pair_and_emits_event() {
    let (handles, plaintexts, message) = one_pair();
    let record = make_record(covalidator_key().0, &message);
    let ev = handler(1, &handles, &plaintexts, Some(&record), key(5), 77).unwrap();
    assert_eq!(ev.authority, key(5));
    assert_eq!(ev.num_handles, 1);
    assert_eq!(ev.timestamp, 77);
}

#[test]
fn verifies_three_pairs() {
    let mut handles = Vec::new();
    let mut plaintexts = Vec::new();
    let mut message = Vec::new();
    for i in 0..3u8 {
        let h = [i + 1; 16];
        let p = [i + 101; 16];
        handles.push(h);
        plaintexts.push(p);
        message.extend_from_slice(&h);
        message.extend_from_slice(&p);
    }
    let record = make_record(covalidator_key().0, &message);
    let ev = handler(3, &handles, &plaintexts, Some(&record), key(5), 1).unwrap();
    assert_eq!(ev.num_handles, 3);
}

#[test]
fn verifies_empty_claim() {
    let record = make_record(covalidator_key().0, &[]);
    let ev = handler(0, &Vec::new(), &Vec::new(), Some(&record), key(5), 1).unwrap();
    assert_eq!(ev.num_handles, 0);
}

#[test]
fn flipped_plaintext_byte_in_claim_is_refused() {
    let (handles, mut plaintexts, message) = one_pair();
    // The log stays as signed; only the claim changes.
    plaintexts[0][7] ^= 0x01;
    let record = make_record(covalidator_key().0, &message);
    let r = handler(1, &handles, &plaintexts, Some(&record), key(5), 77);
    assert!(matches!(r, Err(VerifyError::PlaintextMismatch)));
}

#[test]
fn flipped_handle_byte_in_claim_is_refused() {
    let (mut handles, plaintexts, message) = one_pair();
    handles[0][0] ^= 0x80;
    let record = make_record(covalidator_key().0, &message);
    let r = handler(1, &handles, &plaintexts, Some(&record), key(5), 77);
    assert!(matches!(r, Err(VerifyError::HandleMismatch)));
}

#[test]
fn record_signed_by_another_key_is_refused() {
    let (handles, plaintexts, message) = one_pair();
    let mut other = covalidator_key().0;
    other[31] ^= 0x01;
    let record = make_record(other, &message);
    let r = handler(1, &handles, &plaintexts, Some(&record), key(5), 77);
    assert!(matches!(r, Err(VerifyError::UnauthorizedCovalidator)));
}

#[test]
fn missing_record_is_refused() {
    let (handles, plaintexts, _) = one_pair();
    let r = handler(1, &handles, &plaintexts, None, key(5), 77);
    assert!(matches!(r, Err(VerifyError::MissingEd25519Instruction)));
}

#[test]
fn record_of_another_program_is_refused() {
    let (handles, plaintexts, message) = one_pair();
    let mut record = make_record(covalidator_key().0, &message);
    record.program_id = key(4);
    let r = handler(1, &handles, &plaintexts, Some(&record), key(5), 77);
    assert!(matches!(r, Err(VerifyError::InvalidEd25519Program)));
}

#[test]
fn handle_count_mismatch_is_refused_first() {
    let (handles, plaintexts, message) = one_pair();
    let record = make_record(covalidator_key().0, &message);
    let r = handler(2, &handles, &plaintexts, Some(&record), key(5), 77);
    assert!(matches!(r, Err(VerifyError::HandleCountMismatch)));
}

#[test]
fn plaintext_count_mismatch_is_refused() {
    let (handles, mut plaintexts, message) = one_pair();
    plaintexts.push([0u8; 16]);
    let record = make_record(covalidator_key().0, &message);
    let r = handler(1, &handles, &plaintexts, Some(&record), key(5), 77);
    assert!(matches!(r, Err(VerifyError::PlaintextCountMismatch)));
}

#[test]
fn short_header_is_refused() {
    let (handles, plaintexts, _) = one_pair();
    let record = IxRecord {
        program_id: ed25519_program_id(),
        data: vec![1u8; 15],
    };
    let r = handler(1, &handles, &plaintexts, Some(&record), key(5), 77);
    assert!(matches!(r, Err(VerifyError::Ed25519DataTooShort)));
}

#[test]
fn data_shorter_than_message_claim_is_refused() {
    let (handles, plaintexts, message) = one_pair();
    let mut record = make_record(covalidator_key().0, &message);
    // Claim one byte more of message than the record holds.
    let claimed = (message.len() + 1) as u16;
    record.data[12..14].copy_from_slice(&claimed.to_le_bytes());
    let r = handler(1, &handles, &plaintexts, Some(&record), key(5), 77);
    assert!(matches!(r, Err(VerifyError::Ed25519DataTooShort)));
}

#[test]
fn signature_count_other_than_one_is_refused() {
    let (handles, plaintexts, message) = one_pair();
    let mut record = make_record(covalidator_key().0, &message);
    record.data[0] = 2;
    let r = handler(1, &handles, &plaintexts, Some(&record), key(5), 77);
    assert!(matches!(r, Err(VerifyError::InvalidSignatureCount)));
}

#[test]
fn wrong_message_length_is_refused() {
    let (handles, plaintexts, mut message) = one_pair();
    // A signed message with a trailing byte beyond the pairs.
    message.push(0xFF);
    let record = make_record(covalidator_key().0, &message);
    let r = handler(1, &handles, &plaintexts, Some(&record), key(5), 77);
    assert!(matches!(r, Err(VerifyError::MessageLengthMismatch)));
}

#[test]
fn second_pair_mismatch_names_the_right_error() {
    let mut handles = vec![[1u8; 16], [2u8; 16]];
    let plaintexts = vec![[101u8; 16], [102u8; 16]];
    let mut message = Vec::new();
    for i in 0..2 {
        message.extend_from_slice(&handles[i]);
        message.extend_from_slice(&plaintexts[i]);
    }
    // First pair intact; second handle differs from the claim.
    handles[1][15] = 0xEE;
    let record = make_record(covalidator_key().0, &message);
    let r = handler(2, &handles, &plaintexts, Some(&record), key(5), 77);
    assert!(matches!(r, Err(VerifyError::HandleMismatch)));
}
