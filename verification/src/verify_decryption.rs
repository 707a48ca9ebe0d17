//! Attested-decryption verification.
//!
//! A caller who wants to reveal what a set of handles decrypts to must
//! place a signature-verification record as the first instruction of the
//! transaction.  The hosting chain only admits that record after the
//! signature itself validated, so this verifier's whole job is identity
//! and content: the record must target the native Ed25519 facility, be
//! signed by the one trusted covalidator, and sign exactly the claimed
//! handle/plaintext pairs in order.  No ledger or custody state is
//! touched.
//!
//! The record's layout is a fixed byte-offset format: a one-byte
//! signature count, then little-endian 16-bit offsets locating the
//! signature, the public key and the message inside the record's own
//! data, with an explicit message length.

use vstd::prelude::*;
use crate::keys::Pubkey;
use crate::keys::spec_ed25519_program_id;
use crate::keys::spec_covalidator_key;
use crate::keys::ed25519_program_id;
use crate::keys::covalidator_key;
use crate::wire::spec_u16_of_le;
use crate::wire::u16_of_le;

verus! {

/// One record of the transaction's instruction log.
pub struct IxRecord {
    /// The program the record targets.
    pub program_id: Pubkey,
    /// The record's raw data.
    pub data: Vec<u8>,
}

/// Errors of the attestation check.
#[derive(Clone, Copy, Debug, PartialEq, Eq, Structural)]
pub enum VerifyError {
    /// The handle list is not as long as claimed.
    HandleCountMismatch,
    /// The plaintext list is not as long as claimed.
    PlaintextCountMismatch,
    /// No record stands at index 0 of the instruction log.
    MissingEd25519Instruction,
    /// The record does not target the native Ed25519 facility.
    InvalidEd25519Program,
    /// The record's data is too short for what it claims to contain.
    Ed25519DataTooShort,
    /// The record carries a signature count other than one.
    InvalidSignatureCount,
    /// The record is signed by someone other than the trusted
    /// covalidator.
    UnauthorizedCovalidator,
    /// The signed message is not exactly as long as the claim requires.
    MessageLengthMismatch,
    /// A handle in the signed message differs from the claim.
    HandleMismatch,
    /// A plaintext in the signed message differs from the claim.
    PlaintextMismatch,
}

/// Emitted when an attestation check passes.
#[derive(Debug)]
pub struct DecryptionVerified {
    pub authority: Pubkey,
    pub num_handles: u8,
    pub timestamp: i64,
}

/// Where the one-byte signature count stands in a record's data.
pub const SIG_COUNT_AT: usize = 0;

/// Where the public key's little-endian 16-bit offset stands.
pub const PK_OFFSET_AT: usize = 6;

/// Where the message's little-endian 16-bit offset stands.
pub const MSG_OFFSET_AT: usize = 10;

/// Where the message's little-endian 16-bit size stands.
pub const MSG_SIZE_AT: usize = 12;

/// The record's fixed header: signature count, padding, and four
/// offset pairs.
pub const HEADER_LEN: usize = 16;

/// An Ed25519 public key is 32 bytes.
pub const PK_LEN: usize = 32;

/// One claimed pair in the message: 16 bytes of handle, then 16 bytes
/// of plaintext.
pub const PAIR_LEN: usize = 32;

/// The public key offset a record's header declares.
pub open spec fn spec_pk_off(data: Seq<u8>) -> int {
    spec_u16_of_le(data[PK_OFFSET_AT as int], data[PK_OFFSET_AT as int + 1])
}

/// The message offset a record's header declares.
pub open spec fn spec_msg_off(data: Seq<u8>) -> int {
    spec_u16_of_le(data[MSG_OFFSET_AT as int], data[MSG_OFFSET_AT as int + 1])
}

/// The message size a record's header declares.
pub open spec fn spec_msg_size(data: Seq<u8>) -> int {
    spec_u16_of_le(data[MSG_SIZE_AT as int], data[MSG_SIZE_AT as int + 1])
}

/// The bytes of `data` starting at `start` read exactly `want`.
pub open spec fn seg_eq(data: Seq<u8>, start: int, want: Seq<u8>) -> bool {
    forall|k: int| 0 <= k < want.len() ==> data[start + k] == want[k]
}

/// First-mismatch check of the claimed pairs against the signed
/// message: pair `i` occupies bytes `32*i` to `32*i + 32` of the
/// message, handle first; the first differing pair decides the error,
/// its handle before its plaintext.
pub open spec fn spec_check_pairs(
    data: Seq<u8>,
    msg_off: int,
    handles: Seq<[u8; 16]>,
    plaintexts: Seq<[u8; 16]>,
    i: int,
    n: int,
) -> Result<(), VerifyError>
    decreases n - i,
{
    if i >= n {
        Ok(())
    } else if !seg_eq(data, msg_off + PAIR_LEN * i, handles[i]@) {
        Err(VerifyError::HandleMismatch)
    } else if !seg_eq(data, msg_off + PAIR_LEN * i + 16, plaintexts[i]@) {
        Err(VerifyError::PlaintextMismatch)
    } else {
        spec_check_pairs(data, msg_off, handles, plaintexts, i + 1, n)
    }
}

/// The whole outcome of an attestation check, over the claim and the
/// first record of the instruction log.  Checks run in a fixed order
/// and the first to fail names the error.
pub open spec fn spec_verify_outcome(
    num_handles: u8,
    handles: Seq<[u8; 16]>,
    plaintexts: Seq<[u8; 16]>,
    record: Option<(Pubkey, Seq<u8>)>,
) -> Result<(), VerifyError> {
    if handles.len() != num_handles {
        Err(VerifyError::HandleCountMismatch)
    } else if plaintexts.len() != num_handles {
        Err(VerifyError::PlaintextCountMismatch)
    } else {
        match record {
            None => Err(VerifyError::MissingEd25519Instruction),
            Some((program_id, data)) => {
                if program_id != spec_ed25519_program_id() {
                    Err(VerifyError::InvalidEd25519Program)
                } else if data.len() < HEADER_LEN {
                    Err(VerifyError::Ed25519DataTooShort)
                } else if data[SIG_COUNT_AT as int] != 1 {
                    Err(VerifyError::InvalidSignatureCount)
                } else {
                    let pk_off = spec_pk_off(data);
                    let msg_off = spec_msg_off(data);
                    let msg_size = spec_msg_size(data);
                    if data.len() < msg_off + msg_size {
                        Err(VerifyError::Ed25519DataTooShort)
                    } else if data.len() < pk_off + PK_LEN {
                        Err(VerifyError::Ed25519DataTooShort)
                    } else if !seg_eq(data, pk_off, spec_covalidator_key().0@) {
                        Err(VerifyError::UnauthorizedCovalidator)
                    } else if msg_size != PAIR_LEN * num_handles {
                        Err(VerifyError::MessageLengthMismatch)
                    } else {
                        spec_check_pairs(
                            data,
                            msg_off,
                            handles,
                            plaintexts,
                            0,
                            num_handles as int,
                        )
                    }
                }
            },
        }
    }
}

/// A passing pair check means every pair from `i` on stands in the
/// message exactly as claimed.
proof fn lemma_check_pairs_ok(
    data: Seq<u8>,
    msg_off: int,
    handles: Seq<[u8; 16]>,
    plaintexts: Seq<[u8; 16]>,
    i: int,
    n: int,
)
    requires
        spec_check_pairs(data, msg_off, handles, plaintexts, i, n) is Ok,
    ensures
        forall|j: int|
            i <= j < n ==> seg_eq(data, msg_off + PAIR_LEN * j, #[trigger] handles[j]@) && seg_eq(
                data,
                msg_off + PAIR_LEN * j + 16,
                plaintexts[j]@,
            ),
    decreases n - i,
{
    if i < n {
        lemma_check_pairs_ok(data, msg_off, handles, plaintexts, i + 1, n);
    }
}

/// Only true claims verify: a record the attestation check passes
/// targets the native Ed25519 facility, carries the trusted
/// covalidator's key at its declared key offset, and holds, at its
/// declared message offset, exactly the claimed handle/plaintext pairs
/// in order.  Together with the hosting chain's rule that only records
/// whose signature validated reach the log, a passing check means the
/// trusted covalidator signed exactly the claimed pairs.
pub proof fn lemma_verified_claim_matches_record(
    num_handles: u8,
    handles: Seq<[u8; 16]>,
    plaintexts: Seq<[u8; 16]>,
    program_id: Pubkey,
    data: Seq<u8>,
)
    requires
        spec_verify_outcome(num_handles, handles, plaintexts, Some((program_id, data))) is Ok,
    ensures
        handles.len() == num_handles,
        plaintexts.len() == num_handles,
        program_id == spec_ed25519_program_id(),
        seg_eq(data, spec_pk_off(data), spec_covalidator_key().0@),
        spec_msg_size(data) == PAIR_LEN * num_handles,
        data.len() >= spec_msg_off(data) + PAIR_LEN * num_handles,
        forall|j: int|
            0 <= j < num_handles ==> seg_eq(
                data,
                spec_msg_off(data) + PAIR_LEN * j,
                #[trigger] handles[j]@,
            ) && seg_eq(data, spec_msg_off(data) + PAIR_LEN * j + 16, plaintexts[j]@),
{
    lemma_check_pairs_ok(data, spec_msg_off(data), handles, plaintexts, 0, num_handles as int);
}

/// The spec image of an optional log record.
pub open spec fn spec_record(record: Option<&IxRecord>) -> Option<(Pubkey, Seq<u8>)> {
    match record {
        None => None,
        Some(r) => Some((r.program_id, r.data@)),
    }
}

/// Whether `want` stands byte for byte in `data` at `start`.
fn seg_matches<const N: usize>(data: &Vec<u8>, start: usize, want: &[u8; N]) -> (r: bool)
    requires
        start + N <= data@.len(),
    ensures
        r == seg_eq(data@, start as int, want@),
{
    let len = data.len();
    let mut k: usize = 0;
    while k < N
        invariant
            k <= N,
            start + N <= len,
            len == data@.len(),
            forall|j: int| 0 <= j < k ==> data@[start + j] == want@[j],
        decreases N - k,
    {
        if data[start + k] != want[k] {
            proof {
                assert(data@[start + k as int] != want@[k as int]);
            }
            return false;
        }
        k = k + 1;
    }
    true
}

/// Check a claimed set of handle/plaintext decryption pairs against the
/// attestation record at index 0 of the instruction log, and emit a
/// verification event when everything matches.
pub fn handler(
    num_handles: u8,
    handles: &Vec<[u8; 16]>,
    plaintexts: &Vec<[u8; 16]>,
    record: Option<&IxRecord>,
    authority: Pubkey,
    now: i64,
) -> (r: Result<DecryptionVerified, VerifyError>)
    ensures
        r is Ok <==> spec_verify_outcome(num_handles, handles@, plaintexts@, spec_record(record))
            is Ok,
        r is Ok ==> r.unwrap() == (DecryptionVerified { authority, num_handles, timestamp: now }),
        r is Err ==> Err::<(), VerifyError>(r.unwrap_err()) == spec_verify_outcome(
            num_handles,
            handles@,
            plaintexts@,
            spec_record(record),
        ),
{
    if handles.len() != num_handles as usize {
        return Err(VerifyError::HandleCountMismatch);
    }
    if plaintexts.len() != num_handles as usize {
        return Err(VerifyError::PlaintextCountMismatch);
    }
    let rec = match record {
        None => {
            return Err(VerifyError::MissingEd25519Instruction);
        },
        Some(rec) => rec,
    };
    if !(rec.program_id == ed25519_program_id()) {
        return Err(VerifyError::InvalidEd25519Program);
    }
    let data = &rec.data;
    if data.len() < HEADER_LEN {
        return Err(VerifyError::Ed25519DataTooShort);
    }
    if data[SIG_COUNT_AT] != 1 {
        return Err(VerifyError::InvalidSignatureCount);
    }
    let pk_off = u16_of_le(data[PK_OFFSET_AT], data[PK_OFFSET_AT + 1]);
    let msg_off = u16_of_le(data[MSG_OFFSET_AT], data[MSG_OFFSET_AT + 1]);
    let msg_size = u16_of_le(data[MSG_SIZE_AT], data[MSG_SIZE_AT + 1]);
    if data.len() < msg_off + msg_size {
        return Err(VerifyError::Ed25519DataTooShort);
    }
    if data.len() < pk_off + PK_LEN {
        return Err(VerifyError::Ed25519DataTooShort);
    }
    let trusted = covalidator_key();
    if !seg_matches::<32>(data, pk_off, &trusted.0) {
        return Err(VerifyError::UnauthorizedCovalidator);
    }
    if msg_size != PAIR_LEN * (num_handles as usize) {
        return Err(VerifyError::MessageLengthMismatch);
    }
    let n = num_handles as usize;
    let mut i: usize = 0;
    #[verifier::loop_isolation(false)]
    while i < n
        invariant
            i <= n,
            n == num_handles,
            handles@.len() == n,
            plaintexts@.len() == n,
            msg_off + PAIR_LEN * n <= data@.len(),
            msg_off <= 65535,
            spec_check_pairs(data@, msg_off as int, handles@, plaintexts@, 0, n as int)
                == spec_check_pairs(data@, msg_off as int, handles@, plaintexts@, i as int, n as int),
        decreases n - i,
    {
        if !seg_matches::<16>(data, msg_off + PAIR_LEN * i, &handles[i]) {
            proof {
                assert(spec_check_pairs(
                    data@,
                    msg_off as int,
                    handles@,
                    plaintexts@,
                    i as int,
                    n as int,
                ) == Err::<(), VerifyError>(VerifyError::HandleMismatch));
            }
            return Err(VerifyError::HandleMismatch);
        }
        if !seg_matches::<16>(data, msg_off + PAIR_LEN * i + 16, &plaintexts[i]) {
            proof {
                assert(spec_check_pairs(
                    data@,
                    msg_off as int,
                    handles@,
                    plaintexts@,
                    i as int,
                    n as int,
                ) == Err::<(), VerifyError>(VerifyError::PlaintextMismatch));
            }
            return Err(VerifyError::PlaintextMismatch);
        }
        proof {
            assert(spec_check_pairs(data@, msg_off as int, handles@, plaintexts@, i as int, n as int)
                == spec_check_pairs(
                data@,
                msg_off as int,
                handles@,
                plaintexts@,
                i as int + 1,
                n as int,
            ));
        }
        i = i + 1;
    }
    proof {
        assert(spec_check_pairs(data@, msg_off as int, handles@, plaintexts@, n as int, n as int)
            == Ok::<(), VerifyError>(()));
    }
    Ok(DecryptionVerified { authority, num_handles, timestamp: now })
}

} // verus!
