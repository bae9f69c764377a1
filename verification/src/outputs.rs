//! What the compute cluster hands back, after its attestation was checked.

use vstd::prelude::*;
use vstd::bytes::{spec_u128_to_le_bytes, spec_u64_from_le_bytes, u128_to_le_bytes, u64_from_le_bytes};
use vstd::slice::slice_subrange;

verus! {

/// A result encrypted for the bettor: `LEN` ciphertexts of 32 bytes under
/// the given key and nonce.
#[derive(Clone, Copy, Debug)]
pub struct SharedEncryptedStruct<const LEN: usize> {
    pub encryption_key: [u8; 32],
    pub nonce: u128,
    pub ciphertexts: [[u8; 32]; LEN],
}

/// Result of a bet's aggregation: the refreshed pool in three ciphertexts.
#[derive(Clone, Copy, Debug)]
pub struct ProcessBetOutput {
    pub field_0: SharedEncryptedStruct<3>,
}

/// Result of a payout's computation: one scalar whose first eight bytes are
/// the payout, little-endian.
#[derive(Clone, Copy, Debug)]
pub struct ComputePayoutOutput {
    pub field_0: SharedEncryptedStruct<1>,
}

/// Outcome of a computation as the callback receives it.
#[derive(Debug)]
pub enum ComputationOutputs<O> {
    /// The cluster's attestation verified; the result is enclosed.
    Success(O),
    /// The computation was aborted, or its attestation or payload did not verify.
    Failure,
}

/// The bytes of the given ciphertexts, one ciphertext after the other.
pub open spec fn flattened(ciphertexts: Seq<[u8; 32]>) -> Seq<u8> {
    Seq::new(32 * ciphertexts.len(), |i: int| ciphertexts[i / 32]@[i % 32])
}

/// The fingerprint of a snapshot: its nonce in 16 little-endian bytes, then
/// 16 zero bytes.
pub open spec fn commitment_of(nonce: u128) -> Seq<u8> {
    spec_u128_to_le_bytes(nonce) + Seq::new(16, |i: int| 0u8)
}

/// The payout that a result carries: the first eight bytes of its scalar,
/// read little-endian.
pub open spec fn payout_of(scalar: [u8; 32]) -> u64 {
    spec_u64_from_le_bytes(scalar@.subrange(0, 8))
}

/// Lays the given ciphertexts out as one run of bytes.
pub fn flatten_ciphertexts<const LEN: usize>(ciphertexts: &[[u8; 32]; LEN]) -> (bytes: Vec<u8>)
    ensures
        bytes@ == flattened(ciphertexts@),
        bytes@.len() == 32 * LEN,
{
    let mut bytes: Vec<u8> = Vec::new();
    let mut i: usize = 0;
    while i < LEN
        invariant
            i <= LEN,
            ciphertexts@.len() == LEN,
            bytes@.len() == 32 * i,
            forall|k: int| 0 <= k < 32 * i ==> bytes@[k] == ciphertexts@[k / 32]@[k % 32],
        decreases LEN - i,
    {
        let mut j: usize = 0;
        while j < 32
            invariant
                i < LEN,
                j <= 32,
                ciphertexts@.len() == LEN,
                bytes@.len() == 32 * i + j,
                forall|k: int| 0 <= k < 32 * i + j ==> bytes@[k] == ciphertexts@[k / 32]@[k % 32],
            decreases 32 - j,
        {
            bytes.push(ciphertexts[i][j]);
            j += 1;
        }
        i += 1;
    }
    proof {
        assert(bytes@ =~= flattened(ciphertexts@));
    }
    bytes
}

/// Computes the fingerprint of a snapshot from its nonce.
pub fn commitment_from_nonce(nonce: u128) -> (commitment: [u8; 32])
    ensures
        commitment@ == commitment_of(nonce),
{
    let le = u128_to_le_bytes(nonce);
    let mut commitment = [0u8; 32];
    let mut i: usize = 0;
    while i < 16
        invariant
            i <= 16,
            le@.len() == 16,
            forall|k: int| 0 <= k < i ==> commitment@[k] == le@[k],
            forall|k: int| i <= k < 32 ==> commitment@[k] == 0u8,
        decreases 16 - i,
    {
        commitment[i] = le[i];
        i += 1;
    }
    proof {
        assert(commitment@ =~= commitment_of(nonce));
    }
    commitment
}

/// Reads the payout out of a result's scalar.
pub fn payout_from_scalar(scalar: &[u8; 32]) -> (payout: u64)
    ensures
        payout == payout_of(*scalar),
{
    let head = slice_subrange(scalar.as_slice(), 0, 8);
    u64_from_le_bytes(head)
}

} // verus!
