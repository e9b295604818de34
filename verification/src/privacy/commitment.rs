//! Commitments `H(creator || amount || blinding_factor)` that hide who a
//! private tip is for, with `H` the SHA-256 hash.

use vstd::prelude::*;
use sha2::Digest;
use crate::types::{bytes_equal, Address, Bytes32};
use crate::privacy::CommitmentOpening;

verus! {

/// The SHA-256 digest of `data`, as the `sha2` crate computes it.
pub uninterp spec fn sha256_digest(data: Seq<u8>) -> Seq<u8>;

/// Calls `sha2::Sha256::digest` (through the `Digest` trait) on `data`.
/// Trusted: the result is `sha256_digest(data)`, a 32-byte value; nothing
/// more is stated of SHA-256.
#[verifier::external_body]
fn sha256(data: &[u8]) -> (r: [u8; 32])
    ensures
        r@ == sha256_digest(data@),
{
    sha2::Sha256::digest(data).into()
}

/// Byte `i` (0 = most significant) of the 16-byte big-endian two's
/// complement encoding of `amount`.
pub open spec fn be_byte(amount: i128, i: int) -> u8 {
    ((amount as u128) >> ((8 * (15 - i)) as u128)) as u8
}

/// The 16-byte big-endian two's complement encoding of `amount`.
pub open spec fn amount_bytes(amount: i128) -> Seq<u8> {
    Seq::new(16, |i: int| be_byte(amount, i))
}

/// What is hashed: the creator's strkey, the amount, the blinding factor.
pub open spec fn commitment_preimage(creator: Address, amount: i128, blinding_factor: Bytes32) -> Seq<u8> {
    creator.strkey@ + amount_bytes(amount) + blinding_factor.bytes@
}

/// The commitment to a private tip of `amount` for `creator`.
pub open spec fn commitment_of(creator: Address, amount: i128, blinding_factor: Bytes32) -> Seq<u8> {
    sha256_digest(commitment_preimage(creator, amount, blinding_factor))
}

/// Lays out the bytes that a commitment hashes.
pub fn commitment_preimage_bytes(creator: &Address, amount: i128, blinding_factor: &Bytes32) -> (r: Vec<u8>)
    ensures
        r@ == commitment_preimage(*creator, amount, *blinding_factor),
{
    let mut out: Vec<u8> = Vec::new();
    let mut i: usize = 0;
    while i < 56
        invariant
            i <= 56,
            out@ =~= creator.strkey@.take(i as int),
        decreases 56 - i,
    {
        out.push(creator.strkey[i]);
        i = i + 1;
    }
    assert(creator.strkey@.take(56) =~= creator.strkey@);
    let bits: u128 = amount as u128;
    let mut j: usize = 0;
    while j < 16
        invariant
            j <= 16,
            bits == amount as u128,
            out@ =~= creator.strkey@ + amount_bytes(amount).take(j as int),
        decreases 16 - j,
    {
        let shift: u128 = (8 * (15 - j)) as u128;
        out.push((bits >> shift) as u8);
        assert(amount_bytes(amount)[j as int] == be_byte(amount, j as int));
        j = j + 1;
    }
    assert(amount_bytes(amount).take(16) =~= amount_bytes(amount));
    let mut k: usize = 0;
    while k < 32
        invariant
            k <= 32,
            out@ =~= creator.strkey@ + amount_bytes(amount) + blinding_factor.bytes@.take(k as int),
        decreases 32 - k,
    {
        out.push(blinding_factor.bytes[k]);
        k = k + 1;
    }
    assert(blinding_factor.bytes@.take(32) =~= blinding_factor.bytes@);
    out
}

/// Computes the commitment `H(creator || amount || blinding_factor)`.
pub fn compute_commitment(creator: &Address, amount: i128, blinding_factor: &Bytes32) -> (r: Bytes32)
    ensures
        r.bytes@ == commitment_of(*creator, amount, *blinding_factor),
{
    let preimage = commitment_preimage_bytes(creator, amount, blinding_factor);
    Bytes32 { bytes: sha256(preimage.as_slice()) }
}

/// Whether `opening` opens `commitment`.
pub fn verify_opening(commitment: &Bytes32, opening: &CommitmentOpening) -> (r: bool)
    ensures
        r == (commitment.bytes@ == commitment_of(opening.creator, opening.amount, opening.blinding_factor)),
{
    let computed = compute_commitment(&opening.creator, opening.amount, &opening.blinding_factor);
    let same = bytes_equal(&computed.bytes, &commitment.bytes);
    proof {
        if commitment.bytes@ == computed.bytes@ {
            assert(computed.bytes =~= commitment.bytes);
        }
    }
    same
}

} // verus!
