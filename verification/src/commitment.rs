//! Hash commitments to a hidden coin choice.
//!
//! A player commits to a choice by publishing the Keccak-256 digest of the
//! choice byte followed by a secret 32-byte nonce. Revealing the choice and
//! the nonce later lets anyone recompute the digest and compare.

use vstd::prelude::*;
use crate::address::bytes32_eq;

verus! {

/// The Keccak-256 digest of a byte string.
pub uninterp spec fn keccak256(data: Seq<u8>) -> Seq<u8>;

/// The bytes that are hashed for a commitment: the choice, then the nonce.
pub open spec fn preimage(choice: u8, nonce: Seq<u8>) -> Seq<u8> {
    seq![choice] + nonce
}

/// The commitment that binds `choice` under `nonce`.
pub open spec fn commitment_of(choice: u8, nonce: Seq<u8>) -> Seq<u8> {
    keccak256(preimage(choice, nonce))
}

/// Calls `solana_program::keccak::hash` and takes the digest's 32 bytes with
/// `Hash::to_bytes`. Trusted: the result is the Keccak-256 digest of `data`,
/// a function of the bytes of `data` alone.
#[allow(deprecated)]
#[verifier::external_body]
fn keccak256_digest(data: &Vec<u8>) -> (digest: [u8; 32])
    ensures
        digest@ == keccak256(data@),
{
    solana_program::keccak::hash(data.as_slice()).to_bytes()
}

/// Lays out the bytes to hash: the choice byte, then the 32 nonce bytes.
pub fn preimage_bytes(choice: u8, nonce: &[u8; 32]) -> (data: Vec<u8>)
    ensures
        data@ == preimage(choice, nonce@),
{
    let mut data: Vec<u8> = Vec::with_capacity(33);
    data.push(choice);
    let mut i: usize = 0;
    while i < 32
        invariant
            i <= 32,
            data@.len() == i + 1,
            data@[0] == choice,
            forall|j: int| 0 <= j < i ==> data@[j + 1] == nonce@[j],
        decreases 32 - i,
    {
        data.push(nonce[i]);
        i += 1;
    }
    assert(data@ =~= preimage(choice, nonce@));
    data
}

/// The commitment a player publishes for `choice` under the secret `nonce`.
pub fn commit(choice: u8, nonce: &[u8; 32]) -> (commitment: [u8; 32])
    ensures
        commitment@ == commitment_of(choice, nonce@),
{
    let data = preimage_bytes(choice, nonce);
    keccak256_digest(&data)
}

/// Whether a recomputed digest is the stored commitment, byte for byte.
pub fn digest_matches(commitment: &[u8; 32], digest: &[u8; 32]) -> (ok: bool)
    ensures
        ok == (commitment@ == digest@),
        ok == (*commitment == *digest),
{
    bytes32_eq(commitment, digest)
}

/// Whether `choice` and `nonce` are what `commitment` was made from: the
/// digest of the choice byte followed by the nonce equals the commitment in
/// all 32 bytes.
pub fn verify(commitment: &[u8; 32], choice: u8, nonce: &[u8; 32]) -> (ok: bool)
    ensures
        ok == (commitment@ == commitment_of(choice, nonce@)),
{
    let digest = commit(choice, nonce);
    digest_matches(commitment, &digest)
}

} // verus!
