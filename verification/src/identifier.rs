//! Derivation of a fresh kitty identifier from the host's random seed, the
//! minting account and the ledger's nonce.
//!
//! The three inputs are encoded into 48 bytes, the bytes are hashed with
//! unkeyed BLAKE2b-256, and the first sixteen bytes of the digest, read as a
//! little-endian number, are the identifier.

use vstd::bytes::{spec_u128_from_le_bytes, spec_u64_to_le_bytes, u128_from_le_bytes};
use vstd::prelude::*;
use vstd::slice::slice_subrange;

use crate::types::{AccountId, KittyId};

verus! {

/// The length of the digest that identifiers are cut from.
pub const DIGEST_LEN: usize = 32;

/// The unkeyed BLAKE2b digest of `data`, `nn` bytes long.
pub uninterp spec fn blake2b_digest(nn: usize, data: Seq<u8>) -> Seq<u8>;

/// The bytes that are hashed into an identifier: the seed as it stands, then
/// the account and the nonce, each as eight little-endian bytes.
pub open spec fn entropy_bytes(random_seed: Seq<u8>, sender: AccountId, nonce: u64) -> Seq<u8> {
    random_seed + spec_u64_to_le_bytes(sender) + spec_u64_to_le_bytes(nonce)
}

/// The identifier that a digest stands for: its first sixteen bytes as a
/// little-endian number.
pub open spec fn identifier_of_digest(digest: Seq<u8>) -> KittyId {
    spec_u128_from_le_bytes(digest.subrange(0, 16))
}

/// The identifier that `data` hashes to.
pub open spec fn spec_hash_identifier(data: Seq<u8>) -> KittyId {
    identifier_of_digest(blake2b_digest(DIGEST_LEN, data))
}

/// The identifier derived from a seed, an account and a nonce.
pub open spec fn spec_derive_identifier(
    random_seed: Seq<u8>,
    sender: AccountId,
    nonce: u64,
) -> KittyId {
    spec_hash_identifier(entropy_bytes(random_seed, sender, nonce))
}

/// Calls `parity_codec::Encode::encode` on the tuple `(seed, &sender, nonce)`.
///
/// Trusted: the codec writes a tuple as its fields one after another, a
/// `[u8; 32]` as its 32 bytes, and a `u64` as eight little-endian bytes.
#[verifier::external_body]
fn encode_entropy(random_seed: &[u8; 32], sender: AccountId, nonce: u64) -> (bytes: Vec<u8>)
    ensures
        bytes@ == entropy_bytes(random_seed@, sender, nonce),
{
    parity_codec::Encode::encode(&(random_seed, &sender, nonce))
}

/// Calls `blake2_rfc::blake2b::blake2b` with an empty key.
///
/// Trusted: the digest depends on `nn` and `data` alone and is `nn` bytes
/// long. The outside function panics unless `1 <= nn <= 64`.
#[verifier::external_body]
fn blake2b(nn: usize, data: &[u8]) -> (digest: Vec<u8>)
    requires
        1 <= nn <= 64,
    ensures
        digest@ == blake2b_digest(nn, data@),
        digest@.len() == nn,
{
    blake2_rfc::blake2b::blake2b(nn, &[], data).as_bytes().to_vec()
}

/// Reads the identifier off the first sixteen bytes of a digest.
fn read_identifier(digest: &[u8]) -> (id: KittyId)
    requires
        digest@.len() >= 16,
    ensures
        id == identifier_of_digest(digest@),
{
    u128_from_le_bytes(slice_subrange(digest, 0, 16))
}

/// The identifier that a digest stands for. A digest of fewer than sixteen
/// bytes stands for none.
pub fn identifier_from_digest(digest: &[u8]) -> (id: Option<KittyId>)
    ensures
        id == if digest@.len() >= 16 {
            Some(identifier_of_digest(digest@))
        } else {
            None
        },
{
    if digest.len() >= 16 {
        Some(read_identifier(digest))
    } else {
        None
    }
}

/// Hashes `data` to an identifier.
pub fn hash_identifier(data: &[u8]) -> (id: KittyId)
    ensures
        id == spec_hash_identifier(data@),
{
    let digest = blake2b(DIGEST_LEN, data);
    read_identifier(digest.as_slice())
}

/// The bytes hashed for `(random_seed, sender, nonce)`.
pub fn entropy(random_seed: &[u8; 32], sender: AccountId, nonce: u64) -> (bytes: Vec<u8>)
    ensures
        bytes@ == entropy_bytes(random_seed@, sender, nonce),
        bytes@.len() == 48,
{
    let bytes = encode_entropy(random_seed, sender, nonce);
    proof {
        vstd::bytes::lemma_auto_spec_u64_to_from_le_bytes();
    }
    bytes
}

/// Derives the identifier of the kitty that `sender` mints under `nonce`.
pub fn derive_identifier(random_seed: &[u8; 32], sender: AccountId, nonce: u64) -> (id: KittyId)
    ensures
        id == spec_derive_identifier(random_seed@, sender, nonce),
{
    let bytes = entropy(random_seed, sender, nonce);
    hash_identifier(bytes.as_slice())
}

} // verus!
