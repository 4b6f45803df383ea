//! Nullifiers: per-ballot double-vote tokens derived from a user identifier.
use crate::field::{le_bytes_value, modulus, FieldElement};
use ark_crypto_primitives::crh::CRHScheme;
use ark_std::rand::RngCore;
use std::collections::hash_map::DefaultHasher;
use std::hash::Hasher;
use vstd::bytes::{spec_u64_to_le_bytes, u64_to_le_bytes};
use vstd::prelude::*;
use vstd::std_specs::hash::DefaultHasherAdditionalSpecFns;
use vstd::string::{StrSliceExecFns, StringSliceAdditionalSpecFns};

verus! {

#[verifier::external_type_specification]
#[verifier::external_body]
pub struct ExStdRng(ark_std::rand::rngs::StdRng);

/// The SHA-256 digest of a byte string.
pub uninterp spec fn sha256_of(bytes: Seq<u8>) -> Seq<u8>;

/// The bytes hashed into a nullifier: the identifier's UTF-8 bytes, then a salt and a
/// timestamp, each as eight little-endian bytes.
pub open spec fn nullifier_preimage_of(user_id: Seq<u8>, salt: u64, timestamp: u64) -> Seq<u8> {
    user_id + spec_u64_to_le_bytes(salt) + spec_u64_to_le_bytes(timestamp)
}

/// The nullifier of an identifier under a salt and a timestamp: the SHA-256 digest of
/// the preimage, read little-endian and reduced modulo the field order.
pub open spec fn nullifier_value(user_id: Seq<u8>, salt: u64, timestamp: u64) -> nat {
    le_bytes_value(sha256_of(nullifier_preimage_of(user_id, salt, timestamp))) % modulus()
}

/// What the process-wide default hasher gives for a string: `str`'s `Hash` writes its
/// bytes, then the byte `0xff`.
pub open spec fn default_hash_of_str(user_id: Seq<u8>) -> u64 {
    DefaultHasher::spec_finish(seq![user_id, seq![0xffu8]])
}

/// A 64-bit identifier tag: the standard library's default hash of the identifier.
pub fn calculate_nullifier(user_id: &str) -> (r: u64)
    ensures
        r == default_hash_of_str(user_id.spec_bytes()),
{
    let bytes = user_id.as_bytes_vec();
    let mut hasher = DefaultHasher::new();
    hasher.write(bytes.as_slice());
    let terminator: [u8; 1] = [0xff];
    hasher.write(terminator.as_slice());
    proof {
        assert(terminator@ =~= seq![0xffu8]);
        assert(hasher@ =~= seq![user_id.spec_bytes(), seq![0xffu8]]);
    }
    hasher.finish()
}

/// The bytes that `nullifier_from_parts` hashes.
pub fn nullifier_preimage(user_id: &str, salt: u64, timestamp: u64) -> (r: Vec<u8>)
    ensures
        r@ == nullifier_preimage_of(user_id.spec_bytes(), salt, timestamp),
{
    let mut out = user_id.as_bytes_vec();
    let mut salt_bytes = u64_to_le_bytes(salt);
    let mut time_bytes = u64_to_le_bytes(timestamp);
    out.append(&mut salt_bytes);
    out.append(&mut time_bytes);
    out
}

/// The nullifier of `user_id` under a given salt and timestamp.
pub fn nullifier_from_parts(user_id: &str, salt: u64, timestamp: u64) -> (r: FieldElement)
    ensures
        r.value() == nullifier_value(user_id.spec_bytes(), salt, timestamp),
{
    let preimage = nullifier_preimage(user_id, salt, timestamp);
    let digest = sha256_digest(&preimage);
    FieldElement::from_le_bytes_mod_order(&digest)
}

/// A fresh nullifier for `user_id`: a random 64-bit salt drawn from `rng` and the
/// current Unix time in seconds are hashed with the identifier. A clock set before
/// the epoch counts as second zero.
pub fn generate_nullifier(user_id: &str, rng: &mut ark_std::rand::rngs::StdRng) -> (r: FieldElement)
    ensures
        exists|salt: u64, timestamp: u64| r.value() == nullifier_value(user_id.spec_bytes(), salt, timestamp),
{
    let salt = next_u64(rng);
    let timestamp = match unix_time_seconds() {
        Some(t) => t,
        None => 0,
    };
    nullifier_from_parts(user_id, salt, timestamp)
}

/// Relies on ark-crypto-primitives' `CRHScheme` impl for `Sha256`: `evaluate` returns
/// `Ok` of the 32-byte SHA-256 digest of its input, and never an error.
#[verifier::external_body]
fn sha256_digest(bytes: &Vec<u8>) -> (r: Vec<u8>)
    ensures
        r@ == sha256_of(bytes@),
        r@.len() == 32,
{
    match <ark_crypto_primitives::crh::sha256::Sha256 as CRHScheme>::evaluate(&(), bytes.as_slice()) {
        Ok(digest) => digest,
        Err(_) => Vec::new(),
    }
}

/// Relies on rand's `RngCore::next_u64` for `StdRng`: draws the next 64 random bits.
#[verifier::external_body]
fn next_u64(rng: &mut ark_std::rand::rngs::StdRng) -> (r: u64) {
    rng.next_u64()
}

/// Relies on `SystemTime::elapsed` applied to the Unix epoch: the time from the epoch
/// to the current clock reading, an error where the clock reads earlier than the
/// epoch. The result keeps its whole seconds.
#[verifier::external_body]
fn unix_time_seconds() -> (r: Option<u64>) {
    std::time::UNIX_EPOCH.elapsed().ok().map(|d| d.as_secs())
}

} // verus!
