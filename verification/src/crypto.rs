//! Trusted boundary to the outside cryptography and randomness crates.
//!
//! The signature scheme is an aggregatable threshold scheme: each committee
//! member holds a secret key share; signature shares over a message combine
//! into one threshold signature that verifies under the committee's master
//! public key. Signatures travel as plain byte vectors; keys are opaque
//! values of the outside crate.

use vstd::prelude::*;

use rand::distributions::Distribution;
use rand::seq::SliceRandom;
use sha2::Digest;

verus! {

pub uninterp spec fn sha256_of(data: Seq<u8>) -> Seq<u8>;

/// Relies on sha2's Sha256: a 32-byte digest determined by the input bytes
/// alone.
#[verifier::external_body]
pub fn sha256(data: &Vec<u8>) -> (r: Vec<u8>)
    ensures
        r@ == sha256_of(data@),
        r@.len() == 32,
{
    sha2::Sha256::digest(data).to_vec()
}

#[verifier::external_type_specification]
#[verifier::external_body]
pub struct ExSecretKeyShare(threshold_crypto::SecretKeyShare);

#[verifier::external_type_specification]
#[verifier::external_body]
pub struct ExPublicKeySet(threshold_crypto::PublicKeySet);

#[verifier::external_type_specification]
#[verifier::external_body]
pub struct ExPublicKeyShare(threshold_crypto::PublicKeyShare);

#[verifier::external_type_specification]
#[verifier::external_body]
pub struct ExPublicKey(threshold_crypto::PublicKey);

#[verifier::external_type_specification]
#[verifier::external_body]
pub struct ExSignatureShare(threshold_crypto::SignatureShare);

/// Relies on threshold_crypto's PublicKeySet::public_key_share.
#[verifier::external_body]
pub fn public_key_share(ks: &threshold_crypto::PublicKeySet, i: u64) -> (r:
    threshold_crypto::PublicKeyShare) {
    ks.public_key_share(i)
}

/// Relies on threshold_crypto's PublicKeySet::public_key: the committee's
/// master public key, under which combined signatures verify.
#[verifier::external_body]
pub fn master_public_key(ks: &threshold_crypto::PublicKeySet) -> (r:
    threshold_crypto::PublicKey) {
    ks.public_key()
}

/// Relies on threshold_crypto's SecretKeyShare::sign and
/// Signature::to_bytes: the 96-byte compressed signature share over the
/// message.
#[verifier::external_body]
pub fn sign_share(sk: &threshold_crypto::SecretKeyShare, msg: &Vec<u8>) -> (r: [u8; 96]) {
    sk.sign(msg.as_slice()).to_bytes()
}

/// Relies on threshold_crypto's SignatureShare::from_bytes and
/// PublicKeyShare::verify: true exactly when the bytes are a well-formed
/// share that verifies under the key share for this message.
#[verifier::external_body]
pub fn verify_share(
    pk: &threshold_crypto::PublicKeyShare,
    sig: &[u8; 96],
    msg: &Vec<u8>,
) -> (r: bool) {
    match threshold_crypto::SignatureShare::from_bytes(sig) {
        Ok(share) => pk.verify(&share, msg.as_slice()),
        Err(_) => false,
    }
}

/// Relies on threshold_crypto's SignatureShare clone.
#[verifier::external_body]
pub fn dup_signature_share(s: &threshold_crypto::SignatureShare) -> (r:
    threshold_crypto::SignatureShare) {
    s.clone()
}

/// Relies on threshold_crypto's SignatureShare::from_bytes: accepts exactly
/// the 96-byte compressed encodings of curve points.
#[verifier::external_body]
pub fn signature_share_from_bytes(sig: &[u8; 96]) -> (r: Option<
    threshold_crypto::SignatureShare,
>) {
    threshold_crypto::SignatureShare::from_bytes(sig).ok()
}

/// Relies on threshold_crypto's PublicKeySet::combine_signatures: fails only
/// on a duplicate index or too few shares; on success returns the 96-byte
/// combined signature.
#[verifier::external_body]
pub fn combine_signature_shares(
    ks: &threshold_crypto::PublicKeySet,
    shares: &Vec<(u64, threshold_crypto::SignatureShare)>,
) -> (r: Option<[u8; 96]>) {
    ks.combine_signatures(shares.iter().map(|p| (p.0, &p.1))).ok().map(|s| s.to_bytes())
}

/// Relies on threshold_crypto's Signature::from_bytes and
/// PublicKey::verify: true exactly when the bytes are a well-formed
/// signature that verifies under the master key for this message.
#[verifier::external_body]
pub fn verify_combined(
    pk: &threshold_crypto::PublicKey,
    sig: &[u8; 96],
    msg: &Vec<u8>,
) -> (r: bool) {
    match threshold_crypto::Signature::from_bytes(sig) {
        Ok(s) => pk.verify(&s, msg.as_slice()),
        Err(_) => false,
    }
}

/// Relies on rand's SliceRandom::shuffle: an in-place permutation, so the
/// multiset of elements and the length are unchanged.
#[verifier::external_body]
pub fn shuffle_ids(v: &mut Vec<u64>)
    ensures
        final(v)@.to_multiset() == old(v)@.to_multiset(),
        final(v)@.len() == old(v)@.len(),
{
    v.shuffle(&mut rand::thread_rng());
}

/// Relies on rand's Uniform::new_inclusive and sampling from the thread
/// generator: a value within the closed range. Panics when `lo > hi`, so
/// that input is excluded.
#[verifier::external_body]
pub fn random_u64_inclusive(lo: u64, hi: u64) -> (r: u64)
    requires
        lo <= hi,
    ensures
        lo <= r <= hi,
{
    rand::distributions::Uniform::new_inclusive(lo, hi).sample(&mut rand::thread_rng())
}

/// Relies on rand's Bernoulli::from_ratio: succeeds exactly when the ratio
/// is a probability, that is `num <= den` and `den != 0`; nothing is
/// promised of the sampled draw.
#[verifier::external_body]
pub fn random_bool_ratio(num: u32, den: u32) -> (r: bool)
    requires
        num <= den,
        den != 0,
{
    rand::distributions::Bernoulli::from_ratio(num, den).unwrap().sample(
        &mut rand::thread_rng(),
    )
}

} // verus!
