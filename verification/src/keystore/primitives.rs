//! The cryptographic primitives that keyfiles are made with. Each function
//! here calls a primitive of another crate, and its contract is believed,
//! not proved.

use ctr::cipher::{KeyIvInit, StreamCipher};
use rand::TryRng;
use sha3::Digest;
use vstd::prelude::*;

verus! {

/// The key of 32 bytes that scrypt derives from a passphrase and a salt with
/// work factor two to the power `log_n`, block size `r` and parallelism `p`.
pub uninterp spec fn scrypt_key(
    passphrase: Seq<u8>,
    salt: Seq<u8>,
    log_n: u8,
    r: u32,
    p: u32,
) -> Seq<u8>;

/// The Keccak-256 digest of `data`.
pub uninterp spec fn keccak256(data: Seq<u8>) -> Seq<u8>;

/// The first `len` bytes of the key stream of AES-128 in counter mode, with
/// a big-endian counter of 128 bits that starts at `iv`.
pub uninterp spec fn aes128_ctr_keystream(key: Seq<u8>, iv: Seq<u8>, len: nat) -> Seq<u8>;

/// The public key of the secp256k1 secret key `secret` as an uncompressed
/// point of 65 bytes, or `None` where `secret` is no secret key.
pub uninterp spec fn secp256k1_public_key(secret: Seq<u8>) -> Option<Seq<u8>>;

/// The deterministic ECDSA signature by `secret` of the digest `digest`:
/// the 64 bytes of `r` and `s` and the recovery identifier, or `None` where
/// there is none.
pub uninterp spec fn secp256k1_signature(secret: Seq<u8>, digest: Seq<u8>) -> Option<
    (Seq<u8>, u8),
>;

/// Each byte of `data` combined by exclusive or with the byte of `stream` at
/// the same place.
pub open spec fn xor_with(data: Seq<u8>, stream: Seq<u8>) -> Seq<u8> {
    Seq::new(data.len(), |i: int| data[i] ^ stream[i])
}

/// The scrypt parameters that this library derives keys with: a work factor
/// of at most two to the power 18, block size and parallelism of at most 8.
pub open spec fn scrypt_supported(log_n: u8, r: u32, p: u32) -> bool {
    1 <= log_n <= 18 && 1 <= r <= 8 && 1 <= p <= 8
}

/// `len` bytes from the operating system's random generator
/// (`rand::rngs::SysRng`, `try_fill_bytes`), or `None` where it fails.
/// Nothing is claimed of the bytes but their number.
#[verifier::external_body]
pub(crate) fn random_bytes(len: usize) -> (r: Option<Vec<u8>>)
    ensures
        r matches Some(bytes) ==> bytes@.len() == len,
{
    let mut out = vec![0u8; len];
    match rand::rngs::SysRng.try_fill_bytes(&mut out) {
        Ok(()) => Some(out),
        Err(_) => None,
    }
}

/// `scrypt::scrypt` with an output of 32 bytes. The parameters that
/// `requires` admits are accepted by `scrypt::Params::new`, and the output
/// length by `scrypt::scrypt`, so neither fails; the result is a function of
/// the arguments alone.
#[verifier::external_body]
pub(crate) fn scrypt_derive(passphrase: &[u8], salt: &[u8], log_n: u8, r: u32, p: u32) -> (key:
    Vec<u8>)
    requires
        scrypt_supported(log_n, r, p),
    ensures
        key@ == scrypt_key(passphrase@, salt@, log_n, r, p),
        key@.len() == 32,
{
    let mut key = vec![0u8; 32];
    let params = scrypt::Params::new(log_n, r, p).unwrap();
    scrypt::scrypt(passphrase, salt, &params, &mut key).unwrap();
    key
}

/// `sha3::Keccak256::digest`: the digest of 32 bytes, a function of `data`
/// alone.
#[verifier::external_body]
pub(crate) fn keccak256_digest(data: &[u8]) -> (r: Vec<u8>)
    ensures
        r@ == keccak256(data@),
        r@.len() == 32,
{
    sha3::Keccak256::digest(data).to_vec()
}

/// `apply_keystream` of `ctr::Ctr128BE<aes::Aes128>` on a copy of `data`:
/// each byte of `data` combined by exclusive or with the key stream that
/// `key` and `iv` give. With 16 bytes each the cipher is made without
/// failure, and a fresh cipher has key stream left for any `data`.
#[verifier::external_body]
pub(crate) fn aes128_ctr_apply(key: &[u8], iv: &[u8], data: &[u8]) -> (r: Vec<u8>)
    requires
        key@.len() == 16,
        iv@.len() == 16,
    ensures
        r@ == xor_with(data@, aes128_ctr_keystream(key@, iv@, data@.len())),
{
    let mut out = data.to_vec();
    let mut cipher = ctr::Ctr128BE::<aes::Aes128>::new_from_slices(key, iv).unwrap();
    cipher.apply_keystream(&mut out);
    out
}

/// `k256::ecdsa::SigningKey::from_slice` and the uncompressed encoding of
/// its verifying key: 65 bytes, or `None` where `secret` is refused as a
/// secret key.
#[verifier::external_body]
pub(crate) fn public_key_of(secret: &[u8]) -> (r: Option<Vec<u8>>)
    ensures
        match r {
            Some(point) => secp256k1_public_key(secret@) == Some(point@) && point@.len() == 65,
            None => secp256k1_public_key(secret@) is None,
        },
{
    match k256::ecdsa::SigningKey::from_slice(secret) {
        Ok(key) => Some(key.verifying_key().to_encoded_point(false).as_bytes().to_vec()),
        Err(_) => None,
    }
}

/// `sign_prehash_recoverable` of `k256::ecdsa::SigningKey`: the signature
/// of 64 bytes and its recovery identifier, a function of the arguments
/// alone, or `None` where the key or the digest is refused.
#[verifier::external_body]
pub(crate) fn sign_digest(secret: &[u8], digest: &[u8]) -> (r: Option<(Vec<u8>, u8)>)
    ensures
        match r {
            Some((signature, recovery)) => secp256k1_signature(secret@, digest@) == Some(
                (signature@, recovery),
            ) && signature@.len() == 64,
            None => secp256k1_signature(secret@, digest@) is None,
        },
{
    match k256::ecdsa::SigningKey::from_slice(secret) {
        Ok(key) => match key.sign_prehash_recoverable(digest) {
            Ok((signature, recovery)) => Some((signature.to_bytes().to_vec(), recovery.to_byte())),
            Err(_) => None,
        },
        Err(_) => None,
    }
}

} // verus!
