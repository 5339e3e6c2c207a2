//! Secret keys: the address that belongs to one.

use crate::address::Address;
use crate::bytes::copy_range;
use crate::keystore::primitives::{
    keccak256, keccak256_digest, public_key_of, secp256k1_public_key, secp256k1_signature,
    sign_digest,
};
use vstd::prelude::*;

verus! {

/// Number of bytes of a secret key.
pub const KEY_BYTES: usize = 32;

/// The address of the account whose secret key is `secret`: the last 20
/// bytes of the digest of the public key's two coordinates. `None` where
/// `secret` is no secret key of 32 bytes.
pub open spec fn address_of_key(secret: Seq<u8>) -> Option<Seq<u8>> {
    if secret.len() != KEY_BYTES {
        None
    } else {
        match secp256k1_public_key(secret) {
            Some(point) => Some(keccak256(point.skip(1)).skip(12)),
            None => None,
        }
    }
}

/// The address of the account whose secret key is `secret`, or `None` where
/// `secret` is no secret key.
pub fn key_address(secret: &[u8]) -> (r: Option<Address>)
    ensures
        match address_of_key(secret@) {
            Some(address) => r matches Some(got) && got@ == address,
            None => r is None,
        },
{
    if secret.len() != 32 {
        return None;
    }
    match public_key_of(secret) {
        None => None,
        Some(point) => {
            let coordinates = copy_range(point.as_slice(), 1, 65);
            assert(coordinates@ =~= point@.skip(1));
            let digest = keccak256_digest(coordinates.as_slice());
            let mut out = [0u8;20];
            let mut i: usize = 0;
            while i < 20
                invariant
                    i <= 20,
                    digest@.len() == 32,
                    forall|j: int| 0 <= j < i ==> out@[j] == digest@[12 + j],
                decreases 20 - i,
            {
                out[i] = digest[12 + i];
                i += 1;
            }
            assert(out@ =~= digest@.skip(12));
            Some(Address(out))
        },
    }
}

/// The signature by the secret key `secret` of the digest `digest`: the
/// 64 bytes of `r` and `s`, and the recovery identifier, at most 3. `None`
/// where `secret` is no secret key of 32 bytes or `digest` no digest of 32
/// bytes.
pub open spec fn signature_of(secret: Seq<u8>, digest: Seq<u8>) -> Option<(Seq<u8>, u8)> {
    if secret.len() != KEY_BYTES || digest.len() != 32 {
        None
    } else {
        match secp256k1_signature(secret, digest) {
            Some((signature, recovery)) => if recovery <= 3 {
                Some((signature, recovery))
            } else {
                None
            },
            None => None,
        }
    }
}

/// Signs the digest `digest` with the secret key `secret`: the signature
/// and its recovery identifier.
pub fn sign_recoverable(secret: &[u8], digest: &[u8]) -> (r: Option<(Vec<u8>, u8)>)
    ensures
        match signature_of(secret@, digest@) {
            Some((signature, recovery)) => {
                &&& r matches Some((got, id))
                &&& got@ == signature
                &&& got@.len() == 64
                &&& id == recovery
                &&& id <= 3
            },
            None => r is None,
        },
{
    if secret.len() != 32 || digest.len() != 32 {
        return None;
    }
    match sign_digest(secret, digest) {
        Some((signature, recovery)) => {
            if recovery <= 3 {
                Some((signature, recovery))
            } else {
                None
            }
        },
        None => None,
    }
}

/// The signature by `secret` of the digest `digest` in 65 bytes: `r`, `s`
/// and the recovery identifier plus 27. `None` where there is no signature.
pub open spec fn signature_bytes(secret: Seq<u8>, digest: Seq<u8>) -> Option<Seq<u8>> {
    match signature_of(secret, digest) {
        Some((signature, recovery)) => Some(signature.push((27 + recovery) as u8)),
        None => None,
    }
}

/// Signs the digest `digest` with the secret key `secret`, in 65 bytes.
pub fn sign_hash(secret: &[u8], digest: &[u8]) -> (r: Option<Vec<u8>>)
    ensures
        match signature_bytes(secret@, digest@) {
            Some(bytes) => r matches Some(got) && got@ == bytes,
            None => r is None,
        },
{
    match sign_recoverable(secret, digest) {
        Some((signature, recovery)) => {
            let mut out = signature;
            out.push(27 + recovery);
            Some(out)
        },
        None => None,
    }
}

} // verus!
