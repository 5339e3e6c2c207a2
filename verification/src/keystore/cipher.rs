//! Sealing a key under a passphrase, and opening it again.
//!
//! A key of 32 bytes is derived from the passphrase and a salt. Its first
//! half encrypts the plaintext with AES-128 in counter mode; its second
//! half, followed by the ciphertext, is hashed into the authentication tag.

use crate::bytes::{join_bytes, copy_range, same_bytes, to_vec, wipe};
use crate::keystore::primitives::{
    aes128_ctr_apply, aes128_ctr_keystream, keccak256, keccak256_digest, random_bytes,
    scrypt_derive, scrypt_key, scrypt_supported, xor_with,
};
use crate::keystore::{
    Cipher, CryptoEnvelope, CryptoEnvelopeView, Kdf, KdfDepthLevel, KdfEnvelope, KdfEnvelopeView,
};
use crate::rpc::error::{ServiceError, ServiceErrorView};
use vstd::prelude::*;
use vstd::string::*;

verus! {

/// Number of bytes of a salt that this library draws.
pub const SALT_BYTES: usize = 32;

/// Number of bytes of an initialization vector.
pub const IV_BYTES: usize = 16;

/// Whether this library derives keys with `kdf`.
pub open spec fn kdf_supported(kdf: Kdf) -> bool {
    match kdf {
        Kdf::Scrypt { log_n, r, p } => scrypt_supported(log_n, r, p),
    }
}

/// The key of 32 bytes that `kdf` derives from `passphrase`.
pub open spec fn derived_key(passphrase: Seq<u8>, kdf: KdfEnvelopeView) -> Seq<u8> {
    match kdf.kdf {
        Kdf::Scrypt { log_n, r, p } => scrypt_key(passphrase, kdf.salt, log_n, r, p),
    }
}

/// The authentication tag of `ciphertext` under the derived key `derived`.
pub open spec fn mac_of(derived: Seq<u8>, ciphertext: Seq<u8>) -> Seq<u8> {
    keccak256(derived.skip(16) + ciphertext)
}

/// What `text` becomes under the key stream of the derived key `derived`
/// and `iv`; applied twice it gives `text` again.
pub open spec fn ciphered(text: Seq<u8>, derived: Seq<u8>, iv: Seq<u8>) -> Seq<u8> {
    xor_with(text, aes128_ctr_keystream(derived.take(16), iv, text.len()))
}

/// The envelopes that hold `plain` under `passphrase`, made with the key
/// derivation `kdf`, the salt `salt` and the initialization vector `iv`.
pub open spec fn sealed(
    plain: Seq<u8>,
    passphrase: Seq<u8>,
    kdf: Kdf,
    salt: Seq<u8>,
    iv: Seq<u8>,
) -> (CryptoEnvelopeView, KdfEnvelopeView) {
    let kdf_envelope = KdfEnvelopeView { kdf, salt };
    let derived = derived_key(passphrase, kdf_envelope);
    let ciphertext = ciphered(plain, derived, iv);
    (
        CryptoEnvelopeView {
            cipher: Cipher::Aes128Ctr,
            iv,
            ciphertext,
            mac: mac_of(derived, ciphertext),
        },
        kdf_envelope,
    )
}

/// The field that keeps the envelopes from being opened whatever the
/// passphrase is: `log_n`, `r` or `p` for a cost that this library does not
/// derive keys with, `iv` for an initialization vector that has not its 16
/// bytes. None where the envelopes are well formed.
pub open spec fn envelope_fault(crypto: CryptoEnvelopeView, kdf: KdfEnvelopeView) -> Option<
    Seq<char>,
> {
    match kdf.kdf {
        Kdf::Scrypt { log_n, r, p } => if !(1 <= log_n <= 18) {
            Some("log_n"@)
        } else if !(1 <= r <= 8) {
            Some("r"@)
        } else if !(1 <= p <= 8) {
            Some("p"@)
        } else if crypto.iv.len() != IV_BYTES {
            Some("iv"@)
        } else {
            None
        },
    }
}

/// Whether `passphrase` opens the envelopes: they are well formed, and the
/// authentication tag is the one that the passphrase gives.
pub open spec fn opens(
    crypto: CryptoEnvelopeView,
    kdf: KdfEnvelopeView,
    passphrase: Seq<u8>,
) -> bool {
    &&& envelope_fault(crypto, kdf) is None
    &&& mac_of(derived_key(passphrase, kdf), crypto.ciphertext) == crypto.mac
}

/// The plaintext that the envelopes hold under `passphrase`. Envelopes that
/// are not well formed give `InvalidDataFormat` with the field at fault,
/// whatever the passphrase; well-formed ones give `InvalidPassphrase` where
/// the authentication tag is not the one that the passphrase gives.
pub open spec fn opened(
    crypto: CryptoEnvelopeView,
    kdf: KdfEnvelopeView,
    passphrase: Seq<u8>,
) -> Result<Seq<u8>, ServiceErrorView> {
    match envelope_fault(crypto, kdf) {
        Some(field) => Err(ServiceErrorView::InvalidDataFormat(field)),
        None => if opens(crypto, kdf, passphrase) {
            Ok(ciphered(crypto.ciphertext, derived_key(passphrase, kdf), crypto.iv))
        } else {
            Err(ServiceErrorView::InvalidPassphrase)
        },
    }
}

/// Tests whether the envelopes are well formed.
///
/// # Errors
///
/// `InvalidDataFormat` that names the field at fault.
pub fn check_envelopes(crypto: &CryptoEnvelope, kdf: &KdfEnvelope) -> (r: Result<
    (),
    ServiceError,
>)
    ensures
        match envelope_fault(crypto@, kdf@) {
            Some(field) => r matches Err(ServiceError::InvalidDataFormat(text)) && text@
                == field,
            None => r is Ok,
        },
{
    match kdf.kdf {
        Kdf::Scrypt { log_n, r, p } => {
            if log_n < 1 || log_n > 18 {
                Err(ServiceError::InvalidDataFormat(String::from_str("log_n")))
            } else if r < 1 || r > 8 {
                Err(ServiceError::InvalidDataFormat(String::from_str("r")))
            } else if p < 1 || p > 8 {
                Err(ServiceError::InvalidDataFormat(String::from_str("p")))
            } else if crypto.iv.len() != 16 {
                Err(ServiceError::InvalidDataFormat(String::from_str("iv")))
            } else {
                Ok(())
            }
        },
    }
}

/// Applying one key stream twice gives the text back.
pub proof fn lemma_ciphered_twice(text: Seq<u8>, derived: Seq<u8>, iv: Seq<u8>)
    ensures
        ciphered(ciphered(text, derived, iv), derived, iv) == text,
{
    let stream = aes128_ctr_keystream(derived.take(16), iv, text.len());
    let once = ciphered(text, derived, iv);
    let twice = ciphered(once, derived, iv);
    assert(once.len() == text.len());
    assert forall|i: int| 0 <= i < text.len() implies twice[i] == text[i] by {
        let t: u8 = text[i];
        let s: u8 = stream[i];
        assert((t ^ s) ^ s == t) by (bit_vector);
    }
    assert(twice =~= text);
}

/// What was sealed under a passphrase is opened by that passphrase, and
/// comes out unchanged, whatever the cost level, the salt and the
/// initialization vector of 16 bytes.
pub proof fn lemma_open_sealed(
    plain: Seq<u8>,
    passphrase: Seq<u8>,
    level: KdfDepthLevel,
    salt: Seq<u8>,
    iv: Seq<u8>,
)
    requires
        iv.len() == IV_BYTES,
    ensures
        ({
            let (crypto, kdf) = sealed(plain, passphrase, level.kdf_spec(), salt, iv);
            opened(crypto, kdf, passphrase) == Ok::<Seq<u8>, ServiceErrorView>(plain)
        }),
{
    let (crypto, kdf) = sealed(plain, passphrase, level.kdf_spec(), salt, iv);
    lemma_ciphered_twice(plain, derived_key(passphrase, kdf), iv);
}

/// What was sealed under one passphrase is not opened by another, unless
/// the other passphrase gives the same authentication tag.
pub proof fn lemma_other_passphrase_fails(
    plain: Seq<u8>,
    passphrase: Seq<u8>,
    other: Seq<u8>,
    level: KdfDepthLevel,
    salt: Seq<u8>,
    iv: Seq<u8>,
)
    requires
        iv.len() == IV_BYTES,
        ({
            let (crypto, kdf) = sealed(plain, passphrase, level.kdf_spec(), salt, iv);
            mac_of(derived_key(other, kdf), crypto.ciphertext) != crypto.mac
        }),
    ensures
        ({
            let (crypto, kdf) = sealed(plain, passphrase, level.kdf_spec(), salt, iv);
            opened(crypto, kdf, other) == Err::<Seq<u8>, ServiceErrorView>(
                ServiceErrorView::InvalidPassphrase,
            )
        }),
{
}

/// Seals `plain` under `passphrase` with the given salt and initialization
/// vector, at the cost of `level`.
pub fn encrypt_with(
    plain: &[u8],
    passphrase: &str,
    level: KdfDepthLevel,
    salt: &[u8; 32],
    iv: &[u8; 16],
) -> (r: (CryptoEnvelope, KdfEnvelope))
    ensures
        (r.0@, r.1@) == sealed(plain@, passphrase.spec_bytes(), level.kdf_spec(), salt@, iv@),
{
    let kdf = level.kdf();
    let mut derived = match kdf {
        Kdf::Scrypt { log_n, r, p } => scrypt_derive(
            passphrase.as_bytes(),
            salt.as_slice(),
            log_n,
            r,
            p,
        ),
    };
    let mut cipher_key = copy_range(derived.as_slice(), 0, 16);
    let mac_key = copy_range(derived.as_slice(), 16, 32);
    assert(cipher_key@ =~= derived@.take(16));
    assert(mac_key@ =~= derived@.skip(16));
    let ciphertext = aes128_ctr_apply(cipher_key.as_slice(), iv.as_slice(), plain);
    let mut mac_input = join_bytes(mac_key.as_slice(), ciphertext.as_slice());
    let mac = keccak256_digest(mac_input.as_slice());
    wipe(&mut mac_input);
    wipe(&mut cipher_key);
    wipe(&mut derived);
    (
        CryptoEnvelope { cipher: Cipher::Aes128Ctr, iv: to_vec(iv.as_slice()), ciphertext, mac },
        KdfEnvelope { kdf, salt: to_vec(salt.as_slice()) },
    )
}

fn array_32(bytes: &Vec<u8>) -> (r: [u8; 32])
    requires
        bytes@.len() == 32,
    ensures
        r@ == bytes@,
{
    let mut out = [0u8;32];
    let mut i: usize = 0;
    while i < 32
        invariant
            i <= 32,
            bytes@.len() == 32,
            forall|j: int| 0 <= j < i ==> out@[j] == bytes@[j],
        decreases 32 - i,
    {
        out[i] = bytes[i];
        i += 1;
    }
    assert(out@ =~= bytes@);
    out
}

fn array_16(bytes: &Vec<u8>) -> (r: [u8; 16])
    requires
        bytes@.len() == 16,
    ensures
        r@ == bytes@,
{
    let mut out = [0u8;16];
    let mut i: usize = 0;
    while i < 16
        invariant
            i <= 16,
            bytes@.len() == 16,
            forall|j: int| 0 <= j < i ==> out@[j] == bytes@[j],
        decreases 16 - i,
    {
        out[i] = bytes[i];
        i += 1;
    }
    assert(out@ =~= bytes@);
    out
}

/// A salt and an initialization vector from the random generator, or
/// `None` where it fails.
pub(crate) fn fresh_salt_and_iv() -> (r: Option<([u8; 32], [u8; 16])>) {
    let salt = match random_bytes(32) {
        Some(bytes) => array_32(&bytes),
        None => {
            return None;
        },
    };
    let iv = match random_bytes(16) {
        Some(bytes) => array_16(&bytes),
        None => {
            return None;
        },
    };
    Some((salt, iv))
}

/// A candidate for a secret key from the random generator, or `None` where
/// it fails.
pub(crate) fn fresh_key() -> (r: Option<Vec<u8>>)
    ensures
        r matches Some(bytes) ==> bytes@.len() == 32,
{
    random_bytes(32)
}

/// Seals `plain` under `passphrase` with a fresh salt and a fresh
/// initialization vector, at the cost of `level`.
///
/// # Errors
///
/// `NoEntropy` if the random generator fails.
pub fn encrypt(plain: &[u8], passphrase: &str, level: KdfDepthLevel) -> (r: Result<
    (CryptoEnvelope, KdfEnvelope),
    ServiceError,
>)
    ensures
        match r {
            Ok((crypto, kdf)) => exists|salt: Seq<u8>, iv: Seq<u8>|
                {
                    &&& salt.len() == SALT_BYTES
                    &&& iv.len() == IV_BYTES
                    &&& (crypto@, kdf@) == #[trigger] sealed(
                        plain@,
                        passphrase.spec_bytes(),
                        level.kdf_spec(),
                        salt,
                        iv,
                    )
                },
            Err(e) => e == ServiceError::NoEntropy,
        },
{
    let (salt, iv) = match fresh_salt_and_iv() {
        Some(drawn) => drawn,
        None => {
            return Err(ServiceError::NoEntropy);
        },
    };
    let r = encrypt_with(plain, passphrase, level, &salt, &iv);
    assert((r.0@, r.1@) == sealed(
        plain@,
        passphrase.spec_bytes(),
        level.kdf_spec(),
        salt@,
        iv@,
    ));
    Ok(r)
}

/// Opens the envelopes with `passphrase` and returns the plaintext.
///
/// # Errors
///
/// `InvalidDataFormat` that names the field at fault if the envelopes are
/// not well formed; else `InvalidPassphrase` if the passphrase does not open
/// them, whether it is the wrong one or the ciphertext, the salt or the tag
/// is damaged.
pub fn decrypt(crypto: &CryptoEnvelope, kdf: &KdfEnvelope, passphrase: &str) -> (r: Result<
    Vec<u8>,
    ServiceError,
>)
    ensures
        match opened(crypto@, kdf@, passphrase.spec_bytes()) {
            Ok(plain) => r matches Ok(key) && key@ == plain,
            Err(e) => r matches Err(got) && got@ == e,
        },
{
    match check_envelopes(crypto, kdf) {
        Err(e) => {
            return Err(e);
        },
        Ok(_) => {},
    }
    let mut derived = match kdf.kdf {
        Kdf::Scrypt { log_n, r, p } => scrypt_derive(
            passphrase.as_bytes(),
            kdf.salt.as_slice(),
            log_n,
            r,
            p,
        ),
    };
    let mac_key = copy_range(derived.as_slice(), 16, 32);
    assert(mac_key@ =~= derived@.skip(16));
    let mut mac_input = join_bytes(mac_key.as_slice(), crypto.ciphertext.as_slice());
    let mac = keccak256_digest(mac_input.as_slice());
    wipe(&mut mac_input);
    if !same_bytes(mac.as_slice(), crypto.mac.as_slice()) {
        wipe(&mut derived);
        return Err(ServiceError::InvalidPassphrase);
    }
    let mut cipher_key = copy_range(derived.as_slice(), 0, 16);
    assert(cipher_key@ =~= derived@.take(16));
    let plain = aes128_ctr_apply(
        cipher_key.as_slice(),
        crypto.iv.as_slice(),
        crypto.ciphertext.as_slice(),
    );
    wipe(&mut cipher_key);
    wipe(&mut derived);
    Ok(plain)
}

} // verus!
