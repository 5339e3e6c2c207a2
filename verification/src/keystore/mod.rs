//! Keyfiles: the encrypted form in which an account's key is kept.

pub mod cipher;
pub mod document;
pub mod key;
pub mod primitives;

use crate::address::Address;
use crate::bytes::to_vec;
use vstd::prelude::*;
use vstd::string::*;

verus! {

/// Cost of deriving a key from a passphrase. It is chosen when the service
/// starts and applies to every keyfile that is made or rekeyed afterwards.
#[derive(Clone, Copy, Debug, PartialEq, Eq, Structural)]
pub enum KdfDepthLevel {
    Normal,
    High,
    Ultra,
}

impl Default for KdfDepthLevel {
    fn default() -> (r: Self)
        ensures
            r == KdfDepthLevel::Normal,
    {
        KdfDepthLevel::Normal
    }
}

/// Key derivation function of a keyfile, with its cost parameters.
#[derive(Clone, Copy, Debug, PartialEq, Eq, Structural)]
pub enum Kdf {
    /// scrypt with work factor two to the power `log_n`, block size `r` and
    /// parallelism `p`.
    Scrypt { log_n: u8, r: u32, p: u32 },
}

/// Cipher of a keyfile.
#[derive(Clone, Copy, Debug, PartialEq, Eq, Structural)]
pub enum Cipher {
    /// AES with a 128 bit key in counter mode.
    Aes128Ctr,
}

impl KdfDepthLevel {
    /// The key derivation that the level stands for.
    pub open spec fn kdf_spec(self) -> Kdf {
        match self {
            KdfDepthLevel::Normal => Kdf::Scrypt { log_n: 10, r: 8, p: 1 },
            KdfDepthLevel::High => Kdf::Scrypt { log_n: 14, r: 8, p: 1 },
            KdfDepthLevel::Ultra => Kdf::Scrypt { log_n: 18, r: 8, p: 1 },
        }
    }

    /// The key derivation that the level stands for.
    pub fn kdf(self) -> (r: Kdf)
        ensures
            r == self.kdf_spec(),
    {
        match self {
            KdfDepthLevel::Normal => Kdf::Scrypt { log_n: 10, r: 8, p: 1 },
            KdfDepthLevel::High => Kdf::Scrypt { log_n: 14, r: 8, p: 1 },
            KdfDepthLevel::Ultra => Kdf::Scrypt { log_n: 18, r: 8, p: 1 },
        }
    }
}

/// The least that a passphrase must be for a new account. It is given to
/// the service when it starts.
#[derive(Clone, Copy, Debug)]
pub struct PassphrasePolicy {
    /// Least number of characters.
    pub min_length: usize,
}

impl PassphrasePolicy {
    /// Whether the policy accepts `passphrase`.
    pub open spec fn accepts(self, passphrase: Seq<char>) -> bool {
        passphrase.len() >= self.min_length
    }

    /// Whether the policy accepts `passphrase`.
    pub fn check(&self, passphrase: &str) -> (r: bool)
        ensures
            r == self.accepts(passphrase@),
    {
        passphrase.unicode_len() >= self.min_length
    }
}

/// How the symmetric key of a keyfile is derived from the passphrase.
#[derive(Debug)]
pub struct KdfEnvelope {
    pub kdf: Kdf,
    pub salt: Vec<u8>,
}

/// What `KdfEnvelope` holds.
pub struct KdfEnvelopeView {
    pub kdf: Kdf,
    pub salt: Seq<u8>,
}

impl View for KdfEnvelope {
    type V = KdfEnvelopeView;

    open spec fn view(&self) -> KdfEnvelopeView {
        KdfEnvelopeView { kdf: self.kdf, salt: self.salt@ }
    }
}

impl Clone for KdfEnvelope {
    fn clone(&self) -> (r: Self)
        ensures
            r@ == self@,
    {
        KdfEnvelope { kdf: self.kdf, salt: to_vec(self.salt.as_slice()) }
    }
}

/// The encrypted key of a keyfile with what is needed to open it.
#[derive(Debug)]
pub struct CryptoEnvelope {
    pub cipher: Cipher,
    pub iv: Vec<u8>,
    pub ciphertext: Vec<u8>,
    pub mac: Vec<u8>,
}

/// What `CryptoEnvelope` holds.
pub struct CryptoEnvelopeView {
    pub cipher: Cipher,
    pub iv: Seq<u8>,
    pub ciphertext: Seq<u8>,
    pub mac: Seq<u8>,
}

impl View for CryptoEnvelope {
    type V = CryptoEnvelopeView;

    open spec fn view(&self) -> CryptoEnvelopeView {
        CryptoEnvelopeView {
            cipher: self.cipher,
            iv: self.iv@,
            ciphertext: self.ciphertext@,
            mac: self.mac@,
        }
    }
}

impl Clone for CryptoEnvelope {
    fn clone(&self) -> (r: Self)
        ensures
            r@ == self@,
    {
        CryptoEnvelope {
            cipher: self.cipher,
            iv: to_vec(self.iv.as_slice()),
            ciphertext: to_vec(self.ciphertext.as_slice()),
            mac: to_vec(self.mac.as_slice()),
        }
    }
}

/// Where the key of an account is. A hardware account has no envelope: its
/// key is with an external signer.
#[derive(Debug)]
pub enum KeyMaterial {
    Hardware,
    Local { crypto: CryptoEnvelope, kdf: KdfEnvelope },
}

/// What `KeyMaterial` holds.
pub enum KeyMaterialView {
    Hardware,
    Local { crypto: CryptoEnvelopeView, kdf: KdfEnvelopeView },
}

impl View for KeyMaterial {
    type V = KeyMaterialView;

    open spec fn view(&self) -> KeyMaterialView {
        match self {
            KeyMaterial::Hardware => KeyMaterialView::Hardware,
            KeyMaterial::Local { crypto, kdf } => KeyMaterialView::Local {
                crypto: crypto@,
                kdf: kdf@,
            },
        }
    }
}

impl Clone for KeyMaterial {
    fn clone(&self) -> (r: Self)
        ensures
            r@ == self@,
    {
        match self {
            KeyMaterial::Hardware => KeyMaterial::Hardware,
            KeyMaterial::Local { crypto, kdf } => KeyMaterial::Local {
                crypto: crypto.clone(),
                kdf: kdf.clone(),
            },
        }
    }
}

/// The durable record of one account.
#[derive(Debug)]
pub struct KeyFile {
    pub address: Address,
    pub name: String,
    pub description: String,
    pub hidden: bool,
    pub material: KeyMaterial,
}

/// What `KeyFile` holds.
pub struct KeyFileView {
    pub address: Seq<u8>,
    pub name: Seq<char>,
    pub description: Seq<char>,
    pub hidden: bool,
    pub material: KeyMaterialView,
}

impl KeyFileView {
    /// Whether the key is with an external signer.
    pub open spec fn hardware(self) -> bool {
        self.material is Hardware
    }
}

impl View for KeyFile {
    type V = KeyFileView;

    open spec fn view(&self) -> KeyFileView {
        KeyFileView {
            address: self.address@,
            name: self.name@,
            description: self.description@,
            hidden: self.hidden,
            material: self.material@,
        }
    }
}

impl Clone for KeyFile {
    fn clone(&self) -> (r: Self)
        ensures
            r@ == self@,
    {
        KeyFile {
            address: self.address,
            name: self.name.clone(),
            description: self.description.clone(),
            hidden: self.hidden,
            material: self.material.clone(),
        }
    }
}

impl KeyFile {
    /// Whether the key is with an external signer.
    pub fn is_hardware(&self) -> (r: bool)
        ensures
            r == self@.hardware(),
    {
        match self.material {
            KeyMaterial::Hardware => true,
            KeyMaterial::Local { .. } => false,
        }
    }
}

/// What a listing shows of a keyfile: no part of an envelope.
#[derive(Debug)]
pub struct KeyfileSummary {
    pub address: Address,
    pub name: String,
    pub description: String,
    pub hidden: bool,
    pub hardware: bool,
}

/// Whether `summary` shows `keyfile`.
pub open spec fn summarizes(summary: KeyfileSummary, keyfile: KeyFileView) -> bool {
    &&& summary.address@ == keyfile.address
    &&& summary.name@ == keyfile.name
    &&& summary.description@ == keyfile.description
    &&& summary.hidden == keyfile.hidden
    &&& summary.hardware == keyfile.hardware()
}

impl KeyFile {
    /// What a listing shows of the keyfile.
    pub fn summary(&self) -> (r: KeyfileSummary)
        ensures
            summarizes(r, self@),
    {
        KeyfileSummary {
            address: self.address,
            name: self.name.clone(),
            description: self.description.clone(),
            hidden: self.hidden,
            hardware: self.is_hardware(),
        }
    }
}

} // verus!
