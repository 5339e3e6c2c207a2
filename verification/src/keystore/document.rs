//! The keyfile document: a keyfile as it is written down, every byte string
//! in hexadecimal notation, every algorithm by its name.

use crate::address::{lemma_address_round_trip, parse_address, Address};
use crate::hex::{
    data_bytes, hex_encode, lemma_hex_round_trip, parse_data, to_hex, unprefixed,
};
use crate::keystore::cipher::{check_envelopes, envelope_fault};
use crate::keystore::{
    Cipher, CryptoEnvelope, CryptoEnvelopeView, Kdf, KdfEnvelope, KdfEnvelopeView, KeyFile,
    KeyFileView, KeyMaterial, KeyMaterialView,
};
use crate::rpc::error::{ServiceError, ServiceErrorView};
use vstd::prelude::*;
use vstd::string::*;

verus! {

/// The envelopes of a keyfile as they are written down.
#[derive(Debug)]
pub struct CryptoDocument {
    /// Name of the cipher: `aes-128-ctr`.
    pub cipher: String,
    pub iv: String,
    pub ciphertext: String,
    pub mac: String,
    /// Name of the key derivation function: `scrypt`.
    pub kdf: String,
    pub log_n: u8,
    pub r: u32,
    pub p: u32,
    pub salt: String,
}

/// A keyfile as it is written down. A hardware keyfile has no envelopes,
/// and any other keyfile has them.
#[derive(Debug)]
pub struct KeyfileDocument {
    pub address: String,
    pub name: String,
    pub description: String,
    pub hidden: bool,
    pub hardware: bool,
    pub crypto: Option<CryptoDocument>,
}

/// Name of the cipher in a document.
pub open spec fn cipher_name() -> Seq<char> {
    "aes-128-ctr"@
}

/// Name of the key derivation function in a document.
pub open spec fn kdf_name() -> Seq<char> {
    "scrypt"@
}

/// The envelopes that `crypto` writes down, or the error that names the
/// first field that is malformed: `cipher`, `iv`, `ciphertext`, `mac`, `kdf`,
/// `salt`, in this order.
pub open spec fn envelopes_of(crypto: CryptoDocument) -> Result<
    (CryptoEnvelopeView, KdfEnvelopeView),
    ServiceErrorView,
> {
    if crypto.cipher@ != cipher_name() {
        Err(ServiceErrorView::InvalidDataFormat("cipher"@))
    } else if data_bytes(crypto.iv@) is None {
        Err(ServiceErrorView::InvalidDataFormat("iv"@))
    } else if data_bytes(crypto.ciphertext@) is None {
        Err(ServiceErrorView::InvalidDataFormat("ciphertext"@))
    } else if data_bytes(crypto.mac@) is None {
        Err(ServiceErrorView::InvalidDataFormat("mac"@))
    } else if crypto.kdf@ != kdf_name() {
        Err(ServiceErrorView::InvalidDataFormat("kdf"@))
    } else if data_bytes(crypto.salt@) is None {
        Err(ServiceErrorView::InvalidDataFormat("salt"@))
    } else {
        Ok(
            (
                CryptoEnvelopeView {
                    cipher: Cipher::Aes128Ctr,
                    iv: data_bytes(crypto.iv@).unwrap(),
                    ciphertext: data_bytes(crypto.ciphertext@).unwrap(),
                    mac: data_bytes(crypto.mac@).unwrap(),
                },
                KdfEnvelopeView {
                    kdf: Kdf::Scrypt { log_n: crypto.log_n, r: crypto.r, p: crypto.p },
                    salt: data_bytes(crypto.salt@).unwrap(),
                },
            ),
        )
    }
}

/// The keyfile that `document` writes down, or the error that names the
/// first field that is malformed. The field `crypto` is malformed where a
/// hardware keyfile has envelopes or another keyfile has none; after the
/// fields of the envelopes come `log_n`, `r` and `p`, malformed where they
/// are a cost that this library does not derive keys with, and `iv` again,
/// malformed where it has not its 16 bytes.
pub open spec fn keyfile_of(document: KeyfileDocument) -> Result<KeyFileView, ServiceErrorView> {
    match parse_address(document.address@) {
        None => Err(ServiceErrorView::InvalidDataFormat("address"@)),
        Some(address) => {
            let material = match document.crypto {
                None => if document.hardware {
                    Ok(KeyMaterialView::Hardware)
                } else {
                    Err(ServiceErrorView::InvalidDataFormat("crypto"@))
                },
                Some(crypto) => if document.hardware {
                    Err(ServiceErrorView::InvalidDataFormat("crypto"@))
                } else {
                    match envelopes_of(crypto) {
                        Ok((crypto, kdf)) => match envelope_fault(crypto, kdf) {
                            Some(field) => Err(ServiceErrorView::InvalidDataFormat(field)),
                            None => Ok(KeyMaterialView::Local { crypto, kdf }),
                        },
                        Err(e) => Err(e),
                    }
                },
            };
            match material {
                Err(e) => Err(e),
                Ok(material) => Ok(
                    KeyFileView {
                        address,
                        name: document.name@,
                        description: document.description@,
                        hidden: document.hidden,
                        material,
                    },
                ),
            }
        },
    }
}

/// Whether `crypto` is how the envelopes are written down.
pub open spec fn writes_envelopes(
    crypto: CryptoDocument,
    envelope: CryptoEnvelopeView,
    kdf: KdfEnvelopeView,
) -> bool {
    &&& crypto.cipher@ == cipher_name()
    &&& crypto.iv@ == hex_encode(envelope.iv)
    &&& crypto.ciphertext@ == hex_encode(envelope.ciphertext)
    &&& crypto.mac@ == hex_encode(envelope.mac)
    &&& crypto.kdf@ == kdf_name()
    &&& kdf.kdf == (Kdf::Scrypt { log_n: crypto.log_n, r: crypto.r, p: crypto.p })
    &&& crypto.salt@ == hex_encode(kdf.salt)
}

/// Whether `document` is how `keyfile` is written down.
pub open spec fn writes_keyfile(document: KeyfileDocument, keyfile: KeyFileView) -> bool {
    &&& document.address@ == "0x"@ + hex_encode(keyfile.address)
    &&& document.name@ == keyfile.name
    &&& document.description@ == keyfile.description
    &&& document.hidden == keyfile.hidden
    &&& document.hardware == keyfile.hardware()
    &&& match keyfile.material {
        KeyMaterialView::Hardware => document.crypto is None,
        KeyMaterialView::Local { crypto, kdf } => document.crypto matches Some(written)
            && writes_envelopes(written, crypto, kdf),
    }
}

proof fn lemma_data_round_trip(bytes: Seq<u8>)
    ensures
        data_bytes(hex_encode(bytes)) == Some(bytes),
{
    let digits = hex_encode(bytes);
    if digits.len() >= 2 {
        assert(digits[1] != 'x');
    }
    assert(unprefixed(digits) == digits);
    lemma_hex_round_trip(bytes);
}

/// A keyfile with well-formed envelopes that is written down is read back
/// unchanged.
pub proof fn lemma_document_round_trip(document: KeyfileDocument, keyfile: KeyFile)
    requires
        writes_keyfile(document, keyfile@),
        keyfile@.material matches KeyMaterialView::Local { crypto, kdf } ==> envelope_fault(
            crypto,
            kdf,
        ) is None,
    ensures
        keyfile_of(document) == Ok::<KeyFileView, ServiceErrorView>(keyfile@),
{
    lemma_address_round_trip(keyfile.address);
    match keyfile@.material {
        KeyMaterialView::Hardware => {},
        KeyMaterialView::Local { crypto, kdf } => {
            lemma_data_round_trip(crypto.iv);
            lemma_data_round_trip(crypto.ciphertext);
            lemma_data_round_trip(crypto.mac);
            lemma_data_round_trip(kdf.salt);
        },
    }
}

fn same_text(a: &str, b: &str) -> (r: bool)
    ensures
        r == (a@ == b@),
{
    String::from_str(a) == String::from_str(b)
}

fn read_envelopes(crypto: &CryptoDocument) -> (r: Result<
    (CryptoEnvelope, KdfEnvelope),
    ServiceError,
>)
    ensures
        match envelopes_of(*crypto) {
            Ok((envelope, kdf)) => r matches Ok((got, got_kdf)) && got@ == envelope && got_kdf@
                == kdf,
            Err(e) => r matches Err(got) && got@ == e,
        },
{
    if !same_text(crypto.cipher.as_str(), "aes-128-ctr") {
        return Err(ServiceError::InvalidDataFormat(String::from_str("cipher")));
    }
    let iv = match parse_data(crypto.iv.as_str()) {
        Some(bytes) => bytes,
        None => {
            return Err(ServiceError::InvalidDataFormat(String::from_str("iv")));
        },
    };
    let ciphertext = match parse_data(crypto.ciphertext.as_str()) {
        Some(bytes) => bytes,
        None => {
            return Err(ServiceError::InvalidDataFormat(String::from_str("ciphertext")));
        },
    };
    let mac = match parse_data(crypto.mac.as_str()) {
        Some(bytes) => bytes,
        None => {
            return Err(ServiceError::InvalidDataFormat(String::from_str("mac")));
        },
    };
    if !same_text(crypto.kdf.as_str(), "scrypt") {
        return Err(ServiceError::InvalidDataFormat(String::from_str("kdf")));
    }
    let salt = match parse_data(crypto.salt.as_str()) {
        Some(bytes) => bytes,
        None => {
            return Err(ServiceError::InvalidDataFormat(String::from_str("salt")));
        },
    };
    Ok(
        (
            CryptoEnvelope { cipher: Cipher::Aes128Ctr, iv, ciphertext, mac },
            KdfEnvelope {
                kdf: Kdf::Scrypt { log_n: crypto.log_n, r: crypto.r, p: crypto.p },
                salt,
            },
        ),
    )
}

impl KeyFile {
    /// Reads the keyfile that `document` writes down.
    ///
    /// # Errors
    ///
    /// `InvalidDataFormat` that names the first field that is malformed.
    pub fn from_document(document: &KeyfileDocument) -> (r: Result<KeyFile, ServiceError>)
        ensures
            match keyfile_of(*document) {
                Ok(keyfile) => r matches Ok(got) && got@ == keyfile,
                Err(e) => r matches Err(got) && got@ == e,
            },
    {
        let address = match Address::parse(document.address.as_str()) {
            Some(address) => address,
            None => {
                return Err(ServiceError::InvalidDataFormat(String::from_str("address")));
            },
        };
        let material = match &document.crypto {
            None => {
                if document.hardware {
                    KeyMaterial::Hardware
                } else {
                    return Err(ServiceError::InvalidDataFormat(String::from_str("crypto")));
                }
            },
            Some(crypto) => {
                if document.hardware {
                    return Err(ServiceError::InvalidDataFormat(String::from_str("crypto")));
                }
                match read_envelopes(crypto) {
                    Ok((crypto, kdf)) => match check_envelopes(&crypto, &kdf) {
                        Ok(_) => KeyMaterial::Local { crypto, kdf },
                        Err(e) => {
                            return Err(e);
                        },
                    },
                    Err(e) => {
                        return Err(e);
                    },
                }
            },
        };
        Ok(
            KeyFile {
                address,
                name: document.name.clone(),
                description: document.description.clone(),
                hidden: document.hidden,
                material,
            },
        )
    }

    /// Writes the keyfile down.
    pub fn to_document(&self) -> (r: KeyfileDocument)
        ensures
            writes_keyfile(r, self@),
    {
        let crypto = match &self.material {
            KeyMaterial::Hardware => None,
            KeyMaterial::Local { crypto, kdf } => {
                let (log_n, r, p) = match kdf.kdf {
                    Kdf::Scrypt { log_n, r, p } => (log_n, r, p),
                };
                Some(
                    CryptoDocument {
                        cipher: String::from_str("aes-128-ctr"),
                        iv: to_hex(crypto.iv.as_slice()),
                        ciphertext: to_hex(crypto.ciphertext.as_slice()),
                        mac: to_hex(crypto.mac.as_slice()),
                        kdf: String::from_str("scrypt"),
                        log_n,
                        r,
                        p,
                        salt: to_hex(kdf.salt.as_slice()),
                    },
                )
            },
        };
        KeyfileDocument {
            address: self.address.to_hex(),
            name: self.name.clone(),
            description: self.description.clone(),
            hidden: self.hidden,
            hardware: self.is_hardware(),
            crypto,
        }
    }
}

} // verus!
