//! The signing operations: a request is answered with a signature made
//! with the secret key that the passphrase opens, and the key is wiped
//! before the answer leaves.

use crate::address::{lemma_address_round_trip, Address};
use crate::bytes::{join_bytes, wipe};
use crate::keystore::cipher::{lemma_open_sealed, opens, IV_BYTES};
use crate::keystore::key::address_of_key;
use crate::keystore::{KdfDepthLevel, KeyMaterialView, PassphrasePolicy};
use crate::rpc::serves::created;
use crate::hex::{hex_encode, to_hex};
use crate::keystore::key::{sign_hash, sign_recoverable, signature_bytes, signature_of};
use crate::keystore::primitives::{keccak256, keccak256_digest};
use crate::rpc::common::{
    CommonAdditional, SignParams, SignTxAdditional, SignTxParams, SignTxTransaction,
    SignTypedDataParams,
};
use crate::rpc::error::{agrees_text, ServiceError, ServiceErrorView};
use crate::rpc::serves::{
    address_checked, address_param, chain_checked, check_optional_chain, unlock, unlocked,
    Keyfiles,
};
use crate::storage::StorageController;
use crate::rlp::{be_bytes, lemma_be_bytes_len, rlp_header, rlp_item, rlp_list};
use crate::transaction::{
    fields_payload, signed_payload, signing_payload, transaction_of, Transaction,
    TransactionView,
};
use crate::typed_data::{admits, document_admitted, hash_typed_data, typed_data_digest};
use crate::util::{is_known_chain, known_chain};
use vstd::prelude::*;
use vstd::string::*;
use vstd::utf8::encode_utf8;

verus! {

/// Decimal notation of `n` in ASCII.
pub open spec fn decimal_ascii(n: nat) -> Seq<u8>
    decreases n,
{
    if n < 10 {
        seq![(48 + n) as u8]
    } else {
        decimal_ascii(n / 10).push((48 + n % 10) as u8)
    }
}

/// Writes `n` in decimal notation in ASCII.
pub fn decimal_bytes(n: usize) -> (r: Vec<u8>)
    ensures
        r@ == decimal_ascii(n as nat),
    decreases n,
{
    if n < 10 {
        let mut out: Vec<u8> = Vec::new();
        out.push(48 + n as u8);
        assert(out@ =~= decimal_ascii(n as nat));
        out
    } else {
        let mut out = decimal_bytes(n / 10);
        out.push(48 + (n % 10) as u8);
        out
    }
}

/// What stands before every signed message: the byte 25 and the words
/// `Ethereum Signed Message:` with a line feed. No transaction encoding
/// starts with it, so a message signature is none of a transaction.
pub open spec fn message_prefix() -> Seq<u8> {
    seq![
        25u8, 69, 116, 104, 101, 114, 101, 117, 109, 32, 83, 105, 103, 110, 101, 100, 32, 77, 101,
        115, 115, 97, 103, 101, 58, 10,
    ]
}

/// What is hashed of a message: the prefix, the length of the message in
/// decimal notation, and the message.
pub open spec fn signed_text(message: Seq<u8>) -> Seq<u8> {
    message_prefix() + decimal_ascii(message.len()) + message
}

/// The digest of a message that is signed.
pub open spec fn message_digest(message: Seq<u8>) -> Seq<u8> {
    keccak256(signed_text(message))
}

/// What is hashed of a message is never what is hashed of a transaction
/// whose list of fields is shorter than two to the power 64 bytes: the one
/// starts with the byte 25, the other with a byte of 192 or more. So the
/// signature of a message is none of a transaction.
pub proof fn lemma_message_is_no_transaction(
    message: Seq<u8>,
    transaction: TransactionView,
    chain: u8,
)
    requires
        signing_payload(transaction, chain).len() < 0x1_0000_0000_0000_0000,
    ensures
        signed_text(message) != signing_payload(transaction, chain),
{
    let text = signed_text(message);
    assert(text[0] == message_prefix()[0]);
    let list = signing_payload(transaction, chain);
    let content = fields_payload(transaction) + rlp_item(be_bytes(chain as nat)) + rlp_item(
        Seq::empty(),
    ) + rlp_item(Seq::empty());
    assert(list == rlp_list(content));
    let header = rlp_header(192, content.len());
    assert(list[0] == header[0]);
    if content.len() >= 56 {
        lemma_be_bytes_len(content.len());
    }
    assert(header[0] >= 192);
}

/// Hashes a message for signing.
pub fn hash_message(message: &[u8]) -> (r: Vec<u8>)
    ensures
        r@ == message_digest(message@),
        r@.len() == 32,
{
    let prefix: Vec<u8> = vec![
        25u8, 69, 116, 104, 101, 114, 101, 117, 109, 32, 83, 105, 103, 110, 101, 100, 32, 77, 101,
        115, 115, 97, 103, 101, 58, 10,
    ];
    assert(prefix@ =~= message_prefix());
    let length = decimal_bytes(message.len());
    let head = join_bytes(prefix.as_slice(), length.as_slice());
    let text = join_bytes(head.as_slice(), message);
    keccak256_digest(text.as_slice())
}

/// The text of the error for a keyfile whose key does not sign.
pub open spec fn key_damaged() -> Seq<char> {
    "Invalid key material"@
}

/// The fields that a message signing request asks with: address, message,
/// passphrase, and the chain identifier, none where the request has the
/// bare shape.
pub open spec fn sign_asked(params: SignParams<(String, String, String, CommonAdditional)>) -> (
    Seq<char>,
    Seq<char>,
    Seq<char>,
    Option<usize>,
) {
    match params {
        SignParams::Left(address, message, passphrase) => (address@, message@, passphrase@, None),
        SignParams::Right((address, message, passphrase, additional)) => (
            address@,
            message@,
            passphrase@,
            additional.chain_id,
        ),
    }
}

/// What signing the message `message` for the account `address` answers:
/// the signature of 65 bytes in hexadecimal notation after `0x`.
pub open spec fn message_signed(
    store: Keyfiles,
    chain_id: Option<usize>,
    address: Seq<char>,
    message: Seq<char>,
    passphrase: Seq<char>,
) -> Result<Seq<char>, ServiceErrorView> {
    match chain_checked(chain_id) {
        Err(e) => Err(e),
        Ok(_) => match address_checked(address, "address"@) {
            Err(e) => Err(e),
            Ok(a) => match unlocked(store, a, encode_utf8(passphrase)) {
                Err(e) => Err(e),
                Ok(key) => match signature_bytes(key, message_digest(encode_utf8(message))) {
                    Some(signature) => Ok("0x"@ + hex_encode(signature)),
                    None => Err(ServiceErrorView::StoreError(key_damaged())),
                },
            },
        },
    }
}

/// An account that was created under a passphrase signs under that
/// passphrase: the answer is the signature of its secret key over the
/// digest of the message, or `StoreError` where that key gives no signature,
/// and never `InvalidPassphrase`. Under another passphrase the answer is
/// `InvalidPassphrase`, unless that passphrase gives the authentication tag
/// of the keyfile.
pub proof fn lemma_created_account_signs(
    store: Keyfiles,
    policy: PassphrasePolicy,
    level: KdfDepthLevel,
    asked: (Option<usize>, Seq<char>, Seq<char>, Seq<char>, Seq<u8>, Seq<u8>, Seq<u8>),
    address: Address,
    chain_id: Option<usize>,
    message: Seq<char>,
    other: Seq<char>,
)
    requires
        asked.6.len() == IV_BYTES,
        created(
            store,
            asked.0,
            asked.1,
            asked.2,
            asked.3,
            policy,
            level,
            asked.4,
            asked.5,
            asked.6,
        ).0 is Ok,
        address_of_key(asked.4) == Some(address@),
        chain_checked(chain_id) is Ok,
    ensures
        ({
            let done = created(
                store,
                asked.0,
                asked.1,
                asked.2,
                asked.3,
                policy,
                level,
                asked.4,
                asked.5,
                asked.6,
            );
            let text = address.hex_spec();
            &&& done.0 == Ok::<Seq<char>, ServiceErrorView>(text)
            &&& unlocked(done.1, address@, encode_utf8(asked.3)) == Ok::<
                Seq<u8>,
                ServiceErrorView,
            >(asked.4)
            &&& message_signed(done.1, chain_id, text, message, asked.3) == match signature_bytes(
                asked.4,
                message_digest(encode_utf8(message)),
            ) {
                Some(signature) => Ok::<Seq<char>, ServiceErrorView>(
                    "0x"@ + hex_encode(signature),
                ),
                None => Err::<Seq<char>, ServiceErrorView>(
                    ServiceErrorView::StoreError(key_damaged()),
                ),
            }
            &&& done.1[address@].material matches KeyMaterialView::Local { crypto, kdf }
            &&& !opens(crypto, kdf, encode_utf8(other)) ==> message_signed(
                done.1,
                chain_id,
                text,
                message,
                other,
            ) == Err::<Seq<char>, ServiceErrorView>(ServiceErrorView::InvalidPassphrase)
        }),
{
    reveal_strlit("address");
    lemma_address_round_trip(address);
    lemma_open_sealed(asked.4, encode_utf8(asked.3), level, asked.5, asked.6);
}

/// Signs a message with the key of an account. The bytes of the message
/// text are hashed after the message prefix, and the digest is signed.
///
/// # Errors
///
/// `InvalidChainId` if the request names a chain that the table of chains
/// does not hold, `InvalidDataFormat` that names `address` if the address is
/// malformed, `NotFound` if the store holds no such account, `NoKeyMaterial`
/// if its key is with an external signer, `InvalidDataFormat` that names
/// the field at fault if its envelopes are not well formed,
/// `InvalidPassphrase` if the passphrase does not open the keyfile,
/// `StoreError` if what the keyfile holds is no signing key.
pub fn sign(
    params: SignParams<(String, String, String, CommonAdditional)>,
    storage: &StorageController,
) -> (r: Result<String, ServiceError>)
    ensures
        ({
            let asked = sign_asked(params);
            agrees_text(
                r,
                message_signed(storage.keyfile_storage@, asked.3, asked.0, asked.1, asked.2),
            )
        }),
{
    let (address, message, passphrase, additional) = params.into_full();
    match check_optional_chain(&additional) {
        Err(e) => {
            return Err(e);
        },
        Ok(_) => {},
    }
    let address = match address_param(address.as_str(), "address") {
        Ok(address) => address,
        Err(e) => {
            return Err(e);
        },
    };
    let (_, mut key) = match unlock(storage, &address, passphrase.as_str()) {
        Ok(opened) => opened,
        Err(e) => {
            return Err(e);
        },
    };
    let digest = hash_message(message.as_str().as_bytes());
    let signature = sign_hash(key.as_slice(), digest.as_slice());
    wipe(&mut key);
    match signature {
        Some(bytes) => {
            let digits = to_hex(bytes.as_slice());
            Ok(String::from_str("0x").concat(digits.as_str()))
        },
        None => Err(ServiceError::StoreError(String::from_str("Invalid key material"))),
    }
}

/// The fields that a transaction signing request asks with: the
/// transaction, the passphrase, and the chain identifier, none where the
/// request has the bare shape.
pub open spec fn sign_tx_asked(
    params: SignTxParams<
        (SignTxTransaction, String),
        (SignTxTransaction, String, SignTxAdditional),
    >,
) -> (SignTxTransaction, Seq<char>, Option<usize>) {
    match params {
        SignTxParams::Left((tx, passphrase), _) => (tx, passphrase@, None),
        SignTxParams::Right((tx, passphrase, additional)) => (tx, passphrase@, additional.chain_id),
    }
}

/// What signing the transaction `tx` answers: the signed transaction in
/// hexadecimal notation after `0x`. The request must name the chain.
pub open spec fn transaction_signed(
    store: Keyfiles,
    chain_id: Option<usize>,
    tx: SignTxTransaction,
    passphrase: Seq<char>,
) -> Result<Seq<char>, ServiceErrorView> {
    match chain_id {
        None => Err(ServiceErrorView::MissingChainId),
        Some(id) => if !is_known_chain(id as int) {
            Err(ServiceErrorView::InvalidChainId(id))
        } else {
            match transaction_of(tx) {
                Err(e) => Err(e),
                Ok((from, transaction)) => match unlocked(store, from, encode_utf8(passphrase)) {
                    Err(e) => Err(e),
                    Ok(key) => match signature_of(
                        key,
                        keccak256(signing_payload(transaction, id as u8)),
                    ) {
                        Some((signature, recovery)) => Ok(
                            "0x"@ + hex_encode(
                                signed_payload(transaction, id as u8, signature, recovery),
                            ),
                        ),
                        None => Err(ServiceErrorView::StoreError(key_damaged())),
                    },
                },
            }
        },
    }
}

/// Signs a transaction with the key of its sender, for the chain that the
/// request names: the chain identifier is part of what is signed, so the
/// signed transaction is good on that chain only.
///
/// # Errors
///
/// `MissingChainId` if the request names no chain, `InvalidChainId` if it
/// names one that the table of chains does not hold, `InvalidDataFormat`
/// that names the first malformed field of the transaction, `NotFound` if
/// the store holds no account of the sender's address, `NoKeyMaterial` if
/// its key is with an external signer, `InvalidDataFormat` that names the
/// field at fault if its envelopes are not well formed, `InvalidPassphrase`
/// if the passphrase does not open the keyfile, `StoreError` if what the
/// keyfile holds is no signing key.
pub fn sign_transaction(
    params: SignTxParams<
        (SignTxTransaction, String),
        (SignTxTransaction, String, SignTxAdditional),
    >,
    storage: &StorageController,
) -> (r: Result<String, ServiceError>)
    ensures
        ({
            let asked = sign_tx_asked(params);
            agrees_text(
                r,
                transaction_signed(storage.keyfile_storage@, asked.2, asked.0, asked.1),
            )
        }),
{
    let (tx, passphrase, additional) = params.into_full();
    let chain: u8 = match additional.chain_id {
        None => {
            return Err(ServiceError::MissingChainId);
        },
        Some(id) => {
            if id <= 255 && known_chain(id as u8) {
                id as u8
            } else {
                return Err(ServiceError::InvalidChainId(id));
            }
        },
    };
    let (from, transaction) = match Transaction::parse(&tx) {
        Ok(parsed) => parsed,
        Err(e) => {
            return Err(e);
        },
    };
    let (_, mut key) = match unlock(storage, &from, passphrase.as_str()) {
        Ok(opened) => opened,
        Err(e) => {
            return Err(e);
        },
    };
    let payload = transaction.to_signing_payload(chain);
    let digest = keccak256_digest(payload.as_slice());
    let signature = sign_recoverable(key.as_slice(), digest.as_slice());
    wipe(&mut key);
    match signature {
        Some((bytes, recovery)) => {
            let signed = transaction.to_signed_payload(chain, bytes.as_slice(), recovery);
            let digits = to_hex(signed.as_slice());
            Ok(String::from_str("0x").concat(digits.as_str()))
        },
        None => Err(ServiceError::StoreError(String::from_str("Invalid key material"))),
    }
}

/// The digest of the typed data document `document`, where the document is
/// one that is hashed and the hasher accepts it.
pub open spec fn admitted_digest(document: Seq<char>) -> Option<Seq<u8>> {
    if document_admitted(encode_utf8(document)) {
        typed_data_digest(document)
    } else {
        None
    }
}

/// What signing the typed data document `document` for the account
/// `address` answers: the signature of 65 bytes in hexadecimal notation
/// after `0x`. The document is hashed before the keyfile is opened.
pub open spec fn typed_data_signed(
    store: Keyfiles,
    chain_id: Option<usize>,
    address: Seq<char>,
    document: Seq<char>,
    passphrase: Seq<char>,
) -> Result<Seq<char>, ServiceErrorView> {
    match chain_checked(chain_id) {
        Err(e) => Err(e),
        Ok(_) => match address_checked(address, "address"@) {
            Err(e) => Err(e),
            Ok(a) => match admitted_digest(document) {
                None => Err(ServiceErrorView::InvalidDataFormat("data"@)),
                Some(digest) => match unlocked(store, a, encode_utf8(passphrase)) {
                    Err(e) => Err(e),
                    Ok(key) => match signature_bytes(key, digest) {
                        Some(signature) => Ok("0x"@ + hex_encode(signature)),
                        None => Err(ServiceErrorView::StoreError(key_damaged())),
                    },
                },
            },
        },
    }
}

/// Signs the typed data document that `document` holds as JSON text, with
/// the key of the account `address`.
///
/// # Errors
///
/// `InvalidChainId` if `additional` names a chain that the table of chains
/// does not hold, `InvalidDataFormat` that names `address` if the address is
/// malformed, or `data` if the text is no typed data document or is not
/// one that is hashed (too long, too many types, or a tuple of types),
/// `NotFound` if the store holds no such account, `NoKeyMaterial` if its key
/// is with an external signer, `InvalidDataFormat` that names the field at
/// fault if its envelopes are not well formed, `InvalidPassphrase` if the
/// passphrase does not open the keyfile, `StoreError` if what the keyfile
/// holds is no signing key.
pub fn sign_typed_text(
    address: &str,
    document: &str,
    passphrase: &str,
    additional: &CommonAdditional,
    storage: &StorageController,
) -> (r: Result<String, ServiceError>)
    ensures
        agrees_text(
            r,
            typed_data_signed(
                storage.keyfile_storage@,
                additional.chain_id,
                address@,
                document@,
                passphrase@,
            ),
        ),
{
    match check_optional_chain(additional) {
        Err(e) => {
            return Err(e);
        },
        Ok(_) => {},
    }
    let address = match address_param(address, "address") {
        Ok(address) => address,
        Err(e) => {
            return Err(e);
        },
    };
    if !admits(document) {
        return Err(ServiceError::InvalidDataFormat(String::from_str("data")));
    }
    let digest = match hash_typed_data(document) {
        Some(digest) => digest,
        None => {
            return Err(ServiceError::InvalidDataFormat(String::from_str("data")));
        },
    };
    let (_, mut key) = match unlock(storage, &address, passphrase) {
        Ok(opened) => opened,
        Err(e) => {
            return Err(e);
        },
    };
    let signature = sign_hash(key.as_slice(), digest.as_slice());
    wipe(&mut key);
    match signature {
        Some(bytes) => {
            let digits = to_hex(bytes.as_slice());
            Ok(String::from_str("0x").concat(digits.as_str()))
        },
        None => Err(ServiceError::StoreError(String::from_str("Invalid key material"))),
    }
}

/// The fields that a typed data signing request asks with: address,
/// document, passphrase, and the chain identifier, none where the request
/// has the bare shape.
pub open spec fn sign_typed_asked(
    params: SignTypedDataParams<(String, serde_json::Value, String, CommonAdditional)>,
) -> (Seq<char>, serde_json::Value, Seq<char>, Option<usize>) {
    match params {
        SignTypedDataParams::Left(address, document, passphrase) => (
            address@,
            document,
            passphrase@,
            None,
        ),
        SignTypedDataParams::Right((address, document, passphrase, additional)) => (
            address@,
            document,
            passphrase@,
            additional.chain_id,
        ),
    }
}

/// Signs a typed data document with the key of an account: the document is
/// written as JSON text, and the text is signed as `sign_typed_text` does.
///
/// # Errors
///
/// Those of `sign_typed_text`.
pub fn sign_typed_data(
    params: SignTypedDataParams<(String, serde_json::Value, String, CommonAdditional)>,
    storage: &StorageController,
) -> (r: Result<String, ServiceError>)
    ensures
        ({
            let asked = sign_typed_asked(params);
            exists|text: String|
                {
                    &&& #[trigger] to_string_from_display_ensures::<serde_json::Value>(
                        &asked.1,
                        text,
                    )
                    &&& agrees_text(
                        r,
                        typed_data_signed(
                            storage.keyfile_storage@,
                            asked.3,
                            asked.0,
                            text@,
                            asked.2,
                        ),
                    )
                }
        }),
{
    let (address, document, passphrase, additional) = params.into_full();
    let text = document.to_string();
    let r = sign_typed_text(
        address.as_str(),
        text.as_str(),
        passphrase.as_str(),
        &additional,
        storage,
    );
    proof {
        let asked = sign_typed_asked(params);
        assert(to_string_from_display_ensures::<serde_json::Value>(&asked.1, text));
        assert(agrees_text(
            r,
            typed_data_signed(storage.keyfile_storage@, asked.3, asked.0, text@, asked.2),
        ));
    }
    r
}

} // verus!
