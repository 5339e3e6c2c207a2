//! The account operations: what each request does to the store of keyfiles
//! and what it answers.

use crate::address::{parse_address, Address};
use crate::bytes::wipe;
use crate::hex::hex_encode;
use crate::keystore::cipher::{
    decrypt, encrypt_with, fresh_key, fresh_salt_and_iv, lemma_open_sealed, opened, opens, sealed,
    IV_BYTES, SALT_BYTES,
};
use crate::keystore::key::{address_of_key, key_address, KEY_BYTES};
use crate::keystore::{
    KdfDepthLevel, KeyFile, KeyFileView, KeyMaterial, KeyMaterialView, KeyfileSummary,
    PassphrasePolicy,
};
use crate::rpc::common::{
    CommonAdditional, CommonChainParams, Either, ExportAccountAccount, ListAccountAccount,
    ListAccountsAdditional, NewAccountAccount, SelectedAccount, ShakeAccountAccount,
    UpdateAccountAccount,
};
use crate::rpc::error::{agrees, agrees_text, ServiceError, ServiceErrorView};
use crate::storage::keyfile::is_listing;
use crate::storage::StorageController;
use crate::util::{is_known_chain, known_chain, ChainID};
use vstd::prelude::*;
use vstd::string::*;
use vstd::utf8::encode_utf8;

verus! {

/// The keyfiles of a store by address.
pub type Keyfiles = Map<Seq<u8>, KeyFileView>;

/// An address in text: `0x` and forty lower-case hexadecimal digits.
pub open spec fn address_text(address: Seq<u8>) -> Seq<char> {
    "0x"@ + hex_encode(address)
}

/// The chain that a request is for, where it names one: a request may name
/// none, and may not name one that the table of chains does not hold.
pub open spec fn chain_checked(chain_id: Option<usize>) -> Result<
    Option<ChainID>,
    ServiceErrorView,
> {
    match chain_id {
        None => Ok(None),
        Some(id) => if is_known_chain(id as int) {
            Ok(Some(id as u8))
        } else {
            Err(ServiceErrorView::InvalidChainId(id))
        },
    }
}

/// The chain that a request is for, where it names one.
///
/// # Errors
///
/// `InvalidChainId` if the request names a chain that the table of chains
/// does not hold.
pub fn check_optional_chain(p: &dyn CommonChainParams) -> (r: Result<
    Option<ChainID>,
    ServiceError,
>)
    ensures
        agrees(r, chain_checked(p.chain_id_spec())),
{
    match p.get_chain_id() {
        None => Ok(None),
        Some(id) => {
            if id <= 255 && known_chain(id as u8) {
                Ok(Some(id as u8))
            } else {
                Err(ServiceError::InvalidChainId(id))
            }
        },
    }
}

/// The address that the parameter `field` of a request gives as `text`.
pub open spec fn address_checked(text: Seq<char>, field: Seq<char>) -> Result<
    Seq<u8>,
    ServiceErrorView,
> {
    match parse_address(text) {
        Some(address) => Ok(address),
        None => Err(ServiceErrorView::InvalidDataFormat(field)),
    }
}

/// Reads the address that the parameter `field` of a request gives as
/// `text`.
///
/// # Errors
///
/// `InvalidDataFormat` that names `field` if `text` is no address.
pub fn address_param(text: &str, field: &str) -> (r: Result<Address, ServiceError>)
    ensures
        match address_checked(text@, field@) {
            Ok(address) => r matches Ok(got) && got@ == address,
            Err(e) => r matches Err(got) && got@ == e,
        },
{
    match Address::parse(text) {
        Some(address) => Ok(address),
        None => Err(ServiceError::InvalidDataFormat(String::from_str(field))),
    }
}

/// The first positional argument of a request of either shape.
pub open spec fn first_of<T, U>(params: Either<(T,), (T, U)>) -> T {
    match params {
        Either::Left((first,)) => first,
        Either::Right((first, _)) => first,
    }
}

/// The chain identifier that a request of either shape names: none where
/// the request has the bare shape.
pub open spec fn chain_of<T>(params: Either<(T,), (T, CommonAdditional)>) -> Option<usize> {
    match params {
        Either::Left(_) => None,
        Either::Right((_, additional)) => additional.chain_id,
    }
}

/// Whether `account` shows what `summary` holds, with the address in text.
pub open spec fn presents(account: ListAccountAccount, summary: KeyfileSummary) -> bool {
    &&& account.name@ == summary.name@
    &&& account.address@ == address_text(summary.address@)
    &&& account.description@ == summary.description@
    &&& account.hardware == summary.hardware
    &&& account.is_hidden == summary.hidden
}

/// Whether `accounts` is the listing of `store` as a request sees it.
pub open spec fn is_account_listing(
    accounts: Seq<ListAccountAccount>,
    store: Keyfiles,
    show_hidden: bool,
) -> bool {
    exists|listing: Seq<KeyfileSummary>|
        {
            &&& #[trigger] is_listing(listing, store, show_hidden)
            &&& accounts.len() == listing.len()
            &&& forall|i: int|
                #![trigger accounts[i]]
                0 <= i < accounts.len() ==> presents(accounts[i], listing[i])
        }
}

/// The fields that a listing request asks with: none named, hidden
/// accounts left out, where the request has the bare shape.
pub open spec fn listing_asked(params: Either<(), ListAccountsAdditional>) -> (
    Option<usize>,
    bool,
) {
    match params {
        Either::Left(_) => (None, false),
        Either::Right(additional) => (additional.chain_id, additional.show_hidden),
    }
}

/// Lists the accounts of the store in ascending order of address, without
/// the hidden ones unless the request asks for them. The request need not
/// name a chain.
///
/// # Errors
///
/// `InvalidChainId` if the request names a chain that the table of chains
/// does not hold.
pub fn list_accounts(params: Either<(), ListAccountsAdditional>, storage: &StorageController) -> (r:
    Result<Vec<ListAccountAccount>, ServiceError>)
    ensures
        match chain_checked(listing_asked(params).0) {
            Ok(_) => r matches Ok(accounts) && is_account_listing(
                accounts@,
                storage.keyfile_storage@,
                listing_asked(params).1,
            ),
            Err(e) => r matches Err(got) && got@ == e,
        },
{
    let additional = params.into_right();
    match check_optional_chain(&additional) {
        Err(e) => {
            return Err(e);
        },
        Ok(_) => {},
    }
    let listing = match storage.keyfile_storage.list(additional.show_hidden) {
        Ok(listing) => listing,
        Err(e) => {
            return Err(ServiceError::from(e));
        },
    };
    let mut accounts: Vec<ListAccountAccount> = Vec::new();
    let mut i: usize = 0;
    while i < listing.len()
        invariant
            i <= listing@.len(),
            accounts@.len() == i,
            forall|k: int|
                #![trigger accounts@[k]]
                0 <= k < i ==> presents(accounts@[k], listing@[k]),
        decreases listing@.len() - i,
    {
        let summary = &listing[i];
        accounts.push(
            ListAccountAccount {
                name: summary.name.clone(),
                address: summary.address.to_hex(),
                description: summary.description.clone(),
                hardware: summary.hardware,
                is_hidden: summary.hidden,
            },
        );
        i += 1;
    }
    Ok(accounts)
}

/// What setting the hidden flag of the account `address` to `hidden` answers
/// and leaves in the store.
pub open spec fn hidden_set(
    store: Keyfiles,
    chain_id: Option<usize>,
    address: Seq<char>,
    hidden: bool,
) -> (Result<bool, ServiceErrorView>, Keyfiles) {
    match chain_checked(chain_id) {
        Err(e) => (Err(e), store),
        Ok(_) => match address_checked(address, "address"@) {
            Err(e) => (Err(e), store),
            Ok(a) => if store.contains_key(a) {
                (Ok(true), store.insert(a, (KeyFileView { hidden: hidden, ..store[a] })))
            } else {
                (Err(ServiceErrorView::NotFound(address_text(a))), store)
            },
        },
    }
}

fn set_account_hidden(
    params: Either<(SelectedAccount,), (SelectedAccount, CommonAdditional)>,
    hidden: bool,
    storage: &mut StorageController,
) -> (r: Result<bool, ServiceError>)
    ensures
        ({
            let expected = hidden_set(
                old(storage).keyfile_storage@,
                chain_of(params),
                first_of(params).address@,
                hidden,
            );
            agrees(r, expected.0) && final(storage).keyfile_storage@ == expected.1
        }),
        final(storage).base_path == old(storage).base_path,
        final(storage).storage_type == old(storage).storage_type,
{
    let (account, additional) = params.into_full();
    match check_optional_chain(&additional) {
        Err(e) => {
            return Err(e);
        },
        Ok(_) => {},
    }
    let address = match address_param(account.address.as_str(), "address") {
        Ok(address) => address,
        Err(e) => {
            return Err(e);
        },
    };
    match storage.keyfile_storage.set_hidden(&address, hidden) {
        Ok(_) => Ok(true),
        Err(e) => Err(ServiceError::from(e)),
    }
}

/// Hides the account: listings leave it out unless they ask for hidden
/// accounts. Hiding a hidden account changes nothing.
///
/// # Errors
///
/// `InvalidChainId` if the request names a chain that the table of chains
/// does not hold, `InvalidDataFormat` that names `address` if the address is
/// malformed, `NotFound` if the store holds no such account. The store is
/// then unchanged.
pub fn hide_account(
    params: Either<(SelectedAccount,), (SelectedAccount, CommonAdditional)>,
    storage: &mut StorageController,
) -> (r: Result<bool, ServiceError>)
    ensures
        ({
            let expected = hidden_set(
                old(storage).keyfile_storage@,
                chain_of(params),
                first_of(params).address@,
                true,
            );
            agrees(r, expected.0) && final(storage).keyfile_storage@ == expected.1
        }),
        final(storage).base_path == old(storage).base_path,
        final(storage).storage_type == old(storage).storage_type,
{
    set_account_hidden(params, true, storage)
}

/// Shows a hidden account again.
///
/// # Errors
///
/// As for `hide_account`.
pub fn unhide_account(
    params: Either<(SelectedAccount,), (SelectedAccount, CommonAdditional)>,
    storage: &mut StorageController,
) -> (r: Result<bool, ServiceError>)
    ensures
        ({
            let expected = hidden_set(
                old(storage).keyfile_storage@,
                chain_of(params),
                first_of(params).address@,
                false,
            );
            agrees(r, expected.0) && final(storage).keyfile_storage@ == expected.1
        }),
        final(storage).base_path == old(storage).base_path,
        final(storage).storage_type == old(storage).storage_type,
{
    set_account_hidden(params, false, storage)
}

/// The keyfile `keyfile` with the name and the description that a request
/// gives: an empty text leaves what the keyfile had.
pub open spec fn renamed(
    keyfile: KeyFileView,
    name: Seq<char>,
    description: Seq<char>,
) -> KeyFileView {
    KeyFileView {
        name: if name.len() == 0 {
            keyfile.name
        } else {
            name
        },
        description: if description.len() == 0 {
            keyfile.description
        } else {
            description
        },
        ..keyfile
    }
}

/// What changing the name and the description of an account answers and
/// leaves in the store.
pub open spec fn account_updated(
    store: Keyfiles,
    chain_id: Option<usize>,
    address: Seq<char>,
    name: Seq<char>,
    description: Seq<char>,
) -> (Result<bool, ServiceErrorView>, Keyfiles) {
    match chain_checked(chain_id) {
        Err(e) => (Err(e), store),
        Ok(_) => match address_checked(address, "address"@) {
            Err(e) => (Err(e), store),
            Ok(a) => if store.contains_key(a) {
                (Ok(true), store.insert(a, renamed(store[a], name, description)))
            } else {
                (Err(ServiceErrorView::NotFound(address_text(a))), store)
            },
        },
    }
}

/// Changes the name and the description of an account, and nothing else of
/// it. No passphrase is asked for: no key material is touched.
///
/// # Errors
///
/// `InvalidChainId` if the request names a chain that the table of chains
/// does not hold, `InvalidDataFormat` that names `address` if the address is
/// malformed, `NotFound` if the store holds no such account. The store is
/// then unchanged.
pub fn update_account(
    params: Either<(UpdateAccountAccount,), (UpdateAccountAccount, CommonAdditional)>,
    storage: &mut StorageController,
) -> (r: Result<bool, ServiceError>)
    ensures
        ({
            let account = first_of(params);
            let expected = account_updated(
                old(storage).keyfile_storage@,
                chain_of(params),
                account.address@,
                account.name@,
                account.description@,
            );
            agrees(r, expected.0) && final(storage).keyfile_storage@ == expected.1
        }),
        final(storage).base_path == old(storage).base_path,
        final(storage).storage_type == old(storage).storage_type,
{
    let (account, additional) = params.into_full();
    match check_optional_chain(&additional) {
        Err(e) => {
            return Err(e);
        },
        Ok(_) => {},
    }
    let address = match address_param(account.address.as_str(), "address") {
        Ok(address) => address,
        Err(e) => {
            return Err(e);
        },
    };
    let mut keyfile = match storage.keyfile_storage.get(&address) {
        Ok(keyfile) => keyfile,
        Err(e) => {
            return Err(ServiceError::from(e));
        },
    };
    if !account.name.as_str().is_empty() {
        keyfile.name = account.name;
    }
    if !account.description.as_str().is_empty() {
        keyfile.description = account.description;
    }
    let _ = storage.keyfile_storage.put(keyfile);
    Ok(true)
}

/// Stores a keyfile as it is given, in place of the keyfile that was stored
/// under its address, if there was one, and answers its address in text.
///
/// # Errors
///
/// `InvalidChainId` if the request names a chain that the table of chains
/// does not hold. The store is then unchanged.
pub fn import_account(
    params: Either<(KeyFile,), (KeyFile, CommonAdditional)>,
    storage: &mut StorageController,
) -> (r: Result<String, ServiceError>)
    ensures
        match chain_checked(chain_of(params)) {
            Ok(_) => {
                &&& r matches Ok(text)
                &&& text@ == address_text(first_of(params).address@)
                &&& final(storage).keyfile_storage@ == old(storage).keyfile_storage@.insert(
                    first_of(params).address@,
                    first_of(params)@,
                )
            },
            Err(e) => {
                &&& r matches Err(got)
                &&& got@ == e
                &&& final(storage).keyfile_storage@ == old(storage).keyfile_storage@
            },
        },
        final(storage).base_path == old(storage).base_path,
        final(storage).storage_type == old(storage).storage_type,
{
    let (keyfile, additional) = params.into_full();
    match check_optional_chain(&additional) {
        Err(e) => {
            return Err(e);
        },
        Ok(_) => {},
    }
    let text = keyfile.address.to_hex();
    let _ = storage.keyfile_storage.put(keyfile);
    Ok(text)
}

/// The secret key of the account `address` as `passphrase` opens it.
pub open spec fn unlocked(store: Keyfiles, address: Seq<u8>, passphrase: Seq<u8>) -> Result<
    Seq<u8>,
    ServiceErrorView,
> {
    if !store.contains_key(address) {
        Err(ServiceErrorView::NotFound(address_text(address)))
    } else {
        match store[address].material {
            KeyMaterialView::Hardware => Err(
                ServiceErrorView::NoKeyMaterial(address_text(address)),
            ),
            KeyMaterialView::Local { crypto, kdf } => opened(crypto, kdf, passphrase),
        }
    }
}

/// Opens the keyfile of the account `address` with `passphrase`: the
/// keyfile and the secret key.
///
/// # Errors
///
/// `NotFound` if the store holds no such account, `NoKeyMaterial` if its
/// key is with an external signer, `InvalidDataFormat` that names the field
/// at fault if its envelopes are not well formed, `InvalidPassphrase` if the
/// passphrase does not open the keyfile.
pub fn unlock(storage: &StorageController, address: &Address, passphrase: &str) -> (r: Result<
    (KeyFile, Vec<u8>),
    ServiceError,
>)
    ensures
        match unlocked(storage.keyfile_storage@, address@, passphrase.spec_bytes()) {
            Ok(key) => {
                &&& r matches Ok((keyfile, got))
                &&& keyfile@ == storage.keyfile_storage@[address@]
                &&& keyfile.address@ == address@
                &&& got@ == key
            },
            Err(e) => r matches Err(got) && got@ == e,
        },
{
    let keyfile = match storage.keyfile_storage.get(address) {
        Ok(keyfile) => keyfile,
        Err(e) => {
            return Err(ServiceError::from(e));
        },
    };
    let key = match &keyfile.material {
        KeyMaterial::Hardware => {
            return Err(ServiceError::NoKeyMaterial(address.to_hex()));
        },
        KeyMaterial::Local { crypto, kdf } => match decrypt(crypto, kdf, passphrase) {
            Ok(key) => key,
            Err(e) => {
                return Err(e);
            },
        },
    };
    Ok((keyfile, key))
}

/// Whether exporting the account `address` is granted: to a caller who
/// gives the passphrase that opens its keyfile.
pub open spec fn export_granted(
    store: Keyfiles,
    chain_id: Option<usize>,
    address: Seq<char>,
    passphrase: Seq<u8>,
) -> Result<KeyFileView, ServiceErrorView> {
    match chain_checked(chain_id) {
        Err(e) => Err(e),
        Ok(_) => match address_checked(address, "address"@) {
            Err(e) => Err(e),
            Ok(a) => match unlocked(store, a, passphrase) {
                Err(e) => Err(e),
                Ok(_) => Ok(store[a]),
            },
        },
    }
}

/// Answers the keyfile of an account, still encrypted, to a caller who
/// gives the passphrase that opens it. The store keeps the keyfile.
///
/// # Errors
///
/// `InvalidChainId` if the request names a chain that the table of chains
/// does not hold, `InvalidDataFormat` that names `address` if the address is
/// malformed, `NotFound` if the store holds no such account, `NoKeyMaterial`
/// if its key is with an external signer, `InvalidDataFormat` that names
/// the field at fault if its envelopes are not well formed,
/// `InvalidPassphrase` if the passphrase does not open the keyfile.
pub fn export_account(
    params: Either<(ExportAccountAccount,), (ExportAccountAccount, CommonAdditional)>,
    storage: &StorageController,
) -> (r: Result<KeyFile, ServiceError>)
    ensures
        match export_granted(
            storage.keyfile_storage@,
            chain_of(params),
            first_of(params).address@,
            encode_utf8(first_of(params).passphrase@),
        ) {
            Ok(keyfile) => r matches Ok(got) && got@ == keyfile,
            Err(e) => r matches Err(got) && got@ == e,
        },
{
    let (account, additional) = params.into_full();
    match check_optional_chain(&additional) {
        Err(e) => {
            return Err(e);
        },
        Ok(_) => {},
    }
    let address = match address_param(account.address.as_str(), "address") {
        Ok(address) => address,
        Err(e) => {
            return Err(e);
        },
    };
    match unlock(storage, &address, account.passphrase.as_str()) {
        Ok((keyfile, key)) => {
            let mut key = key;
            wipe(&mut key);
            Ok(keyfile)
        },
        Err(e) => Err(e),
    }
}

/// What rekeying an account answers and leaves in the store, where the new
/// envelopes are made with `salt` and `iv`.
pub open spec fn rekeyed(
    store: Keyfiles,
    chain_id: Option<usize>,
    address: Seq<char>,
    old_passphrase: Seq<u8>,
    new_passphrase: Seq<u8>,
    level: KdfDepthLevel,
    salt: Seq<u8>,
    iv: Seq<u8>,
) -> (Result<bool, ServiceErrorView>, Keyfiles) {
    match chain_checked(chain_id) {
        Err(e) => (Err(e), store),
        Ok(_) => match address_checked(address, "address"@) {
            Err(e) => (Err(e), store),
            Ok(a) => match unlocked(store, a, old_passphrase) {
                Err(e) => (Err(e), store),
                Ok(key) => {
                    let (crypto, kdf) = sealed(key, new_passphrase, level.kdf_spec(), salt, iv);
                    (
                        Ok(true),
                        store.insert(
                            a,
                            (KeyFileView {
                                material: KeyMaterialView::Local { crypto, kdf },
                                ..store[a]
                            }),
                        ),
                    )
                },
            },
        },
    }
}

/// Changes the passphrase of an account: the secret key that the old
/// passphrase opens is sealed under the new one at the cost of `sec_level`,
/// with the salt `salt` and the initialization vector `iv`. The new
/// envelopes take the place of the old ones in one step, at the end; until
/// then, and on every failure, the store holds the old ones.
///
/// # Errors
///
/// `InvalidChainId` if the request names a chain that the table of chains
/// does not hold, `InvalidDataFormat` that names `address` if the address is
/// malformed, `NotFound` if the store holds no such account, `NoKeyMaterial`
/// if its key is with an external signer, `InvalidDataFormat` that names
/// the field at fault if its envelopes are not well formed,
/// `InvalidPassphrase` if the old passphrase does not open the keyfile.
pub fn shake_account_with(
    params: Either<(ShakeAccountAccount,), (ShakeAccountAccount, CommonAdditional)>,
    sec_level: KdfDepthLevel,
    salt: &[u8; 32],
    iv: &[u8; 16],
    storage: &mut StorageController,
) -> (r: Result<bool, ServiceError>)
    ensures
        ({
            let account = first_of(params);
            let expected = rekeyed(
                old(storage).keyfile_storage@,
                chain_of(params),
                account.address@,
                encode_utf8(account.old_passphrase@),
                encode_utf8(account.new_passphrase@),
                sec_level,
                salt@,
                iv@,
            );
            agrees(r, expected.0) && final(storage).keyfile_storage@ == expected.1
        }),
        final(storage).base_path == old(storage).base_path,
        final(storage).storage_type == old(storage).storage_type,
{
    let (account, additional) = params.into_full();
    match check_optional_chain(&additional) {
        Err(e) => {
            return Err(e);
        },
        Ok(_) => {},
    }
    let address = match address_param(account.address.as_str(), "address") {
        Ok(address) => address,
        Err(e) => {
            return Err(e);
        },
    };
    let (mut keyfile, mut key) = match unlock(storage, &address, account.old_passphrase.as_str()) {
        Ok(opened) => opened,
        Err(e) => {
            return Err(e);
        },
    };
    let (crypto, kdf) = encrypt_with(
        key.as_slice(),
        account.new_passphrase.as_str(),
        sec_level,
        salt,
        iv,
    );
    wipe(&mut key);
    keyfile.material = KeyMaterial::Local { crypto, kdf };
    let _ = storage.keyfile_storage.put(keyfile);
    Ok(true)
}

/// Changes the passphrase of an account as `shake_account_with` does, with
/// a fresh salt and a fresh initialization vector.
///
/// # Errors
///
/// Those of `shake_account_with`, and `NoEntropy` if the random generator
/// fails. The store is then unchanged.
pub fn shake_account(
    params: Either<(ShakeAccountAccount,), (ShakeAccountAccount, CommonAdditional)>,
    sec_level: KdfDepthLevel,
    storage: &mut StorageController,
) -> (r: Result<bool, ServiceError>)
    ensures
        ({
            let account = first_of(params);
            ||| {
                &&& r matches Err(ServiceError::NoEntropy)
                &&& final(storage).keyfile_storage@ == old(storage).keyfile_storage@
            }
            ||| exists|salt: Seq<u8>, iv: Seq<u8>|
                {
                    let expected = #[trigger] rekeyed(
                        old(storage).keyfile_storage@,
                        chain_of(params),
                        account.address@,
                        encode_utf8(account.old_passphrase@),
                        encode_utf8(account.new_passphrase@),
                        sec_level,
                        salt,
                        iv,
                    );
                    &&& salt.len() == SALT_BYTES
                    &&& iv.len() == IV_BYTES
                    &&& agrees(r, expected.0)
                    &&& final(storage).keyfile_storage@ == expected.1
                }
        }),
        final(storage).base_path == old(storage).base_path,
        final(storage).storage_type == old(storage).storage_type,
{
    match fresh_salt_and_iv() {
        None => Err(ServiceError::NoEntropy),
        Some((salt, iv)) => {
            let r = shake_account_with(params, sec_level, &salt, &iv, storage);
            proof {
                let account = first_of(params);
                let expected = rekeyed(
                    old(storage).keyfile_storage@,
                    chain_of(params),
                    account.address@,
                    encode_utf8(account.old_passphrase@),
                    encode_utf8(account.new_passphrase@),
                    sec_level,
                    salt@,
                    iv@,
                );
                assert(agrees(r, expected.0));
            }
            r
        },
    }
}

/// What creating an account answers and leaves in the store, where the
/// secret key is `secret` and the envelopes are made with `salt` and `iv`.
pub open spec fn created(
    store: Keyfiles,
    chain_id: Option<usize>,
    name: Seq<char>,
    description: Seq<char>,
    passphrase: Seq<char>,
    policy: PassphrasePolicy,
    level: KdfDepthLevel,
    secret: Seq<u8>,
    salt: Seq<u8>,
    iv: Seq<u8>,
) -> (Result<Seq<char>, ServiceErrorView>, Keyfiles) {
    match chain_checked(chain_id) {
        Err(e) => (Err(e), store),
        Ok(_) => if !policy.accepts(passphrase) {
            (Err(ServiceErrorView::WeakPassphrase), store)
        } else {
            match address_of_key(secret) {
                None => (Err(ServiceErrorView::NoEntropy), store),
                Some(a) => {
                    let (crypto, kdf) = sealed(
                        secret,
                        encode_utf8(passphrase),
                        level.kdf_spec(),
                        salt,
                        iv,
                    );
                    (
                        Ok(address_text(a)),
                        store.insert(
                            a,
                            (KeyFileView {
                                address: a,
                                name,
                                description,
                                hidden: false,
                                material: KeyMaterialView::Local { crypto, kdf },
                            }),
                        ),
                    )
                },
            }
        },
    }
}

/// Creates an account whose secret key is `secret`: seals the key under the
/// passphrase of the request at the cost of `sec_level`, with the salt
/// `salt` and the initialization vector `iv`, stores the keyfile, not
/// hidden, and answers the address in text.
///
/// # Errors
///
/// `InvalidChainId` if the request names a chain that the table of chains
/// does not hold, `WeakPassphrase` if `policy` refuses the passphrase,
/// `NoEntropy` if `secret` is no secret key. The store is then unchanged.
pub fn new_account_with(
    params: Either<(NewAccountAccount,), (NewAccountAccount, CommonAdditional)>,
    sec_level: KdfDepthLevel,
    policy: PassphrasePolicy,
    secret: &[u8],
    salt: &[u8; 32],
    iv: &[u8; 16],
    storage: &mut StorageController,
) -> (r: Result<String, ServiceError>)
    ensures
        ({
            let account = first_of(params);
            let expected = created(
                old(storage).keyfile_storage@,
                chain_of(params),
                account.name@,
                account.description@,
                account.passphrase@,
                policy,
                sec_level,
                secret@,
                salt@,
                iv@,
            );
            agrees_text(r, expected.0) && final(storage).keyfile_storage@ == expected.1
        }),
        final(storage).base_path == old(storage).base_path,
        final(storage).storage_type == old(storage).storage_type,
{
    let (account, additional) = params.into_full();
    match check_optional_chain(&additional) {
        Err(e) => {
            return Err(e);
        },
        Ok(_) => {},
    }
    if !policy.check(account.passphrase.as_str()) {
        return Err(ServiceError::WeakPassphrase);
    }
    let address = match key_address(secret) {
        Some(address) => address,
        None => {
            return Err(ServiceError::NoEntropy);
        },
    };
    let (crypto, kdf) = encrypt_with(secret, account.passphrase.as_str(), sec_level, salt, iv);
    let keyfile = KeyFile {
        address,
        name: account.name,
        description: account.description,
        hidden: false,
        material: KeyMaterial::Local { crypto, kdf },
    };
    let text = address.to_hex();
    let _ = storage.keyfile_storage.put(keyfile);
    Ok(text)
}

/// Takes a secret key into the store as the key of a new account, as
/// `new_account_with` does, with a fresh salt and a fresh initialization
/// vector. The account takes the place of the one that was stored under
/// the key's address, if there was one.
///
/// # Errors
///
/// Those of `new_account_with`, and `NoEntropy` if the random generator
/// fails. The store is then unchanged.
pub fn import_key(
    params: Either<(NewAccountAccount,), (NewAccountAccount, CommonAdditional)>,
    sec_level: KdfDepthLevel,
    policy: PassphrasePolicy,
    secret: &[u8],
    storage: &mut StorageController,
) -> (r: Result<String, ServiceError>)
    ensures
        ({
            let account = first_of(params);
            ||| {
                &&& r matches Err(ServiceError::NoEntropy)
                &&& final(storage).keyfile_storage@ == old(storage).keyfile_storage@
            }
            ||| exists|salt: Seq<u8>, iv: Seq<u8>|
                {
                    let expected = #[trigger] created(
                        old(storage).keyfile_storage@,
                        chain_of(params),
                        account.name@,
                        account.description@,
                        account.passphrase@,
                        policy,
                        sec_level,
                        secret@,
                        salt,
                        iv,
                    );
                    &&& salt.len() == SALT_BYTES
                    &&& iv.len() == IV_BYTES
                    &&& agrees_text(r, expected.0)
                    &&& final(storage).keyfile_storage@ == expected.1
                }
        }),
        final(storage).base_path == old(storage).base_path,
        final(storage).storage_type == old(storage).storage_type,
{
    match fresh_salt_and_iv() {
        None => Err(ServiceError::NoEntropy),
        Some((salt, iv)) => {
            let r = new_account_with(params, sec_level, policy, secret, &salt, &iv, storage);
            proof {
                let account = first_of(params);
                let expected = created(
                    old(storage).keyfile_storage@,
                    chain_of(params),
                    account.name@,
                    account.description@,
                    account.passphrase@,
                    policy,
                    sec_level,
                    secret@,
                    salt@,
                    iv@,
                );
                assert(agrees_text(r, expected.0));
            }
            r
        },
    }
}

/// Creates an account with a fresh secret key, as `import_key` takes one
/// into the store.
///
/// # Errors
///
/// Those of `import_key`.
pub fn new_account(
    params: Either<(NewAccountAccount,), (NewAccountAccount, CommonAdditional)>,
    sec_level: KdfDepthLevel,
    policy: PassphrasePolicy,
    storage: &mut StorageController,
) -> (r: Result<String, ServiceError>)
    ensures
        ({
            let account = first_of(params);
            ||| {
                &&& r matches Err(ServiceError::NoEntropy)
                &&& final(storage).keyfile_storage@ == old(storage).keyfile_storage@
            }
            ||| exists|secret: Seq<u8>, salt: Seq<u8>, iv: Seq<u8>|
                {
                    let expected = #[trigger] created(
                        old(storage).keyfile_storage@,
                        chain_of(params),
                        account.name@,
                        account.description@,
                        account.passphrase@,
                        policy,
                        sec_level,
                        secret,
                        salt,
                        iv,
                    );
                    &&& secret.len() == KEY_BYTES
                    &&& salt.len() == SALT_BYTES
                    &&& iv.len() == IV_BYTES
                    &&& agrees_text(r, expected.0)
                    &&& final(storage).keyfile_storage@ == expected.1
                }
        }),
        final(storage).base_path == old(storage).base_path,
        final(storage).storage_type == old(storage).storage_type,
{
    let mut secret = match fresh_key() {
        Some(secret) => secret,
        None => {
            return Err(ServiceError::NoEntropy);
        },
    };
    let ghost key = secret@;
    let r = import_key(params, sec_level, policy, secret.as_slice(), storage);
    wipe(&mut secret);
    proof {
        let account = first_of(params);
        if !(r matches Err(ServiceError::NoEntropy) && storage.keyfile_storage@ == old(
            storage,
        ).keyfile_storage@) {
            let (salt, iv) = choose|salt: Seq<u8>, iv: Seq<u8>|
                {
                    let expected = #[trigger] created(
                        old(storage).keyfile_storage@,
                        chain_of(params),
                        account.name@,
                        account.description@,
                        account.passphrase@,
                        policy,
                        sec_level,
                        key,
                        salt,
                        iv,
                    );
                    &&& salt.len() == SALT_BYTES
                    &&& iv.len() == IV_BYTES
                    &&& agrees_text(r, expected.0)
                    &&& storage.keyfile_storage@ == expected.1
                };
            let expected = created(
                old(storage).keyfile_storage@,
                chain_of(params),
                account.name@,
                account.description@,
                account.passphrase@,
                policy,
                sec_level,
                key,
                salt,
                iv,
            );
            assert(agrees_text(r, expected.0));
        }
    }
    r
}

/// Hiding an account twice leaves what hiding it once leaves, with the same
/// answer, and after a hiding that succeeded the account is hidden.
pub proof fn lemma_hide_twice(store: Keyfiles, chain_id: Option<usize>, address: Seq<char>)
    ensures
        ({
            let once = hidden_set(store, chain_id, address, true);
            let twice = hidden_set(once.1, chain_id, address, true);
            &&& twice == once
            &&& once.0 is Ok ==> once.1[parse_address(address).unwrap()].hidden
        }),
{
    let once = hidden_set(store, chain_id, address, true);
    let twice = hidden_set(once.1, chain_id, address, true);
    assert(twice.1 =~= once.1);
}

/// Showing an account after hiding it leaves it shown: the store is as if
/// the account had only been shown.
pub proof fn lemma_unhide_after_hide(store: Keyfiles, chain_id: Option<usize>, address: Seq<char>)
    ensures
        ({
            let hid = hidden_set(store, chain_id, address, true);
            let shown = hidden_set(hid.1, chain_id, address, false);
            &&& shown == hidden_set(store, chain_id, address, false)
            &&& hid.0 is Ok ==> shown.0 is Ok && !shown.1[parse_address(address).unwrap()].hidden
        }),
{
    let hid = hidden_set(store, chain_id, address, true);
    let shown = hidden_set(hid.1, chain_id, address, false);
    assert(shown.1 =~= hidden_set(store, chain_id, address, false).1);
}

/// A listing that does not ask for hidden accounts has none: no entry is
/// hidden, and no entry is for an address whose keyfile is hidden.
pub proof fn lemma_hidden_not_listed(
    listing: Seq<KeyfileSummary>,
    store: Keyfiles,
    address: Seq<u8>,
)
    requires
        is_listing(listing, store, false),
        store.contains_key(address),
        store[address].hidden,
    ensures
        forall|i: int| 0 <= i < listing.len() ==> (#[trigger] listing[i]).address@ != address,
        forall|i: int| 0 <= i < listing.len() ==> !(#[trigger] listing[i]).hidden,
{
}

/// A listing of accounts that does not ask for hidden accounts shows none.
pub proof fn lemma_hidden_accounts_not_shown(accounts: Seq<ListAccountAccount>, store: Keyfiles)
    requires
        is_account_listing(accounts, store, false),
    ensures
        forall|i: int| 0 <= i < accounts.len() ==> !(#[trigger] accounts[i]).is_hidden,
{
    let listing = choose|listing: Seq<KeyfileSummary>|
        {
            &&& #[trigger] is_listing(listing, store, false)
            &&& accounts.len() == listing.len()
            &&& forall|i: int|
                #![trigger accounts[i]]
                0 <= i < accounts.len() ==> presents(accounts[i], listing[i])
        };
    assert forall|i: int| 0 <= i < accounts.len() implies !(#[trigger] accounts[i]).is_hidden by {
        assert(presents(accounts[i], listing[i]));
        assert(!listing[i].hidden);
    }
}

/// An account that is not hidden is in every listing of its store.
pub proof fn lemma_shown_is_listed(
    listing: Seq<KeyfileSummary>,
    store: Keyfiles,
    show_hidden: bool,
    address: Seq<u8>,
)
    requires
        is_listing(listing, store, show_hidden),
        store.contains_key(address),
        !store[address].hidden,
    ensures
        exists|i: int| 0 <= i < listing.len() && (#[trigger] listing[i]).address@ == address,
{
}

/// After a rekeying that succeeded, the new passphrase opens the keyfile
/// and gives the secret key that the old passphrase gave before; the
/// address, the name, the description and the hidden flag are as before,
/// and so is every other keyfile. The old passphrase no longer opens the
/// keyfile, unless it gives the authentication tag of the new envelopes.
pub proof fn lemma_rekeyed_account(
    store: Keyfiles,
    chain_id: Option<usize>,
    address: Seq<char>,
    old_passphrase: Seq<u8>,
    new_passphrase: Seq<u8>,
    level: KdfDepthLevel,
    salt: Seq<u8>,
    iv: Seq<u8>,
)
    requires
        iv.len() == IV_BYTES,
        rekeyed(store, chain_id, address, old_passphrase, new_passphrase, level, salt, iv).0 is Ok,
    ensures
        ({
            let after = rekeyed(
                store,
                chain_id,
                address,
                old_passphrase,
                new_passphrase,
                level,
                salt,
                iv,
            ).1;
            let a = parse_address(address).unwrap();
            &&& unlocked(store, a, old_passphrase) is Ok
            &&& unlocked(after, a, new_passphrase) == unlocked(store, a, old_passphrase)
            &&& after[a].material matches KeyMaterialView::Local { crypto, kdf }
            &&& !opens(crypto, kdf, old_passphrase) ==> unlocked(after, a, old_passphrase) == Err::<
                Seq<u8>,
                ServiceErrorView,
            >(ServiceErrorView::InvalidPassphrase)
            &&& after[a] == (KeyFileView { material: after[a].material, ..store[a] })
            &&& forall|b: Seq<u8>|
                b != a ==> after.contains_key(b) == store.contains_key(b) && after[b] == store[b]
        }),
{
    let a = parse_address(address).unwrap();
    let key = unlocked(store, a, old_passphrase)->Ok_0;
    lemma_open_sealed(key, new_passphrase, level, salt, iv);
}

/// A creation that succeeded leaves the new account in the store, not
/// hidden, under the address that it answers, and leaves every account of
/// another address as it was.
pub proof fn lemma_creation_keeps_others(
    store: Keyfiles,
    policy: PassphrasePolicy,
    level: KdfDepthLevel,
    asked: (Option<usize>, Seq<char>, Seq<char>, Seq<char>, Seq<u8>, Seq<u8>, Seq<u8>),
    other: Seq<u8>,
)
    requires
        created(
            store,
            asked.0,
            asked.1,
            asked.2,
            asked.3,
            policy,
            level,
            asked.4,
            asked.5,
            asked.6,
        ).0 is Ok,
    ensures
        ({
            let done = created(
                store,
                asked.0,
                asked.1,
                asked.2,
                asked.3,
                policy,
                level,
                asked.4,
                asked.5,
                asked.6,
            );
            &&& address_of_key(asked.4) matches Some(address)
            &&& done.0 == Ok::<Seq<char>, ServiceErrorView>(address_text(address))
            &&& done.1.contains_key(address)
            &&& !done.1[address].hidden
            &&& other != address ==> done.1.contains_key(other) == store.contains_key(other)
                && done.1[other] == store[other]
        }),
{
}

/// Two accounts that were created one after the other, with secret keys of
/// different addresses, are both in the store and in every listing of it.
pub proof fn lemma_created_accounts_are_listed(
    store: Keyfiles,
    policy: PassphrasePolicy,
    level: KdfDepthLevel,
    first: (Option<usize>, Seq<char>, Seq<char>, Seq<char>, Seq<u8>, Seq<u8>, Seq<u8>),
    second: (Option<usize>, Seq<char>, Seq<char>, Seq<char>, Seq<u8>, Seq<u8>, Seq<u8>),
    listing: Seq<KeyfileSummary>,
    show_hidden: bool,
)
    requires
        ({
            let one = created(
                store,
                first.0,
                first.1,
                first.2,
                first.3,
                policy,
                level,
                first.4,
                first.5,
                first.6,
            );
            let two = created(
                one.1,
                second.0,
                second.1,
                second.2,
                second.3,
                policy,
                level,
                second.4,
                second.5,
                second.6,
            );
            &&& one.0 is Ok
            &&& two.0 is Ok
            &&& address_of_key(first.4) != address_of_key(second.4)
            &&& is_listing(listing, two.1, show_hidden)
        }),
    ensures
        exists|i: int|
            0 <= i < listing.len() && Some((#[trigger] listing[i]).address@) == address_of_key(
                first.4,
            ),
        exists|i: int|
            0 <= i < listing.len() && Some((#[trigger] listing[i]).address@) == address_of_key(
                second.4,
            ),
{
    let one = created(
        store,
        first.0,
        first.1,
        first.2,
        first.3,
        policy,
        level,
        first.4,
        first.5,
        first.6,
    );
    let two = created(
        one.1,
        second.0,
        second.1,
        second.2,
        second.3,
        policy,
        level,
        second.4,
        second.5,
        second.6,
    );
    let a1 = address_of_key(first.4).unwrap();
    let a2 = address_of_key(second.4).unwrap();
    assert(two.1.contains_key(a1) && !two.1[a1].hidden);
    assert(two.1.contains_key(a2) && !two.1[a2].hidden);
    lemma_shown_is_listed(listing, two.1, show_hidden, a1);
    lemma_shown_is_listed(listing, two.1, show_hidden, a2);
}

} // verus!
