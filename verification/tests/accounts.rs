use jade_signer::address::Address;
use jade_signer::hex::from_hex;
use jade_signer::keystore::cipher::decrypt;
use jade_signer::keystore::key::key_address;
use jade_signer::keystore::{KdfDepthLevel, Kdf, KeyFile, KeyMaterial, PassphrasePolicy};
use jade_signer::rpc::common::{
    extract_chain_params, CommonAdditional, Either, ExportAccountAccount, ListAccountsAdditional,
    NewAccountAccount, SelectedAccount, ShakeAccountAccount, SignParams, SignTxAdditional,
    SignTxParams, SignTxTransaction, UpdateAccountAccount,
};
use jade_signer::rpc::error::ServiceError;
use jade_signer::rpc::serves::{
    export_account, hide_account, import_account, list_accounts, new_account, new_account_with,
    shake_account, shake_account_with, unhide_account, unlock, update_account,
};
use jade_signer::rpc::signing::{hash_message, sign, sign_transaction};
use jade_signer::storage::{StorageController, StorageType};
use jade_signer::transaction::Transaction;
use sha3::Digest;

const KEY: &str = "4646464646464646464646464646464646464646464646464646464646464646";
const KEY_ADDRESS: &str = "0x9d8a62f656a8d1615c1294fd71e9cfb3e4855a4f";
const NO_POLICY: PassphrasePolicy = PassphrasePolicy { min_length: 0 };

fn controller() -> StorageController {
    StorageController::new("/data", StorageType::Filesystem, Ok(Vec::new())).unwrap()
}

fn account(name: &str, passphrase: &str) -> NewAccountAccount {
    NewAccountAccount {
        name: name.to_string(),
        description: format!("about {}", name),
        passphrase: passphrase.to_string(),
    }
}

fn create(storage: &mut StorageController, secret: &[u8], name: &str, passphrase: &str) -> String {
    new_account_with(
        Either::Left((account(name, passphrase),)),
        KdfDepthLevel::Normal,
        NO_POLICY,
        secret,
        &[7u8; 32],
        &[9u8; 16],
        storage,
    )
    .unwrap()
}

fn selected(address: &str) -> Either<(SelectedAccount,), (SelectedAccount, CommonAdditional)> {
    Either::Left((SelectedAccount {
        address: address.to_string(),
    },))
}

fn listed(storage: &StorageController, show_hidden: bool) -> Vec<String> {
    list_accounts(
        Either::Right(ListAccountsAdditional {
            chain_id: None,
            show_hidden,
            hd_path: None,
        }),
        storage,
    )
    .unwrap()
    .into_iter()
    .map(|a| a.address)
    .collect()
}

fn hardware_keyfile(last: u8) -> KeyFile {
    let mut bytes = [0u8; 20];
    bytes[19] = last;
    KeyFile {
        address: Address(bytes),
        name: "ledger".to_string(),
        description: "external".to_string(),
        hidden: false,
        material: KeyMaterial::Hardware,
    }
}

fn transfer(from: &str) -> SignTxTransaction {
    SignTxTransaction {
        from: from.to_string(),
        to: "0x3535353535353535353535353535353535353535".to_string(),
        gas: "0x5208".to_string(),
        gas_price: "0x4a817c800".to_string(),
        value: "0xde0b6b3a7640000".to_string(),
        data: String::new(),
        nonce: "0x9".to_string(),
    }
}

fn error_of<T>(r: Result<T, ServiceError>) -> ServiceError {
    match r {
        Err(e) => e,
        Ok(_) => panic!("succeeded"),
    }
}

#[test]
fn scenario_create_and_sign() {
    let mut storage = controller();
    let address = new_account(
        Either::Right((account("main", "p1"), CommonAdditional { chain_id: Some(61) })),
        KdfDepthLevel::Normal,
        NO_POLICY,
        &mut storage,
    )
    .unwrap();
    assert_eq!(address.len(), 42);
    assert!(address.starts_with("0x"));
    assert_eq!(listed(&storage, false), vec![address.clone()]);

    let signed = sign(
        SignParams::Right((
            address.clone(),
            "hello".to_string(),
            "p1".to_string(),
            CommonAdditional { chain_id: Some(61) },
        )),
        &storage,
    )
    .unwrap();
    assert_eq!(signed.len(), 2 + 130);
    let signature = from_hex(&signed[2..]).unwrap();
    let parsed = k256::ecdsa::Signature::from_slice(&signature[..64]).unwrap();
    let recovery = k256::ecdsa::RecoveryId::from_byte(signature[64] - 27).unwrap();
    let signer = k256::ecdsa::VerifyingKey::recover_from_prehash(
        &hash_message(b"hello"),
        &parsed,
        recovery,
    )
    .unwrap();
    let point = signer.to_encoded_point(false);
    let digest = sha3::Keccak256::digest(&point.as_bytes()[1..]);
    assert_eq!(Address::parse(&address).unwrap().0.to_vec(), digest[12..].to_vec());

    let refused = sign(
        SignParams::Left(address.clone(), "hello".to_string(), "wrong".to_string()),
        &storage,
    );
    assert!(matches!(refused, Err(ServiceError::InvalidPassphrase)));
}

#[test]
fn scenario_hardware_account_does_not_sign() {
    let mut storage = controller();
    let address = import_account(Either::Left((hardware_keyfile(5),)), &mut storage).unwrap();
    assert_eq!(address, "0x0000000000000000000000000000000000000005");
    let refused = sign_transaction(
        SignTxParams::Right((
            transfer(&address),
            "any".to_string(),
            SignTxAdditional {
                chain_id: Some(61),
                hd_path: None,
            },
        )),
        &storage,
    );
    match refused {
        Err(ServiceError::NoKeyMaterial(text)) => assert_eq!(text, address),
        other => panic!("unexpected {:?}", other),
    }
    let refused = sign(
        SignParams::Left(address.clone(), "hello".to_string(), "any".to_string()),
        &storage,
    );
    assert!(matches!(refused, Err(ServiceError::NoKeyMaterial(_))));
    let listing = list_accounts(Either::Left(()), &storage).unwrap();
    assert_eq!(listing.len(), 1);
    assert!(listing[0].hardware);
    assert!(!listing[0].is_hidden);
    assert_eq!(listing[0].name, "ledger");
    assert_eq!(listing[0].description, "external");
}

#[test]
fn scenario_bare_listing_request() {
    let mut storage = controller();
    let shown = create(&mut storage, &[1u8; 32], "shown", "p");
    let hidden = create(&mut storage, &[2u8; 32], "hidden", "p");
    hide_account(selected(&hidden), &mut storage).unwrap();

    let bare: Either<(), ListAccountsAdditional> = Either::Left(());
    let additional = bare.into_right();
    assert_eq!(additional.chain_id, None);
    assert!(!additional.show_hidden);
    assert!(matches!(
        extract_chain_params(&additional),
        Err(ServiceError::MissingChainId)
    ));

    let listing = list_accounts(Either::Left(()), &storage).unwrap();
    assert_eq!(listing.len(), 1);
    assert_eq!(listing[0].address, shown);
    assert!(!listing[0].is_hidden);
    assert!(!listing[0].hardware);
    assert_eq!(listing[0].name, "shown");
}

#[test]
fn listing_checks_a_chain_that_is_named() {
    let storage = controller();
    let asked = |chain_id| {
        list_accounts(
            Either::Right(ListAccountsAdditional {
                chain_id,
                show_hidden: true,
                hd_path: None,
            }),
            &storage,
        )
    };
    assert!(asked(Some(61)).unwrap().is_empty());
    assert!(asked(None).unwrap().is_empty());
    assert!(matches!(asked(Some(60)), Err(ServiceError::InvalidChainId(60))));
    assert!(matches!(asked(Some(256 + 61)), Err(ServiceError::InvalidChainId(317))));
}

#[test]
fn created_account_holds_the_key() {
    let mut storage = controller();
    let secret = from_hex(KEY).unwrap();
    let address = create(&mut storage, &secret, "main", "p1");
    assert_eq!(address, KEY_ADDRESS);
    let keyfile = storage
        .keyfile_storage
        .get(&Address::parse(&address).unwrap())
        .unwrap();
    assert_eq!(keyfile.name, "main");
    assert_eq!(keyfile.description, "about main");
    assert!(!keyfile.hidden);
    match &keyfile.material {
        KeyMaterial::Local { crypto, kdf } => {
            assert_eq!(kdf.kdf, Kdf::Scrypt { log_n: 10, r: 8, p: 1 });
            assert_eq!(kdf.salt, vec![7u8; 32]);
            assert_eq!(crypto.iv, vec![9u8; 16]);
            assert_eq!(decrypt(crypto, kdf, "p1").unwrap(), secret);
        }
        KeyMaterial::Hardware => panic!("no envelope"),
    }
}

#[test]
fn weak_passphrase_is_refused() {
    let mut storage = controller();
    let policy = PassphrasePolicy { min_length: 8 };
    let refused = new_account_with(
        Either::Left((account("main", "short"),)),
        KdfDepthLevel::Normal,
        policy,
        &[1u8; 32],
        &[0u8; 32],
        &[0u8; 16],
        &mut storage,
    );
    assert!(matches!(refused, Err(ServiceError::WeakPassphrase)));
    assert!(listed(&storage, true).is_empty());
    let refused = new_account(
        Either::Left((account("main", "short"),)),
        KdfDepthLevel::Normal,
        policy,
        &mut storage,
    );
    assert!(matches!(refused, Err(ServiceError::WeakPassphrase)));
    let accepted = new_account(
        Either::Left((account("main", "longer passphrase"),)),
        KdfDepthLevel::Normal,
        policy,
        &mut storage,
    );
    assert!(accepted.is_ok());
    assert_eq!(listed(&storage, true).len(), 1);
}

#[test]
fn what_is_no_key_makes_no_account() {
    let mut storage = controller();
    for secret in [vec![0u8; 32], vec![0xffu8; 32], vec![1u8; 31], vec![]] {
        let refused = new_account_with(
            Either::Left((account("main", "p"),)),
            KdfDepthLevel::Normal,
            NO_POLICY,
            &secret,
            &[0u8; 32],
            &[0u8; 16],
            &mut storage,
        );
        assert!(matches!(refused, Err(ServiceError::NoEntropy)));
    }
    assert!(listed(&storage, true).is_empty());
}

#[test]
fn creation_checks_a_chain_that_is_named() {
    let mut storage = controller();
    let refused = new_account(
        Either::Right((account("main", "p"), CommonAdditional { chain_id: Some(99) })),
        KdfDepthLevel::Normal,
        NO_POLICY,
        &mut storage,
    );
    assert!(matches!(refused, Err(ServiceError::InvalidChainId(99))));
    assert!(listed(&storage, true).is_empty());
}

#[test]
fn accounts_created_one_after_the_other_are_all_listed() {
    let mut storage = controller();
    let mut created = Vec::new();
    for i in 1u8..=6 {
        created.push(create(&mut storage, &[i; 32], &format!("a{}", i), "p"));
    }
    let mut expected = created.clone();
    expected.sort();
    expected.dedup();
    assert_eq!(expected.len(), 6);
    assert_eq!(listed(&storage, false), expected);
}

#[test]
fn hide_and_unhide() {
    let mut storage = controller();
    let a = create(&mut storage, &[1u8; 32], "a", "p");
    let b = create(&mut storage, &[2u8; 32], "b", "p");
    let mut both = vec![a.clone(), b.clone()];
    both.sort();

    assert!(hide_account(selected(&a), &mut storage).unwrap());
    assert_eq!(listed(&storage, false), vec![b.clone()]);
    assert_eq!(listed(&storage, true), both);
    assert!(hide_account(selected(&a), &mut storage).unwrap());
    assert_eq!(listed(&storage, false), vec![b.clone()]);
    let shown = list_accounts(
        Either::Right(ListAccountsAdditional {
            chain_id: None,
            show_hidden: true,
            hd_path: None,
        }),
        &storage,
    )
    .unwrap();
    assert_eq!(
        shown.iter().map(|x| x.is_hidden).collect::<Vec<_>>(),
        both.iter().map(|x| *x == a).collect::<Vec<_>>()
    );

    assert!(unhide_account(selected(&a), &mut storage).unwrap());
    assert_eq!(listed(&storage, false), both);
    assert!(unhide_account(selected(&a), &mut storage).unwrap());
    assert_eq!(listed(&storage, false), both);
}

#[test]
fn hiding_fails_on_what_is_malformed_or_missing() {
    let mut storage = controller();
    create(&mut storage, &[1u8; 32], "a", "p");
    match hide_account(selected("0x12"), &mut storage) {
        Err(ServiceError::InvalidDataFormat(field)) => assert_eq!(field, "address"),
        other => panic!("unexpected {:?}", other),
    }
    match unhide_account(selected(KEY_ADDRESS), &mut storage) {
        Err(ServiceError::NotFound(text)) => assert_eq!(text, KEY_ADDRESS),
        other => panic!("unexpected {:?}", other),
    }
    let refused = hide_account(
        Either::Right((
            SelectedAccount {
                address: KEY_ADDRESS.to_string(),
            },
            CommonAdditional { chain_id: Some(0) },
        )),
        &mut storage,
    );
    assert!(matches!(refused, Err(ServiceError::InvalidChainId(0))));
    assert_eq!(listed(&storage, false).len(), 1);
}

#[test]
fn update_changes_name_and_description_only() {
    let mut storage = controller();
    let secret = from_hex(KEY).unwrap();
    let address = create(&mut storage, &secret, "old", "p1");
    hide_account(selected(&address), &mut storage).unwrap();
    let update = |name: &str, description: &str, storage: &mut StorageController| {
        update_account(
            Either::Left((UpdateAccountAccount {
                address: address.clone(),
                name: name.to_string(),
                description: description.to_string(),
            },)),
            storage,
        )
    };
    assert!(update("new", "changed", &mut storage).unwrap());
    let keyfile = storage
        .keyfile_storage
        .get(&Address::parse(&address).unwrap())
        .unwrap();
    assert_eq!(keyfile.name, "new");
    assert_eq!(keyfile.description, "changed");
    assert!(keyfile.hidden);
    assert_eq!(unlock(&storage, &keyfile.address, "p1").unwrap().1, secret);

    assert!(update("", "again", &mut storage).unwrap());
    let keyfile = storage.keyfile_storage.get(&keyfile.address).unwrap();
    assert_eq!((keyfile.name.as_str(), keyfile.description.as_str()), ("new", "again"));
    assert!(update("third", "", &mut storage).unwrap());
    let keyfile = storage.keyfile_storage.get(&keyfile.address).unwrap();
    assert_eq!((keyfile.name.as_str(), keyfile.description.as_str()), ("third", "again"));
}

#[test]
fn update_fails_on_what_is_malformed_or_missing() {
    let mut storage = controller();
    let update = |address: &str, chain_id, storage: &mut StorageController| {
        update_account(
            Either::Right((
                UpdateAccountAccount {
                    address: address.to_string(),
                    name: "n".to_string(),
                    description: "d".to_string(),
                },
                CommonAdditional { chain_id },
            )),
            storage,
        )
    };
    assert!(matches!(
        update("nonsense", None, &mut storage),
        Err(ServiceError::InvalidDataFormat(field)) if field == "address"
    ));
    assert!(matches!(
        update(KEY_ADDRESS, Some(61), &mut storage),
        Err(ServiceError::NotFound(text)) if text == KEY_ADDRESS
    ));
    assert!(matches!(
        update(KEY_ADDRESS, Some(7), &mut storage),
        Err(ServiceError::InvalidChainId(7))
    ));
}

#[test]
fn import_overwrites_by_address() {
    let mut storage = controller();
    let mut first = hardware_keyfile(1);
    first.name = "first".to_string();
    let mut second = hardware_keyfile(1);
    second.name = "second".to_string();
    second.hidden = true;
    assert_eq!(
        import_account(Either::Left((first,)), &mut storage).unwrap(),
        "0x0000000000000000000000000000000000000001"
    );
    import_account(
        Either::Right((second, CommonAdditional { chain_id: Some(1) })),
        &mut storage,
    )
    .unwrap();
    let all = list_accounts(
        Either::Right(ListAccountsAdditional {
            chain_id: None,
            show_hidden: true,
            hd_path: None,
        }),
        &storage,
    )
    .unwrap();
    assert_eq!(all.len(), 1);
    assert_eq!(all[0].name, "second");
    assert!(all[0].is_hidden);
    let refused = import_account(
        Either::Right((hardware_keyfile(2), CommonAdditional { chain_id: Some(9) })),
        &mut storage,
    );
    assert!(matches!(refused, Err(ServiceError::InvalidChainId(9))));
    assert_eq!(listed(&storage, true).len(), 1);
}

#[test]
fn export_needs_the_passphrase() {
    let mut storage = controller();
    let secret = from_hex(KEY).unwrap();
    let address = create(&mut storage, &secret, "main", "p1");
    let export = |address: &str, passphrase: &str| {
        export_account(
            Either::Left((ExportAccountAccount {
                address: address.to_string(),
                passphrase: passphrase.to_string(),
            },)),
            &storage,
        )
    };
    let keyfile = export(&address, "p1").unwrap();
    assert_eq!(keyfile.address.to_hex(), address);
    assert_eq!(keyfile.name, "main");
    match &keyfile.material {
        KeyMaterial::Local { crypto, kdf } => {
            assert_ne!(crypto.ciphertext, secret);
            assert_eq!(decrypt(crypto, kdf, "p1").unwrap(), secret);
        }
        KeyMaterial::Hardware => panic!("no envelope"),
    }
    assert!(matches!(error_of(export(&address, "p2")), ServiceError::InvalidPassphrase));
    assert!(matches!(
        error_of(export("0x0000000000000000000000000000000000000001", "p1")),
        ServiceError::NotFound(_)
    ));
    assert!(matches!(
        error_of(export("0x1", "p1")),
        ServiceError::InvalidDataFormat(field) if field == "address"
    ));
    assert_eq!(listed(&storage, false), vec![address]);
}

#[test]
fn export_of_a_hardware_account_is_refused() {
    let mut storage = controller();
    let address = import_account(Either::Left((hardware_keyfile(1),)), &mut storage).unwrap();
    let refused = export_account(
        Either::Left((ExportAccountAccount {
            address,
            passphrase: String::new(),
        },)),
        &storage,
    );
    assert!(matches!(error_of(refused), ServiceError::NoKeyMaterial(_)));
}

#[test]
fn rekey_keeps_the_key() {
    let mut storage = controller();
    let secret = from_hex(KEY).unwrap();
    let address = create(&mut storage, &secret, "main", "old");
    hide_account(selected(&address), &mut storage).unwrap();
    let parsed = Address::parse(&address).unwrap();
    let shaken = shake_account_with(
        Either::Left((ShakeAccountAccount {
            address: address.clone(),
            old_passphrase: "old".to_string(),
            new_passphrase: "new".to_string(),
        },)),
        KdfDepthLevel::High,
        &[3u8; 32],
        &[4u8; 16],
        &mut storage,
    );
    assert!(shaken.unwrap());
    assert!(matches!(
        error_of(unlock(&storage, &parsed, "old")),
        ServiceError::InvalidPassphrase
    ));
    let (keyfile, key) = unlock(&storage, &parsed, "new").unwrap();
    assert_eq!(key, secret);
    assert_eq!(keyfile.name, "main");
    assert_eq!(keyfile.description, "about main");
    assert!(keyfile.hidden);
    match &keyfile.material {
        KeyMaterial::Local { crypto, kdf } => {
            assert_eq!(kdf.kdf, Kdf::Scrypt { log_n: 14, r: 8, p: 1 });
            assert_eq!(kdf.salt, vec![3u8; 32]);
            assert_eq!(crypto.iv, vec![4u8; 16]);
        }
        KeyMaterial::Hardware => panic!("no envelope"),
    }
}

#[test]
fn rekey_with_fresh_salt() {
    let mut storage = controller();
    let secret = from_hex(KEY).unwrap();
    let address = create(&mut storage, &secret, "main", "old");
    let parsed = Address::parse(&address).unwrap();
    let shake = |old: &str, new: &str, storage: &mut StorageController| {
        shake_account(
            Either::Left((ShakeAccountAccount {
                address: address.clone(),
                old_passphrase: old.to_string(),
                new_passphrase: new.to_string(),
            },)),
            KdfDepthLevel::Normal,
            storage,
        )
    };
    assert!(matches!(
        error_of(shake("wrong", "new", &mut storage)),
        ServiceError::InvalidPassphrase
    ));
    assert_eq!(unlock(&storage, &parsed, "old").unwrap().1, secret);
    assert!(shake("old", "new", &mut storage).unwrap());
    assert_eq!(unlock(&storage, &parsed, "new").unwrap().1, secret);
    assert!(matches!(
        error_of(unlock(&storage, &parsed, "old")),
        ServiceError::InvalidPassphrase
    ));
    match &storage.keyfile_storage.get(&parsed).unwrap().material {
        KeyMaterial::Local { crypto, kdf } => {
            assert_ne!(kdf.salt, vec![7u8; 32]);
            assert_ne!(crypto.iv, vec![9u8; 16]);
        }
        KeyMaterial::Hardware => panic!("no envelope"),
    }
    assert!(shake("new", "new", &mut storage).unwrap());
    assert_eq!(unlock(&storage, &parsed, "new").unwrap().1, secret);
}

#[test]
fn rekey_fails_on_what_is_malformed_missing_or_external() {
    let mut storage = controller();
    let hardware = import_account(Either::Left((hardware_keyfile(1),)), &mut storage).unwrap();
    let shake = |address: &str, chain_id, storage: &mut StorageController| {
        shake_account(
            Either::Right((
                ShakeAccountAccount {
                    address: address.to_string(),
                    old_passphrase: "old".to_string(),
                    new_passphrase: "new".to_string(),
                },
                CommonAdditional { chain_id },
            )),
            KdfDepthLevel::Normal,
            storage,
        )
    };
    assert!(matches!(
        error_of(shake(&hardware, None, &mut storage)),
        ServiceError::NoKeyMaterial(text) if text == hardware
    ));
    assert!(matches!(
        error_of(shake(KEY_ADDRESS, None, &mut storage)),
        ServiceError::NotFound(text) if text == KEY_ADDRESS
    ));
    assert!(matches!(
        error_of(shake("zz", None, &mut storage)),
        ServiceError::InvalidDataFormat(field) if field == "address"
    ));
    assert!(matches!(
        error_of(shake(KEY_ADDRESS, Some(1000), &mut storage)),
        ServiceError::InvalidChainId(1000)
    ));
}

#[test]
fn unlock_gives_keyfile_and_key() {
    let mut storage = controller();
    let secret = from_hex(KEY).unwrap();
    let address = Address::parse(&create(&mut storage, &secret, "main", "p1")).unwrap();
    let (keyfile, key) = unlock(&storage, &address, "p1").unwrap();
    assert_eq!(key, secret);
    assert_eq!(keyfile.address.0, address.0);
    assert_eq!(key_address(&key).unwrap().0, address.0);
    assert!(matches!(
        error_of(unlock(&storage, &address, "P1")),
        ServiceError::InvalidPassphrase
    ));
    assert!(matches!(
        error_of(unlock(&storage, &Address([0u8; 20]), "p1")),
        ServiceError::NotFound(text) if text == "0x0000000000000000000000000000000000000000"
    ));
}

#[test]
fn message_signature_is_the_same_for_the_same_message() {
    let mut storage = controller();
    let address = create(&mut storage, &from_hex(KEY).unwrap(), "main", "p1");
    let signed = |message: &str| {
        sign(
            SignParams::Left(address.clone(), message.to_string(), "p1".to_string()),
            &storage,
        )
        .unwrap()
    };
    assert_eq!(signed("hello"), signed("hello"));
    assert_ne!(signed("hello"), signed("hello "));
    assert!(signed("").starts_with("0x"));
    let v = &signed("hello")[130..];
    assert!(v == "1b" || v == "1c");
}

#[test]
fn message_signing_fails_on_what_is_malformed_or_missing() {
    let mut storage = controller();
    create(&mut storage, &from_hex(KEY).unwrap(), "main", "p1");
    let signed = |address: &str, chain_id| {
        sign(
            SignParams::Right((
                address.to_string(),
                "hello".to_string(),
                "p1".to_string(),
                CommonAdditional { chain_id },
            )),
            &storage,
        )
    };
    assert!(signed(KEY_ADDRESS, None).is_ok());
    assert!(signed(KEY_ADDRESS, Some(62)).is_ok());
    assert!(matches!(
        error_of(signed(KEY_ADDRESS, Some(64))),
        ServiceError::InvalidChainId(64)
    ));
    assert!(matches!(
        error_of(signed("0x", None)),
        ServiceError::InvalidDataFormat(field) if field == "address"
    ));
    assert!(matches!(
        error_of(signed("0x3535353535353535353535353535353535353535", None)),
        ServiceError::NotFound(_)
    ));
}

#[test]
fn key_that_is_none_does_not_sign() {
    let mut storage = controller();
    let secret = from_hex(KEY).unwrap();
    let address = create(&mut storage, &secret, "main", "p1");
    let parsed = Address::parse(&address).unwrap();
    let mut keyfile = storage.keyfile_storage.get(&parsed).unwrap();
    let (crypto, kdf) = jade_signer::keystore::cipher::encrypt_with(
        &[0u8; 32],
        "p1",
        KdfDepthLevel::Normal,
        &[1u8; 32],
        &[1u8; 16],
    );
    keyfile.material = KeyMaterial::Local { crypto, kdf };
    import_account(Either::Left((keyfile,)), &mut storage).unwrap();
    let refused = sign(
        SignParams::Left(address.clone(), "hello".to_string(), "p1".to_string()),
        &storage,
    );
    assert!(matches!(
        error_of(refused),
        ServiceError::StoreError(text) if text == "Invalid key material"
    ));
    let refused = sign_transaction(
        SignTxParams::Right((
            transfer(&address),
            "p1".to_string(),
            SignTxAdditional {
                chain_id: Some(1),
                hd_path: None,
            },
        )),
        &storage,
    );
    assert!(matches!(
        error_of(refused),
        ServiceError::StoreError(text) if text == "Invalid key material"
    ));
}

#[test]
fn transaction_of_the_standard() {
    let (from, transaction) = Transaction::parse(&transfer(KEY_ADDRESS)).unwrap();
    assert_eq!(from.to_hex(), KEY_ADDRESS);
    assert_eq!(transaction.nonce, vec![9]);
    assert_eq!(transaction.gas_limit, vec![0x52, 0x08]);
    assert_eq!(transaction.gas_price, vec![0x04, 0xa8, 0x17, 0xc8, 0x00]);
    assert_eq!(transaction.to.unwrap().0, [0x35u8; 20]);
    assert_eq!(
        transaction.value,
        vec![0x0d, 0xe0, 0xb6, 0xb3, 0xa7, 0x64, 0x00, 0x00]
    );
    assert!(transaction.data.is_empty());
    let payload = transaction.to_signing_payload(1);
    assert_eq!(
        jade_signer::hex::to_hex(&payload),
        "ec098504a817c800825208943535353535353535353535353535353535353535880de0b6b3a764000080018080"
    );
    assert_eq!(
        jade_signer::hex::to_hex(&sha3::Keccak256::digest(&payload)),
        "daf5a779ae972f972197303d7b574746c7ef83eadac0f2791ad23db92e4c8e53"
    );
}

#[test]
fn signed_transaction_of_the_standard() {
    let mut storage = controller();
    let address = create(&mut storage, &from_hex(KEY).unwrap(), "main", "p1");
    let signed = sign_transaction(
        SignTxParams::Right((
            transfer(&address),
            "p1".to_string(),
            SignTxAdditional {
                chain_id: Some(1),
                hd_path: None,
            },
        )),
        &storage,
    )
    .unwrap();
    assert_eq!(
        signed,
        "0xf86c098504a817c800825208943535353535353535353535353535353535353535880de0b6b3a7640000\
         8025a028ef61340bd939bc2195fe537567866003e1a15d3c71ff63e1590620aa636276a067cbe9d8997f\
         761aecb703304b3800ccf555c9f3dc64214b297fb1966a3b6d83"
    );
    let bytes = from_hex(&signed[2..]).unwrap();
    let parsed = k256::ecdsa::Signature::from_scalars(
        <[u8; 32]>::try_from(&bytes[45..77]).unwrap(),
        <[u8; 32]>::try_from(&bytes[78..110]).unwrap(),
    )
    .unwrap();
    let digest =
        from_hex("daf5a779ae972f972197303d7b574746c7ef83eadac0f2791ad23db92e4c8e53").unwrap();
    let recovery = k256::ecdsa::RecoveryId::from_byte(bytes[43] - 37).unwrap();
    let signer =
        k256::ecdsa::VerifyingKey::recover_from_prehash(&digest, &parsed, recovery).unwrap();
    let point = signer.to_encoded_point(false);
    let hashed = sha3::Keccak256::digest(&point.as_bytes()[1..]);
    assert_eq!(jade_signer::hex::to_hex(&hashed[12..]), KEY_ADDRESS[2..]);
}

#[test]
fn signed_transaction_binds_the_chain() {
    let mut storage = controller();
    let address = create(&mut storage, &from_hex(KEY).unwrap(), "main", "p1");
    let signed = |chain_id: usize| {
        sign_transaction(
            SignTxParams::Right((
                transfer(&address),
                "p1".to_string(),
                SignTxAdditional {
                    chain_id: Some(chain_id),
                    hd_path: None,
                },
            )),
            &storage,
        )
        .unwrap()
    };
    let on_61 = from_hex(&signed(61)[2..]).unwrap();
    let on_62 = from_hex(&signed(62)[2..]).unwrap();
    assert_ne!(on_61, on_62);
    let fields = 2 + 41;
    assert_eq!(on_61[..fields], on_62[..fields]);
    assert_eq!(on_61[0], 0xf8);
    assert_eq!(on_61[fields], 0x81);
    let v = on_61[fields + 1] as usize;
    assert!(v == 35 + 2 * 61 || v == 36 + 2 * 61);
    let v = on_62[fields + 1] as usize;
    assert!(v == 35 + 2 * 62 || v == 36 + 2 * 62);
    assert_eq!(signed(61), signed(61));
}

#[test]
fn transaction_signing_needs_a_chain() {
    let mut storage = controller();
    let address = create(&mut storage, &from_hex(KEY).unwrap(), "main", "p1");
    let bare = sign_transaction(
        SignTxParams::Left((transfer(&address), "p1".to_string()), String::new()),
        &storage,
    );
    assert!(matches!(error_of(bare), ServiceError::MissingChainId));
    let signed = |chain_id| {
        sign_transaction(
            SignTxParams::Right((
                transfer(&address),
                "p1".to_string(),
                SignTxAdditional {
                    chain_id,
                    hd_path: None,
                },
            )),
            &storage,
        )
    };
    assert!(matches!(error_of(signed(None)), ServiceError::MissingChainId));
    assert!(matches!(
        error_of(signed(Some(0))),
        ServiceError::InvalidChainId(0)
    ));
    assert!(matches!(
        error_of(signed(Some(317))),
        ServiceError::InvalidChainId(317)
    ));
    assert!(signed(Some(61)).is_ok());
}

#[test]
fn transaction_signing_names_the_malformed_field() {
    let mut storage = controller();
    let address = create(&mut storage, &from_hex(KEY).unwrap(), "main", "p1");
    let signed = |tx: SignTxTransaction, passphrase: &str| {
        sign_transaction(
            SignTxParams::Right((
                tx,
                passphrase.to_string(),
                SignTxAdditional {
                    chain_id: Some(61),
                    hd_path: None,
                },
            )),
            &storage,
        )
    };
    let field_of = |r: Result<String, ServiceError>| match r {
        Err(ServiceError::InvalidDataFormat(field)) => field,
        other => panic!("unexpected {:?}", other),
    };
    let mut tx = transfer(&address);
    tx.from = "0x00".to_string();
    tx.to = "zz".to_string();
    assert_eq!(field_of(signed(tx, "p1")), "from");
    let mut tx = transfer(&address);
    tx.to = "0x35".to_string();
    tx.gas = "g".to_string();
    assert_eq!(field_of(signed(tx, "p1")), "to");
    let mut tx = transfer(&address);
    tx.gas = "0x10000000000000000".to_string();
    assert_eq!(field_of(signed(tx, "p1")), "gas");
    let mut tx = transfer(&address);
    tx.gas_price = format!("0x1{}", "0".repeat(64));
    assert_eq!(field_of(signed(tx, "p1")), "gasPrice");
    let mut tx = transfer(&address);
    tx.value = "ten".to_string();
    assert_eq!(field_of(signed(tx, "p1")), "value");
    let mut tx = transfer(&address);
    tx.data = "0x1".to_string();
    assert_eq!(field_of(signed(tx, "p1")), "data");
    let mut tx = transfer(&address);
    tx.nonce = "0x".to_string() + &"f".repeat(17);
    assert_eq!(field_of(signed(tx, "p1")), "nonce");

    let mut tx = transfer(&address);
    tx.to = String::new();
    tx.data = "0x6060".to_string();
    assert!(signed(tx, "p1").is_ok());
    assert!(matches!(
        error_of(signed(transfer(&address), "p2")),
        ServiceError::InvalidPassphrase
    ));
    assert!(matches!(
        error_of(signed(transfer("0x3535353535353535353535353535353535353535"), "p1")),
        ServiceError::NotFound(_)
    ));
}
