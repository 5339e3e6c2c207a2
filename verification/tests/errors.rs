use jade_signer::rpc::error::{
    ErrorKind, ServiceError, INTERNAL_ERROR, INVALID_PARAMS, INVALID_PASSPHRASE, NOT_FOUND,
    NO_ENTROPY, NO_KEY_MATERIAL, STORAGE_INIT, STORE_ERROR, WEAK_PASSPHRASE,
};
use jade_signer::rpc::{wrapper, RpcFailure};
use jade_signer::storage::keyfile::KeystoreError;

fn json_error() -> serde_json::Error {
    serde_json::from_str::<serde_json::Value>("{\"a\":").unwrap_err()
}

#[test]
fn keystore_error_texts() {
    assert_eq!(
        KeystoreError::StorageError("disk full".to_string()).message(),
        "KeyFile storage error: disk full"
    );
    assert_eq!(
        KeystoreError::NotFound("0x01".to_string()).message(),
        "Missing KeyFile for address: 0x01"
    );
}

#[test]
fn keystore_error_from_the_engine() {
    match KeystoreError::from_backend("IO error: lock") {
        KeystoreError::StorageError(text) => {
            assert_eq!(text, "Keyfile storage error: IO error: lock")
        }
        other => panic!("unexpected {:?}", other),
    }
}

#[test]
fn keystore_error_from_json() {
    let text = json_error().to_string();
    assert!(!text.is_empty());
    match KeystoreError::from(json_error()) {
        KeystoreError::StorageError(detail) => assert_eq!(detail, text),
        other => panic!("unexpected {:?}", other),
    }
}

#[test]
fn keystore_error_from_io() {
    let err = std::io::Error::new(std::io::ErrorKind::Other, "broken pipe");
    match KeystoreError::from(err) {
        KeystoreError::StorageError(detail) => assert_eq!(detail, "broken pipe"),
        other => panic!("unexpected {:?}", other),
    }
}

#[test]
fn keystore_error_from_utf8() {
    let bad = vec![0xffu8, 0xfe];
    let err = std::str::from_utf8(&bad).unwrap_err();
    let text = err.to_string();
    match KeystoreError::from(err) {
        KeystoreError::StorageError(detail) => assert_eq!(detail, text),
        other => panic!("unexpected {:?}", other),
    }
}

#[test]
fn service_error_from_keystore_error() {
    assert!(matches!(
        ServiceError::from(KeystoreError::NotFound("0x02".to_string())),
        ServiceError::NotFound(text) if text == "0x02"
    ));
    assert!(matches!(
        ServiceError::from(KeystoreError::StorageError("x".to_string())),
        ServiceError::StoreError(text) if text == "x"
    ));
}

#[test]
fn service_error_texts() {
    assert_eq!(ServiceError::MissingChainId.message(), "Required chain id parameter");
    assert_eq!(ServiceError::InvalidChainId(317).message(), "Invalid chain id: 317");
    assert_eq!(ServiceError::InvalidChainId(0).message(), "Invalid chain id: 0");
    assert_eq!(
        ServiceError::InvalidDataFormat("gasPrice".to_string()).message(),
        "Invalid data format: gasPrice"
    );
    assert_eq!(
        ServiceError::NotFound("0x01".to_string()).message(),
        "Missing KeyFile for address: 0x01"
    );
    assert_eq!(ServiceError::InvalidPassphrase.message(), "Invalid passphrase");
    assert_eq!(
        ServiceError::NoKeyMaterial("0x01".to_string()).message(),
        "No local key material for address: 0x01"
    );
    assert_eq!(ServiceError::WeakPassphrase.message(), "Passphrase is too weak");
    assert_eq!(ServiceError::NoEntropy.message(), "Random generator failure");
    assert_eq!(
        ServiceError::StoreError("x".to_string()).message(),
        "KeyFile storage error: x"
    );
    assert_eq!(
        ServiceError::StorageInit("y".to_string()).message(),
        "Storage initialization error: y"
    );
}

#[test]
fn answer_passes_through() {
    let answer = serde_json::Value::from(vec![1, 2, 3]);
    match wrapper(Ok(Ok(answer.clone()))) {
        Ok(got) => assert_eq!(got, answer),
        Err(failure) => panic!("unexpected {:?}", failure),
    }
}

#[test]
fn failure_of_the_operation_is_reported_with_its_text() {
    match wrapper(Err(ServiceError::InvalidPassphrase)) {
        Err(RpcFailure { code, message }) => {
            assert_eq!(code, INVALID_PASSPHRASE);
            assert_eq!(code, -32002);
            assert_eq!(message, "Invalid passphrase");
        }
        Ok(got) => panic!("unexpected {:?}", got),
    }
}

#[test]
fn failure_of_the_value_model_is_reported_with_its_text() {
    let text = json_error().to_string();
    match wrapper(Ok(Err(json_error()))) {
        Err(RpcFailure { code, message }) => {
            assert_eq!(code, INTERNAL_ERROR);
            assert_eq!(code, -32603);
            assert_eq!(message, text);
        }
        Ok(got) => panic!("unexpected {:?}", got),
    }
}

#[test]
fn failure_of_the_store_has_one_code_either_way() {
    let failure = RpcFailure::from(KeystoreError::NotFound("0x03".to_string()));
    assert_eq!(failure.code, NOT_FOUND);
    assert_eq!(failure.message, "Missing KeyFile for address: 0x03");
    match wrapper(Err(ServiceError::from(KeystoreError::NotFound("0x03".to_string())))) {
        Err(same) => {
            assert_eq!(same.code, failure.code);
            assert_eq!(same.message, failure.message);
        }
        Ok(got) => panic!("unexpected {:?}", got),
    }
    let failure = RpcFailure::from(KeystoreError::StorageError("disk".to_string()));
    assert_eq!(failure.code, STORE_ERROR);
    assert_eq!(failure.message, "KeyFile storage error: disk");
    match wrapper(Err(ServiceError::from(KeystoreError::StorageError("disk".to_string())))) {
        Err(same) => {
            assert_eq!(same.code, failure.code);
            assert_eq!(same.message, failure.message);
        }
        Ok(got) => panic!("unexpected {:?}", got),
    }
}

fn every_error() -> Vec<ServiceError> {
    vec![
        ServiceError::MissingChainId,
        ServiceError::InvalidChainId(7),
        ServiceError::InvalidDataFormat("f".to_string()),
        ServiceError::NotFound("a".to_string()),
        ServiceError::InvalidPassphrase,
        ServiceError::NoKeyMaterial("a".to_string()),
        ServiceError::WeakPassphrase,
        ServiceError::NoEntropy,
        ServiceError::StoreError("d".to_string()),
        ServiceError::StorageInit("d".to_string()),
    ]
}

#[test]
fn each_kind_has_its_code() {
    let codes: Vec<i64> = every_error().iter().map(|e| e.code()).collect();
    assert_eq!(
        codes,
        vec![-32602, -32602, -32602, -32001, -32002, -32003, -32004, -32005, -32006, -32007]
    );
    assert_eq!(
        codes,
        vec![
            INVALID_PARAMS,
            INVALID_PARAMS,
            INVALID_PARAMS,
            NOT_FOUND,
            INVALID_PASSPHRASE,
            NO_KEY_MATERIAL,
            WEAK_PASSPHRASE,
            NO_ENTROPY,
            STORE_ERROR,
            STORAGE_INIT
        ]
    );
    let kinds: Vec<ErrorKind> = every_error().iter().map(|e| e.kind()).collect();
    for (a, ka) in every_error().iter().zip(&kinds) {
        assert_eq!(a.code(), ka.code());
        assert_ne!(a.code(), INTERNAL_ERROR);
        for (b, kb) in every_error().iter().zip(&kinds) {
            assert_eq!(a.code() == b.code(), ka == kb);
        }
    }
    assert_eq!(kinds[0], ErrorKind::Validation);
    assert_eq!(kinds[3], ErrorKind::NotFound);
    assert_eq!(kinds[8], ErrorKind::Store);
}

#[test]
fn every_failure_leaves_with_the_code_of_its_kind() {
    for e in every_error() {
        let code = e.code();
        let text = e.message();
        match wrapper(Err(e)) {
            Err(failure) => {
                assert_eq!(failure.code, code);
                assert_eq!(failure.message, text);
            }
            Ok(got) => panic!("unexpected {:?}", got),
        }
    }
}
