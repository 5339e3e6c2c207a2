use jade_signer::hex::from_hex;
use jade_signer::keystore::{KdfDepthLevel, PassphrasePolicy};
use jade_signer::rpc::common::{CommonAdditional, Either, NewAccountAccount, SignTypedDataParams};
use jade_signer::rpc::error::ServiceError;
use jade_signer::rpc::serves::new_account_with;
use jade_signer::rpc::signing::{sign_typed_data, sign_typed_text};
use jade_signer::storage::{StorageController, StorageType};
use jade_signer::typed_data::{admits, contains_bytes};

const COW: &str = "c85ef7d79691fe79573b1a7064c19c1a9819ebdbd1faaab1a8ec92344438aaf4";
const COW_ADDRESS: &str = "0xcd2a3d9f938e13cd947ec05abc7fe734df8dd826";
const MAIL: &str = "{\"types\":{\"EIP712Domain\":[{\"name\":\"name\",\"type\":\"string\"},\
{\"name\":\"version\",\"type\":\"string\"},{\"name\":\"chainId\",\"type\":\"uint256\"},\
{\"name\":\"verifyingContract\",\"type\":\"address\"}],\"Person\":[{\"name\":\"name\",\
\"type\":\"string\"},{\"name\":\"wallet\",\"type\":\"address\"}],\"Mail\":[{\"name\":\"from\",\
\"type\":\"Person\"},{\"name\":\"to\",\"type\":\"Person\"},{\"name\":\"contents\",\
\"type\":\"string\"}]},\"primaryType\":\"Mail\",\"domain\":{\"name\":\"Ether Mail\",\
\"version\":\"1\",\"chainId\":1,\"verifyingContract\":\
\"0xCcCCccccCCCCcCCCCCCcCcCccCcCCCcCcccccccC\"},\"message\":{\"from\":{\"name\":\"Cow\",\
\"wallet\":\"0xCD2a3d9F938E13CD947Ec05AbC7FE734Df8DD826\"},\"to\":{\"name\":\"Bob\",\
\"wallet\":\"0xbBbBBBBbbBBBbbbBbbBbbbbBBbBbbbbBbBbbBBbB\"},\"contents\":\"Hello, Bob!\"}}";
const MAIL_SIGNATURE: &str = "0x4355c47d63924e8a72e509b65029052eb6c299d53a04e167c5775fd466751c9d\
07299936d304c153f6443dfa05f40ff007d72911b6f72307f996231605b915621c";

fn cow_storage() -> StorageController {
    let mut storage =
        StorageController::new("/data", StorageType::Filesystem, Ok(Vec::new())).unwrap();
    let address = new_account_with(
        Either::Left((NewAccountAccount {
            name: "cow".to_string(),
            description: String::new(),
            passphrase: "moo".to_string(),
        },)),
        KdfDepthLevel::Normal,
        PassphrasePolicy { min_length: 0 },
        &from_hex(COW).unwrap(),
        &[1u8; 32],
        &[2u8; 16],
        &mut storage,
    )
    .unwrap();
    assert_eq!(address, COW_ADDRESS);
    storage
}

#[test]
fn typed_data_of_the_standard() {
    let storage = cow_storage();
    let signed = sign_typed_text(
        COW_ADDRESS,
        MAIL,
        "moo",
        &CommonAdditional { chain_id: None },
        &storage,
    )
    .unwrap();
    assert_eq!(signed, MAIL_SIGNATURE);
}

#[test]
fn typed_data_as_a_value() {
    let storage = cow_storage();
    let document: serde_json::Value = serde_json::from_str(MAIL).unwrap();
    let signed = sign_typed_data(
        SignTypedDataParams::Left(COW_ADDRESS.to_string(), document.clone(), "moo".to_string()),
        &storage,
    )
    .unwrap();
    assert_eq!(signed, MAIL_SIGNATURE);
    let signed = sign_typed_data(
        SignTypedDataParams::Right((
            COW_ADDRESS.to_string(),
            document.clone(),
            "moo".to_string(),
            CommonAdditional { chain_id: Some(1) },
        )),
        &storage,
    )
    .unwrap();
    assert_eq!(signed, MAIL_SIGNATURE);
    let refused = sign_typed_data(
        SignTypedDataParams::Right((
            COW_ADDRESS.to_string(),
            document,
            "moo".to_string(),
            CommonAdditional { chain_id: Some(8) },
        )),
        &storage,
    );
    assert!(matches!(refused, Err(ServiceError::InvalidChainId(8))));
}

#[test]
fn typed_data_depends_on_the_message() {
    let storage = cow_storage();
    let other = MAIL.replace("Hello, Bob!", "Hello, Bob?");
    let signed = sign_typed_text(
        COW_ADDRESS,
        &other,
        "moo",
        &CommonAdditional { chain_id: None },
        &storage,
    )
    .unwrap();
    assert_eq!(signed.len(), MAIL_SIGNATURE.len());
    assert_ne!(signed, MAIL_SIGNATURE);
}

#[test]
fn what_is_no_typed_data_is_refused() {
    let storage = cow_storage();
    for document in ["", "{}", "[1,2]", "{\"types\":{}}", "not json", &MAIL.replace("Person", "Persons\"")] {
        let refused = sign_typed_text(
            COW_ADDRESS,
            document,
            "moo",
            &CommonAdditional { chain_id: None },
            &storage,
        );
        match refused {
            Err(ServiceError::InvalidDataFormat(field)) => assert_eq!(field, "data"),
            other => panic!("unexpected {:?} for {}", other, document),
        }
    }
    let missing_type = MAIL.replace("\"Person\":[", "\"Human\":[");
    let refused = sign_typed_text(
        COW_ADDRESS,
        &missing_type,
        "moo",
        &CommonAdditional { chain_id: None },
        &storage,
    );
    assert!(matches!(refused, Err(ServiceError::InvalidDataFormat(field)) if field == "data"));
}

#[test]
fn typed_data_needs_account_and_passphrase() {
    let storage = cow_storage();
    let signed = |address: &str, passphrase: &str| {
        sign_typed_text(
            address,
            MAIL,
            passphrase,
            &CommonAdditional { chain_id: Some(61) },
            &storage,
        )
    };
    assert!(matches!(
        signed(COW_ADDRESS, "baa"),
        Err(ServiceError::InvalidPassphrase)
    ));
    assert!(matches!(
        signed("0x0000000000000000000000000000000000000001", "moo"),
        Err(ServiceError::NotFound(_))
    ));
    assert!(matches!(
        signed("cow", "moo"),
        Err(ServiceError::InvalidDataFormat(field)) if field == "address"
    ));
}

fn chain_of_types(types: usize, fields: usize) -> String {
    let mut text = String::from("{\"types\":{");
    for i in 0..types {
        if i > 0 {
            text.push(',');
        }
        text.push_str(&format!("\"T{}\":[", i));
        for f in 0..fields {
            if f > 0 {
                text.push(',');
            }
            let of = if i + 1 < types {
                format!("T{}", i + 1)
            } else {
                "uint256".to_string()
            };
            text.push_str(&format!("{{\"name\":\"f{}\",\"type\":\"{}\"}}", f, of));
        }
        text.push(']');
    }
    text.push_str("},\"primaryType\":\"T0\"}");
    text
}

#[test]
fn document_of_few_types_is_hashed() {
    assert!(admits(MAIL));
    let document = chain_of_types(11, 3);
    assert_eq!(document.matches(|c| c == '{' || c == '[').count(), 46);
    assert!(admits(&document));
    let storage = cow_storage();
    let refused = sign_typed_text(
        COW_ADDRESS,
        &document,
        "moo",
        &CommonAdditional { chain_id: None },
        &storage,
    );
    assert!(matches!(refused, Err(ServiceError::InvalidDataFormat(field)) if field == "data"));
    let flat = chain_of_types(1, 1).replace("\"primaryType\"", "\"message\":{\"f0\":5},\"primaryType\"");
    assert!(admits(&flat));
    let signed = sign_typed_text(
        COW_ADDRESS,
        &flat,
        "moo",
        &CommonAdditional { chain_id: None },
        &storage,
    );
    assert!(signed.is_ok());
}

#[test]
fn document_of_many_types_is_not_hashed() {
    let at_bound = chain_of_types(2, 22);
    assert_eq!(at_bound.matches(|c| c == '{' || c == '[').count(), 48);
    assert!(admits(&at_bound));
    let over = chain_of_types(2, 22).replace("\"primaryType\"", "\"message\":{},\"primaryType\"");
    assert_eq!(over.matches(|c| c == '{' || c == '[').count(), 49);
    assert!(!admits(&over));
    let deep = chain_of_types(40, 3);
    assert!(!admits(&deep));
    let storage = cow_storage();
    for document in [over, deep] {
        let refused = sign_typed_text(
            COW_ADDRESS,
            &document,
            "moo",
            &CommonAdditional { chain_id: None },
            &storage,
        );
        assert!(matches!(refused, Err(ServiceError::InvalidDataFormat(field)) if field == "data"));
    }
}

#[test]
fn document_must_be_an_object_of_bounded_length() {
    assert!(!admits(""));
    assert!(!admits(" {}"));
    assert!(!admits("[]"));
    assert!(!admits("\"{}\""));
    assert!(admits("{}"));
    let long = format!("{{\"a\":\"{}\"}}", "x".repeat(65536));
    assert!(!admits(&long));
    let fits = format!("{{\"a\":\"{}\"}}", "x".repeat(65536 - 8));
    assert_eq!(fits.len(), 65536);
    assert!(admits(&fits));
    let storage = cow_storage();
    let stringified = serde_json::Value::from(MAIL).to_string();
    let refused = sign_typed_text(
        COW_ADDRESS,
        &stringified,
        "moo",
        &CommonAdditional { chain_id: None },
        &storage,
    );
    assert!(matches!(refused, Err(ServiceError::InvalidDataFormat(field)) if field == "data"));
}

#[test]
fn document_that_names_a_tuple_is_not_hashed() {
    let storage = cow_storage();
    let tuple = MAIL.replace("\"type\":\"Person\"", "\"type\":\"(Person,Person)\"");
    let word = MAIL.replace("\"type\":\"Person\"", "\"type\":\"tuple(Person,Person)\"");
    let own = "{\"types\":{\"A\":[{\"name\":\"a\",\"type\":\"(A,A)\"}]},\"primaryType\":\"A\"}";
    let primary = MAIL.replace("\"primaryType\":\"Mail\"", "\"primaryType\":\"(Mail,Mail)\"");
    let numbered = MAIL.replace("\"type\":\"Person\"", "\"type\":\"\\u0028Person,Person)\"");
    assert!(numbered.contains("\\u0028"));
    for document in [tuple.as_str(), word.as_str(), own, primary.as_str(), numbered.as_str()] {
        assert!(!admits(document));
        let refused = sign_typed_text(
            COW_ADDRESS,
            document,
            "moo",
            &CommonAdditional { chain_id: None },
            &storage,
        );
        assert!(matches!(refused, Err(ServiceError::InvalidDataFormat(field)) if field == "data"));
    }
    let inside = MAIL.replace("Hello, Bob!", "Hello (again), Bob!");
    assert!(admits(&inside));
    let signed = sign_typed_text(
        COW_ADDRESS,
        &inside,
        "moo",
        &CommonAdditional { chain_id: None },
        &storage,
    );
    assert!(signed.is_ok());
    assert!(!admits(&MAIL.replace("Hello, Bob!", "(hello)")));
}

#[test]
fn patterns_are_found_anywhere() {
    assert!(contains_bytes(b"abc", b"abc"));
    assert!(contains_bytes(b"abc", b"a"));
    assert!(contains_bytes(b"abc", b"bc"));
    assert!(contains_bytes(b"aab", b"ab"));
    assert!(!contains_bytes(b"abc", b"ac"));
    assert!(!contains_bytes(b"ab", b"abc"));
    assert!(!contains_bytes(b"", b"a"));
}
