use jade_signer::rpc::common::{
    check_chain_id, check_chain_name, extract_chain_params, resolve_chain, CommonAdditional,
    Either, ListAccountsAdditional, SignParams, SignTxAdditional, SignTxParams,
};
use jade_signer::rpc::error::ServiceError;
use jade_signer::util::{decimal_string, to_chain_id, to_chain_name};

#[test]
fn should_extract_chain_params() {
    let params = CommonAdditional {
        chain_id: Some(61),
    };

    let (name, id) = extract_chain_params(&params).unwrap();
    assert_eq!(id, 61);
    assert_eq!(name, "61");
}

#[test]
fn should_check_empty_chain_params() {
    let params = CommonAdditional { chain_id: None };

    let res = extract_chain_params(&params);
    assert!(res.is_err());
}

#[test]
fn missing_chain_is_its_own_error() {
    let params = CommonAdditional { chain_id: None };
    assert!(matches!(
        extract_chain_params(&params),
        Err(ServiceError::MissingChainId)
    ));
}

#[test]
fn unknown_chain_is_rejected() {
    for id in [0usize, 7, 60, 64, 255, 256, 317, usize::MAX] {
        let params = CommonAdditional { chain_id: Some(id) };
        match extract_chain_params(&params) {
            Err(ServiceError::InvalidChainId(got)) => assert_eq!(got, id),
            other => panic!("unexpected {:?}", other),
        }
    }
}

#[test]
fn chain_table_pairs_names_and_ids() {
    let known: [u8; 12] = [1, 2, 3, 4, 5, 6, 30, 31, 42, 61, 62, 63];
    for id in 0u8..=255 {
        match to_chain_name(id) {
            Some(name) => {
                assert!(known.contains(&id));
                assert_eq!(name, id.to_string());
                assert_eq!(to_chain_id(&name), Some(id));
            }
            None => {
                assert!(!known.contains(&id));
                assert_eq!(to_chain_id(&id.to_string()), None);
            }
        }
    }
}

#[test]
fn chain_names_are_canonical() {
    assert_eq!(to_chain_id("61"), Some(61));
    assert_eq!(to_chain_id("061"), None);
    assert_eq!(to_chain_id("6 1"), None);
    assert_eq!(to_chain_id(""), None);
    assert_eq!(to_chain_id("etc"), None);
    assert_eq!(to_chain_id("610"), None);
    assert_eq!(to_chain_id("+1"), None);
    assert_eq!(to_chain_id("1"), Some(1));
    assert_eq!(to_chain_id("01"), None);
}

#[test]
fn check_chain_name_names_the_input() {
    assert_eq!(check_chain_name("62").unwrap(), 62);
    match check_chain_name("mainnet") {
        Err(ServiceError::InvalidDataFormat(text)) => {
            assert_eq!(text, "Invalid chain name: mainnet")
        }
        other => panic!("unexpected {:?}", other),
    }
}

#[test]
fn check_chain_id_gives_the_name() {
    assert_eq!(check_chain_id(42).unwrap(), "42");
    assert!(matches!(
        check_chain_id(43),
        Err(ServiceError::InvalidChainId(43))
    ));
}

#[test]
fn decimal_string_values() {
    assert_eq!(decimal_string(0), "0");
    assert_eq!(decimal_string(9), "9");
    assert_eq!(decimal_string(10), "10");
    assert_eq!(decimal_string(255), "255");
    assert_eq!(decimal_string(1234567890), "1234567890");
}

#[test]
fn bare_shape_gets_defaults() {
    let params: Either<(String,), (String, ListAccountsAdditional)> =
        Either::Left(("0x00".to_string(),));
    let (first, additional) = params.into_full();
    assert_eq!(first, "0x00");
    assert_eq!(additional.chain_id, None);
    assert!(!additional.show_hidden);
    assert_eq!(additional.hd_path, None);
}

#[test]
fn full_shape_is_kept() {
    let params: Either<(u32,), (u32, ListAccountsAdditional)> = Either::Right((
        7,
        ListAccountsAdditional {
            chain_id: Some(61),
            show_hidden: true,
            hd_path: Some("m/44'".to_string()),
        },
    ));
    let (first, additional) = params.into_full();
    assert_eq!(first, 7);
    assert_eq!(additional.chain_id, Some(61));
    assert!(additional.show_hidden);
    assert_eq!(additional.hd_path.as_deref(), Some("m/44'"));
}

#[test]
fn into_right_of_either() {
    let bare: Either<u8, CommonAdditional> = Either::Left(1);
    assert_eq!(bare.into_right().chain_id, None);
    let full: Either<u8, CommonAdditional> = Either::Right(CommonAdditional { chain_id: Some(3) });
    assert_eq!(full.into_right().chain_id, Some(3));
}

#[test]
fn sign_params_shapes() {
    let bare: SignParams<(String, String, String, CommonAdditional)> =
        SignParams::Left("a".to_string(), "b".to_string(), "c".to_string());
    let (a, b, c, additional) = bare.into_full();
    assert_eq!((a.as_str(), b.as_str(), c.as_str()), ("a", "b", "c"));
    assert_eq!(additional.chain_id, None);

    let full: SignParams<(String, String, String, CommonAdditional)> = SignParams::Right((
        "a".to_string(),
        "b".to_string(),
        "c".to_string(),
        CommonAdditional { chain_id: Some(62) },
    ));
    let (_, _, _, additional) = full.into_full();
    assert_eq!(additional.chain_id, Some(62));

    let bare: SignParams<CommonAdditional> =
        SignParams::Left("a".to_string(), "b".to_string(), "c".to_string());
    assert_eq!(bare.into_right().chain_id, None);
}

#[test]
fn sign_tx_params_shapes() {
    let bare: SignTxParams<(u8, String), (u8, String, SignTxAdditional)> =
        SignTxParams::Left((5, "pass".to_string()), "ignored".to_string());
    let (tx, pass, additional) = bare.into_full();
    assert_eq!(tx, 5);
    assert_eq!(pass, "pass");
    assert_eq!(additional.chain_id, None);
    assert_eq!(additional.hd_path, None);

    let full: SignTxParams<(u8, String), (u8, String, SignTxAdditional)> =
        SignTxParams::Right((
            6,
            "word".to_string(),
            SignTxAdditional {
                chain_id: Some(1),
                hd_path: None,
            },
        ));
    let (tx, pass, additional) = full.into_full();
    assert_eq!((tx, pass.as_str(), additional.chain_id), (6, "word", Some(1)));

    let bare: SignTxParams<u8, SignTxAdditional> = SignTxParams::Left(1, "p".to_string());
    assert_eq!(bare.into_right().chain_id, None);
}

#[test]
fn shapes_are_tried_full_first() {
    let both: Either<u8, u16> = Either::from_shapes(Ok(2), Ok(1)).unwrap();
    assert!(matches!(both, Either::Right(2)));
    let full: Either<u8, u16> = Either::from_shapes(Ok(2), Err("not bare".to_string())).unwrap();
    assert!(matches!(full, Either::Right(2)));
    let legacy: Either<u8, u16> = Either::from_shapes(Err("not full".to_string()), Ok(1)).unwrap();
    assert!(matches!(legacy, Either::Left(1)));
    let neither: Result<Either<u8, u16>, ServiceError> =
        Either::from_shapes(Err("invalid length 1".to_string()), Err("missing field `address`".to_string()));
    match neither {
        Err(ServiceError::InvalidDataFormat(text)) => {
            assert_eq!(text, "invalid length 1; missing field `address`")
        }
        other => panic!("unexpected {:?}", other.is_ok()),
    }
}

#[test]
fn chain_is_resolved_from_the_identifier_alone() {
    assert!(matches!(resolve_chain(None), Err(ServiceError::MissingChainId)));
    let (name, id) = resolve_chain(Some(61)).unwrap();
    assert_eq!((name.as_str(), id), ("61", 61));
    let (name, id) = resolve_chain(Some(1)).unwrap();
    assert_eq!((name.as_str(), id), ("1", 1));
    for id in 0usize..1024 {
        let known = [1usize, 2, 3, 4, 5, 6, 30, 31, 42, 61, 62, 63].contains(&id);
        match resolve_chain(Some(id)) {
            Ok((name, chain)) => {
                assert!(known);
                assert_eq!(chain as usize, id);
                assert_eq!(name, id.to_string());
            }
            Err(ServiceError::InvalidChainId(got)) => {
                assert!(!known);
                assert_eq!(got, id);
            }
            Err(other) => panic!("unexpected {:?}", other),
        }
    }
    assert!(matches!(
        resolve_chain(Some(256 + 61)),
        Err(ServiceError::InvalidChainId(317))
    ));
    assert!(matches!(
        resolve_chain(Some(usize::MAX)),
        Err(ServiceError::InvalidChainId(usize::MAX))
    ));
}
