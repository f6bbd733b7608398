use payjoin::json::{Json, JsonNumber};
use payjoin::send::causes::{Base64DecodeError, InvalidParityValue, Secp256k1Error, UrlParseError};
use payjoin::send::consensus::{Height, LockTime, Sequence, Time};
use payjoin::send::error::{
    CreateRequestError, CreateRequestErrorSource, InternalCreateRequestError,
    InternalValidationError, ResponseError, ValidationError, ValidationErrorSource, WellKnownError,
};

fn text(s: &str) -> Json {
    Json::String(s.to_string())
}

fn object(members: Vec<(&str, Json)>) -> Json {
    let (keys, values): (Vec<String>, Vec<Json>) =
        members.into_iter().map(|(k, v)| (k.to_string(), v)).unzip();
    Json::Object(keys, values)
}

#[test]
fn test_parse_json() {
    let known_str_error = r#"{"errorCode":"version-unsupported", "message":"custom message here", "supported": [1, 2]}"#;
    let error = ResponseError::parse(known_str_error);
    match error {
        ResponseError::WellKnown(e) => {
            assert_eq!(e.error_code(), "version-unsupported");
            assert_eq!(e.message(), "custom message here");
            assert_eq!(
                e.to_string(),
                "This version of payjoin is not supported. Use version [1, 2]."
            );
        }
        _ => panic!("Expected WellKnown error"),
    };
    let unrecognized_error = r#"{"errorCode":"random", "message":"random"}"#;
    assert_eq!(
        ResponseError::parse(unrecognized_error).to_string(),
        "The receiver sent an unrecognized error."
    );
    let invalid_json_error = object(vec![
        ("err", text("random")),
        ("message", text("This version of payjoin is not supported.")),
    ]);
    assert_eq!(
        ResponseError::from_json(invalid_json_error).to_string(),
        "The receiver sent an invalid response: couldn't decode as PSBT or JSON"
    );
}

#[test]
fn well_known_codes_are_read() {
    for (code, expected) in [
        ("unavailable", "The payjoin endpoint is not available for now."),
        ("not-enough-money", "The receiver added some inputs but could not bump the fee of the payjoin proposal."),
        ("original-psbt-rejected", "The receiver rejected the original PSBT."),
    ] {
        let response = format!(r#"{{"errorCode":"{}","message":"m"}}"#, code);
        match ResponseError::parse(&response) {
            ResponseError::WellKnown(e) => {
                assert_eq!(e.error_code(), code);
                assert_eq!(e.message(), "m");
                assert_eq!(e.to_string(), expected);
            }
            _ => panic!("expected a well-known error"),
        }
    }
}

#[test]
fn unrecognized_keeps_code_and_message() {
    match ResponseError::parse(r#"{"errorCode":"random","message":"text"}"#) {
        ResponseError::Unrecognized(code, message) => {
            assert_eq!(code, "random");
            assert_eq!(message, "text");
        }
        _ => panic!("expected an unrecognized error"),
    }
    // A missing message reads as empty.
    match ResponseError::parse(r#"{"errorCode":"random"}"#) {
        ResponseError::Unrecognized(_, message) => assert_eq!(message, ""),
        _ => panic!("expected an unrecognized error"),
    }
}

#[test]
fn malformed_responses_are_validation_errors() {
    for response in ["not json", "[1, 2]", r#"{"errorCode": 5}"#, r#"{"message":"x"}"#, ""] {
        let e = ResponseError::parse(response);
        assert!(matches!(e, ResponseError::Validation(_)));
        assert_eq!(
            e.to_string(),
            "The receiver sent an invalid response: couldn't decode as PSBT or JSON"
        );
    }
}

#[test]
fn supported_keeps_only_unsigned_integers() {
    let e = ResponseError::parse(
        r#"{"errorCode":"version-unsupported","message":"","supported":[2, -1, 1.5, "3", 10]}"#,
    );
    match &e {
        ResponseError::WellKnown(WellKnownError::VersionUnsupported(_, v)) => assert_eq!(v, &vec![2, 10]),
        _ => panic!("expected version-unsupported"),
    }
    assert!(e.requires_version(&2));
    assert!(e.requires_version(&10));
    assert!(!e.requires_version(&1));
    assert!(!e.requires_version(&3));
    let none = ResponseError::parse(r#"{"errorCode":"version-unsupported","message":""}"#);
    assert_eq!(
        none.to_string(),
        "This version of payjoin is not supported. Use version []."
    );
}

#[test]
fn requires_version_only_for_version_unsupported() {
    let e = ResponseError::parse(r#"{"errorCode":"unavailable","message":"", "supported":[1]}"#);
    assert!(!e.requires_version(&1));
    let e = ResponseError::Unrecognized("version-unsupported".to_string(), String::new());
    assert!(!e.requires_version(&1));
}

#[test]
fn from_json_reads_numbers() {
    let json = object(vec![
        ("errorCode", text("version-unsupported")),
        ("message", text("msg")),
        (
            "supported",
            Json::Array(vec![
                Json::Number(JsonNumber::PosInt(18446744073709551615)),
                Json::Number(JsonNumber::NegInt(-3)),
                Json::Number(JsonNumber::Float),
                Json::Null,
                Json::Bool(true),
                Json::Number(JsonNumber::PosInt(0)),
            ]),
        ),
    ]);
    let e = ResponseError::from_json(json);
    assert_eq!(
        e.to_string(),
        "This version of payjoin is not supported. Use version [18446744073709551615, 0]."
    );
}

#[test]
fn response_error_debug_text() {
    let e = ResponseError::parse(r#"{"errorCode":"unavailable","message":"later"}"#);
    assert_eq!(
        e.debug_string(),
        "Well known error: { \"errorCode\": \"unavailable\",\n                \"message\": \"later\" }"
    );
    let e = ResponseError::Unrecognized("code".to_string(), "msg".to_string());
    assert_eq!(e.debug_string(), "Unrecognized error: { \"errorCode\": \"code\", \"message\": \"msg\" }");
    let e = ResponseError::from(InternalValidationError::Parse);
    assert_eq!(e.debug_string(), "Validation(ValidationError { internal: Parse })");
}

#[test]
fn validation_error_texts() {
    let e = ValidationError::from(InternalValidationError::VersionsDontMatch { proposed: -2, original: 1 });
    assert_eq!(e.to_string(), "proposed transaction version -2 doesn't match the original 1");
    assert_eq!(e.debug_string(), format!("{:?}", e));
    let e = ValidationError::from(InternalValidationError::Inflation);
    assert_eq!(e.to_string(), "proposed transaction is attempting inflation");
    assert_eq!(e.debug_string(), format!("{:?}", e));
    let e = ValidationError::from(InternalValidationError::SenderTxinSequenceChanged {
        proposed: Sequence(5),
        original: Sequence(7),
    });
    assert_eq!(e.to_string(), "proposed transaction sequence number 5 doesn't match the original 7");
    assert_eq!(e.debug_string(), format!("{:?}", e));
    let e = ValidationError::from(InternalValidationError::LockTimesDontMatch {
        proposed: LockTime::from_consensus(100),
        original: LockTime::from_consensus(200),
    });
    assert_eq!(e.to_string(), "proposed transaction lock time 100 doesn't match the original 200");
    assert_eq!(e.debug_string(), format!("{:?}", e));
    assert_eq!(
        e.debug_string(),
        "ValidationError { internal: LockTimesDontMatch { proposed: Blocks(Height(100)), original: Blocks(Height(200)) } }"
    );
    let e = ValidationError::from(InternalValidationError::LockTimesDontMatch {
        proposed: LockTime::from_consensus(1653195600),
        original: LockTime::from_consensus(499_999_999),
    });
    assert_eq!(
        e.to_string(),
        "proposed transaction lock time 1653195600 doesn't match the original 499999999"
    );
    assert_eq!(
        e.debug_string(),
        "ValidationError { internal: LockTimesDontMatch { proposed: Seconds(Time(1653195600)), original: Blocks(Height(499999999)) } }"
    );
    let e = ValidationError::from(InternalValidationError::Io(std::io::Error::new(
        std::io::ErrorKind::Other,
        "boom",
    )));
    assert_eq!(e.to_string(), "couldn't read PSBT: boom");
    assert_eq!(e.debug_string(), format!("{:?}", e));
}

#[test]
fn create_request_error_texts() {
    assert_eq!(
        CreateRequestError::from(InternalCreateRequestError::NoInputs).to_string(),
        "the original transaction has no inputs"
    );
    assert_eq!(
        CreateRequestError::from(InternalCreateRequestError::UriDoesNotSupportPayjoin).to_string(),
        "the URI does not support payjoin"
    );
    assert_eq!(
        CreateRequestError::from(InternalCreateRequestError::Url(UrlParseError::EmptyHost)).to_string(),
        "cannot parse url: EmptyHost"
    );
    assert_eq!(
        CreateRequestError::from(InternalCreateRequestError::Url(UrlParseError::RelativeUrlWithoutBase)).to_string(),
        format!("cannot parse url: {:#?}", url::ParseError::RelativeUrlWithoutBase)
    );
}

#[test]
fn well_known_from_and_message() {
    let e = ResponseError::from(WellKnownError::NotEnoughMoney("short".to_string()));
    match e {
        ResponseError::WellKnown(w) => {
            assert_eq!(w.error_code(), "not-enough-money");
            assert_eq!(w.message(), "short");
        }
        _ => panic!("expected a well-known error"),
    }
}

#[test]
fn error_sources() {
    let e = ValidationError::from(InternalValidationError::Io(std::io::Error::new(
        std::io::ErrorKind::Other,
        "boom",
    )));
    match e.source() {
        Some(ValidationErrorSource::Io(io)) => assert_eq!(io.to_string(), "boom"),
        _ => panic!("expected an I/O source"),
    }
    assert!(ValidationError::from(InternalValidationError::Parse).source().is_none());
    let e = CreateRequestError::from(InternalCreateRequestError::Url(UrlParseError::EmptyHost));
    match e.source() {
        Some(CreateRequestErrorSource::Url(u)) => assert_eq!(u, &UrlParseError::EmptyHost),
        _ => panic!("expected a URL source"),
    }
    assert!(CreateRequestError::from(InternalCreateRequestError::NoOutputs).source().is_none());
    assert!(CreateRequestError::from(InternalCreateRequestError::MissingOhttpConfig).source().is_none());
}

#[test]
fn v2_error_texts() {
    assert_eq!(
        CreateRequestError::from(InternalCreateRequestError::MissingOhttpConfig).to_string(),
        "no ohttp configuration with which to make a v2 request available"
    );
    let decode_error = bitcoin::base64::decode_config("!!", bitcoin::base64::URL_SAFE).unwrap_err();
    let expected = format!("subdirectory is not valid base64 error: {}", decode_error);
    assert_eq!(decode_error, bitcoin::base64::DecodeError::InvalidByte(0, 33));
    let e = CreateRequestError::from(InternalCreateRequestError::SubdirectoryNotBase64(
        Base64DecodeError::InvalidByte(0, 33),
    ));
    assert_eq!(e.to_string(), expected);
    assert_eq!(e.to_string(), "subdirectory is not valid base64 error: Invalid byte 33, offset 0.");
    assert!(matches!(e.source(), Some(CreateRequestErrorSource::SubdirectoryNotBase64(_))));
    let e = CreateRequestError::from(InternalCreateRequestError::SubdirectoryInvalidPubkey(
        Secp256k1Error::InvalidPublicKey,
    ));
    assert_eq!(
        e.to_string(),
        format!("subdirectory does not represent a valid pubkey: {}", bitcoin::secp256k1::Error::InvalidPublicKey)
    );
    let e = ValidationError::from(InternalValidationError::Psbt(bitcoin::psbt::Error::InvalidMagic));
    assert_eq!(e.to_string(), format!("psbt error: {}", bitcoin::psbt::Error::InvalidMagic));
    assert_eq!(e.debug_string(), format!("{:?}", e));
    assert!(matches!(e.source(), Some(ValidationErrorSource::Psbt(_))));
}

#[test]
fn lock_time_and_sequence_texts_match_bitcoin() {
    for n in [0u32, 1, 100, 741521, 499_999_999, 500_000_000, 1653195600, u32::MAX] {
        let ours = LockTime::from_consensus(n);
        let theirs = bitcoin::locktime::absolute::LockTime::from_consensus(n);
        assert_eq!(ours.to_string(), theirs.to_string());
        assert_eq!(ours.debug_string(), format!("{:?}", theirs));
        assert_eq!(ours.debug_string(), format!("{:?}", ours));
        assert_eq!(matches!(ours, LockTime::Blocks(_)), theirs.is_block_height());
        let ours = Sequence(n);
        let theirs = bitcoin::Sequence(n);
        assert_eq!(ours.to_string(), theirs.to_string());
        assert_eq!(ours.debug_string(), format!("{:?}", theirs));
    }
    assert_eq!(LockTime::from_consensus(499_999_999), LockTime::Blocks(Height(499_999_999)));
    assert_eq!(LockTime::from_consensus(500_000_000), LockTime::Seconds(Time(500_000_000)));
    assert_eq!(LockTime::from_consensus(500_000_000).debug_string(), "Seconds(Time(500000000))");
    assert_eq!(Sequence(0xFFFFFFFF).to_string(), "4294967295");
}

#[test]
fn url_error_texts_match_url() {
    let pairs = [
        (UrlParseError::EmptyHost, url::ParseError::EmptyHost),
        (UrlParseError::IdnaError, url::ParseError::IdnaError),
        (UrlParseError::InvalidPort, url::ParseError::InvalidPort),
        (UrlParseError::InvalidIpv4Address, url::ParseError::InvalidIpv4Address),
        (UrlParseError::InvalidIpv6Address, url::ParseError::InvalidIpv6Address),
        (UrlParseError::InvalidDomainCharacter, url::ParseError::InvalidDomainCharacter),
        (UrlParseError::RelativeUrlWithoutBase, url::ParseError::RelativeUrlWithoutBase),
        (UrlParseError::RelativeUrlWithCannotBeABaseBase, url::ParseError::RelativeUrlWithCannotBeABaseBase),
        (UrlParseError::SetHostOnCannotBeABaseUrl, url::ParseError::SetHostOnCannotBeABaseUrl),
        (UrlParseError::Overflow, url::ParseError::Overflow),
    ];
    for (ours, theirs) in pairs {
        assert_eq!(ours.debug_string(), format!("{:#?}", theirs));
        assert_eq!(ours.debug_string(), format!("{:?}", ours));
    }
    assert_eq!(url::Url::parse("/relative").unwrap_err(), url::ParseError::RelativeUrlWithoutBase);
}

#[test]
fn base64_error_texts_match_base64() {
    assert_eq!(
        Base64DecodeError::InvalidByte(7, 255).to_string(),
        bitcoin::base64::DecodeError::InvalidByte(7, 255).to_string()
    );
    assert_eq!(Base64DecodeError::InvalidLength.to_string(), bitcoin::base64::DecodeError::InvalidLength.to_string());
    assert_eq!(
        Base64DecodeError::InvalidLastSymbol(12345, 66).to_string(),
        bitcoin::base64::DecodeError::InvalidLastSymbol(12345, 66).to_string()
    );
    assert_eq!(Base64DecodeError::InvalidLastSymbol(3, 66).to_string(), "Invalid last symbol 66, offset 3.");
}

#[test]
fn secp256k1_error_texts_match_secp256k1() {
    let parity = bitcoin::secp256k1::Parity::from_i32(2).unwrap_err();
    let pairs = [
        (Secp256k1Error::IncorrectSignature, bitcoin::secp256k1::Error::IncorrectSignature),
        (Secp256k1Error::InvalidMessage, bitcoin::secp256k1::Error::InvalidMessage),
        (Secp256k1Error::InvalidPublicKey, bitcoin::secp256k1::Error::InvalidPublicKey),
        (Secp256k1Error::InvalidSignature, bitcoin::secp256k1::Error::InvalidSignature),
        (Secp256k1Error::InvalidSecretKey, bitcoin::secp256k1::Error::InvalidSecretKey),
        (Secp256k1Error::InvalidSharedSecret, bitcoin::secp256k1::Error::InvalidSharedSecret),
        (Secp256k1Error::InvalidRecoveryId, bitcoin::secp256k1::Error::InvalidRecoveryId),
        (Secp256k1Error::InvalidTweak, bitcoin::secp256k1::Error::InvalidTweak),
        (Secp256k1Error::NotEnoughMemory, bitcoin::secp256k1::Error::NotEnoughMemory),
        (Secp256k1Error::InvalidPublicKeySum, bitcoin::secp256k1::Error::InvalidPublicKeySum),
        (Secp256k1Error::InvalidParityValue(InvalidParityValue(2)), bitcoin::secp256k1::Error::InvalidParityValue(parity)),
    ];
    for (ours, theirs) in pairs {
        assert_eq!(ours.to_string(), theirs.to_string());
        assert_eq!(format!("{:?}", ours), format!("{:?}", theirs));
    }
}

#[test]
fn invalid_response_shows_the_validation_text() {
    let prefix = "The receiver sent an invalid response: ";
    let r = ResponseError::from(InternalValidationError::Inflation);
    assert_eq!(
        r.to_string(),
        format!("{}{}", prefix, ValidationError::from(InternalValidationError::Inflation).to_string())
    );
    let r = ResponseError::from(InternalValidationError::SenderTxinSequenceChanged {
        proposed: Sequence(1),
        original: Sequence(2),
    });
    assert_eq!(
        r.to_string(),
        "The receiver sent an invalid response: proposed transaction sequence number 1 doesn't match the original 2"
    );
}
