use std::convert::TryFrom;

use bitcoin::address::NetworkUnchecked;
use payjoin::uri::{
    DeserializationState, EndpointUrl, InternalPjParseError, OhttpKeyConfig, ParamKind, Payjoin,
    PjParseError,
};
use payjoin::uri_ext::{Bip21Uri, PayjoinUri, UriExt};

// The BIP21 glue: `bip21` drives the payjoin parameter state while it parses a URI.

#[derive(Default)]
struct State(DeserializationState);

struct Extras(Payjoin);

impl bip21::de::DeserializationError for Extras {
    type Error = PjParseError;
}

impl<'a> bip21::de::DeserializeParams<'a> for Extras {
    type DeserializationState = State;
}

impl<'a> bip21::de::DeserializationState<'a> for State {
    type Value = Extras;

    fn is_param_known(&self, key: &str) -> bool {
        self.0.is_param_known(key)
    }

    fn deserialize_temp(
        &mut self,
        key: &str,
        value: bip21::Param<'_>,
    ) -> Result<bip21::de::ParamKind, PjParseError> {
        match self.0.deserialize_temp(key, value)? {
            ParamKind::Known => Ok(bip21::de::ParamKind::Known),
            ParamKind::Unknown => Ok(bip21::de::ParamKind::Unknown),
        }
    }

    fn finalize(self) -> Result<Extras, PjParseError> {
        self.0.finalize().map(Extras)
    }
}

type Parsed<'a> = Bip21Uri<bitcoin::Address<NetworkUnchecked>, bip21::Param<'a>, Payjoin>;

fn parse(s: &str) -> Result<Parsed<'_>, PjParseError> {
    let uri = bip21::Uri::<'_, NetworkUnchecked, Extras>::try_from(s)
        .map_err(PjParseError::from_bip21)?;
    let mut parts = Bip21Uri::with_extras(uri.address, uri.extras.0);
    parts.amount = uri.amount;
    parts.label = uri.label;
    parts.message = uri.message;
    Ok(parts)
}

fn kind_is_multiple(e: &PjParseError, param: &str) -> bool {
    e.to_string() == format!("Multiple instances of parameter '{}'", param)
}

#[test]
fn test_short() {
    assert!(parse("").is_err());
    assert!(parse("bitcoin").is_err());
    assert!(parse("bitcoin:").is_err());
}

#[test]
fn test_valid_url() {
    let uri = "bitcoin:12c6DSiU4Rq3P4ZxziKxzrL5LmMBrzjrJX?amount=1&pj=this_is_NOT_a_validURL";
    assert!(parse(uri).is_err(), "pj is not a valid url");
}

#[test]
fn test_missing_amount() {
    let uri = "bitcoin:12c6DSiU4Rq3P4ZxziKxzrL5LmMBrzjrJX?pj=https://testnet.demo.btcpayserver.org/BTC/pj";
    assert!(parse(uri).is_ok(), "missing amount should be ok");
}

#[test]
fn test_unencrypted() {
    let uri = "bitcoin:12c6DSiU4Rq3P4ZxziKxzrL5LmMBrzjrJX?amount=1&pj=http://example.com";
    assert!(parse(uri).is_err(), "unencrypted connection");

    let uri = "bitcoin:12c6DSiU4Rq3P4ZxziKxzrL5LmMBrzjrJX?amount=1&pj=ftp://foo.onion";
    assert!(parse(uri).is_err(), "unencrypted connection");
}

#[test]
fn test_valid_uris() {
    let https = "https://example.com";
    let onion = "http://vjdpwgybvubne5hda6v4c5iaeeevhge6jvo3w2cl6eocbwwvwxp7b7qd.onion";

    let base58 = "bitcoin:12c6DSiU4Rq3P4ZxziKxzrL5LmMBrzjrJX";
    let bech32_upper = "BITCOIN:TB1Q6D3A2W975YNY0ASUVD9A67NER4NKS58FF0Q8G4";
    let bech32_lower = "bitcoin:tb1q6d3a2w975yny0asuvd9a67ner4nks58ff0q8g4";

    for address in [base58, bech32_upper, bech32_lower].iter() {
        for pj in [https, onion].iter() {
            let uri = format!("{}?amount=1&pj={}", address, pj);
            assert!(parse(&*uri).is_ok());
        }
    }
}

#[test]
fn test_unsupported() {
    assert!(!parse("bitcoin:12c6DSiU4Rq3P4ZxziKxzrL5LmMBrzjrJX").unwrap().extras.pj_is_supported());
}

// Reading the payjoin parameters directly.

#[test]
fn reads_pj_and_pjos() {
    let mut state = DeserializationState::new();
    assert!(matches!(
        state.deserialize_temp("pj", bip21::Param::from("https://example.com/pj")),
        Ok(ParamKind::Known)
    ));
    assert!(matches!(state.deserialize_temp("pjos", bip21::Param::from("1")), Ok(ParamKind::Known)));
    assert!(matches!(state.deserialize_temp("other", bip21::Param::from("x")), Ok(ParamKind::Unknown)));
    let payjoin = state.finalize().unwrap();
    assert!(matches!(payjoin, Payjoin::Supported(_)));
    assert!(payjoin.pj_is_supported());
    assert!(payjoin.disable_output_substitution());
    assert_eq!(payjoin.endpoint().unwrap().as_str(), "https://example.com/pj");
    assert_eq!(payjoin.endpoint().unwrap().scheme(), "https");
    assert_eq!(payjoin.endpoint().unwrap().domain(), Some("example.com"));
}

#[test]
fn pjos_defaults_to_allowing_substitution() {
    let mut state = DeserializationState::new();
    state.deserialize_temp("pj", bip21::Param::from("https://example.com")).unwrap();
    let payjoin = state.finalize().unwrap();
    assert!(!payjoin.disable_output_substitution());
    let mut state = DeserializationState::new();
    state.deserialize_temp("pjos", bip21::Param::from("0")).unwrap();
    state.deserialize_temp("pj", bip21::Param::from("https://example.com")).unwrap();
    assert!(!state.finalize().unwrap().disable_output_substitution());
}

#[test]
fn second_pj_or_pjos_is_refused() {
    let mut state = DeserializationState::new();
    state.deserialize_temp("pj", bip21::Param::from("https://example.com")).unwrap();
    let e = state.deserialize_temp("pj", bip21::Param::from("https://other.com")).unwrap_err();
    assert!(kind_is_multiple(&e, "pj"));
    state.deserialize_temp("pjos", bip21::Param::from("0")).unwrap();
    let e = state.deserialize_temp("pjos", bip21::Param::from("1")).unwrap_err();
    assert!(kind_is_multiple(&e, "pjos"));
    // The first values stay.
    let payjoin = state.finalize().unwrap();
    assert_eq!(payjoin.endpoint().unwrap().as_str(), "https://example.com/");
    assert!(!payjoin.disable_output_substitution());
}

#[test]
fn bad_pjos_is_refused() {
    let mut state = DeserializationState::new();
    let e = state.deserialize_temp("pjos", bip21::Param::from("2")).unwrap_err();
    assert_eq!(e.to_string(), "Bad pjos parameter");
    let e = state.deserialize_pjos(Ok("true".to_string())).unwrap_err();
    assert_eq!(e.to_string(), "Bad pjos parameter");
}

#[test]
fn pjos_without_pj_is_missing_endpoint() {
    let mut state = DeserializationState::new();
    state.deserialize_temp("pjos", bip21::Param::from("1")).unwrap();
    let e = state.finalize().unwrap_err();
    assert_eq!(e.to_string(), "Missing payjoin endpoint");
}

#[test]
fn no_params_is_unsupported() {
    let state = DeserializationState::new();
    let payjoin = state.finalize().unwrap();
    assert!(!payjoin.pj_is_supported());
    assert!(payjoin.endpoint().is_none());
    assert!(!payjoin.disable_output_substitution());
    assert!(payjoin.serialize_params().is_empty());
}

#[test]
fn unsecure_endpoints_are_refused() {
    for endpoint in ["http://example.com", "ftp://foo.onion", "http://onion", "http://example.com.onion.org"] {
        let mut state = DeserializationState::new();
        state.deserialize_temp("pj", bip21::Param::from(endpoint)).unwrap();
        let e = state.finalize().unwrap_err();
        assert_eq!(e.to_string(), "Endpoint scheme is not secure (https or onion)");
    }
}

#[test]
fn bad_endpoint_is_refused() {
    let mut state = DeserializationState::new();
    let e = state.deserialize_temp("pj", bip21::Param::from("not a url")).unwrap_err();
    assert_eq!(e.to_string(), "Endpoint is not valid");
}

#[test]
fn endpoint_parse_reads_scheme_and_domain() {
    let url = EndpointUrl::parse("HTTP://Foo.Onion/path").unwrap();
    assert_eq!(url.scheme(), "http");
    assert_eq!(url.domain(), Some("foo.onion"));
    assert_eq!(url.as_str(), "http://foo.onion/path");
    assert!(url.is_secure());
    let ip = EndpointUrl::parse("https://127.0.0.1").unwrap();
    assert_eq!(ip.domain(), None);
    assert!(ip.is_secure());
    assert!(EndpointUrl::parse("nonsense").is_err());
}

#[test]
fn is_param_known_names_pj_and_pjos() {
    let state = DeserializationState::new();
    assert!(state.is_param_known("pj"));
    assert!(state.is_param_known("pjos"));
    assert!(!state.is_param_known("ohttp"));
    assert!(!state.is_param_known("amount"));
}

#[test]
fn serialize_params_writes_pj_and_pjos() {
    let mut state = DeserializationState::new();
    state.deserialize_temp("pj", bip21::Param::from("https://example.com/pj")).unwrap();
    state.deserialize_temp("pjos", bip21::Param::from("1")).unwrap();
    let payjoin = state.finalize().unwrap();
    let params = payjoin.serialize_params();
    assert_eq!(params, vec![("pj", "https://example.com/pj".to_string()), ("pjos", "1".to_string())]);
    // What is written reads back the same.
    let mut again = DeserializationState::new();
    for (key, value) in params.iter() {
        again.deserialize_temp(key, bip21::Param::from(value.as_str())).unwrap();
    }
    let payjoin2 = again.finalize().unwrap();
    assert_eq!(payjoin2.endpoint().unwrap().as_str(), "https://example.com/pj");
    assert!(payjoin2.disable_output_substitution());
}

#[test]
fn check_pj_supported_splits_uris() {
    let uri = parse("bitcoin:12c6DSiU4Rq3P4ZxziKxzrL5LmMBrzjrJX?amount=1&label=shop&pj=https://example.com")
        .unwrap();
    let pj = uri.check_pj_supported().ok().unwrap();
    assert_eq!(pj.extras.endpoint().as_str(), "https://example.com/");
    assert!(!pj.extras.is_output_substitution_disabled());
    assert_eq!(pj.amount, Some(bitcoin::Amount::from_sat(100_000_000)));
    assert!(pj.label.is_some());

    let plain = parse("bitcoin:12c6DSiU4Rq3P4ZxziKxzrL5LmMBrzjrJX?amount=2").unwrap();
    let rest = plain.check_pj_supported().err().unwrap();
    assert_eq!(rest.amount, Some(bitcoin::Amount::from_sat(200_000_000)));
}

#[test]
fn payjoin_uri_new_keeps_fields() {
    let uri = parse("bitcoin:12c6DSiU4Rq3P4ZxziKxzrL5LmMBrzjrJX?amount=1&pj=https://example.com").unwrap();
    let made = PayjoinUri::new(uri.address, uri.extras, uri.amount, uri.label, uri.message);
    assert!(made.inner.extras.pj_is_supported());
    assert_eq!(made.inner.amount, Some(bitcoin::Amount::from_sat(100_000_000)));
}

#[test]
fn bip21_uri_errors_become_uri_parse_errors() {
    let e = parse("bitcoin:").unwrap_err();
    assert!(e.to_string().starts_with("Uri parse error: "));
    let e = parse("http:12c6DSiU4Rq3P4ZxziKxzrL5LmMBrzjrJX").unwrap_err();
    assert_eq!(e.to_string(), "Uri parse error: the URI has invalid scheme");
}

#[test]
fn parse_error_texts() {
    assert_eq!(PjParseError::from(InternalPjParseError::BadPjOs).to_string(), "Bad pjos parameter");
    assert_eq!(
        PjParseError::from(InternalPjParseError::MultipleParams("pj")).to_string(),
        "Multiple instances of parameter 'pj'"
    );
    assert_eq!(
        PjParseError::from(InternalPjParseError::MissingEndpoint).to_string(),
        "Missing payjoin endpoint"
    );
    assert_eq!(
        PjParseError::from(InternalPjParseError::UnsecureEndpoint).to_string(),
        "Endpoint scheme is not secure (https or onion)"
    );
}

// OHTTP key configurations.

fn sample_config_bytes() -> Vec<u8> {
    let suite = ohttp::SymmetricSuite::new(ohttp::hpke::Kdf::HkdfSha256, ohttp::hpke::Aead::ChaCha20Poly1305);
    let config = ohttp::KeyConfig::new(1, ohttp::hpke::Kem::X25519Sha256, vec![suite]).unwrap();
    config.encode().unwrap()
}

fn base64_of(bytes: &[u8]) -> String {
    bitcoin::base64::encode_config(bytes, bitcoin::base64::URL_SAFE)
}

fn sample_config_base64() -> String {
    base64_of(&sample_config_bytes())
}

#[test]
fn ohttp_with_plain_http_is_v2_only() {
    let b64 = sample_config_base64();
    let mut state = DeserializationState::new();
    assert!(matches!(state.deserialize_temp("ohttp", bip21::Param::from(b64.as_str())), Ok(ParamKind::Known)));
    state.deserialize_temp("pj", bip21::Param::from("http://example.com")).unwrap();
    let payjoin = state.finalize().unwrap();
    assert!(matches!(payjoin, Payjoin::V2Only(_)));
    assert!(payjoin.pj_is_supported());
    assert!(payjoin.ohttp_config().is_some());
    let params = payjoin.serialize_params();
    assert_eq!(params.len(), 3);
    assert_eq!(params[2], ("ohttp", b64.clone()));
}

#[test]
fn ohttp_with_https_is_supported() {
    let bytes = sample_config_bytes();
    let b64 = base64_of(&bytes);
    let mut state = DeserializationState::new();
    state.deserialize_temp("pj", bip21::Param::from("https://example.com")).unwrap();
    state.deserialize_temp("ohttp", bip21::Param::from(b64.as_str())).unwrap();
    let payjoin = state.finalize().unwrap();
    assert!(matches!(payjoin, Payjoin::Supported(_)));
    assert_eq!(payjoin.ohttp_config().unwrap().encode().unwrap(), bytes);
}

#[test]
fn ohttp_does_not_make_other_schemes_usable() {
    let b64 = sample_config_base64();
    let mut state = DeserializationState::new();
    state.deserialize_temp("ohttp", bip21::Param::from(b64.as_str())).unwrap();
    state.deserialize_temp("pj", bip21::Param::from("ftp://example.com")).unwrap();
    let e = state.finalize().unwrap_err();
    assert_eq!(e.to_string(), "Endpoint scheme is not secure (https or onion)");
    // Without an endpoint, an ohttp parameter alone does not make payjoin supported.
    let mut state = DeserializationState::new();
    state.deserialize_temp("ohttp", bip21::Param::from(b64.as_str())).unwrap();
    assert!(!state.finalize().unwrap().pj_is_supported());
}

#[test]
fn bad_ohttp_is_refused() {
    let mut state = DeserializationState::new();
    let e = state.deserialize_temp("ohttp", bip21::Param::from("not base64!")).unwrap_err();
    assert_eq!(e.to_string(), "ohttp config is not valid base64");
    let e = state.deserialize_temp("ohttp", bip21::Param::from("AAAA")).unwrap_err();
    assert_eq!(e.to_string(), "ohttp config is not valid");
    let b64 = sample_config_base64();
    state.deserialize_temp("ohttp", bip21::Param::from(b64.as_str())).unwrap();
    let e = state.deserialize_temp("ohttp", bip21::Param::from(b64.as_str())).unwrap_err();
    assert!(kind_is_multiple(&e, "ohttp"));
}

#[test]
fn key_config_decode_and_base64() {
    let bytes = sample_config_bytes();
    let config = OhttpKeyConfig::decode(&bytes).unwrap();
    assert_eq!(config.to_base64().unwrap(), base64_of(&bytes));
    assert!(OhttpKeyConfig::decode(&[1, 2, 3]).is_err());
}

#[test]
fn ohttp_uri_round_trip() {
    let uri = format!(
        "bitcoin:12c6DSiU4Rq3P4ZxziKxzrL5LmMBrzjrJX?pj=http://example.com&ohttp={}",
        sample_config_base64()
    );
    let parsed = parse(&uri).unwrap();
    assert!(matches!(parsed.extras, Payjoin::V2Only(_)));
}

#[test]
fn cloned_extras_keep_everything() {
    let bytes = sample_config_bytes();
    let b64 = base64_of(&bytes);
    let mut state = DeserializationState::new();
    state.deserialize_temp("pj", bip21::Param::from("http://example.com")).unwrap();
    state.deserialize_temp("pjos", bip21::Param::from("1")).unwrap();
    state.deserialize_temp("ohttp", bip21::Param::from(b64.as_str())).unwrap();
    let payjoin = state.finalize().unwrap();
    let copy = payjoin.clone();
    assert!(matches!(copy, Payjoin::V2Only(_)));
    assert_eq!(copy.serialize_params(), payjoin.serialize_params());
    assert_eq!(copy.ohttp_config().unwrap().encode().unwrap(), bytes);
}

#[test]
fn decoded_values_are_read_as_stated() {
    let bad_utf8 = || std::str::from_utf8(&[0xffu8]).unwrap_err();
    let mut state = DeserializationState::new();
    let e = state.deserialize_decoded("pj", Err(bad_utf8())).unwrap_err();
    assert_eq!(e.to_string(), "Endpoint is not valid UTF-8");
    let e = state.deserialize_decoded("pjos", Err(bad_utf8())).unwrap_err();
    assert_eq!(e.to_string(), "Bad pjos parameter");
    let e = state.deserialize_decoded("ohttp", Err(bad_utf8())).unwrap_err();
    assert_eq!(e.to_string(), "Endpoint is not valid UTF-8");
    let e = state.deserialize_decoded("pj", Ok("not a url".to_string())).unwrap_err();
    assert_eq!(e.to_string(), "Endpoint is not valid");
    let e = state.deserialize_decoded("pjos", Ok("yes".to_string())).unwrap_err();
    assert_eq!(e.to_string(), "Bad pjos parameter");
    let e = state.deserialize_decoded("ohttp", Ok("not base64!".to_string())).unwrap_err();
    assert_eq!(e.to_string(), "ohttp config is not valid base64");
    let e = state.deserialize_decoded("ohttp", Ok("AAAA".to_string())).unwrap_err();
    assert_eq!(e.to_string(), "ohttp config is not valid");
    assert!(matches!(state.deserialize_decoded("amount", Err(bad_utf8())), Ok(ParamKind::Unknown)));
    // Nothing refused was kept: every parameter can still be read once.
    assert!(matches!(state.deserialize_decoded("pj", Ok("https://example.com".to_string())), Ok(ParamKind::Known)));
    assert!(matches!(state.deserialize_decoded("pjos", Ok("1".to_string())), Ok(ParamKind::Known)));
    assert!(matches!(state.deserialize_decoded("ohttp", Ok(sample_config_base64())), Ok(ParamKind::Known)));
    let e = state.deserialize_decoded("pj", Err(bad_utf8())).unwrap_err();
    assert!(kind_is_multiple(&e, "pj"));
    let e = state.deserialize_decoded("pjos", Ok("0".to_string())).unwrap_err();
    assert!(kind_is_multiple(&e, "pjos"));
    let payjoin = state.finalize().unwrap();
    assert!(matches!(payjoin, Payjoin::Supported(_)));
    assert!(payjoin.disable_output_substitution());
}

#[test]
fn cloned_key_config_encodes_the_same() {
    let bytes = sample_config_bytes();
    let config = OhttpKeyConfig::decode(&bytes).unwrap();
    let copy = config.clone();
    assert_eq!(copy.encode().unwrap(), bytes);
    assert_eq!(copy.config().encode().unwrap(), config.config().encode().unwrap());
    assert_eq!(copy.to_base64(), config.to_base64());
}

#[test]
fn with_address_keeps_the_other_fields() {
    let mut uri: Bip21Uri<u32, &str, Payjoin> = Bip21Uri::with_extras(7, Payjoin::Unsupported);
    uri.amount = Some(bitcoin::Amount::from_sat(1000));
    uri.label = Some("label");
    uri.message = Some("message");
    let moved = uri.with_address("checked");
    assert_eq!(moved.address, "checked");
    assert_eq!(moved.amount, Some(bitcoin::Amount::from_sat(1000)));
    assert_eq!(moved.label, Some("label"));
    assert_eq!(moved.message, Some("message"));
    assert!(matches!(moved.extras, Payjoin::Unsupported));
}
