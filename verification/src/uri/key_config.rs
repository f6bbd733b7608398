//! OHTTP key configurations, carried in the `ohttp` parameter as URL-safe base64.

use vstd::prelude::*;

verus! {

#[verifier::external_type_specification]
#[verifier::external_body]
pub struct ExKeyConfig(ohttp::KeyConfig);

#[verifier::external_type_specification]
#[verifier::external_body]
pub struct ExOhttpError(ohttp::Error);

#[verifier::external_type_specification]
#[verifier::external_body]
pub struct ExBase64DecodeError(bitcoin::base64::DecodeError);

/// What `ohttp::KeyConfig::decode` makes of the bytes `encoded`; `None` when it
/// refuses them.
pub uninterp spec fn ohttp_decode(encoded: Seq<u8>) -> Option<ohttp::KeyConfig>;

/// Whether `ohttp::KeyConfig::decode` accepts the bytes `encoded`.
pub open spec fn ohttp_decodes(encoded: Seq<u8>) -> bool {
    ohttp_decode(encoded) is Some
}

/// What `ohttp::KeyConfig::encode` writes for the configuration decoded from
/// `encoded`; `None` when it fails.
pub uninterp spec fn ohttp_encoding(encoded: Seq<u8>) -> Option<Seq<u8>>;

/// What `base64::decode_config` with the URL-safe alphabet makes of `text`; `None`
/// when the text is not base64.
pub uninterp spec fn base64_url_decode(text: Seq<char>) -> Option<Seq<u8>>;

/// What `base64::encode_config` with the URL-safe alphabet writes for `bytes`.
pub uninterp spec fn base64_url_encode(bytes: Seq<u8>) -> Seq<char>;

/// An OHTTP key configuration, with the bytes it was decoded from.
#[derive(Debug)]
pub struct OhttpKeyConfig {
    config: ohttp::KeyConfig,
    encoded: Vec<u8>,
}

impl View for OhttpKeyConfig {
    type V = Seq<u8>;

    /// The bytes the configuration was decoded from. They determine the
    /// configuration itself (`key_config`), which is `ohttp_decode` of them.
    closed spec fn view(&self) -> Seq<u8> {
        self.encoded@
    }
}

impl OhttpKeyConfig {
    /// The key configuration held, the one decoded from the bytes `self@`.
    pub closed spec fn key_config(&self) -> ohttp::KeyConfig {
        self.config
    }

    /// The configuration held is the one `ohttp::KeyConfig::decode` makes of the
    /// bytes held.
    #[verifier::type_invariant]
    closed spec fn decoded_from_bytes(&self) -> bool {
        ohttp_decode(self.encoded@) == Some(self.config)
    }
}

/// Decodes a key configuration with `ohttp::KeyConfig::decode`, keeping the bytes.
/// Trusted: the configuration is the one `ohttp_decode` names for the bytes, and it
/// fails exactly when `ohttp_decode` is `None`.
#[verifier::external_body]
pub(crate) fn decode_key_config(encoded: &[u8]) -> (r: Result<OhttpKeyConfig, ohttp::Error>)
    ensures
        match r {
            Ok(c) => ohttp_decode(encoded@) == Some(c.key_config()) && c@ == encoded@,
            Err(_) => ohttp_decode(encoded@) is None,
        },
{
    match ohttp::KeyConfig::decode(encoded) {
        Ok(config) => Ok(OhttpKeyConfig { config, encoded: encoded.to_vec() }),
        Err(e) => Err(e),
    }
}

/// Encodes a key configuration with `ohttp::KeyConfig::encode`.
/// Trusted: the result is the one `ohttp_encoding` names for the bytes the
/// configuration was decoded from.
#[verifier::external_body]
fn encode_key_config(c: &OhttpKeyConfig) -> (r: Result<Vec<u8>, ohttp::Error>)
    ensures
        match r {
            Ok(bytes) => ohttp_encoding(c@) == Some(bytes@),
            Err(_) => ohttp_encoding(c@) is None,
        },
{
    c.config.encode()
}

/// Copies a key configuration with its `Clone`.
/// Trusted: `Clone` is derived for `ohttp::KeyConfig`, whose fields (key id, KEM,
/// symmetric suites, keys) are plain values copied as they are, so the copy is the
/// same configuration.
#[verifier::external_body]
fn clone_key_config(c: &ohttp::KeyConfig) -> (r: ohttp::KeyConfig)
    ensures
        r == *c,
{
    c.clone()
}

/// Decodes URL-safe base64 with `base64::decode_config`.
/// Trusted: the result is the one `base64_url_decode` names for the text.
#[verifier::external_body]
pub(crate) fn decode_base64(text: &str) -> (r: Result<Vec<u8>, bitcoin::base64::DecodeError>)
    ensures
        match r {
            Ok(bytes) => base64_url_decode(text@) == Some(bytes@),
            Err(_) => base64_url_decode(text@) is None,
        },
{
    bitcoin::base64::decode_config(text, bitcoin::base64::URL_SAFE)
}

/// Encodes bytes as URL-safe base64 with `base64::encode_config`.
/// Trusted: the result is the one `base64_url_encode` names for the bytes, and
/// decoding it gives the bytes back.
#[verifier::external_body]
fn encode_base64(bytes: &[u8]) -> (r: String)
    ensures
        r@ == base64_url_encode(bytes@),
        base64_url_decode(r@) == Some(bytes@),
{
    bitcoin::base64::encode_config(bytes, bitcoin::base64::URL_SAFE)
}

impl Clone for OhttpKeyConfig {
    fn clone(&self) -> (r: Self)
        ensures
            r@ == self@,
            r.key_config() == self.key_config(),
    {
        proof {
            use_type_invariant(self);
        }
        OhttpKeyConfig { config: clone_key_config(&self.config), encoded: self.encoded.clone() }
    }
}

impl OhttpKeyConfig {
    /// Decodes a key configuration.
    pub fn decode(encoded: &[u8]) -> (r: Result<OhttpKeyConfig, ohttp::Error>)
        ensures
            match r {
                Ok(c) => ohttp_decode(encoded@) == Some(c.key_config()) && c@ == encoded@,
                Err(_) => ohttp_decode(encoded@) is None,
            },
    {
        decode_key_config(encoded)
    }

    /// The key configuration: the one decoded from the bytes `self@`.
    pub fn config(&self) -> (r: &ohttp::KeyConfig)
        ensures
            *r == self.key_config(),
            ohttp_decode(self@) == Some(*r),
    {
        proof {
            use_type_invariant(self);
        }
        &self.config
    }

    /// The key configuration in its wire format.
    pub fn encode(&self) -> (r: Result<Vec<u8>, ohttp::Error>)
        ensures
            match r {
                Ok(bytes) => ohttp_encoding(self@) == Some(bytes@),
                Err(_) => ohttp_encoding(self@) is None,
            },
    {
        encode_key_config(self)
    }

    /// The key configuration in its wire format, written in URL-safe base64; `None`
    /// when it cannot be encoded.
    pub fn to_base64(&self) -> (r: Option<String>)
        ensures
            match ohttp_encoding(self@) {
                Some(bytes) => r matches Some(s) && s@ == base64_url_encode(bytes)
                    && base64_url_decode(s@) == Some(bytes),
                None => r is None,
            },
    {
        match encode_key_config(self) {
            Ok(bytes) => Some(encode_base64(bytes.as_slice())),
            Err(_) => None,
        }
    }
}

} // verus!
