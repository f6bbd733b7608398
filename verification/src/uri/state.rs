//! Reading the payjoin parameters of a BIP21 URI, one at a time, and deciding at
//! the end what the URI says of payjoin.

use vstd::prelude::*;
use vstd::string::*;

use crate::text::str_eq;
use crate::uri::endpoint::{EndpointUrl, UrlParts, is_secure_endpoint, url_parse};
use crate::uri::error::{InternalPjParseError, PjParseError};
use crate::uri::key_config::{
    OhttpKeyConfig, base64_url_decode, base64_url_encode, decode_base64, decode_key_config,
    ohttp_decode, ohttp_decodes, ohttp_encoding,
};
use crate::uri::params::{
    Payjoin, PayjoinParams, PayjoinView, endpoint_allowed, params_written,
    payjoin_written, pjos_text, spec_params,
};

verus! {

#[verifier::external_type_specification]
#[verifier::external_body]
pub struct ExParam<'a>(bip21::Param<'a>);

/// Whether a BIP21 parameter was recognised.
#[derive(PartialEq, Eq, Structural, Clone, Copy, Debug)]
pub enum ParamKind {
    Known,
    Unknown,
}

/// The parameters `is_param_known` names: `pj` and `pjos`.
pub open spec fn is_known_param(key: Seq<char>) -> bool {
    key == "pj"@ || key == "pjos"@
}

/// The parameters that are read: `pj`, `pjos` and `ohttp`.
pub open spec fn is_read_param(key: Seq<char>) -> bool {
    key == "pj"@ || key == "pjos"@ || key == "ohttp"@
}

/// What `TryFrom<bip21::Param>` for `Cow<str>` makes of a parameter: its decoded
/// text, or `None` when the decoded bytes are not UTF-8.
pub uninterp spec fn param_text(value: bip21::Param<'_>) -> Option<Seq<char>>;

/// Decodes a BIP21 parameter into text, by `TryFrom<bip21::Param>` for `Cow<str>`.
/// Trusted: the result is the text `param_text` names for the parameter, an error
/// exactly when `param_text` is `None`; nothing is said of which `Utf8Error` comes
/// back.
#[verifier::external_body]
fn decode_param(value: bip21::Param<'_>) -> (r: Result<String, core::str::Utf8Error>)
    ensures
        match r {
            Ok(t) => param_text(value) == Some(t@),
            Err(_) => param_text(value) is None,
        },
{
    match std::borrow::Cow::<str>::try_from(value) {
        Ok(text) => Ok(text.into_owned()),
        Err(e) => Err(e),
    }
}

/// The payjoin parameters read so far from a BIP21 URI.
pub struct DeserializationState {
    pj: Option<EndpointUrl>,
    pjos: Option<bool>,
    ohttp: Option<OhttpKeyConfig>,
}

/// What contracts see of the state: the endpoint, the `pjos` flag and the bytes of
/// the OHTTP key configuration read so far.
pub type DeserializationStateView = (Option<UrlParts>, Option<bool>, Option<Seq<u8>>);

impl View for DeserializationState {
    type V = DeserializationStateView;

    closed spec fn view(&self) -> DeserializationStateView {
        (
            match self.pj {
                Some(u) => Some(u@),
                None => None,
            },
            self.pjos,
            match self.ohttp {
                Some(c) => Some(c@),
                None => None,
            },
        )
    }
}

/// What `pjos` says of output substitution: `"1"` disables it, `"0"` allows it.
pub open spec fn spec_pjos(value: Seq<char>) -> Option<bool> {
    if value == "0"@ {
        Some(false)
    } else if value == "1"@ {
        Some(true)
    } else {
        None
    }
}

/// The state in which nothing has been read.
pub open spec fn empty_state() -> DeserializationStateView {
    (None, None, None)
}

/// The state after the first `pj` parameter, decoded to `text`, has been read;
/// `None` when the text is not a URL.
pub open spec fn pj_read(s: DeserializationStateView, text: Seq<char>) -> Option<DeserializationStateView> {
    match url_parse(text) {
        Some(u) => Some((Some(u), s.1, s.2)),
        None => None,
    }
}

/// The state after the first `pjos` parameter, decoded to `text`, has been read;
/// `None` when the text is neither `"0"` nor `"1"`.
pub open spec fn pjos_read(s: DeserializationStateView, text: Seq<char>) -> Option<DeserializationStateView> {
    match spec_pjos(text) {
        Some(b) => Some((s.0, Some(b), s.2)),
        None => None,
    }
}

/// The state after the first `ohttp` parameter, decoded to `text`, has been read;
/// `None` when the text is not base64 of a key configuration.
pub open spec fn ohttp_read(s: DeserializationStateView, text: Seq<char>) -> Option<DeserializationStateView> {
    match base64_url_decode(text) {
        Some(bytes) => if ohttp_decodes(bytes) {
            Some((s.0, s.1, Some(bytes)))
        } else {
            None
        },
        None => None,
    }
}

/// The state after the parameter `key`, decoded to `text`, has been read; `None`
/// when it is refused. `ohttp`, `pj` and `pjos` are read once each, and a second one
/// is refused; other keys leave the state as it is.
pub open spec fn read_param(s: DeserializationStateView, key: Seq<char>, text: Seq<char>) -> Option<DeserializationStateView> {
    if key == "ohttp"@ {
        if s.2 is None { ohttp_read(s, text) } else { None }
    } else if key == "pj"@ {
        if s.0 is None { pj_read(s, text) } else { None }
    } else if key == "pjos"@ {
        if s.1 is None { pjos_read(s, text) } else { None }
    } else {
        Some(s)
    }
}

/// The three parameters that are read have different names.
proof fn lemma_param_keys_differ()
    ensures
        "pj"@ != "pjos"@,
        "pj"@ != "ohttp"@,
        "pjos"@ != "ohttp"@,
{
    reveal_strlit("pj");
    reveal_strlit("pjos");
    reveal_strlit("ohttp");
    assert("pj"@.len() != "pjos"@.len());
    assert("pj"@.len() != "ohttp"@.len());
    assert("pjos"@[0] != "ohttp"@[0]);
}

/// Whether `value` is a decoding whose text is `text`: the text itself, or an error
/// when there is none.
pub open spec fn decodes_as(value: Result<String, core::str::Utf8Error>, text: Option<Seq<char>>) -> bool {
    match value {
        Ok(t) => text == Some(t@),
        Err(_) => text is None,
    }
}

/// Whether the parameter `key` is read and has been read already in `s`.
pub open spec fn slot_taken(s: DeserializationStateView, key: Seq<char>) -> bool {
    (key == "ohttp"@ && s.2 is Some) || (key == "pj"@ && s.0 is Some) || (key == "pjos"@ && s.1 is Some)
}

/// Whether `kind` is the error for the first `key` parameter whose decoded text
/// `text` is refused: a `pj` that is not a URL, a `pjos` that is neither `"0"`
/// nor `"1"`, an `ohttp` that is not base64, or base64 of no key configuration.
pub open spec fn refused_text_error(key: Seq<char>, text: Seq<char>, kind: InternalPjParseError) -> bool {
    if key == "pj"@ {
        kind is BadEndpoint
    } else if key == "pjos"@ {
        kind is BadPjOs
    } else if base64_url_decode(text) is None {
        kind is NotBase64
    } else {
        kind is BadOhttp
    }
}

/// Whether reading the parameter `key`, whose value decoded to `value`, in state
/// `s` answers `r` and leaves state `t`.
///
/// Keys other than `ohttp`, `pj` and `pjos` are `Unknown` and change nothing. A
/// second `ohttp`, `pj` or `pjos` is refused as a repeated parameter. A first one
/// is `Known` and read exactly when its value is text that `read_param` accepts;
/// otherwise it is refused, as not UTF-8 (for `pjos`, as a bad `pjos`) or as the
/// text's own error, and the state is unchanged.
pub open spec fn reads_decoded(
    s: DeserializationStateView,
    key: Seq<char>,
    value: Result<String, core::str::Utf8Error>,
    r: Result<ParamKind, PjParseError>,
    t: DeserializationStateView,
) -> bool {
    if !is_read_param(key) {
        r == Ok::<ParamKind, PjParseError>(ParamKind::Unknown) && t == s
    } else if slot_taken(s, key) {
        (r matches Err(err) && (err.kind() matches InternalPjParseError::MultipleParams(p) && p@ == key)) && t == s
    } else {
        match value {
            Err(e) => t == s && (r matches Err(err) && if key == "pjos"@ {
                err.kind() is BadPjOs
            } else {
                err.kind() == InternalPjParseError::NotUtf8(e)
            }),
            Ok(text) => match read_param(s, key, text@) {
                Some(next) => r == Ok::<ParamKind, PjParseError>(ParamKind::Known) && t == next,
                None => t == s && (r matches Err(err) && refused_text_error(key, text@, err.kind())),
            },
        }
    }
}

/// The state after the parameters `params`, decoded, have been read in order; `None`
/// when one of them is refused.
pub open spec fn read_params(s: DeserializationStateView, params: Seq<(Seq<char>, Seq<char>)>) -> Option<DeserializationStateView>
    decreases params.len(),
{
    if params.len() == 0 {
        Some(s)
    } else {
        match read_param(s, params[0].0, params[0].1) {
            Some(next) => read_params(next, params.drop_first()),
            None => None,
        }
    }
}

/// What the parameters read say of payjoin once all are read; `None` when they are
/// refused.
///
/// Without `pj` and `pjos` the URI does not support payjoin; `pjos` without `pj`
/// is refused. An endpoint over HTTPS, or over HTTP to an onion service, supports
/// payjoin; one over plain HTTP does only through OHTTP, when there is a key
/// configuration; any other is refused. Output substitution is allowed unless
/// `pjos` was `1`.
pub open spec fn finalized(s: DeserializationStateView) -> Option<PayjoinView> {
    match s {
        (None, None, _) => Some(PayjoinView::Unsupported),
        (None, Some(_), _) => None,
        (Some(u), pjos, ohttp) => {
            let params = (u, pjos == Some(true), ohttp);
            if is_secure_endpoint(u) {
                Some(PayjoinView::Supported(params))
            } else if u.1 == "http"@ && ohttp is Some {
                Some(PayjoinView::V2Only(params))
            } else {
                None
            }
        },
    }
}

impl Default for DeserializationState {
    fn default() -> (r: Self)
        ensures
            r@ == empty_state(),
    {
        DeserializationState { pj: None, pjos: None, ohttp: None }
    }
}

impl DeserializationState {
    /// A state in which nothing has been read.
    pub fn new() -> (r: Self)
        ensures
            r@ == empty_state(),
    {
        DeserializationState { pj: None, pjos: None, ohttp: None }
    }

    /// Whether `param` is one of the payjoin parameters `pj` and `pjos`.
    pub fn is_param_known(&self, param: &str) -> (r: bool)
        ensures
            r == is_known_param(param@),
    {
        str_eq(param, "pj") || str_eq(param, "pjos")
    }

    /// Reads the first `pj` parameter, given its decoded text.
    pub fn deserialize_pj(&mut self, value: Result<String, core::str::Utf8Error>) -> (r: Result<
        ParamKind,
        PjParseError,
    >)
        requires
            old(self)@.0 is None,
        ensures
            match value {
                Err(e) => r matches Err(err) && err.kind() == InternalPjParseError::NotUtf8(e)
                    && final(self)@ == old(self)@,
                Ok(text) => match pj_read(old(self)@, text@) {
                    Some(next) => r == Ok::<ParamKind, PjParseError>(ParamKind::Known)
                        && final(self)@ == next,
                    None => r matches Err(err) && err.kind() is BadEndpoint
                        && final(self)@ == old(self)@,
                },
            },
    {
        match value {
            Err(e) => Err(PjParseError::from(InternalPjParseError::NotUtf8(e))),
            Ok(text) => match EndpointUrl::parse(text.as_str()) {
                Ok(url) => {
                    self.pj = Some(url);
                    Ok(ParamKind::Known)
                },
                Err(e) => Err(PjParseError::from(InternalPjParseError::BadEndpoint(e))),
            },
        }
    }

    /// Reads the first `pjos` parameter, given its decoded text.
    pub fn deserialize_pjos(&mut self, value: Result<String, core::str::Utf8Error>) -> (r: Result<
        ParamKind,
        PjParseError,
    >)
        requires
            old(self)@.1 is None,
        ensures
            match value {
                Ok(text) if pjos_read(old(self)@, text@) is Some => r == Ok::<ParamKind, PjParseError>(
                    ParamKind::Known,
                ) && Some(final(self)@) == pjos_read(old(self)@, text@),
                _ => r matches Err(err) && err.kind() is BadPjOs && final(self)@ == old(self)@,
            },
    {
        match value {
            Err(_) => Err(PjParseError::from(InternalPjParseError::BadPjOs)),
            Ok(text) => {
                if str_eq(text.as_str(), "0") {
                    self.pjos = Some(false);
                    Ok(ParamKind::Known)
                } else if str_eq(text.as_str(), "1") {
                    self.pjos = Some(true);
                    Ok(ParamKind::Known)
                } else {
                    Err(PjParseError::from(InternalPjParseError::BadPjOs))
                }
            },
        }
    }

    /// Reads the first `ohttp` parameter, given its decoded text.
    pub fn deserialize_ohttp(&mut self, value: Result<String, core::str::Utf8Error>) -> (r: Result<
        ParamKind,
        PjParseError,
    >)
        requires
            old(self)@.2 is None,
        ensures
            match value {
                Err(e) => r matches Err(err) && err.kind() == InternalPjParseError::NotUtf8(e)
                    && final(self)@ == old(self)@,
                Ok(text) => match ohttp_read(old(self)@, text@) {
                    Some(next) => r == Ok::<ParamKind, PjParseError>(ParamKind::Known)
                        && final(self)@ == next,
                    None => r matches Err(err) && (if base64_url_decode(text@) is None {
                        err.kind() is NotBase64
                    } else {
                        err.kind() is BadOhttp
                    }) && final(self)@ == old(self)@,
                },
            },
    {
        match value {
            Err(e) => Err(PjParseError::from(InternalPjParseError::NotUtf8(e))),
            Ok(text) => match decode_base64(text.as_str()) {
                Err(e) => Err(PjParseError::from(InternalPjParseError::NotBase64(e))),
                Ok(bytes) => match decode_key_config(bytes.as_slice()) {
                    Ok(config) => {
                        self.ohttp = Some(config);
                        Ok(ParamKind::Known)
                    },
                    Err(e) => Err(PjParseError::from(InternalPjParseError::BadOhttp(e))),
                },
            },
        }
    }

    /// Reads one BIP21 parameter, given the text its value decodes to: exactly as
    /// `reads_decoded` says.
    pub fn deserialize_decoded(&mut self, key: &str, value: Result<String, core::str::Utf8Error>) -> (r: Result<
        ParamKind,
        PjParseError,
    >)
        ensures
            reads_decoded(old(self)@, key@, value, r, final(self)@),
    {
        proof {
            lemma_param_keys_differ();
        }
        if str_eq(key, "ohttp") {
            if self.ohttp.is_none() {
                self.deserialize_ohttp(value)
            } else {
                Err(PjParseError::from(InternalPjParseError::MultipleParams("ohttp")))
            }
        } else if str_eq(key, "pj") {
            if self.pj.is_none() {
                self.deserialize_pj(value)
            } else {
                Err(PjParseError::from(InternalPjParseError::MultipleParams("pj")))
            }
        } else if str_eq(key, "pjos") {
            if self.pjos.is_none() {
                self.deserialize_pjos(value)
            } else {
                Err(PjParseError::from(InternalPjParseError::MultipleParams("pjos")))
            }
        } else {
            Ok(ParamKind::Unknown)
        }
    }

    /// Reads one BIP21 parameter.
    ///
    /// `ohttp`, `pj` and `pjos` are read once each; a second one is an error. Other
    /// keys are left to the caller. The value is decoded, by `decode_param`, only
    /// when it is read; the outcome is then that of `deserialize_decoded` on the
    /// decoded value, whose text is `param_text(value)`.
    pub fn deserialize_temp(&mut self, key: &str, value: bip21::Param<'_>) -> (r: Result<
        ParamKind,
        PjParseError,
    >)
        ensures
            exists|decoded: Result<String, core::str::Utf8Error>|
                #[trigger] reads_decoded(old(self)@, key@, decoded, r, final(self)@),
            is_read_param(key@) && !slot_taken(old(self)@, key@) ==> exists|decoded: Result<String, core::str::Utf8Error>|
                decodes_as(decoded, param_text(value)) && #[trigger] reads_decoded(old(self)@, key@, decoded, r, final(self)@),
            !is_read_param(key@) ==> r == Ok::<ParamKind, PjParseError>(ParamKind::Unknown)
                && final(self)@ == old(self)@,
            is_read_param(key@) && slot_taken(old(self)@, key@) ==> (r matches Err(err) && (err.kind() matches InternalPjParseError::MultipleParams(p)
                && p@ == key@)) && final(self)@ == old(self)@,
    {
        proof {
            lemma_param_keys_differ();
        }
        let pending = (str_eq(key, "ohttp") && self.ohttp.is_none()) || (str_eq(key, "pj") && self.pj.is_none())
            || (str_eq(key, "pjos") && self.pjos.is_none());
        if pending {
            let ghost before = self@;
            let ghost text = param_text(value);
            let decoded = decode_param(value);
            let ghost d = decoded;
            let r = self.deserialize_decoded(key, decoded);
            proof {
                assert(decodes_as(d, text));
                assert(reads_decoded(before, key@, d, r, self@));
            }
            r
        } else {
            let ghost before = self@;
            let r = if str_eq(key, "ohttp") {
                Err(PjParseError::from(InternalPjParseError::MultipleParams("ohttp")))
            } else if str_eq(key, "pj") {
                Err(PjParseError::from(InternalPjParseError::MultipleParams("pj")))
            } else if str_eq(key, "pjos") {
                Err(PjParseError::from(InternalPjParseError::MultipleParams("pjos")))
            } else {
                Ok(ParamKind::Unknown)
            };
            proof {
                let v = vstd::pervasive::arbitrary::<Result<String, core::str::Utf8Error>>();
                assert(reads_decoded(before, key@, v, r, self@));
            }
            r
        }
    }

    /// Decides, once every parameter has been read, what the URI says of payjoin.
    pub fn finalize(self) -> (r: Result<Payjoin, PjParseError>)
        ensures
            match finalized(self@) {
                Some(p) => r matches Ok(payjoin) && payjoin@ == p,
                None => r matches Err(err) && if self@.0 is None {
                    err.kind() is MissingEndpoint
                } else {
                    err.kind() is UnsecureEndpoint
                },
            },
    {
        match (self.pj, self.pjos, self.ohttp) {
            (None, None, _) => Ok(Payjoin::Unsupported),
            (None, Some(_), _) => Err(PjParseError::from(InternalPjParseError::MissingEndpoint)),
            (Some(endpoint), pjos, ohttp) => {
                let disable_output_substitution = match pjos {
                    Some(b) => b,
                    None => false,
                };
                if endpoint.is_secure() {
                    Ok(
                        Payjoin::Supported(
                            PayjoinParams::new(endpoint, disable_output_substitution, ohttp),
                        ),
                    )
                } else if str_eq(endpoint.scheme(), "http") && ohttp.is_some() {
                    Ok(
                        Payjoin::V2Only(
                            PayjoinParams::new(endpoint, disable_output_substitution, ohttp),
                        ),
                    )
                } else {
                    Err(PjParseError::from(InternalPjParseError::UnsecureEndpoint))
                }
            },
        }
    }
}

// ---------------------------------------------------------------------------
// Laws.
// ---------------------------------------------------------------------------

/// Whether payjoin extras are as reading parameters makes them: supported
/// parameters have an endpoint over HTTPS or over HTTP to an onion service;
/// parameters only for OHTTP have a plain HTTP endpoint and a key configuration.
pub open spec fn payjoin_as_read(p: PayjoinView) -> bool {
    match p {
        PayjoinView::Supported(q) => is_secure_endpoint(q.0),
        PayjoinView::V2Only(q) => !is_secure_endpoint(q.0) && q.0.1 == "http"@ && q.2 is Some,
        PayjoinView::Unsupported => true,
    }
}

/// Payjoin extras written as BIP21 parameters and read back, in the order written,
/// into a fresh state give the same extras.
///
/// This holds of extras as reading makes them, whose endpoint text `url::Url::parse`
/// reads back as the same URL, and whose key configuration, if any, is one
/// `ohttp::KeyConfig::decode` accepts, `encode` writes back as the same bytes, and
/// `base64` encodes and decodes back.
pub proof fn law_written_extras_read_back(p: PayjoinView)
    requires
        payjoin_as_read(p),
        spec_params(p) matches Some(q) ==> {
            &&& url_parse(q.0.0) == Some(q.0)
            &&& q.2 matches Some(encoded) ==> {
                &&& ohttp_decodes(encoded)
                &&& ohttp_encoding(encoded) == Some(encoded)
                &&& base64_url_decode(base64_url_encode(encoded)) == Some(encoded)
            }
        },
    ensures
        read_params(empty_state(), payjoin_written(p)) matches Some(s) && finalized(s) == Some(p),
{
    reveal_strlit("0");
    reveal_strlit("1");
    assert("0"@[0] != "1"@[0]);
    lemma_param_keys_differ();
    match spec_params(p) {
        None => {
            assert(payjoin_written(p) =~= Seq::empty());
        },
        Some(q) => {
            let w = params_written(q);
            let s1 = (Some(q.0), None::<bool>, None::<Seq<u8>>);
            let s2 = (Some(q.0), Some(q.1), None::<Seq<u8>>);
            assert(w[0] == ("pj"@, q.0.0));
            assert(w[1] == ("pjos"@, pjos_text(q.1)));
            assert(read_param(empty_state(), w[0].0, w[0].1) == Some(s1));
            assert(read_param(s1, w[1].0, w[1].1) == Some(s2));
            match q.2 {
                None => {
                    assert(w.len() == 2);
                    assert(w.drop_first().drop_first() =~= Seq::empty());
                    assert(read_params(s2, w.drop_first().drop_first()) == Some(s2));
                    assert(read_params(s1, w.drop_first()) == Some(s2));
                },
                Some(encoded) => {
                    let s3 = (Some(q.0), Some(q.1), Some(encoded));
                    assert(w.len() == 3);
                    assert(w[2] == ("ohttp"@, base64_url_encode(encoded)));
                    assert(read_param(s2, w[2].0, w[2].1) == Some(s3));
                    let rest = w.drop_first().drop_first();
                    assert(rest.drop_first() =~= Seq::empty());
                    assert(rest[0] == w[2]);
                    assert(read_params(s3, rest.drop_first()) == Some(s3));
                    assert(read_params(s2, rest) == Some(s3));
                    assert(read_params(s1, w.drop_first()) == Some(s3));
                },
            }
        },
    }
}

/// Reading two different parameters gives the same state in either order.
pub proof fn law_param_order(s: DeserializationStateView, k1: Seq<char>, t1: Seq<char>, k2: Seq<char>, t2: Seq<char>)
    requires
        k1 != k2,
    ensures
        (match read_param(s, k1, t1) {
            Some(s1) => read_param(s1, k2, t2),
            None => None,
        }) == (match read_param(s, k2, t2) {
            Some(s1) => read_param(s1, k1, t1),
            None => None,
        }),
{
}

/// `ohttp`, `pj` and `pjos` are read at most once: once one has been read, reading
/// it again is refused.
pub proof fn law_read_once(s: DeserializationStateView, key: Seq<char>, t1: Seq<char>, t2: Seq<char>)
    requires
        is_read_param(key),
        read_param(s, key, t1) is Some,
    ensures
        read_param(read_param(s, key, t1)->0, key, t2) is None,
{
}

/// Parameters that are not read leave the state as it is.
pub proof fn law_unread_params_ignored(s: DeserializationStateView, key: Seq<char>, text: Seq<char>)
    requires
        !is_read_param(key),
    ensures
        read_param(s, key, text) == Some(s),
{
}

/// Payjoin extras that reading accepts are as reading makes them, keep the key
/// configuration read, and allow output substitution unless `pjos` was `1`; their
/// endpoint is always one payjoin parameters may hold.
pub proof fn law_finalized_extras(s: DeserializationStateView)
    ensures
        finalized(s) matches Some(p) ==> payjoin_as_read(p) && match spec_params(p) {
            Some(q) => s.0 == Some(q.0) && (q.1 <==> s.1 == Some(true)) && q.2 == s.2
                && endpoint_allowed(q.0, q.2),
            None => s.0 is None && s.1 is None,
        },
{
}

/// `pjos` accepts exactly the texts `"0"`, which allows output substitution, and
/// `"1"`, which disables it.
pub proof fn law_pjos_values(t: Seq<char>)
    ensures
        spec_pjos(t) is Some <==> (t == "0"@ || t == "1"@),
        spec_pjos("0"@) == Some(false),
        spec_pjos("1"@) == Some(true),
{
    reveal_strlit("0");
    reveal_strlit("1");
    assert("0"@ != "1"@) by {
        assert("0"@[0] != "1"@[0]);
    }
}

/// Reading the first `pj`, `pjos` or `ohttp` parameter, decoded to `t`:
/// - `pj` succeeds exactly when `url::Url::parse` accepts `t`, and keeps the parsed
///   URL as the endpoint, whatever form `t` was written in;
/// - `pjos` succeeds exactly when `t` is `"0"` (substitution allowed) or `"1"`
///   (substitution disabled);
/// - `ohttp` succeeds exactly when `t` is base64 of bytes `ohttp::KeyConfig::decode`
///   accepts, and keeps those bytes.
/// Each changes its own slot only.
pub proof fn law_read_first_param(s: DeserializationStateView, t: Seq<char>)
    ensures
        s.0 is None ==> read_param(s, "pj"@, t) == (match url_parse(t) {
            Some(u) => Some((Some(u), s.1, s.2)),
            None => None,
        }),
        s.1 is None ==> read_param(s, "pjos"@, t) == (if t == "0"@ {
            Some((s.0, Some(false), s.2))
        } else if t == "1"@ {
            Some((s.0, Some(true), s.2))
        } else {
            None
        }),
        s.2 is None ==> read_param(s, "ohttp"@, t) == (match base64_url_decode(t) {
            Some(b) => if ohttp_decode(b) is Some {
                Some((s.0, s.1, Some(b)))
            } else {
                None
            },
            None => None,
        }),
{
    lemma_param_keys_differ();
    law_pjos_values(t);
}

/// Payjoin is supported over an endpoint only when its scheme is `https`, or `http`
/// to a domain ending in `.onion`; over any other plain-HTTP endpoint, reading gives
/// payjoin only through OHTTP, with a key configuration, or refuses it.
pub proof fn law_supported_endpoints(s: DeserializationStateView)
    ensures
        finalized(s) matches Some(PayjoinView::Supported(q)) ==> (q.0.1 == "https"@ || (q.0.1 == "http"@
            && (q.0.2 matches Some(d) && ".onion"@.len() <= d.len() && d.subrange(
            d.len() - ".onion"@.len(),
            d.len() as int,
        ) == ".onion"@))),
        s.0 matches Some(u) && u.1 == "http"@ && u.2 is None ==> (finalized(s) matches Some(p) ==> p
            is V2Only && s.2 is Some),
{
    match s.0 {
        Some(u) => {
            crate::uri::endpoint::law_secure_endpoint(u);
        },
        None => {},
    }
}

} // verus!
