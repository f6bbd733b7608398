//! Payjoin parameters: what a payjoin-capable URI carries, and how it is written.

use vstd::prelude::*;

use crate::uri::endpoint::{EndpointUrl, UrlParts, is_secure_endpoint};
use crate::uri::key_config::{OhttpKeyConfig, base64_url_encode, ohttp_encoding};

verus! {

/// The payjoin parameters of a URI whose receiver supports payjoin.
#[derive(Debug)]
pub struct PayjoinParams {
    endpoint: EndpointUrl,
    disable_output_substitution: bool,
    ohttp_config: Option<OhttpKeyConfig>,
}

/// What contracts see of payjoin parameters: the endpoint, whether output
/// substitution is disabled, and the bytes of the OHTTP key configuration, if any.
pub type PayjoinParamsView = (UrlParts, bool, Option<Seq<u8>>);

/// An endpoint may carry payjoin when it is reached over HTTPS or over HTTP to an
/// onion service; with an OHTTP key configuration, over plain HTTP too.
pub open spec fn endpoint_allowed(u: UrlParts, ohttp: Option<Seq<u8>>) -> bool {
    is_secure_endpoint(u) || (u.1 == "http"@ && ohttp is Some)
}

impl View for PayjoinParams {
    type V = PayjoinParamsView;

    closed spec fn view(&self) -> PayjoinParamsView {
        (
            self.endpoint@,
            self.disable_output_substitution,
            match self.ohttp_config {
                Some(c) => Some(c@),
                None => None,
            },
        )
    }
}

impl Clone for PayjoinParams {
    fn clone(&self) -> (r: Self)
        ensures
            r@ == self@,
    {
        proof { use_type_invariant(self); }
        PayjoinParams {
            endpoint: self.endpoint.clone(),
            disable_output_substitution: self.disable_output_substitution,
            ohttp_config: match &self.ohttp_config {
                Some(c) => Some(c.clone()),
                None => None,
            },
        }
    }
}

impl PayjoinParams {
    /// Every payjoin endpoint is reached over HTTPS or over HTTP to an onion
    /// service, or else over HTTP with an OHTTP key configuration.
    #[verifier::type_invariant]
    spec fn endpoint_is_allowed(self) -> bool {
        endpoint_allowed(self.endpoint@, self@.2)
    }

    /// Parameters with an allowed endpoint.
    pub(crate) fn new(
        endpoint: EndpointUrl,
        disable_output_substitution: bool,
        ohttp_config: Option<OhttpKeyConfig>,
    ) -> (r: PayjoinParams)
        requires
            endpoint_allowed(
                endpoint@,
                match ohttp_config {
                    Some(c) => Some(c@),
                    None => None,
                },
            ),
        ensures
            r@ == (
                endpoint@,
                disable_output_substitution,
                match ohttp_config {
                    Some(c) => Some(c@),
                    None => None,
                },
            ),
    {
        PayjoinParams { endpoint, disable_output_substitution, ohttp_config }
    }

    /// The payjoin endpoint.
    pub fn endpoint(&self) -> (r: &EndpointUrl)
        ensures
            r@ == self@.0,
            endpoint_allowed(r@, self@.2),
    {
        proof { use_type_invariant(self); }
        &self.endpoint
    }

    /// Whether the receiver disabled output substitution.
    pub fn is_output_substitution_disabled(&self) -> (r: bool)
        ensures
            r == self@.1,
    {
        self.disable_output_substitution
    }

    /// The OHTTP key configuration, if any.
    pub fn ohttp_config(&self) -> (r: Option<&OhttpKeyConfig>)
        ensures
            match r {
                Some(c) => self@.2 == Some(c@),
                None => self@.2 is None,
            },
    {
        match &self.ohttp_config {
            Some(c) => Some(c),
            None => None,
        }
    }
}

/// The text of the `pjos` parameter: `"1"` when output substitution is disabled.
pub open spec fn pjos_text(disable_output_substitution: bool) -> Seq<char> {
    if disable_output_substitution {
        "1"@
    } else {
        "0"@
    }
}

/// The `ohttp` parameter written for a key configuration decoded from `encoded`:
/// its wire format in URL-safe base64, or nothing when it cannot be encoded.
pub open spec fn ohttp_written(ohttp: Option<Seq<u8>>) -> Seq<(Seq<char>, Seq<char>)> {
    match ohttp {
        Some(encoded) => match ohttp_encoding(encoded) {
            Some(bytes) => seq![("ohttp"@, base64_url_encode(bytes))],
            None => Seq::empty(),
        },
        None => Seq::empty(),
    }
}

/// The BIP21 parameters that payjoin parameters are written as: `pj`, the endpoint,
/// then `pjos`, then `ohttp` when there is a key configuration that can be encoded.
pub open spec fn params_written(p: PayjoinParamsView) -> Seq<(Seq<char>, Seq<char>)> {
    seq![("pj"@, p.0.0), ("pjos"@, pjos_text(p.1))] + ohttp_written(p.2)
}

/// The key-value pairs of `v`, seen as text.
pub open spec fn pairs_view(v: Seq<(&'static str, String)>) -> Seq<(Seq<char>, Seq<char>)> {
    v.map_values(|kv: (&'static str, String)| (kv.0@, kv.1@))
}

impl PayjoinParams {
    /// The BIP21 parameters these payjoin parameters are written as.
    pub fn serialize_params(&self) -> (r: Vec<(&'static str, String)>)
        ensures
            pairs_view(r@) == params_written(self@),
    {
        let endpoint = self.endpoint.as_str().to_owned();
        let pjos = if self.disable_output_substitution {
            "1".to_owned()
        } else {
            "0".to_owned()
        };
        let mut r = vec![("pj", endpoint), ("pjos", pjos)];
        assert(pairs_view(r@) =~= seq![("pj"@, self@.0.0), ("pjos"@, pjos_text(self@.1))]);
        match &self.ohttp_config {
            Some(config) => {
                match config.to_base64() {
                    Some(encoded) => {
                        let ghost before = r@;
                        r.push(("ohttp", encoded));
                        assert(pairs_view(r@) =~= pairs_view(before) + ohttp_written(self@.2));
                    },
                    None => {
                        assert(ohttp_written(self@.2) =~= Seq::empty());
                        assert(pairs_view(r@) =~= pairs_view(r@) + ohttp_written(self@.2));
                    },
                }
            },
            None => {
                assert(pairs_view(r@) =~= pairs_view(r@) + ohttp_written(self@.2));
            },
        }
        r
    }
}

/// The payjoin extras of a BIP21 URI.
#[derive(Debug)]
pub enum Payjoin {
    /// Payjoin over HTTPS, or over HTTP to an onion service.
    Supported(PayjoinParams),
    /// Payjoin only through OHTTP, the endpoint being plain HTTP.
    V2Only(PayjoinParams),
    Unsupported,
}

/// What contracts see of payjoin extras.
pub enum PayjoinView {
    Supported(PayjoinParamsView),
    V2Only(PayjoinParamsView),
    Unsupported,
}

impl Clone for Payjoin {
    fn clone(&self) -> (r: Self)
        ensures
            r@ == self@,
    {
        match self {
            Payjoin::Supported(p) => Payjoin::Supported(p.clone()),
            Payjoin::V2Only(p) => Payjoin::V2Only(p.clone()),
            Payjoin::Unsupported => Payjoin::Unsupported,
        }
    }
}

impl View for Payjoin {
    type V = PayjoinView;

    open spec fn view(&self) -> PayjoinView {
        match self {
            Payjoin::Supported(p) => PayjoinView::Supported(p@),
            Payjoin::V2Only(p) => PayjoinView::V2Only(p@),
            Payjoin::Unsupported => PayjoinView::Unsupported,
        }
    }
}

/// The parameters of a payjoin-capable URI, `None` when it does not support payjoin.
pub open spec fn spec_params(p: PayjoinView) -> Option<PayjoinParamsView> {
    match p {
        PayjoinView::Supported(params) => Some(params),
        PayjoinView::V2Only(params) => Some(params),
        PayjoinView::Unsupported => None,
    }
}

/// The BIP21 parameters payjoin extras are written as: none when payjoin is
/// unsupported.
pub open spec fn payjoin_written(p: PayjoinView) -> Seq<(Seq<char>, Seq<char>)> {
    match spec_params(p) {
        Some(params) => params_written(params),
        None => Seq::empty(),
    }
}

impl Payjoin {
    /// Whether the URI supports payjoin.
    pub fn pj_is_supported(&self) -> (r: bool)
        ensures
            r == (spec_params(self@) is Some),
    {
        match self {
            Payjoin::Supported(_) => true,
            Payjoin::V2Only(_) => true,
            Payjoin::Unsupported => false,
        }
    }

    /// The payjoin endpoint, when the URI supports payjoin.
    pub fn endpoint(&self) -> (r: Option<&EndpointUrl>)
        ensures
            match r {
                Some(u) => spec_params(self@) matches Some(p) && u@ == p.0,
                None => spec_params(self@) is None,
            },
    {
        match self {
            Payjoin::Supported(params) => Some(params.endpoint()),
            Payjoin::V2Only(params) => Some(params.endpoint()),
            Payjoin::Unsupported => None,
        }
    }

    /// Whether the receiver disabled output substitution; `false` when the URI
    /// does not support payjoin.
    pub fn disable_output_substitution(&self) -> (r: bool)
        ensures
            r == match spec_params(self@) {
                Some(p) => p.1,
                None => false,
            },
    {
        match self {
            Payjoin::Supported(params) => params.is_output_substitution_disabled(),
            Payjoin::V2Only(params) => params.is_output_substitution_disabled(),
            Payjoin::Unsupported => false,
        }
    }

    /// The OHTTP key configuration, when the URI supports payjoin and has one.
    pub fn ohttp_config(&self) -> (r: Option<&OhttpKeyConfig>)
        ensures
            match r {
                Some(c) => spec_params(self@) matches Some(p) && p.2 == Some(c@),
                None => match spec_params(self@) {
                    Some(p) => p.2 is None,
                    None => true,
                },
            },
    {
        match self {
            Payjoin::Supported(params) => params.ohttp_config(),
            Payjoin::V2Only(params) => params.ohttp_config(),
            Payjoin::Unsupported => None,
        }
    }

    /// The BIP21 parameters the extras are written as; none when payjoin is unsupported.
    pub fn serialize_params(&self) -> (r: Vec<(&'static str, String)>)
        ensures
            pairs_view(r@) == payjoin_written(self@),
    {
        match self {
            Payjoin::Supported(params) => params.serialize_params(),
            Payjoin::V2Only(params) => params.serialize_params(),
            Payjoin::Unsupported => {
                let r: Vec<(&'static str, String)> = Vec::new();
                assert(pairs_view(r@) =~= Seq::empty());
                r
            },
        }
    }
}

/// Payjoin parameters are written as `pj` with the endpoint's text, then `pjos`
/// with `"1"` when output substitution is disabled and `"0"` when it is allowed,
/// then at most an `ohttp` parameter, present only with a key configuration.
pub proof fn law_params_written(p: PayjoinParamsView)
    ensures
        params_written(p).len() == 2 || (params_written(p).len() == 3 && p.2 is Some
            && params_written(p)[2].0 == "ohttp"@),
        params_written(p)[0] == ("pj"@, p.0.0),
        p.1 ==> params_written(p)[1] == ("pjos"@, "1"@),
        !p.1 ==> params_written(p)[1] == ("pjos"@, "0"@),
        p.2 is None ==> params_written(p).len() == 2,
{
}

} // verus!
