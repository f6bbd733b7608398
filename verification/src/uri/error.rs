//! Why a payjoin URI could not be parsed, and how that is told.

use vstd::prelude::*;
use vstd::string::*;

verus! {

#[verifier::external_type_specification]
#[verifier::external_body]
pub struct ExUtf8Error(core::str::Utf8Error);

#[verifier::external_type_specification]
#[verifier::external_body]
pub struct ExUriError(bip21::de::UriError);

#[verifier::external_type_specification]
#[verifier::external_body]
#[verifier::reject_recursive_types(T)]
pub struct ExBip21Error<T>(bip21::de::Error<T>);

/// Why a payjoin URI could not be parsed.
#[derive(Debug)]
pub enum InternalPjParseError {
    UriParseError(bip21::de::UriError),
    BadPjOs,
    MultipleParams(&'static str),
    MissingEndpoint,
    NotUtf8(core::str::Utf8Error),
    NotBase64(bitcoin::base64::DecodeError),
    BadEndpoint(url::ParseError),
    BadOhttp(ohttp::Error),
    UnsecureEndpoint,
}

/// The error returned when a payjoin URI could not be parsed.
#[derive(Debug)]
pub struct PjParseError(pub(crate) InternalPjParseError);

impl PjParseError {
    /// Why parsing failed.
    pub closed spec fn kind(&self) -> InternalPjParseError {
        self.0
    }

}

impl From<InternalPjParseError> for PjParseError {
    fn from(value: InternalPjParseError) -> (r: PjParseError)
        ensures
            r.kind() == value,
    {
        PjParseError(value)
    }
}

impl vstd::std_specs::convert::FromSpecImpl<InternalPjParseError> for PjParseError {
    open spec fn obeys_from_spec() -> bool {
        true
    }

    closed spec fn from_spec(value: InternalPjParseError) -> PjParseError {
        PjParseError(value)
    }
}

/// How a BIP21 parse failed: in the URI itself, or in the payjoin parameters.
pub enum Bip21Failure {
    Uri(bip21::de::UriError),
    Extras(PjParseError),
}

/// Which variant a `bip21::de::Error` is, with the field it holds.
pub uninterp spec fn bip21_failure_of(e: bip21::de::Error<PjParseError>) -> Bip21Failure;

/// The text `Display` for `bip21::de::UriError` writes for an error.
pub uninterp spec fn uri_error_display(e: bip21::de::UriError) -> Seq<char>;

/// Tells the two variants of `bip21::de::Error` apart, moving their fields.
/// Trusted: the result is the one `bip21_failure_of` names for the error.
#[verifier::external_body]
fn bip21_failure(e: bip21::de::Error<PjParseError>) -> (r: Bip21Failure)
    ensures
        r == bip21_failure_of(e),
{
    match e {
        bip21::de::Error::Uri(u) => Bip21Failure::Uri(u),
        bip21::de::Error::Extras(x) => Bip21Failure::Extras(x),
    }
}

/// Formats a BIP21 URI error with its `Display`.
/// Trusted: the result is the text `uri_error_display` names for the error.
#[verifier::external_body]
fn uri_error_text(e: &bip21::de::UriError) -> (r: String)
    ensures
        r@ == uri_error_display(*e),
{
    format!("{}", e)
}

/// The text of a parse error, as its `to_string` writes it.
pub open spec fn parse_error_text(kind: InternalPjParseError) -> Seq<char> {
    match kind {
        InternalPjParseError::UriParseError(u) => "Uri parse error: "@ + uri_error_display(u),
        InternalPjParseError::BadPjOs => "Bad pjos parameter"@,
        InternalPjParseError::MultipleParams(p) => "Multiple instances of parameter '"@ + p@ + "'"@,
        InternalPjParseError::MissingEndpoint => "Missing payjoin endpoint"@,
        InternalPjParseError::NotUtf8(_) => "Endpoint is not valid UTF-8"@,
        InternalPjParseError::NotBase64(_) => "ohttp config is not valid base64"@,
        InternalPjParseError::BadEndpoint(_) => "Endpoint is not valid"@,
        InternalPjParseError::BadOhttp(_) => "ohttp config is not valid"@,
        InternalPjParseError::UnsecureEndpoint => "Endpoint scheme is not secure (https or onion)"@,
    }
}

impl PjParseError {
    /// The error for a failed BIP21 parse: a failure of the URI becomes a
    /// `UriParseError`, a failure of the payjoin parameters is passed on.
    pub fn from_failure(f: Bip21Failure) -> (r: PjParseError)
        ensures
            match f {
                Bip21Failure::Uri(u) => r.kind() == InternalPjParseError::UriParseError(u),
                Bip21Failure::Extras(x) => r == x,
            },
    {
        match f {
            Bip21Failure::Uri(u) => PjParseError(InternalPjParseError::UriParseError(u)),
            Bip21Failure::Extras(x) => x,
        }
    }

    /// The error for a failed BIP21 parse: a failure of the URI becomes a
    /// `UriParseError`, a failure of the payjoin parameters is passed on.
    pub fn from_bip21(e: bip21::de::Error<PjParseError>) -> (r: PjParseError)
        ensures
            match bip21_failure_of(e) {
                Bip21Failure::Uri(u) => r.kind() == InternalPjParseError::UriParseError(u),
                Bip21Failure::Extras(x) => r == x,
            },
    {
        Self::from_failure(bip21_failure(e))
    }

    /// The error as text. A URI error is described by its own `Display` after
    /// the prefix; every other text is fixed by the kind of the error.
    pub fn to_string(&self) -> (r: String)
        ensures
            r@ == parse_error_text(self.kind()),
    {
        match &self.0 {
            InternalPjParseError::UriParseError(e) => {
                let mut s = "Uri parse error: ".to_owned();
                let t = uri_error_text(e);
                s.append(t.as_str());
                assert(s@ == parse_error_text(self.kind()));
                s
            },
            InternalPjParseError::BadPjOs => {
                let s = "Bad pjos parameter".to_owned();
                assert(s@ == parse_error_text(self.kind()));
                s
            },
            InternalPjParseError::MultipleParams(p) => {
                let mut s = "Multiple instances of parameter '".to_owned();
                s.append(p);
                s.append("'");
                assert(s@ == parse_error_text(self.kind()));
                s
            },
            InternalPjParseError::MissingEndpoint => {
                let s = "Missing payjoin endpoint".to_owned();
                assert(s@ == parse_error_text(self.kind()));
                s
            },
            InternalPjParseError::NotUtf8(_) => {
                let s = "Endpoint is not valid UTF-8".to_owned();
                assert(s@ == parse_error_text(self.kind()));
                s
            },
            InternalPjParseError::NotBase64(_) => {
                let s = "ohttp config is not valid base64".to_owned();
                assert(s@ == parse_error_text(self.kind()));
                s
            },
            InternalPjParseError::BadEndpoint(_) => {
                let s = "Endpoint is not valid".to_owned();
                assert(s@ == parse_error_text(self.kind()));
                s
            },
            InternalPjParseError::BadOhttp(_) => {
                let s = "ohttp config is not valid".to_owned();
                assert(s@ == parse_error_text(self.kind()));
                s
            },
            InternalPjParseError::UnsecureEndpoint => {
                let s = "Endpoint scheme is not secure (https or onion)".to_owned();
                assert(s@ == parse_error_text(self.kind()));
                s
            },
        }
    }
}

} // verus!
