//! Payjoin endpoints: URLs as `url::Url::parse` reads them, and which of them may be
//! used.

use vstd::prelude::*;
use vstd::string::*;

use crate::text::{ends_with, spec_ends_with, str_eq};

verus! {

#[verifier::external_type_specification]
#[verifier::external_body]
pub struct ExUrlParseError(url::ParseError);

/// What contracts see of a parsed URL: its serialization, its scheme and its domain.
pub type UrlParts = (Seq<char>, Seq<char>, Option<Seq<char>>);

/// What `url::Url::parse` makes of `input`, seen through `as_str`, `scheme` and
/// `domain`; `None` when it refuses the input.
pub uninterp spec fn url_parse(input: Seq<char>) -> Option<UrlParts>;

/// A payjoin endpoint: a URL as `url::Url::parse` gave it.
#[derive(Debug)]
pub struct EndpointUrl {
    serialization: String,
    scheme: String,
    domain: Option<String>,
}

impl Clone for EndpointUrl {
    fn clone(&self) -> (r: Self)
        ensures
            r@ == self@,
    {
        EndpointUrl {
            serialization: self.serialization.clone(),
            scheme: self.scheme.clone(),
            domain: match &self.domain {
                Some(d) => Some(d.clone()),
                None => None,
            },
        }
    }
}

impl View for EndpointUrl {
    type V = UrlParts;

    closed spec fn view(&self) -> UrlParts {
        (
            self.serialization@,
            self.scheme@,
            match self.domain {
                Some(d) => Some(d@),
                None => None,
            },
        )
    }
}

/// Calls `url::Url::parse` and reads the parsed URL's `as_str`, `scheme` and `domain`.
/// Trusted: the result is the one `url_parse` names for `input`, an error exactly
/// when `url_parse` is `None`; nothing is said of which `url::ParseError` comes back.
#[verifier::external_body]
fn parse_url(input: &str) -> (r: Result<EndpointUrl, url::ParseError>)
    ensures
        match r {
            Ok(u) => url_parse(input@) == Some(u@),
            Err(_) => url_parse(input@) is None,
        },
{
    match url::Url::parse(input) {
        Ok(u) => Ok(EndpointUrl {
            serialization: u.as_str().to_string(),
            scheme: u.scheme().to_string(),
            domain: u.domain().map(|d| d.to_string()),
        }),
        Err(e) => Err(e),
    }
}

/// The domain of a URL, or the empty text when it has none.
pub open spec fn domain_or_empty(u: UrlParts) -> Seq<char> {
    match u.2 {
        Some(d) => d,
        None => Seq::empty(),
    }
}

/// An endpoint may be used for payjoin when it is reached over HTTPS, or over plain
/// HTTP to an onion service.
pub open spec fn is_secure_endpoint(u: UrlParts) -> bool {
    u.1 == "https"@ || (u.1 == "http"@ && spec_ends_with(domain_or_empty(u), ".onion"@))
}

impl EndpointUrl {
    /// Parses an endpoint URL.
    pub fn parse(input: &str) -> (r: Result<EndpointUrl, url::ParseError>)
        ensures
            match r {
                Ok(u) => url_parse(input@) == Some(u@),
                Err(_) => url_parse(input@) is None,
            },
    {
        parse_url(input)
    }

    /// The URL as text.
    pub fn as_str(&self) -> (r: &str)
        ensures
            r@ == self@.0,
    {
        self.serialization.as_str()
    }

    /// The URL's scheme.
    pub fn scheme(&self) -> (r: &str)
        ensures
            r@ == self@.1,
    {
        self.scheme.as_str()
    }

    /// The URL's domain, if its host is a domain.
    pub fn domain(&self) -> (r: Option<&str>)
        ensures
            match r {
                Some(d) => self@.2 == Some(d@),
                None => self@.2 is None,
            },
    {
        match &self.domain {
            Some(d) => Some(d.as_str()),
            None => None,
        }
    }

    /// Whether this endpoint is reached over HTTPS, or over HTTP to an onion service.
    pub fn is_secure(&self) -> (r: bool)
        ensures
            r == is_secure_endpoint(self@),
    {
        let domain: &str = match &self.domain {
            Some(d) => d.as_str(),
            None => {
                proof { reveal_strlit(""); }
                ""
            },
        };
        assert(domain@ == domain_or_empty(self@));
        str_eq(self.scheme.as_str(), "https") || (str_eq(self.scheme.as_str(), "http") && ends_with(
            domain,
            ".onion",
        ))
    }
}

/// An endpoint is secure exactly when its scheme is `https`, or its scheme is
/// `http` and its host is a domain ending in `.onion`. In particular a plain-HTTP
/// URL whose host is not a domain (an IP address) is never secure, nor is one to
/// any domain outside `.onion`.
pub proof fn law_secure_endpoint(u: UrlParts)
    ensures
        is_secure_endpoint(u) <==> (u.1 == "https"@ || (u.1 == "http"@ && (u.2 matches Some(d) && ".onion"@.len()
            <= d.len() && d.subrange(d.len() - ".onion"@.len(), d.len() as int) == ".onion"@))),
        u.1 == "http"@ && u.2 is None ==> !is_secure_endpoint(u),
        u.1 != "https"@ && u.1 != "http"@ ==> !is_secure_endpoint(u),
{
    reveal_strlit(".onion");
    reveal_strlit("http");
    reveal_strlit("https");
    assert(".onion"@.len() == 6);
    assert("http"@ != "https"@) by {
        assert("http"@.len() != "https"@.len());
    }
    if u.2 is None {
        assert(domain_or_empty(u) == Seq::<char>::empty());
    }
}

} // verus!
