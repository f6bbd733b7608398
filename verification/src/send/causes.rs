//! The errors a request error is caused by: a URL that does not parse, a
//! subdirectory that is not base64, a public key that is not valid. Each is held
//! as a plain value, with the text its own `Display` or `Debug` writes.

use vstd::prelude::*;

use crate::text::{decimal, push_decimal};

verus! {

/// Why a URL could not be parsed.
#[derive(Debug, Clone, Copy, PartialEq, Eq, Structural)]
pub enum UrlParseError {
    EmptyHost,
    IdnaError,
    InvalidPort,
    InvalidIpv4Address,
    InvalidIpv6Address,
    InvalidDomainCharacter,
    RelativeUrlWithoutBase,
    RelativeUrlWithCannotBeABaseBase,
    SetHostOnCannotBeABaseUrl,
    Overflow,
}

/// A URL parse error as its derived `Debug` writes it, plain or pretty: the
/// variant's name.
pub open spec fn url_parse_error_debug(e: UrlParseError) -> Seq<char> {
    match e {
        UrlParseError::EmptyHost => "EmptyHost"@,
        UrlParseError::IdnaError => "IdnaError"@,
        UrlParseError::InvalidPort => "InvalidPort"@,
        UrlParseError::InvalidIpv4Address => "InvalidIpv4Address"@,
        UrlParseError::InvalidIpv6Address => "InvalidIpv6Address"@,
        UrlParseError::InvalidDomainCharacter => "InvalidDomainCharacter"@,
        UrlParseError::RelativeUrlWithoutBase => "RelativeUrlWithoutBase"@,
        UrlParseError::RelativeUrlWithCannotBeABaseBase => "RelativeUrlWithCannotBeABaseBase"@,
        UrlParseError::SetHostOnCannotBeABaseUrl => "SetHostOnCannotBeABaseUrl"@,
        UrlParseError::Overflow => "Overflow"@,
    }
}

impl UrlParseError {
    /// The error as its derived `Debug` writes it.
    pub fn debug_string(&self) -> (r: String)
        ensures
            r@ == url_parse_error_debug(*self),
    {
        match self {
            UrlParseError::EmptyHost => "EmptyHost".to_owned(),
            UrlParseError::IdnaError => "IdnaError".to_owned(),
            UrlParseError::InvalidPort => "InvalidPort".to_owned(),
            UrlParseError::InvalidIpv4Address => "InvalidIpv4Address".to_owned(),
            UrlParseError::InvalidIpv6Address => "InvalidIpv6Address".to_owned(),
            UrlParseError::InvalidDomainCharacter => "InvalidDomainCharacter".to_owned(),
            UrlParseError::RelativeUrlWithoutBase => "RelativeUrlWithoutBase".to_owned(),
            UrlParseError::RelativeUrlWithCannotBeABaseBase => "RelativeUrlWithCannotBeABaseBase".to_owned(),
            UrlParseError::SetHostOnCannotBeABaseUrl => "SetHostOnCannotBeABaseUrl".to_owned(),
            UrlParseError::Overflow => "Overflow".to_owned(),
        }
    }
}

/// Why base64 could not be decoded.
#[derive(Debug, Clone, Copy, PartialEq, Eq, Structural)]
pub enum Base64DecodeError {
    /// A byte outside the alphabet, at an offset.
    InvalidByte(usize, u8),
    /// A length that leaves a 6-bit remainder.
    InvalidLength,
    /// A last symbol whose discarded bits are not zero, at an offset.
    InvalidLastSymbol(usize, u8),
}

/// A base64 error as its `Display` writes it.
pub open spec fn base64_error_text(e: Base64DecodeError) -> Seq<char> {
    match e {
        Base64DecodeError::InvalidByte(index, byte) => "Invalid byte "@ + decimal(byte as nat) + ", offset "@
            + decimal(index as nat) + "."@,
        Base64DecodeError::InvalidLength => "Encoded text cannot have a 6-bit remainder."@,
        Base64DecodeError::InvalidLastSymbol(index, byte) => "Invalid last symbol "@ + decimal(byte as nat)
            + ", offset "@ + decimal(index as nat) + "."@,
    }
}

impl Base64DecodeError {
    /// The error as its `Display` writes it.
    pub fn to_string(&self) -> (r: String)
        ensures
            r@ == base64_error_text(*self),
    {
        match self {
            Base64DecodeError::InvalidByte(index, byte) => {
                let mut s = "Invalid byte ".to_owned();
                push_decimal(&mut s, *byte as u64);
                s.append(", offset ");
                push_decimal(&mut s, *index as u64);
                s.append(".");
                assert(s@ =~= base64_error_text(*self));
                s
            },
            Base64DecodeError::InvalidLength => "Encoded text cannot have a 6-bit remainder.".to_owned(),
            Base64DecodeError::InvalidLastSymbol(index, byte) => {
                let mut s = "Invalid last symbol ".to_owned();
                push_decimal(&mut s, *byte as u64);
                s.append(", offset ");
                push_decimal(&mut s, *index as u64);
                s.append(".");
                assert(s@ =~= base64_error_text(*self));
                s
            },
        }
    }
}

/// A parity value other than 0 or 1.
#[derive(Debug, Clone, Copy, PartialEq, Eq, Structural)]
pub struct InvalidParityValue(pub i32);

/// Why a secp256k1 operation failed.
#[derive(Debug, Clone, Copy, PartialEq, Eq, Structural)]
pub enum Secp256k1Error {
    IncorrectSignature,
    InvalidMessage,
    InvalidPublicKey,
    InvalidSignature,
    InvalidSecretKey,
    InvalidSharedSecret,
    InvalidRecoveryId,
    InvalidTweak,
    NotEnoughMemory,
    InvalidPublicKeySum,
    InvalidParityValue(InvalidParityValue),
}

/// A secp256k1 error as its `Display` writes it (with the standard library, where
/// the parity value is left to the error's source).
pub open spec fn secp256k1_error_text(e: Secp256k1Error) -> Seq<char> {
    match e {
        Secp256k1Error::IncorrectSignature => "signature failed verification"@,
        Secp256k1Error::InvalidMessage => "message was not 32 bytes (do you need to hash?)"@,
        Secp256k1Error::InvalidPublicKey => "malformed public key"@,
        Secp256k1Error::InvalidSignature => "malformed signature"@,
        Secp256k1Error::InvalidSecretKey => "malformed or out-of-range secret key"@,
        Secp256k1Error::InvalidSharedSecret => "malformed or out-of-range shared secret"@,
        Secp256k1Error::InvalidRecoveryId => "bad recovery id"@,
        Secp256k1Error::InvalidTweak => "bad tweak"@,
        Secp256k1Error::NotEnoughMemory => "not enough memory allocated"@,
        Secp256k1Error::InvalidPublicKeySum => "the sum of public keys was invalid or the input vector lengths was less than 1"@,
        Secp256k1Error::InvalidParityValue(_) => "couldn't create parity"@,
    }
}

impl Secp256k1Error {
    /// The error as its `Display` writes it.
    pub fn to_string(&self) -> (r: String)
        ensures
            r@ == secp256k1_error_text(*self),
    {
        match self {
            Secp256k1Error::IncorrectSignature => "signature failed verification".to_owned(),
            Secp256k1Error::InvalidMessage => "message was not 32 bytes (do you need to hash?)".to_owned(),
            Secp256k1Error::InvalidPublicKey => "malformed public key".to_owned(),
            Secp256k1Error::InvalidSignature => "malformed signature".to_owned(),
            Secp256k1Error::InvalidSecretKey => "malformed or out-of-range secret key".to_owned(),
            Secp256k1Error::InvalidSharedSecret => "malformed or out-of-range shared secret".to_owned(),
            Secp256k1Error::InvalidRecoveryId => "bad recovery id".to_owned(),
            Secp256k1Error::InvalidTweak => "bad tweak".to_owned(),
            Secp256k1Error::NotEnoughMemory => "not enough memory allocated".to_owned(),
            Secp256k1Error::InvalidPublicKeySum => "the sum of public keys was invalid or the input vector lengths was less than 1".to_owned(),
            Secp256k1Error::InvalidParityValue(_) => "couldn't create parity".to_owned(),
        }
    }
}

} // verus!
