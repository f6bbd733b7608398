use vstd::prelude::*;
use vstd::string::*;

use crate::json::{Json, json_parse, json_as_array, json_as_str, json_member, json_u64s, u64s_of};
use crate::send::causes::{
    Base64DecodeError, Secp256k1Error, UrlParseError, base64_error_text, secp256k1_error_text,
    url_parse_error_debug,
};
use crate::send::consensus::{LockTime, Sequence, lock_time_debug, lock_time_text, sequence_debug, sequence_text};
use crate::text::{decimal_list, push_decimal_list, push_signed_decimal, signed_decimal, str_eq};

verus! {

#[verifier::external_type_specification]
#[verifier::external_body]
pub struct ExIoError(std::io::Error);

#[verifier::external_type_specification]
#[verifier::external_body]
pub struct ExPsbtError(bitcoin::psbt::Error);

/// Formats an I/O error with its `Display`.
/// Trusted without a postcondition: the error is opaque to contracts.
#[verifier::external_body]
fn io_error_text(e: &std::io::Error) -> (r: String) {
    format!("{}", e)
}

/// The text `Display` for `bitcoin::psbt::Error` writes for an error. (With the
/// standard library, an error that wraps another names it without its text.)
pub uninterp spec fn psbt_error_display(e: bitcoin::psbt::Error) -> Seq<char>;

/// Formats a PSBT error with its `Display`.
/// Trusted: the result is the text `psbt_error_display` names for the error.
#[verifier::external_body]
fn psbt_error_text(e: &bitcoin::psbt::Error) -> (r: String)
    ensures
        r@ == psbt_error_display(*e),
{
    format!("{}", e)
}

/// Why the receiver's response was found malformed.
#[derive(Debug)]
pub enum InternalValidationError {
    Parse,
    Io(std::io::Error),
    VersionsDontMatch { proposed: i32, original: i32 },
    LockTimesDontMatch { proposed: LockTime, original: LockTime },
    SenderTxinSequenceChanged { proposed: Sequence, original: Sequence },
    SenderTxinContainsNonWitnessUtxo,
    SenderTxinContainsWitnessUtxo,
    SenderTxinContainsFinalScriptSig,
    SenderTxinContainsFinalScriptWitness,
    TxInContainsKeyPaths,
    ContainsPartialSigs,
    ReceiverTxinNotFinalized,
    ReceiverTxinMissingUtxoInfo,
    MixedSequence,
    MissingOrShuffledInputs,
    TxOutContainsKeyPaths,
    FeeContributionExceedsMaximum,
    DisallowedOutputSubstitution,
    OutputValueDecreased,
    MissingOrShuffledOutputs,
    Inflation,
    AbsoluteFeeDecreased,
    PayeeTookContributedFee,
    FeeContributionPaysOutputSizeIncrease,
    FeeRateBelowMinimum,
    Psbt(bitcoin::psbt::Error),
}

/// Error that may occur when the response from the receiver is malformed.
///
/// It is opaque: it can only be shown as text.
#[derive(Debug)]
pub struct ValidationError {
    internal: InternalValidationError,
}

/// The text of a validation error. `a` stands for the text of the I/O error it
/// carries, if any, as that error's own `Display` writes it.
pub open spec fn validation_error_text(e: InternalValidationError, a: Seq<char>) -> Seq<char> {
    match e {
        InternalValidationError::Parse => "couldn't decode as PSBT or JSON"@,
        InternalValidationError::Io(_) => "couldn't read PSBT: "@ + a,
        InternalValidationError::VersionsDontMatch { proposed, original } => "proposed transaction version "@
            + signed_decimal(proposed as int) + " doesn't match the original "@ + signed_decimal(original as int),
        InternalValidationError::LockTimesDontMatch { proposed, original } => "proposed transaction lock time "@
            + lock_time_text(proposed) + " doesn't match the original "@ + lock_time_text(original),
        InternalValidationError::SenderTxinSequenceChanged { proposed, original } =>
            "proposed transaction sequence number "@ + sequence_text(proposed) + " doesn't match the original "@
            + sequence_text(original),
        InternalValidationError::SenderTxinContainsNonWitnessUtxo => "an input in proposed transaction belonging to the sender contains non-witness UTXO information"@,
        InternalValidationError::SenderTxinContainsWitnessUtxo => "an input in proposed transaction belonging to the sender contains witness UTXO information"@,
        InternalValidationError::SenderTxinContainsFinalScriptSig => "an input in proposed transaction belonging to the sender contains finalized non-witness signature"@,
        InternalValidationError::SenderTxinContainsFinalScriptWitness => "an input in proposed transaction belonging to the sender contains finalized witness signature"@,
        InternalValidationError::TxInContainsKeyPaths => "proposed transaction inputs contain key paths"@,
        InternalValidationError::ContainsPartialSigs => "an input in proposed transaction belonging to the sender contains partial signatures"@,
        InternalValidationError::ReceiverTxinNotFinalized => "an input in proposed transaction belonging to the receiver is not finalized"@,
        InternalValidationError::ReceiverTxinMissingUtxoInfo => "an input in proposed transaction belonging to the receiver is missing UTXO information"@,
        InternalValidationError::MixedSequence => "inputs of proposed transaction contain mixed sequence numbers"@,
        InternalValidationError::MissingOrShuffledInputs => "proposed transaction is missing inputs of the sender or they are shuffled"@,
        InternalValidationError::TxOutContainsKeyPaths => "proposed transaction outputs contain key paths"@,
        InternalValidationError::FeeContributionExceedsMaximum => "fee contribution exceeds allowed maximum"@,
        InternalValidationError::DisallowedOutputSubstitution => "the receiver change output despite it being disallowed"@,
        InternalValidationError::OutputValueDecreased => "the amount in our non-fee output was decreased"@,
        InternalValidationError::MissingOrShuffledOutputs => "proposed transaction is missing outputs of the sender or they are shuffled"@,
        InternalValidationError::Inflation => "proposed transaction is attempting inflation"@,
        InternalValidationError::AbsoluteFeeDecreased => "abslute fee of proposed transaction is lower than original"@,
        InternalValidationError::PayeeTookContributedFee => "payee tried to take fee contribution for himself"@,
        InternalValidationError::FeeContributionPaysOutputSizeIncrease => "fee contribution pays for additional outputs"@,
        InternalValidationError::FeeRateBelowMinimum => "the fee rate of proposed transaction is below minimum"@,
        InternalValidationError::Psbt(p) => "psbt error: "@ + psbt_error_display(p),
    }
}

impl ValidationError {
    /// What went wrong.
    pub closed spec fn internal(&self) -> InternalValidationError {
        self.internal
    }

    /// The error as text, as its `Display` writes it.
    pub fn to_string(&self) -> (r: String)
        ensures
            exists|a: Seq<char>| r@ == validation_error_text(self.internal(), a),
    {
        match &self.internal {
            InternalValidationError::Parse => {
                let s = "couldn't decode as PSBT or JSON".to_owned();
                assert(s@ == validation_error_text(self.internal(), Seq::empty()));
                s
            },
            InternalValidationError::Io(e) => {
                let mut s = "couldn't read PSBT: ".to_owned();
                let a = io_error_text(e);
                s.append(a.as_str());
                assert(s@ == validation_error_text(self.internal(), a@));
                s
            },
            InternalValidationError::VersionsDontMatch { proposed, original } => {
                let mut s = "proposed transaction version ".to_owned();
                push_signed_decimal(&mut s, *proposed);
                s.append(" doesn't match the original ");
                push_signed_decimal(&mut s, *original);
                assert(s@ == validation_error_text(self.internal(), Seq::empty()));
                s
            },
            InternalValidationError::LockTimesDontMatch { proposed, original } => {
                let mut s = "proposed transaction lock time ".to_owned();
                let a = proposed.to_string();
                let b = original.to_string();
                s.append(a.as_str());
                s.append(" doesn't match the original ");
                s.append(b.as_str());
                assert(s@ == validation_error_text(self.internal(), Seq::empty()));
                s
            },
            InternalValidationError::SenderTxinSequenceChanged { proposed, original } => {
                let mut s = "proposed transaction sequence number ".to_owned();
                let a = proposed.to_string();
                let b = original.to_string();
                s.append(a.as_str());
                s.append(" doesn't match the original ");
                s.append(b.as_str());
                assert(s@ == validation_error_text(self.internal(), Seq::empty()));
                s
            },
            InternalValidationError::SenderTxinContainsNonWitnessUtxo => {
                let s = "an input in proposed transaction belonging to the sender contains non-witness UTXO information".to_owned();
                assert(s@ == validation_error_text(self.internal(), Seq::empty()));
                s
            },
            InternalValidationError::SenderTxinContainsWitnessUtxo => {
                let s = "an input in proposed transaction belonging to the sender contains witness UTXO information".to_owned();
                assert(s@ == validation_error_text(self.internal(), Seq::empty()));
                s
            },
            InternalValidationError::SenderTxinContainsFinalScriptSig => {
                let s = "an input in proposed transaction belonging to the sender contains finalized non-witness signature".to_owned();
                assert(s@ == validation_error_text(self.internal(), Seq::empty()));
                s
            },
            InternalValidationError::SenderTxinContainsFinalScriptWitness => {
                let s = "an input in proposed transaction belonging to the sender contains finalized witness signature".to_owned();
                assert(s@ == validation_error_text(self.internal(), Seq::empty()));
                s
            },
            InternalValidationError::TxInContainsKeyPaths => {
                let s = "proposed transaction inputs contain key paths".to_owned();
                assert(s@ == validation_error_text(self.internal(), Seq::empty()));
                s
            },
            InternalValidationError::ContainsPartialSigs => {
                let s = "an input in proposed transaction belonging to the sender contains partial signatures".to_owned();
                assert(s@ == validation_error_text(self.internal(), Seq::empty()));
                s
            },
            InternalValidationError::ReceiverTxinNotFinalized => {
                let s = "an input in proposed transaction belonging to the receiver is not finalized".to_owned();
                assert(s@ == validation_error_text(self.internal(), Seq::empty()));
                s
            },
            InternalValidationError::ReceiverTxinMissingUtxoInfo => {
                let s = "an input in proposed transaction belonging to the receiver is missing UTXO information".to_owned();
                assert(s@ == validation_error_text(self.internal(), Seq::empty()));
                s
            },
            InternalValidationError::MixedSequence => {
                let s = "inputs of proposed transaction contain mixed sequence numbers".to_owned();
                assert(s@ == validation_error_text(self.internal(), Seq::empty()));
                s
            },
            InternalValidationError::MissingOrShuffledInputs => {
                let s = "proposed transaction is missing inputs of the sender or they are shuffled".to_owned();
                assert(s@ == validation_error_text(self.internal(), Seq::empty()));
                s
            },
            InternalValidationError::TxOutContainsKeyPaths => {
                let s = "proposed transaction outputs contain key paths".to_owned();
                assert(s@ == validation_error_text(self.internal(), Seq::empty()));
                s
            },
            InternalValidationError::FeeContributionExceedsMaximum => {
                let s = "fee contribution exceeds allowed maximum".to_owned();
                assert(s@ == validation_error_text(self.internal(), Seq::empty()));
                s
            },
            InternalValidationError::DisallowedOutputSubstitution => {
                let s = "the receiver change output despite it being disallowed".to_owned();
                assert(s@ == validation_error_text(self.internal(), Seq::empty()));
                s
            },
            InternalValidationError::OutputValueDecreased => {
                let s = "the amount in our non-fee output was decreased".to_owned();
                assert(s@ == validation_error_text(self.internal(), Seq::empty()));
                s
            },
            InternalValidationError::MissingOrShuffledOutputs => {
                let s = "proposed transaction is missing outputs of the sender or they are shuffled".to_owned();
                assert(s@ == validation_error_text(self.internal(), Seq::empty()));
                s
            },
            InternalValidationError::Inflation => {
                let s = "proposed transaction is attempting inflation".to_owned();
                assert(s@ == validation_error_text(self.internal(), Seq::empty()));
                s
            },
            InternalValidationError::AbsoluteFeeDecreased => {
                let s = "abslute fee of proposed transaction is lower than original".to_owned();
                assert(s@ == validation_error_text(self.internal(), Seq::empty()));
                s
            },
            InternalValidationError::PayeeTookContributedFee => {
                let s = "payee tried to take fee contribution for himself".to_owned();
                assert(s@ == validation_error_text(self.internal(), Seq::empty()));
                s
            },
            InternalValidationError::FeeContributionPaysOutputSizeIncrease => {
                let s = "fee contribution pays for additional outputs".to_owned();
                assert(s@ == validation_error_text(self.internal(), Seq::empty()));
                s
            },
            InternalValidationError::FeeRateBelowMinimum => {
                let s = "the fee rate of proposed transaction is below minimum".to_owned();
                assert(s@ == validation_error_text(self.internal(), Seq::empty()));
                s
            },
            InternalValidationError::Psbt(e) => {
                let mut s = "psbt error: ".to_owned();
                let a = psbt_error_text(e);
                s.append(a.as_str());
                assert(s@ == validation_error_text(self.internal(), a@));
                s
            },
        }
    }
}

/// The error a validation error was caused by.
pub enum ValidationErrorSource<'a> {
    Io(&'a std::io::Error),
    Psbt(&'a bitcoin::psbt::Error),
}

impl ValidationError {
    /// The error this one was caused by: the I/O error of a PSBT that could not be
    /// read, or a PSBT error; no other validation error has one.
    pub fn source(&self) -> (r: Option<ValidationErrorSource<'_>>)
        ensures
            match r {
                Some(ValidationErrorSource::Io(e)) => self.internal() == InternalValidationError::Io(*e),
                Some(ValidationErrorSource::Psbt(e)) => self.internal() == InternalValidationError::Psbt(*e),
                None => !(self.internal() is Io) && !(self.internal() is Psbt),
            },
    {
        match &self.internal {
            InternalValidationError::Io(e) => Some(ValidationErrorSource::Io(e)),
            InternalValidationError::Psbt(e) => Some(ValidationErrorSource::Psbt(e)),
            _ => None,
        }
    }
}

impl From<InternalValidationError> for ValidationError {
    fn from(value: InternalValidationError) -> (r: ValidationError)
        ensures
            r.internal() == value,
    {
        ValidationError { internal: value }
    }
}

impl vstd::std_specs::convert::FromSpecImpl<InternalValidationError> for ValidationError {
    open spec fn obeys_from_spec() -> bool {
        true
    }

    closed spec fn from_spec(value: InternalValidationError) -> ValidationError {
        ValidationError { internal: value }
    }
}

/// Why a request could not be created.
#[derive(Debug)]
pub enum InternalCreateRequestError {
    NoInputs,
    PayeeValueNotEqual,
    NoOutputs,
    MultiplePayeeOutputs,
    MissingPayeeOutput,
    FeeOutputValueLowerThanFeeContribution,
    AmbiguousChangeOutput,
    ChangeIndexOutOfBounds,
    ChangeIndexPointsAtPayee,
    Url(UrlParseError),
    UriDoesNotSupportPayjoin,
    SubdirectoryNotBase64(Base64DecodeError),
    SubdirectoryInvalidPubkey(Secp256k1Error),
    MissingOhttpConfig,
}

/// Error returned when a request could not be created.
///
/// This can only happen through a mistake of the caller.
#[derive(Debug)]
pub struct CreateRequestError(InternalCreateRequestError);

/// The error a request error was caused by.
pub enum CreateRequestErrorSource<'a> {
    Url(&'a UrlParseError),
    SubdirectoryNotBase64(&'a Base64DecodeError),
    SubdirectoryInvalidPubkey(&'a Secp256k1Error),
}

impl CreateRequestError {
    /// The error this one was caused by: a URL, base64 or secp256k1 error; no other
    /// request error has one.
    pub fn source(&self) -> (r: Option<CreateRequestErrorSource<'_>>)
        ensures
            match r {
                Some(CreateRequestErrorSource::Url(e)) => self.internal() == InternalCreateRequestError::Url(*e),
                Some(CreateRequestErrorSource::SubdirectoryNotBase64(e)) => self.internal()
                    == InternalCreateRequestError::SubdirectoryNotBase64(*e),
                Some(CreateRequestErrorSource::SubdirectoryInvalidPubkey(e)) => self.internal()
                    == InternalCreateRequestError::SubdirectoryInvalidPubkey(*e),
                None => !(self.internal() is Url) && !(self.internal() is SubdirectoryNotBase64)
                    && !(self.internal() is SubdirectoryInvalidPubkey),
            },
    {
        match &self.0 {
            InternalCreateRequestError::Url(e) => Some(CreateRequestErrorSource::Url(e)),
            InternalCreateRequestError::SubdirectoryNotBase64(e) => Some(
                CreateRequestErrorSource::SubdirectoryNotBase64(e),
            ),
            InternalCreateRequestError::SubdirectoryInvalidPubkey(e) => Some(
                CreateRequestErrorSource::SubdirectoryInvalidPubkey(e),
            ),
            _ => None,
        }
    }
}

impl From<InternalCreateRequestError> for CreateRequestError {
    fn from(value: InternalCreateRequestError) -> (r: CreateRequestError)
        ensures
            r.internal() == value,
    {
        CreateRequestError(value)
    }
}

impl vstd::std_specs::convert::FromSpecImpl<InternalCreateRequestError> for CreateRequestError {
    open spec fn obeys_from_spec() -> bool {
        true
    }

    closed spec fn from_spec(value: InternalCreateRequestError) -> CreateRequestError {
        CreateRequestError(value)
    }
}

/// The text of a request error: a fixed sentence, followed by the pretty-printed
/// `Debug` of a URL parse error, or the `Display` of a base64 or secp256k1 error.
pub open spec fn create_request_error_text(e: InternalCreateRequestError) -> Seq<char> {
    match e {
        InternalCreateRequestError::NoInputs => "the original transaction has no inputs"@,
        InternalCreateRequestError::PayeeValueNotEqual => "the value in original transaction doesn't equal value requested in the payment link"@,
        InternalCreateRequestError::NoOutputs => "the original transaction has no outputs"@,
        InternalCreateRequestError::MultiplePayeeOutputs => "the original transaction has more than one output belonging to the payee"@,
        InternalCreateRequestError::MissingPayeeOutput => "the output belonging to payee is missing from the original transaction"@,
        InternalCreateRequestError::FeeOutputValueLowerThanFeeContribution => "the value of fee output is lower than maximum allowed contribution"@,
        InternalCreateRequestError::AmbiguousChangeOutput => "can not determine which output is change because there's more than two outputs"@,
        InternalCreateRequestError::ChangeIndexOutOfBounds => "fee output index is points out of bounds"@,
        InternalCreateRequestError::ChangeIndexPointsAtPayee => "fee output index is points at output belonging to the payee"@,
        InternalCreateRequestError::Url(u) => "cannot parse url: "@ + url_parse_error_debug(u),
        InternalCreateRequestError::UriDoesNotSupportPayjoin => "the URI does not support payjoin"@,
        InternalCreateRequestError::SubdirectoryNotBase64(d) => "subdirectory is not valid base64 error: "@
            + base64_error_text(d),
        InternalCreateRequestError::SubdirectoryInvalidPubkey(k) => "subdirectory does not represent a valid pubkey: "@
            + secp256k1_error_text(k),
        InternalCreateRequestError::MissingOhttpConfig => "no ohttp configuration with which to make a v2 request available"@,
    }
}

impl CreateRequestError {
    /// What went wrong.
    pub closed spec fn internal(&self) -> InternalCreateRequestError {
        self.0
    }

    /// The error as text, as its `Display` writes it.
    pub fn to_string(&self) -> (r: String)
        ensures
            r@ == create_request_error_text(self.internal()),
    {
        match &self.0 {
            InternalCreateRequestError::NoInputs => {
                let s = "the original transaction has no inputs".to_owned();
                assert(s@ == create_request_error_text(self.internal()));
                s
            },
            InternalCreateRequestError::PayeeValueNotEqual => {
                let s = "the value in original transaction doesn't equal value requested in the payment link".to_owned();
                assert(s@ == create_request_error_text(self.internal()));
                s
            },
            InternalCreateRequestError::NoOutputs => {
                let s = "the original transaction has no outputs".to_owned();
                assert(s@ == create_request_error_text(self.internal()));
                s
            },
            InternalCreateRequestError::MultiplePayeeOutputs => {
                let s = "the original transaction has more than one output belonging to the payee".to_owned();
                assert(s@ == create_request_error_text(self.internal()));
                s
            },
            InternalCreateRequestError::MissingPayeeOutput => {
                let s = "the output belonging to payee is missing from the original transaction".to_owned();
                assert(s@ == create_request_error_text(self.internal()));
                s
            },
            InternalCreateRequestError::FeeOutputValueLowerThanFeeContribution => {
                let s = "the value of fee output is lower than maximum allowed contribution".to_owned();
                assert(s@ == create_request_error_text(self.internal()));
                s
            },
            InternalCreateRequestError::AmbiguousChangeOutput => {
                let s = "can not determine which output is change because there's more than two outputs".to_owned();
                assert(s@ == create_request_error_text(self.internal()));
                s
            },
            InternalCreateRequestError::ChangeIndexOutOfBounds => {
                let s = "fee output index is points out of bounds".to_owned();
                assert(s@ == create_request_error_text(self.internal()));
                s
            },
            InternalCreateRequestError::ChangeIndexPointsAtPayee => {
                let s = "fee output index is points at output belonging to the payee".to_owned();
                assert(s@ == create_request_error_text(self.internal()));
                s
            },
            InternalCreateRequestError::Url(e) => {
                let mut s = "cannot parse url: ".to_owned();
                let a = e.debug_string();
                s.append(a.as_str());
                assert(s@ == create_request_error_text(self.internal()));
                s
            },
            InternalCreateRequestError::UriDoesNotSupportPayjoin => {
                let s = "the URI does not support payjoin".to_owned();
                assert(s@ == create_request_error_text(self.internal()));
                s
            },
            InternalCreateRequestError::SubdirectoryNotBase64(e) => {
                let mut s = "subdirectory is not valid base64 error: ".to_owned();
                let a = e.to_string();
                s.append(a.as_str());
                assert(s@ == create_request_error_text(self.internal()));
                s
            },
            InternalCreateRequestError::SubdirectoryInvalidPubkey(e) => {
                let mut s = "subdirectory does not represent a valid pubkey: ".to_owned();
                let a = e.to_string();
                s.append(a.as_str());
                assert(s@ == create_request_error_text(self.internal()));
                s
            },
            InternalCreateRequestError::MissingOhttpConfig => {
                let s = "no ohttp configuration with which to make a v2 request available".to_owned();
                assert(s@ == create_request_error_text(self.internal()));
                s
            },
        }
    }
}


/// A well-known error returned by the payjoin receiver, as listed in BIP78.
///
/// Each variant carries the human-readable `message` the receiver sent.
#[derive(Debug, Clone, PartialEq, Eq)]
pub enum WellKnownError {
    Unavailable(String),
    NotEnoughMoney(String),
    VersionUnsupported(String, Vec<u64>),
    OriginalPsbtRejected(String),
}

/// The BIP78 `errorCode` string of a well-known error.
pub open spec fn spec_error_code(e: WellKnownError) -> Seq<char> {
    match e {
        WellKnownError::Unavailable(_) => "unavailable"@,
        WellKnownError::NotEnoughMoney(_) => "not-enough-money"@,
        WellKnownError::VersionUnsupported(_, _) => "version-unsupported"@,
        WellKnownError::OriginalPsbtRejected(_) => "original-psbt-rejected"@,
    }
}

/// The message carried by a well-known error.
pub open spec fn spec_message(e: WellKnownError) -> Seq<char> {
    match e {
        WellKnownError::Unavailable(m) => m@,
        WellKnownError::NotEnoughMoney(m) => m@,
        WellKnownError::VersionUnsupported(m, _) => m@,
        WellKnownError::OriginalPsbtRejected(m) => m@,
    }
}

impl WellKnownError {
    /// The BIP78 `errorCode` of the error.
    pub fn error_code(&self) -> (code: &str)
        ensures
            code@ == spec_error_code(*self),
    {
        match self {
            WellKnownError::Unavailable(_) => "unavailable",
            WellKnownError::NotEnoughMoney(_) => "not-enough-money",
            WellKnownError::VersionUnsupported(_, _) => "version-unsupported",
            WellKnownError::OriginalPsbtRejected(_) => "original-psbt-rejected",
        }
    }

    /// The message the receiver sent with the error.
    pub fn message(&self) -> (m: &str)
        ensures
            m@ == spec_message(*self),
    {
        match self {
            WellKnownError::Unavailable(m) => m.as_str(),
            WellKnownError::NotEnoughMoney(m) => m.as_str(),
            WellKnownError::VersionUnsupported(m, _) => m.as_str(),
            WellKnownError::OriginalPsbtRejected(m) => m.as_str(),
        }
    }
}


/// The text of a well-known error, as its `Display` writes it: a fixed sentence,
/// naming the supported versions when the version is unsupported.
pub open spec fn well_known_error_text(e: WellKnownError) -> Seq<char> {
    match e {
        WellKnownError::Unavailable(_) => "The payjoin endpoint is not available for now."@,
        WellKnownError::NotEnoughMoney(_) => "The receiver added some inputs but could not bump the fee of the payjoin proposal."@,
        WellKnownError::VersionUnsupported(_, v) => "This version of payjoin is not supported. Use version "@
            + "["@ + decimal_list(v@) + "]"@ + "."@,
        WellKnownError::OriginalPsbtRejected(_) => "The receiver rejected the original PSBT."@,
    }
}

impl WellKnownError {
    /// The error as text, as its `Display` writes it.
    pub fn to_string(&self) -> (r: String)
        ensures
            r@ == well_known_error_text(*self),
    {
        match self {
            WellKnownError::Unavailable(_) => "The payjoin endpoint is not available for now.".to_owned(),
            WellKnownError::NotEnoughMoney(_) => "The receiver added some inputs but could not bump the fee of the payjoin proposal.".to_owned(),
            WellKnownError::VersionUnsupported(_, v) => {
                let mut s = "This version of payjoin is not supported. Use version ".to_owned();
                s.append("[");
                push_decimal_list(&mut s, v);
                s.append("]");
                s.append(".");
                s
            },
            WellKnownError::OriginalPsbtRejected(_) => "The receiver rejected the original PSBT.".to_owned(),
        }
    }
}

/// An error returned by the payjoin receiver.
pub enum ResponseError {
    /// An error listed in BIP78, shown to end users.
    WellKnown(WellKnownError),
    /// An error that is not well known, with its `errorCode` and `message`; shown
    /// only in debug output.
    Unrecognized(String, String),
    /// A malformed response; shown only in debug output.
    Validation(ValidationError),
}

impl From<WellKnownError> for ResponseError {
    fn from(value: WellKnownError) -> (r: ResponseError) {
        ResponseError::WellKnown(value)
    }
}

impl vstd::std_specs::convert::FromSpecImpl<WellKnownError> for ResponseError {
    open spec fn obeys_from_spec() -> bool {
        true
    }

    open spec fn from_spec(value: WellKnownError) -> ResponseError {
        ResponseError::WellKnown(value)
    }
}

impl From<InternalValidationError> for ResponseError {
    fn from(value: InternalValidationError) -> (r: ResponseError)
        ensures
            r matches ResponseError::Validation(e) && e.internal() == value,
    {
        ResponseError::Validation(ValidationError { internal: value })
    }
}

impl vstd::std_specs::convert::FromSpecImpl<InternalValidationError> for ResponseError {
    open spec fn obeys_from_spec() -> bool {
        true
    }

    closed spec fn from_spec(value: InternalValidationError) -> ResponseError {
        ResponseError::Validation(ValidationError { internal: value })
    }
}

/// The text of the JSON string member `key` of `j`.
pub open spec fn json_text_member(j: Json, key: Seq<char>) -> Option<Seq<char>> {
    json_as_str(json_member(j, key))
}

/// The `message` of an error response: the text of its `message` member, or the
/// empty text.
pub open spec fn response_message(j: Json) -> Seq<char> {
    match json_text_member(j, "message"@) {
        Some(m) => m,
        None => Seq::empty(),
    }
}

/// The versions an error response says are supported: the unsigned integers of
/// its `supported` array, or none.
pub open spec fn response_supported(j: Json) -> Seq<u64> {
    match json_as_array(json_member(j, "supported"@)) {
        Some(items) => json_u64s(items),
        None => Seq::empty(),
    }
}

/// Whether `r` is the error that the JSON error response `j` describes.
///
/// Without a text `errorCode` the response is malformed. A well-known code gives
/// the well-known error, with the response's message (and, for an unsupported
/// version, the supported versions); any other code is kept with the message.
pub open spec fn is_response_error_of(r: ResponseError, j: Json) -> bool {
    let message = response_message(j);
    match json_text_member(j, "errorCode"@) {
        None => r matches ResponseError::Validation(e) && e.internal() is Parse,
        Some(code) => if code == "version-unsupported"@ {
            r matches ResponseError::WellKnown(WellKnownError::VersionUnsupported(m, v)) && (m@ == message
                && v@ == response_supported(j))
        } else if code == "unavailable"@ {
            r matches ResponseError::WellKnown(WellKnownError::Unavailable(m)) && m@ == message
        } else if code == "not-enough-money"@ {
            r matches ResponseError::WellKnown(WellKnownError::NotEnoughMoney(m)) && m@ == message
        } else if code == "original-psbt-rejected"@ {
            r matches ResponseError::WellKnown(WellKnownError::OriginalPsbtRejected(m)) && m@ == message
        } else {
            r matches ResponseError::Unrecognized(c, m) && (c@ == code && m@ == message)
        },
    }
}

/// The text of a response error, as its `Display` writes it; `a` stands for the
/// text of the I/O error a validation error carries, as that error's own `Display`
/// writes it.
pub open spec fn response_error_text(r: ResponseError, a: Seq<char>) -> Seq<char> {
    match r {
        ResponseError::WellKnown(e) => well_known_error_text(e),
        ResponseError::Unrecognized(_, _) => "The receiver sent an unrecognized error."@,
        ResponseError::Validation(e) => "The receiver sent an invalid response: "@
            + validation_error_text(e.internal(), a),
    }
}

/// Whether `r` asks for version `v`: it says the version is unsupported and lists `v`.
pub open spec fn spec_requires_version(r: ResponseError, v: u64) -> bool {
    r matches ResponseError::WellKnown(WellKnownError::VersionUnsupported(_, supported))
        && supported@.contains(v)
}

impl ResponseError {
    /// The error a JSON error response describes.
    pub fn from_json(json: Json) -> (r: ResponseError)
        ensures
            is_response_error_of(r, json),
    {
        proof {
            reveal_strlit("version-unsupported");
            reveal_strlit("unavailable");
            reveal_strlit("not-enough-money");
            reveal_strlit("original-psbt-rejected");
        }
        let message: String = match json.member("message") {
            Some(v) => match v.as_str() {
                Some(m) => m.to_owned(),
                None => String::new(),
            },
            None => String::new(),
        };
        assert(message@ == response_message(json));
        let code: Option<&str> = match json.member("errorCode") {
            Some(v) => v.as_str(),
            None => None,
        };
        assert(match code {
            Some(c) => json_text_member(json, "errorCode"@) == Some(c@),
            None => json_text_member(json, "errorCode"@) is None,
        });
        match code {
            Some(error_code) => {
                if str_eq(error_code, "version-unsupported") {
                    let supported: Vec<u64> = match json.member("supported") {
                        Some(Json::Array(items)) => u64s_of(items),
                        _ => Vec::new(),
                    };
                    assert(supported@ == response_supported(json));
                    ResponseError::WellKnown(WellKnownError::VersionUnsupported(message, supported))
                } else if str_eq(error_code, "unavailable") {
                    ResponseError::WellKnown(WellKnownError::Unavailable(message))
                } else if str_eq(error_code, "not-enough-money") {
                    ResponseError::WellKnown(WellKnownError::NotEnoughMoney(message))
                } else if str_eq(error_code, "original-psbt-rejected") {
                    ResponseError::WellKnown(WellKnownError::OriginalPsbtRejected(message))
                } else {
                    ResponseError::Unrecognized(error_code.to_owned(), message)
                }
            },
            None => ResponseError::Validation(ValidationError { internal: InternalValidationError::Parse }),
        }
    }

    /// Parses a response from the receiver, which must be a JSON error response.
    pub fn parse(response: &str) -> (r: ResponseError)
        ensures
            match json_parse(response@) {
                Some(j) => is_response_error_of(r, j),
                None => r matches ResponseError::Validation(e) && e.internal() is Parse,
            },
    {
        match Json::parse(response) {
            Some(json) => Self::from_json(json),
            None => ResponseError::Validation(ValidationError { internal: InternalValidationError::Parse }),
        }
    }

    /// Whether the receiver asks for version `v` of payjoin: it answered that the
    /// version is unsupported and listed `v` among the supported ones.
    pub fn requires_version(&self, v: &u64) -> (r: bool)
        ensures
            r == spec_requires_version(*self, *v),
    {
        match self {
            ResponseError::WellKnown(WellKnownError::VersionUnsupported(m, supported)) => {
                let n = supported.len();
                let mut i: usize = 0;
                while i < n
                    invariant
                        *self == ResponseError::WellKnown(WellKnownError::VersionUnsupported(*m, *supported)),
                        n == supported@.len(),
                        i <= n,
                        forall|j: int| 0 <= j < i ==> supported@[j] != *v,
                    decreases n - i,
                {
                    if supported[i] == *v {
                        assert(supported@[i as int] == *v);
                        return true;
                    }
                    i = i + 1;
                }
                false
            },
            _ => false,
        }
    }

    /// The error as text, as its `Display` writes it: well-known errors are shown,
    /// the others only summarised.
    pub fn to_string(&self) -> (r: String)
        ensures
            exists|a: Seq<char>| r@ == response_error_text(*self, a),
    {
        match self {
            ResponseError::WellKnown(e) => {
                let s = e.to_string();
                assert(s@ == response_error_text(*self, Seq::empty()));
                s
            },
            ResponseError::Unrecognized(_, _) => {
                let s = "The receiver sent an unrecognized error.".to_owned();
                assert(s@ == response_error_text(*self, Seq::empty()));
                s
            },
            ResponseError::Validation(e) => {
                let mut s = "The receiver sent an invalid response: ".to_owned();
                let t = e.to_string();
                s.append(t.as_str());
                let ghost a = choose|a: Seq<char>| t@ == validation_error_text(e.internal(), a);
                assert(s@ == response_error_text(*self, a));
                s
            },
        }
    }
}

/// Formats an I/O error with its `Debug`.
/// Trusted without a postcondition: the error is opaque to contracts.
#[verifier::external_body]
fn io_error_debug(e: &std::io::Error) -> (r: String) {
    format!("{:?}", e)
}

/// Formats a PSBT error with its derived `Debug`.
/// Trusted without a postcondition: the text of an I/O error the PSBT error holds is
/// the platform's, so no name is given to this text.
#[verifier::external_body]
fn psbt_error_debug(e: &bitcoin::psbt::Error) -> (r: String) {
    format!("{:?}", e)
}

/// The name of a validation error as its derived `Debug` writes it, with the values
/// it carries; `a` stands for the text of the error it carries, if any, as that
/// error's own `Debug` writes it (an I/O error or a PSBT error).
pub open spec fn internal_validation_error_debug(e: InternalValidationError, a: Seq<char>) -> Seq<char> {
    match e {
        InternalValidationError::Parse => "Parse"@,
        InternalValidationError::Io(_) => "Io("@ + a + ")"@,
        InternalValidationError::VersionsDontMatch { proposed, original } => "VersionsDontMatch { proposed: "@
            + signed_decimal(proposed as int) + ", original: "@ + signed_decimal(original as int) + " }"@,
        InternalValidationError::LockTimesDontMatch { proposed, original } => "LockTimesDontMatch { proposed: "@
            + lock_time_debug(proposed) + ", original: "@ + lock_time_debug(original) + " }"@,
        InternalValidationError::SenderTxinSequenceChanged { proposed, original } =>
            "SenderTxinSequenceChanged { proposed: "@ + sequence_debug(proposed) + ", original: "@
            + sequence_debug(original) + " }"@,
        InternalValidationError::SenderTxinContainsNonWitnessUtxo => "SenderTxinContainsNonWitnessUtxo"@,
        InternalValidationError::SenderTxinContainsWitnessUtxo => "SenderTxinContainsWitnessUtxo"@,
        InternalValidationError::SenderTxinContainsFinalScriptSig => "SenderTxinContainsFinalScriptSig"@,
        InternalValidationError::SenderTxinContainsFinalScriptWitness => "SenderTxinContainsFinalScriptWitness"@,
        InternalValidationError::TxInContainsKeyPaths => "TxInContainsKeyPaths"@,
        InternalValidationError::ContainsPartialSigs => "ContainsPartialSigs"@,
        InternalValidationError::ReceiverTxinNotFinalized => "ReceiverTxinNotFinalized"@,
        InternalValidationError::ReceiverTxinMissingUtxoInfo => "ReceiverTxinMissingUtxoInfo"@,
        InternalValidationError::MixedSequence => "MixedSequence"@,
        InternalValidationError::MissingOrShuffledInputs => "MissingOrShuffledInputs"@,
        InternalValidationError::TxOutContainsKeyPaths => "TxOutContainsKeyPaths"@,
        InternalValidationError::FeeContributionExceedsMaximum => "FeeContributionExceedsMaximum"@,
        InternalValidationError::DisallowedOutputSubstitution => "DisallowedOutputSubstitution"@,
        InternalValidationError::OutputValueDecreased => "OutputValueDecreased"@,
        InternalValidationError::MissingOrShuffledOutputs => "MissingOrShuffledOutputs"@,
        InternalValidationError::Inflation => "Inflation"@,
        InternalValidationError::AbsoluteFeeDecreased => "AbsoluteFeeDecreased"@,
        InternalValidationError::PayeeTookContributedFee => "PayeeTookContributedFee"@,
        InternalValidationError::FeeContributionPaysOutputSizeIncrease => "FeeContributionPaysOutputSizeIncrease"@,
        InternalValidationError::FeeRateBelowMinimum => "FeeRateBelowMinimum"@,
        InternalValidationError::Psbt(_) => "Psbt("@ + a + ")"@,
    }
}

/// The text of a validation error as its derived `Debug` writes it.
pub open spec fn validation_error_debug(e: InternalValidationError, a: Seq<char>) -> Seq<char> {
    "ValidationError { internal: "@ + internal_validation_error_debug(e, a) + " }"@
}

impl ValidationError {
    /// The error as text, as its derived `Debug` writes it.
    pub fn debug_string(&self) -> (r: String)
        ensures
            exists|a: Seq<char>| r@ == validation_error_debug(self.internal(), a),
    {
        let mut s = "ValidationError { internal: ".to_owned();
        let ghost start = s@;
        let ghost mut a: Seq<char> = Seq::empty();
        match &self.internal {
            InternalValidationError::Parse => {
                s.append("Parse");
            },
            InternalValidationError::Io(e) => {
                let t = io_error_debug(e);
                s.append("Io(");
                s.append(t.as_str());
                s.append(")");
                proof { a = t@; }
            },
            InternalValidationError::VersionsDontMatch { proposed, original } => {
                s.append("VersionsDontMatch { proposed: ");
                push_signed_decimal(&mut s, *proposed);
                s.append(", original: ");
                push_signed_decimal(&mut s, *original);
                s.append(" }");
            },
            InternalValidationError::LockTimesDontMatch { proposed, original } => {
                let t = proposed.debug_string();
                let u = original.debug_string();
                s.append("LockTimesDontMatch { proposed: ");
                s.append(t.as_str());
                s.append(", original: ");
                s.append(u.as_str());
                s.append(" }");
            },
            InternalValidationError::SenderTxinSequenceChanged { proposed, original } => {
                let t = proposed.debug_string();
                let u = original.debug_string();
                s.append("SenderTxinSequenceChanged { proposed: ");
                s.append(t.as_str());
                s.append(", original: ");
                s.append(u.as_str());
                s.append(" }");
            },
            InternalValidationError::SenderTxinContainsNonWitnessUtxo => {
                s.append("SenderTxinContainsNonWitnessUtxo");
            },
            InternalValidationError::SenderTxinContainsWitnessUtxo => {
                s.append("SenderTxinContainsWitnessUtxo");
            },
            InternalValidationError::SenderTxinContainsFinalScriptSig => {
                s.append("SenderTxinContainsFinalScriptSig");
            },
            InternalValidationError::SenderTxinContainsFinalScriptWitness => {
                s.append("SenderTxinContainsFinalScriptWitness");
            },
            InternalValidationError::TxInContainsKeyPaths => {
                s.append("TxInContainsKeyPaths");
            },
            InternalValidationError::ContainsPartialSigs => {
                s.append("ContainsPartialSigs");
            },
            InternalValidationError::ReceiverTxinNotFinalized => {
                s.append("ReceiverTxinNotFinalized");
            },
            InternalValidationError::ReceiverTxinMissingUtxoInfo => {
                s.append("ReceiverTxinMissingUtxoInfo");
            },
            InternalValidationError::MixedSequence => {
                s.append("MixedSequence");
            },
            InternalValidationError::MissingOrShuffledInputs => {
                s.append("MissingOrShuffledInputs");
            },
            InternalValidationError::TxOutContainsKeyPaths => {
                s.append("TxOutContainsKeyPaths");
            },
            InternalValidationError::FeeContributionExceedsMaximum => {
                s.append("FeeContributionExceedsMaximum");
            },
            InternalValidationError::DisallowedOutputSubstitution => {
                s.append("DisallowedOutputSubstitution");
            },
            InternalValidationError::OutputValueDecreased => {
                s.append("OutputValueDecreased");
            },
            InternalValidationError::MissingOrShuffledOutputs => {
                s.append("MissingOrShuffledOutputs");
            },
            InternalValidationError::Inflation => {
                s.append("Inflation");
            },
            InternalValidationError::AbsoluteFeeDecreased => {
                s.append("AbsoluteFeeDecreased");
            },
            InternalValidationError::PayeeTookContributedFee => {
                s.append("PayeeTookContributedFee");
            },
            InternalValidationError::FeeContributionPaysOutputSizeIncrease => {
                s.append("FeeContributionPaysOutputSizeIncrease");
            },
            InternalValidationError::FeeRateBelowMinimum => {
                s.append("FeeRateBelowMinimum");
            },
            InternalValidationError::Psbt(e) => {
                let t = psbt_error_debug(e);
                s.append("Psbt(");
                s.append(t.as_str());
                s.append(")");
                proof { a = t@; }
            },
        }
        assert(s@ =~= start + internal_validation_error_debug(self.internal(), a));
        s.append(" }");
        assert(s@ =~= validation_error_debug(self.internal(), a));
        s
    }
}

/// The text of a response error as its `Debug` writes it; `a` stands for the text of
/// the error a validation error carries, as that error's own `Debug` writes it.
pub open spec fn response_error_debug(r: ResponseError, a: Seq<char>) -> Seq<char> {
    match r {
        ResponseError::WellKnown(e) => "Well known error: { \"errorCode\": \""@ + spec_error_code(e)
            + "\",\n                \"message\": \""@ + spec_message(e) + "\" }"@,
        ResponseError::Unrecognized(code, message) => "Unrecognized error: { \"errorCode\": \""@ + code@
            + "\", \"message\": \""@ + message@ + "\" }"@,
        ResponseError::Validation(e) => "Validation("@ + validation_error_debug(e.internal(), a) + ")"@,
    }
}

impl ResponseError {
    /// The error as text, as its `Debug` writes it: the code and message of a
    /// receiver's error, or the malformed response.
    pub fn debug_string(&self) -> (r: String)
        ensures
            exists|a: Seq<char>| r@ == response_error_debug(*self, a),
    {
        match self {
            ResponseError::WellKnown(e) => {
                let mut s = "Well known error: { \"errorCode\": \"".to_owned();
                s.append(e.error_code());
                s.append("\",\n                \"message\": \"");
                s.append(e.message());
                s.append("\" }");
                assert(s@ =~= response_error_debug(*self, Seq::empty()));
                s
            },
            ResponseError::Unrecognized(code, message) => {
                let mut s = "Unrecognized error: { \"errorCode\": \"".to_owned();
                s.append(code.as_str());
                s.append("\", \"message\": \"");
                s.append(message.as_str());
                s.append("\" }");
                assert(s@ =~= response_error_debug(*self, Seq::empty()));
                s
            },
            ResponseError::Validation(e) => {
                let mut s = "Validation(".to_owned();
                let t = e.debug_string();
                s.append(t.as_str());
                s.append(")");
                let ghost a = choose|a: Seq<char>| t@ == validation_error_debug(e.internal(), a);
                assert(s@ =~= response_error_debug(*self, a));
                s
            },
        }
    }
}

proof fn lemma_error_codes_differ()
    ensures
        "version-unsupported"@ != "unavailable"@,
        "version-unsupported"@ != "not-enough-money"@,
        "version-unsupported"@ != "original-psbt-rejected"@,
        "unavailable"@ != "not-enough-money"@,
        "unavailable"@ != "original-psbt-rejected"@,
        "not-enough-money"@ != "original-psbt-rejected"@,
{
    reveal_strlit("version-unsupported");
    reveal_strlit("unavailable");
    reveal_strlit("not-enough-money");
    reveal_strlit("original-psbt-rejected");
    assert("version-unsupported"@.len() != "unavailable"@.len());
    assert("version-unsupported"@.len() != "not-enough-money"@.len());
    assert("version-unsupported"@.len() != "original-psbt-rejected"@.len());
    assert("unavailable"@.len() != "not-enough-money"@.len());
    assert("unavailable"@.len() != "original-psbt-rejected"@.len());
    assert("not-enough-money"@.len() != "original-psbt-rejected"@.len());
}

/// A well-known error read from a response has the response's `errorCode` as its
/// code and the response's message as its message.
pub proof fn law_well_known_error_code(r: ResponseError, j: Json)
    requires
        is_response_error_of(r, j),
    ensures
        r matches ResponseError::WellKnown(e) ==> json_text_member(j, "errorCode"@) == Some(spec_error_code(e))
            && spec_message(e) == response_message(j),
{
    lemma_error_codes_differ();
}

/// An error read from a response asks for version `v` exactly when the response's
/// `errorCode` is `version-unsupported` and `v` is among its supported versions.
pub proof fn law_requires_version(r: ResponseError, j: Json, v: u64)
    requires
        is_response_error_of(r, j),
    ensures
        spec_requires_version(r, v) <==> (json_text_member(j, "errorCode"@) == Some("version-unsupported"@)
            && response_supported(j).contains(v)),
{
    lemma_error_codes_differ();
}

/// The versions a well-known error says are supported; none unless the version is
/// unsupported.
pub open spec fn supported_versions(e: WellKnownError) -> Seq<u64> {
    match e {
        WellKnownError::VersionUnsupported(_, v) => v@,
        _ => Seq::empty(),
    }
}

/// What end users are shown of a well-known error never holds the message the
/// receiver sent: two errors with the same code (and, for an unsupported version,
/// the same supported versions) read the same.
pub proof fn law_well_known_text_ignores_message(e1: WellKnownError, e2: WellKnownError)
    requires
        spec_error_code(e1) == spec_error_code(e2),
        supported_versions(e1) == supported_versions(e2),
    ensures
        well_known_error_text(e1) == well_known_error_text(e2),
{
    lemma_error_codes_differ();
}

/// What end users are shown of an unrecognized error never holds its code or
/// message.
pub proof fn law_unrecognized_text_hides_details(r: ResponseError, a: Seq<char>)
    requires
        r is Unrecognized,
    ensures
        response_error_text(r, a) == "The receiver sent an unrecognized error."@,
{
}

/// A malformed response is shown as a fixed prefix followed by the validation
/// error's own text, with the same text of the I/O error it carries; unless it
/// carries an I/O error, that text is fixed by the validation error alone.
pub proof fn law_invalid_response_text(e: ValidationError, a: Seq<char>, b: Seq<char>)
    ensures
        response_error_text(ResponseError::Validation(e), a) == "The receiver sent an invalid response: "@
            + validation_error_text(e.internal(), a),
        !(e.internal() is Io) ==> response_error_text(ResponseError::Validation(e), a)
            == response_error_text(ResponseError::Validation(e), b),
{
}

/// An error read from a response carries the response's whole `message` string as
/// its message, whatever its code; without a string `message` the message is empty.
pub proof fn law_response_keeps_message(r: ResponseError, j: Json)
    requires
        is_response_error_of(r, j),
    ensures
        json_member(j, "message"@) matches Some(Json::String(m)) ==> match r {
            ResponseError::WellKnown(WellKnownError::Unavailable(x)) => x@ == m@,
            ResponseError::WellKnown(WellKnownError::NotEnoughMoney(x)) => x@ == m@,
            ResponseError::WellKnown(WellKnownError::VersionUnsupported(x, _)) => x@ == m@,
            ResponseError::WellKnown(WellKnownError::OriginalPsbtRejected(x)) => x@ == m@,
            ResponseError::Unrecognized(_, x) => x@ == m@,
            ResponseError::Validation(_) => true,
        },
        !(json_member(j, "message"@) matches Some(Json::String(_))) ==> match r {
            ResponseError::WellKnown(WellKnownError::Unavailable(x)) => x@.len() == 0,
            ResponseError::WellKnown(WellKnownError::NotEnoughMoney(x)) => x@.len() == 0,
            ResponseError::WellKnown(WellKnownError::VersionUnsupported(x, _)) => x@.len() == 0,
            ResponseError::WellKnown(WellKnownError::OriginalPsbtRejected(x)) => x@.len() == 0,
            ResponseError::Unrecognized(_, x) => x@.len() == 0,
            ResponseError::Validation(_) => true,
        },
{
}

/// An error read from a response is the well-known error its string `errorCode`
/// names (`unavailable`, `not-enough-money`, `version-unsupported`,
/// `original-psbt-rejected`), or else an unrecognized error keeping that code; a
/// response without a string `errorCode` is malformed.
pub proof fn law_response_codes(r: ResponseError, j: Json)
    requires
        is_response_error_of(r, j),
    ensures
        json_member(j, "errorCode"@) matches Some(Json::String(c)) ==> {
            &&& (c@ == "unavailable"@ <==> r matches ResponseError::WellKnown(WellKnownError::Unavailable(_)))
            &&& (c@ == "not-enough-money"@ <==> r matches ResponseError::WellKnown(WellKnownError::NotEnoughMoney(_)))
            &&& (c@ == "version-unsupported"@ <==> r matches ResponseError::WellKnown(
                WellKnownError::VersionUnsupported(_, _),
            ))
            &&& (c@ == "original-psbt-rejected"@ <==> r matches ResponseError::WellKnown(
                WellKnownError::OriginalPsbtRejected(_),
            ))
            &&& (r is Unrecognized <==> !(c@ == "unavailable"@ || c@ == "not-enough-money"@ || c@
                == "version-unsupported"@ || c@ == "original-psbt-rejected"@))
            &&& (r matches ResponseError::Unrecognized(code, _) ==> code@ == c@)
        },
        !(json_member(j, "errorCode"@) matches Some(Json::String(_))) ==> (r matches ResponseError::Validation(e)
            && e.internal() is Parse),
{
    lemma_error_codes_differ();
}

} // verus!
