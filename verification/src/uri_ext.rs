//! BIP21 URIs carrying payjoin extras, and telling payjoin-capable URIs apart.
//!
//! A URI is held field by field, as the `bip21` crate holds it; the address and the
//! label and message parameters are carried through unchanged, whatever their type.

use vstd::prelude::*;

use crate::uri::params::{Payjoin, PayjoinParams, spec_params};

verus! {

#[verifier::external_type_specification]
#[verifier::external_body]
pub struct ExAmount(bitcoin::Amount);

/// The fields of a BIP21 URI: the address, the amount requested, the label and
/// message parameters, and the extra parameters.
#[derive(Debug)]
pub struct Bip21Uri<A, P, X> {
    pub address: A,
    pub amount: Option<bitcoin::Amount>,
    pub label: Option<P>,
    pub message: Option<P>,
    pub extras: X,
}

/// The extras of a URI that has none.
#[derive(Clone, Copy, Debug, Default, PartialEq, Eq, Structural)]
pub struct NoExtras;

/// A BIP21 URI whose extras are the payjoin parameters it may carry.
pub type Uri<A, P> = Bip21Uri<A, P, Payjoin>;

/// A BIP21 URI that supports payjoin.
pub type PjUri<A, P> = Bip21Uri<A, P, PayjoinParams>;

impl<A, P, X> Bip21Uri<A, P, X> {
    /// A URI with an address and extras, and no amount, label or message.
    pub fn with_extras(address: A, extras: X) -> (r: Self)
        ensures
            r.address == address,
            r.amount is None,
            r.label is None,
            r.message is None,
            r.extras == extras,
    {
        Bip21Uri { address, amount: None, label: None, message: None, extras }
    }

    /// The URI with `address` in place of its address, every other field kept (as
    /// when the address's network has been checked).
    pub fn with_address<B>(self, address: B) -> (r: Bip21Uri<B, P, X>)
        ensures
            r.address == address,
            r.amount == self.amount,
            r.label == self.label,
            r.message == self.message,
            r.extras == self.extras,
    {
        Bip21Uri { address, amount: self.amount, label: self.label, message: self.message, extras: self.extras }
    }
}

/// Telling payjoin-capable URIs apart.
pub trait UriExt<A, P>: Sized {
    /// The URI with its payjoin parameters when it supports payjoin; otherwise the
    /// URI without extras.
    fn check_pj_supported(self) -> Result<PjUri<A, P>, Bip21Uri<A, P, NoExtras>>;
}

impl<A, P> UriExt<A, P> for Uri<A, P> {
    fn check_pj_supported(self) -> (r: Result<PjUri<A, P>, Bip21Uri<A, P, NoExtras>>)
        ensures
            match r {
                Ok(uri) => spec_params(self.extras@) == Some(uri.extras@)
                    && uri.address == self.address && uri.amount == self.amount
                    && uri.label == self.label && uri.message == self.message,
                Err(uri) => spec_params(self.extras@) is None
                    && uri.address == self.address && uri.amount == self.amount
                    && uri.label == self.label && uri.message == self.message,
            },
    {
        match self.extras {
            Payjoin::Supported(payjoin) | Payjoin::V2Only(payjoin) => {
                let mut uri = Bip21Uri::with_extras(self.address, payjoin);
                uri.amount = self.amount;
                uri.label = self.label;
                uri.message = self.message;
                Ok(uri)
            },
            Payjoin::Unsupported => {
                let mut uri = Bip21Uri::with_extras(self.address, NoExtras);
                uri.amount = self.amount;
                uri.label = self.label;
                uri.message = self.message;
                Err(uri)
            },
        }
    }
}

/// A BIP21 URI with payjoin extras.
#[derive(Debug)]
pub struct PayjoinUri<A, P, X> {
    pub inner: Bip21Uri<A, P, X>,
}

impl<A, P, X> From<Bip21Uri<A, P, X>> for PayjoinUri<A, P, X> {
    /// Wraps a BIP21 URI.
    fn from(value: Bip21Uri<A, P, X>) -> (r: Self)
        ensures
            r.inner == value,
    {
        PayjoinUri { inner: value }
    }
}

impl<A, P, X> vstd::std_specs::convert::FromSpecImpl<Bip21Uri<A, P, X>> for PayjoinUri<A, P, X> {
    open spec fn obeys_from_spec() -> bool {
        true
    }

    open spec fn from_spec(value: Bip21Uri<A, P, X>) -> PayjoinUri<A, P, X> {
        PayjoinUri { inner: value }
    }
}

impl<A, P> PayjoinUri<A, P, Payjoin> {
    /// A payjoin URI from its fields.
    pub fn new(
        address: A,
        extras: Payjoin,
        amount: Option<bitcoin::Amount>,
        label: Option<P>,
        message: Option<P>,
    ) -> (r: Self)
        ensures
            r.inner.address == address,
            r.inner.extras == extras,
            r.inner.amount == amount,
            r.inner.label == label,
            r.inner.message == message,
    {
        let mut uri = Bip21Uri::with_extras(address, extras);
        uri.amount = amount;
        uri.label = label;
        uri.message = message;
        PayjoinUri { inner: uri }
    }
}

} // verus!
