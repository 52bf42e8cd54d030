//! A model of the transaction value the fillers operate on.
//!
//! A transaction is in one of two shapes: a mutable *builder*
//! ([`TxRequest`]), whose fields can still be set one by one, or a
//! *finalized* payload ([`TxEnvelope`]), immutable once assembled.
//! [`SendableTx`] is the tagged union of the two that flows through the
//! pipeline.
//!
//! Only the fields the fillers in this crate target are modeled: the sender
//! address and the gas price.

use vstd::prelude::*;

verus! {

/// Declares `alloy_primitives::Address` (a 20-byte account address) so that
/// it can be carried through verified code. The fillers never look inside an
/// address; they only store one and move it into a transaction.
#[verifier::external_type_specification]
#[verifier::external_body]
pub struct ExAddress(alloy_primitives::Address);

/// The mutable, pre-signature shape of a transaction: each targeted field is
/// either still absent or already set.
pub struct TxRequest {
    /// The sender address, if one has been set.
    pub from: Option<alloy_primitives::Address>,
    /// The gas price, if one has been set.
    pub gas_price: Option<u128>,
}

impl TxRequest {
    /// A fresh request with every field absent.
    pub fn new() -> (r: TxRequest)
        ensures
            r.from is None,
            r.gas_price is None,
    {
        TxRequest { from: None, gas_price: None }
    }

    /// Returns whether a sender address is present.
    pub fn has_from(&self) -> (r: bool)
        ensures
            r == (self.from is Some),
    {
        self.from.is_some()
    }

    /// Returns whether a gas price is present.
    pub fn has_gas_price(&self) -> (r: bool)
        ensures
            r == (self.gas_price is Some),
    {
        self.gas_price.is_some()
    }

    /// Sets the sender address, leaving every other field as it was.
    pub fn set_from(&mut self, from: alloy_primitives::Address)
        ensures
            final(self).from == Some(from),
            final(self).gas_price == old(self).gas_price,
    {
        self.from = Some(from);
    }

    /// Sets the gas price, leaving every other field as it was.
    pub fn set_gas_price(&mut self, gas_price: u128)
        ensures
            final(self).gas_price == Some(gas_price),
            final(self).from == old(self).from,
    {
        self.gas_price = Some(gas_price);
    }
}

/// The immutable, post-assembly shape of a transaction: every field is fixed.
pub struct TxEnvelope {
    /// The sender address.
    pub from: alloy_primitives::Address,
    /// The gas price.
    pub gas_price: u128,
}

/// A transaction value as it flows through the fill pipeline: either still a
/// mutable builder or an already-finalized payload that no filler may touch.
pub enum SendableTx {
    /// A builder whose fields can still be populated.
    Builder(TxRequest),
    /// A finalized payload; fillers leave it unchanged.
    Envelope(TxEnvelope),
}

impl SendableTx {
    /// Returns whether this value is still in builder form.
    pub fn is_builder(&self) -> (r: bool)
        ensures
            r == (self is Builder),
    {
        match self {
            SendableTx::Builder(_) => true,
            SendableTx::Envelope(_) => false,
        }
    }
}

} // verus!
