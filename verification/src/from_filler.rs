//! A filler that populates the `from` (sender) address of a transaction.
//!
//! The sender must be known before a nonce can be resolved (a nonce lookup
//! needs to know whose nonce to query), so in a typical composition this
//! filler runs before the others. It holds the address it was configured
//! with and never queries anything: resolution is purely local.
//!
//! A transaction whose sender was already set — by the user or by an earlier
//! pass — is never modified.

use vstd::prelude::*;

use crate::filler::FillerControlFlow;
use crate::filler::TxFiller;
use crate::tx::SendableTx;
use crate::tx::TxRequest;

verus! {

/// A filler that writes a configured sender address into transactions that
/// do not carry one yet.
#[derive(Clone, Copy)]
pub struct FromFiller(pub alloy_primitives::Address);

impl FromFiller {
    /// A filler configured with the sender address to fill in.
    pub fn new(address: alloy_primitives::Address) -> (r: Self)
        ensures
            r.0 == address,
    {
        FromFiller(address)
    }

    /// The resolution phase for the sender field: the configured address is
    /// already at hand, so no outside data is needed and the fillable
    /// carries no information. Infallible and free of I/O.
    pub fn prepare(&self, _tx: &TxRequest) -> (r: ())
        ensures
            r == (),
    {
    }
}

impl TxFiller for FromFiller {
    type Fillable = ();

    open spec fn target_set(&self, tx: TxRequest) -> bool {
        tx.from is Some
    }

    open spec fn apply(&self, fillable: (), tx: TxRequest) -> TxRequest {
        TxRequest { from: Some(self.0), gas_price: tx.gas_price }
    }

    proof fn apply_sets_target(&self, fillable: (), tx: TxRequest) {
    }

    fn status(&self, tx: &TxRequest) -> (r: FillerControlFlow) {
        if tx.has_from() {
            FillerControlFlow::Finished
        } else {
            FillerControlFlow::Ready
        }
    }

    fn fill(&self, fillable: (), tx: SendableTx) -> (r: SendableTx) {
        match tx {
            SendableTx::Builder(mut builder) => {
                if !builder.has_from() {
                    builder.set_from(self.0);
                }
                SendableTx::Builder(builder)
            },
            SendableTx::Envelope(envelope) => SendableTx::Envelope(envelope),
        }
    }
}

} // verus!
