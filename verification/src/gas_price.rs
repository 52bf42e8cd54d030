//! A filler that populates the gas price of a transaction.
//!
//! The filler treats the gas price as a semi-static value worth caching for
//! its own lifetime: it holds a [`WriteOnceCell`] that is either
//! pre-populated with an explicit price at construction or filled at most
//! once from the first remote quote committed to it. The cache is never
//! invalidated or refreshed.
//!
//! Resolution runs in two steps, so that the remote query — the only part
//! that may suspend or fail — stays with the caller:
//!
//! 1. [`GasPriceFiller::prepare_cached`]: if the cache already holds a
//!    price, that price is the fillable and no query is needed.
//! 2. Otherwise the caller queries its provider for the current price and
//!    hands the quote to [`GasPriceFiller::prepare_fetched`], which commits
//!    it only if the cache is still empty and returns the price actually
//!    stored — so racing callers all end up with the single cached value.
//!
//! A transaction that already carries a gas price is never modified.

use vstd::prelude::*;

use crate::cell::WriteOnceCell;
use crate::cell::committed;
use crate::cell::committed_all;
use crate::cell::observations;
use crate::cell::observed;
use crate::filler::FillerControlFlow;
use crate::filler::TxFiller;
use crate::tx::SendableTx;
use crate::tx::TxRequest;

verus! {

/// A filler that writes a cached or freshly quoted gas price into
/// transactions that do not carry one yet.
pub struct GasPriceFiller(pub WriteOnceCell);

impl GasPriceFiller {
    /// A filler with an optional explicit gas price.
    ///
    /// With a price supplied, that price is cached from the start and used
    /// for every transaction, and no quote is ever needed. Without one, the
    /// first committed quote populates the cache and is used from then on.
    pub fn new(gas_price: Option<u128>) -> (r: Self)
        ensures
            r.0.value == gas_price,
    {
        GasPriceFiller(WriteOnceCell::new(gas_price))
    }

    /// The local step of resolution: the cached price, if there is one.
    /// `Some(price)` is the fillable, resolved with no query; `None` means
    /// the caller must obtain a quote and hand it to `prepare_fetched`.
    pub fn prepare_cached(&self) -> (r: Option<u128>)
        ensures
            r == self.0.value,
    {
        self.0.get()
    }

    /// The commit step of resolution after a quote was fetched: stores the
    /// quote only if the cache is still empty, and returns the price the
    /// cache holds afterwards. A quote that lost the race to an earlier
    /// commit is discarded, so every caller resolves to the one cached
    /// price.
    pub fn prepare_fetched(&mut self, fetched: u128) -> (r: u128)
        ensures
            final(self).0 == committed(old(self).0, fetched),
            r == observed(old(self).0, fetched),
            final(self).0.value == Some(r),
    {
        self.0.set_if_absent(fetched)
    }
}

impl TxFiller for GasPriceFiller {
    type Fillable = u128;

    open spec fn target_set(&self, tx: TxRequest) -> bool {
        tx.gas_price is Some
    }

    open spec fn apply(&self, fillable: u128, tx: TxRequest) -> TxRequest {
        TxRequest { from: tx.from, gas_price: Some(fillable) }
    }

    proof fn apply_sets_target(&self, fillable: u128, tx: TxRequest) {
    }

    fn status(&self, tx: &TxRequest) -> (r: FillerControlFlow) {
        if tx.has_gas_price() {
            FillerControlFlow::Finished
        } else {
            FillerControlFlow::Ready
        }
    }

    fn fill(&self, fillable: u128, tx: SendableTx) -> (r: SendableTx) {
        match tx {
            SendableTx::Builder(mut builder) => {
                if !builder.has_gas_price() {
                    builder.set_gas_price(fillable);
                }
                SendableTx::Builder(builder)
            },
            SendableTx::Envelope(envelope) => SendableTx::Envelope(envelope),
        }
    }
}

/// A filler constructed with an explicit price never needs a provider query:
/// `prepare_cached` answers every resolution with that price, and any
/// commits that happen anyway neither change the cache nor surface any value
/// but the configured price.
pub proof fn lemma_preset_price_short_circuits(price: u128, quotes: Seq<u128>)
    ensures
        committed_all(WriteOnceCell { value: Some(price) }, quotes) == (WriteOnceCell {
            value: Some(price),
        }),
        forall|i: int|
            0 <= i < quotes.len() ==> observations(WriteOnceCell { value: Some(price) }, quotes)[i]
                == price,
{
    crate::cell::lemma_populated_cell_is_constant(WriteOnceCell { value: Some(price) }, quotes);
}

/// Cache monotonicity under racing resolutions: starting from a filler with
/// an empty cache, however many quotes are committed and in whatever order
/// they arrive, the cache ends up holding exactly the first committed quote,
/// and every caller observes that single value — never a mix of quotes.
pub proof fn lemma_racing_prepares_agree(quotes: Seq<u128>)
    requires
        quotes.len() > 0,
    ensures
        committed_all(WriteOnceCell { value: None }, quotes).value == Some(quotes[0]),
        forall|i: int|
            0 <= i < quotes.len() ==> observations(WriteOnceCell { value: None }, quotes)[i]
                == quotes[0],
{
    crate::cell::lemma_write_once_consistent(quotes);
}

} // verus!
