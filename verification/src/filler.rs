//! The filler abstraction: one unit of field-population logic per
//! transaction field, implementing a three-phase protocol.
//!
//! Per pipeline pass a filler is driven in this order:
//!
//! 1. `status`: a cheap, side-effect-free check whether the filler's target
//!    field is already present in the transaction.
//! 2. resolution: producing the value to apply (the *fillable*). This phase
//!    is driven by the caller, since for some fillers it queries a remote
//!    data source; each filler exposes its own resolution entry points.
//! 3. `fill`: applying the fillable to the transaction. The field is written
//!    only when the transaction is still a builder **and** the field is
//!    still absent; a finalized payload is always returned unchanged.
//!
//! The pipeline iterates its fillers until every one reports
//! [`FillerControlFlow::Finished`].

use vstd::prelude::*;

use crate::tx::SendableTx;
use crate::tx::TxRequest;

verus! {

/// The state of one filler against one transaction.
#[derive(Clone, Copy, Debug, PartialEq, Eq, Structural)]
pub enum FillerControlFlow {
    /// The target field is still absent; resolution and `fill` must run.
    Ready,
    /// The target field is already set; this filler must not touch the
    /// transaction again.
    Finished,
}

/// What `status` reports for a filler against a builder: `Finished` exactly
/// when the filler's target field is already set.
pub open spec fn status_result<F: TxFiller>(f: &F, tx: TxRequest) -> FillerControlFlow {
    if f.target_set(tx) {
        FillerControlFlow::Finished
    } else {
        FillerControlFlow::Ready
    }
}

/// What `fill` returns: a finalized payload and a builder whose target field
/// is already set come back unchanged; only a builder whose target field is
/// still absent has the fillable applied.
pub open spec fn fill_result<F: TxFiller>(
    f: &F,
    fillable: F::Fillable,
    tx: SendableTx,
) -> SendableTx {
    match tx {
        SendableTx::Builder(b) => {
            if f.target_set(b) {
                SendableTx::Builder(b)
            } else {
                SendableTx::Builder(f.apply(fillable, b))
            }
        },
        SendableTx::Envelope(e) => SendableTx::Envelope(e),
    }
}

/// A unit of field-population logic owning exactly one field's policy.
///
/// Adding a field to the pipeline means adding one new implementer of this
/// trait; the protocol itself never changes.
pub trait TxFiller: Sized {
    /// The value `fill` applies: exactly the information resolution produced
    /// for this filler's field, and nothing about the transaction itself.
    type Fillable;

    /// Whether this filler's target field is already set in the builder.
    spec fn target_set(&self, tx: TxRequest) -> bool;

    /// The builder after the fillable has been written into the target
    /// field; every other field is the implementer's to leave alone.
    spec fn apply(&self, fillable: Self::Fillable, tx: TxRequest) -> TxRequest;

    /// Applying a fillable always leaves the target field set, so a filler
    /// that ran reports `Finished` from then on and the pipeline makes
    /// progress.
    proof fn apply_sets_target(&self, fillable: Self::Fillable, tx: TxRequest)
        ensures
            self.target_set(self.apply(fillable, tx)),
    ;

    /// Reports whether this filler still has work to do on `tx`. Pure and
    /// synchronous: no I/O, no side effects, no failure mode.
    fn status(&self, tx: &TxRequest) -> (r: FillerControlFlow)
        ensures
            r == FillerControlFlow::Finished <==> self.target_set(*tx),
            r == FillerControlFlow::Ready <==> !self.target_set(*tx),
    ;

    /// Applies `fillable` to the transaction and hands the transaction back.
    /// Writes the target field only when the transaction is a builder whose
    /// target field is still absent; in every other case the value comes
    /// back unchanged. Infallible: a finalized payload is never an error,
    /// only a no-op.
    fn fill(&self, fillable: Self::Fillable, tx: SendableTx) -> (r: SendableTx)
        ensures
            tx is Envelope ==> r == tx,
            tx matches SendableTx::Builder(b) ==> r == (if self.target_set(b) {
                tx
            } else {
                SendableTx::Builder(self.apply(fillable, b))
            }),
    ;
}

/// Idempotence of `fill`: on a builder whose target field is already set,
/// `fill` returns the transaction unchanged, whatever fillable is passed in.
pub proof fn lemma_fill_is_idempotent<F: TxFiller>(f: &F, fillable: F::Fillable, tx: TxRequest)
    requires
        f.target_set(tx),
    ensures
        fill_result(f, fillable, SendableTx::Builder(tx)) == SendableTx::Builder(tx),
{
}

/// Status/fill consistency: whenever `status` reports `Finished` for a
/// builder, a subsequent `fill` with any fillable returns it unchanged.
pub proof fn lemma_status_fill_consistent<F: TxFiller>(f: &F, fillable: F::Fillable, tx: TxRequest)
    requires
        status_result(f, tx) == FillerControlFlow::Finished,
    ensures
        fill_result(f, fillable, SendableTx::Builder(tx)) == SendableTx::Builder(tx),
{
}

/// Non-builder no-op: `fill` on a finalized payload returns it unchanged,
/// whatever fillable is passed in; it never errors.
pub proof fn lemma_fill_envelope_is_noop<F: TxFiller>(
    f: &F,
    fillable: F::Fillable,
    e: crate::tx::TxEnvelope,
)
    ensures
        fill_result(f, fillable, SendableTx::Envelope(e)) == SendableTx::Envelope(e),
{
}

/// Progress: after `fill` runs on any builder, the target field is set, so
/// `status` reports `Finished` on the result.
pub proof fn lemma_fill_finishes<F: TxFiller>(f: &F, fillable: F::Fillable, tx: TxRequest)
    ensures
        fill_result(f, fillable, SendableTx::Builder(tx)) matches SendableTx::Builder(b)
            && status_result(f, b) == FillerControlFlow::Finished,
{
    if !f.target_set(tx) {
        f.apply_sets_target(fillable, tx);
    }
}

} // verus!
