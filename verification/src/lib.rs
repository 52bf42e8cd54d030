//! A composable pipeline for populating the missing fields of an outbound
//! transaction before it is signed.
//!
//! Each field is owned by one *filler*, a unit implementing the three-phase
//! protocol of a readiness check (`status`), a resolution step that produces
//! the value to apply (driven by the caller, since it may need a remote
//! query), and a mutation step (`fill`) that writes the value into the
//! transaction only when it is still absent.

pub mod cell;
pub mod filler;
pub mod from_filler;
pub mod gas_price;
pub mod tx;

pub use cell::WriteOnceCell;
pub use filler::FillerControlFlow;
pub use filler::TxFiller;
pub use from_filler::FromFiller;
pub use gas_price::GasPriceFiller;
pub use tx::SendableTx;
pub use tx::TxEnvelope;
pub use tx::TxRequest;
