//! Runtime orchestration layer for a client holding contract state bound to a
//! Bitcoin-style UTXO wallet.
//!
//! The crate combines a persisted ledger of contract state (the stock) and a
//! UTXO-tracking wallet into one unit of work, the [`runtime::Runtime`]. It
//! covers: durable persistence of the contract-state store (load-or-initialize
//! on startup, flush on teardown), filtering chain outputs to those the wallet
//! controls, importing contracts and validating/accepting transfers, and one
//! error taxonomy unifying every failure domain the runtime touches.
//!
//! File reading and writing is left to the embedding program: the runtime
//! consumes the bytes read from disk and hands back the bytes to be written,
//! together with the path they belong to.

pub mod chain;
pub mod codec;
pub mod containers;
pub mod errors;
pub mod laws;
pub mod paths;
pub mod runtime;
pub mod stock;
pub mod validation;
pub mod wallet;
