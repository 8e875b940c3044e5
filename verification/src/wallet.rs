//! The UTXO-tracking wallet as the runtime sees it: a key-derivation
//! descriptor and the enumeration of currently-tracked outputs.
//!
//! Key derivation, signing and the wallet's own on-disk format are owned by
//! the wallet subsystem; the runtime only consumes the tracked-output
//! enumeration and swaps whole wallet values in and out.

use vstd::prelude::*;

use crate::chain::Outpoint;

verus! {

/// One output currently tracked by the wallet: its chain coordinate and the
/// value it carries.
#[derive(Clone, Copy, Debug, PartialEq, Eq, Structural)]
pub struct Utxo {
    pub outpoint: Outpoint,
    pub value: u64,
}

/// The wallet as the runtime consumes it: the descriptor the wallet derives
/// keys from (opaque to this layer) and the outputs it currently tracks.
#[derive(Clone, Debug, PartialEq, Eq)]
pub struct Wallet {
    pub descriptor: String,
    pub utxos: Vec<Utxo>,
}

/// The mathematical model of a [`Wallet`].
#[verifier::ext_equal]
pub struct WalletModel {
    pub descriptor: Seq<char>,
    pub utxos: Seq<Utxo>,
}

impl View for Wallet {
    type V = WalletModel;

    open spec fn view(&self) -> WalletModel {
        WalletModel { descriptor: self.descriptor@, utxos: self.utxos@ }
    }
}

/// A failure surfaced from the wallet subsystem while loading a wallet.
#[derive(Clone, Debug, PartialEq, Eq)]
pub enum WalletFailure {
    /// No wallet exists where one was looked for.
    Absent,
    /// The wallet file could not be read.
    Io,
    /// The wallet file was read but could not be understood; carries a
    /// description.
    Format(String),
}

impl Wallet {
    /// A fresh wallet over the given descriptor, tracking no outputs yet.
    pub fn new(descriptor: String) -> (r: Wallet)
        ensures
            r@.descriptor == descriptor@,
            r@.utxos == Seq::<Utxo>::empty(),
    {
        Wallet { descriptor, utxos: Vec::new() }
    }

    /// The outputs the wallet currently tracks.
    pub fn coins(&self) -> (r: &Vec<Utxo>)
        ensures
            r@ == self@.utxos,
    {
        &self.utxos
    }
}

} // verus!
