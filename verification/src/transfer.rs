//! Transfer requests: the instructions a custody engine hands back to the
//! host environment.
//!
//! The engines never move value themselves.  A successful operation returns a
//! `TransferRequest` naming the asset, the two parties and the amount; the
//! host performs it through whatever value-transfer capability it has, and
//! discards the new engine state if the transfer fails.

use vstd::prelude::*;

verus! {

/// One side of a transfer: a principal, or the engine's own custody account.
#[derive(Clone, Copy, Debug, PartialEq, Eq, Structural)]
pub enum Party {
    /// An external principal, named by its identifier.
    Principal(u64),
    /// The value held by the engine itself, pending release.
    Custody,
}

/// A single value movement the host must perform on the engine's behalf.
#[derive(Clone, Copy, Debug, PartialEq, Eq, Structural)]
pub struct TransferRequest {
    /// The asset to move.
    pub token: u64,
    /// The party the value leaves.
    pub from: Party,
    /// The party the value reaches.
    pub to: Party,
    /// How much to move.
    pub amount: i128,
}

} // verus!
