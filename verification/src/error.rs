//! The error taxonomy shared by every custody engine.
//!
//! Every error aborts the whole operation: the engines return the error and
//! leave their state exactly as it was.

use vstd::prelude::*;

verus! {

/// Why a custody operation was refused.
#[derive(Clone, Copy, Debug, PartialEq, Eq, Structural)]
pub enum Error {
    /// The escrow slot has already been deposited into, at some point in its
    /// lifetime; it never accepts a second deposit.
    AlreadyInitialized,
    /// The caller is not the principal the operation demands.
    NotAuthorized,
    /// No record exists under the given key, or no balance is present.
    NotFound,
    /// An amount (or cap) that must be positive was not.
    InvalidAmount,
    /// The deposit would push the lock's amount above its immutable cap.
    CapExceeded,
    /// Withdrawal attempted before the lock's unlock time.
    StillLocked,
    /// The escrow's time-bound predicate does not hold at the current time.
    TimeBoundNotMet,
    /// The claimant is not in the balance's whitelist.
    ClaimantNotWhitelisted,
    /// More claimants than the whitelist admits.
    TooManyClaimants,
}

} // verus!
