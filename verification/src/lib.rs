//! Ledger-custody engines: per-owner capped timelocks, a single-shot
//! claimable-balance escrow slot, and proportional payment splitters.
//!
//! The engines are pure state machines.  Authorization, timestamp sourcing
//! and the actual movement of value are the host environment's business: each
//! operation takes the authenticated caller and the current time as plain
//! arguments and returns the transfer the host must perform.  An operation
//! that fails returns an error and leaves the state untouched, so a host that
//! applies the returned state only on success gets atomic commit for free.

pub mod error;
pub mod escrow;
pub mod splitter;
pub mod timelock;
pub mod transfer;
