//! The escrow engine: a single-shot claimable balance.
//!
//! One slot holds at most one pending balance, claimable by any principal on
//! its whitelist once its time bound holds.  The slot is single-shot for its
//! whole lifetime: once a deposit has succeeded, every further deposit is
//! refused, even after the balance has been claimed and removed.

use vstd::prelude::*;
use crate::error::Error;
use crate::transfer::{Party, TransferRequest};

verus! {

/// On which side of its timestamp a time bound holds.
#[derive(Clone, Copy, Debug, PartialEq, Eq, Structural)]
pub enum TimeBoundKind {
    /// Holds at or before the timestamp.
    Before,
    /// Holds at or after the timestamp.
    After,
}

/// A predicate over the current time, gating when a balance may be claimed.
#[derive(Clone, Copy, Debug, PartialEq, Eq, Structural)]
pub struct TimeBound {
    /// Which side of `timestamp` the bound admits.
    pub kind: TimeBoundKind,
    /// The instant the bound compares against.
    pub timestamp: u64,
}

/// The most claimants a single balance may whitelist.
pub const MAX_CLAIMANTS: usize = 10;

/// A pending payment: an amount of one asset, awaiting a claim by one of a
/// fixed whitelist, gated by a time bound.
#[derive(Clone, Debug, PartialEq, Eq)]
pub struct ClaimableBalance {
    /// The asset the balance is denominated in.
    pub token: u64,
    /// The amount held in custody, pending a claim.
    pub amount: i128,
    /// The principals allowed to claim; at most `MAX_CLAIMANTS` of them.
    pub claimants: Vec<u64>,
    /// When a claim is admitted.
    pub time_bound: TimeBound,
}

/// `tb` holds at time `now`: at or before its timestamp for `Before`,
/// at or after it for `After`.
pub open spec fn time_bound_ok(tb: TimeBound, now: u64) -> bool {
    match tb.kind {
        TimeBoundKind::Before => now <= tb.timestamp,
        TimeBoundKind::After => now >= tb.timestamp,
    }
}

/// Decides whether the time bound admits a claim at time `now`.
pub fn check_time_bound(tb: &TimeBound, now: u64) -> (r: bool)
    ensures
        r == time_bound_ok(*tb, now),
        tb.kind is Before ==> r == (now <= tb.timestamp),
        tb.kind is After ==> r == (now >= tb.timestamp),
{
    match tb.kind {
        TimeBoundKind::Before => now <= tb.timestamp,
        TimeBoundKind::After => now >= tb.timestamp,
    }
}

/// One escrow slot: the single optional pending balance of this instance,
/// and the record of whether the instance was ever deposited into.
pub struct EscrowSlot {
    /// Identifies this instance in the audit index.
    pub instance_id: u64,
    /// The pending balance, if one is currently present.
    pub balance: Option<ClaimableBalance>,
    /// Set by the first successful deposit and never cleared, even after the
    /// balance is claimed: the slot is single-shot for its whole lifetime.
    pub ever_initialized: bool,
    /// The depositor of the first (and only possible) deposit.
    pub initializer: Option<u64>,
}

/// What `deposit` answers on a slot in state `s`: the transfer of the
/// deposited amount into custody, or the refusal.  A slot that was ever
/// deposited into refuses with `AlreadyInitialized`, whether or not a balance
/// is currently present; an overlong whitelist is refused with
/// `TooManyClaimants`.
pub open spec fn deposit_outcome(
    s: EscrowSlot,
    depositor: u64,
    token: u64,
    amount: i128,
    claimants: Seq<u64>,
) -> Result<TransferRequest, Error> {
    if s.ever_initialized {
        Err(Error::AlreadyInitialized)
    } else if claimants.len() > MAX_CLAIMANTS {
        Err(Error::TooManyClaimants)
    } else {
        Ok(TransferRequest { token, from: Party::Principal(depositor), to: Party::Custody, amount })
    }
}

/// What `claim` answers on a slot in state `s` at time `now`: the transfer
/// of the pending amount to the claimant, or the refusal.  `NotFound` covers
/// both a slot never deposited into and one already claimed.
pub open spec fn claim_outcome(s: EscrowSlot, claimant: u64, now: u64) -> Result<
    TransferRequest,
    Error,
> {
    match s.balance {
        None => Err(Error::NotFound),
        Some(cb) => if !time_bound_ok(cb.time_bound, now) {
            Err(Error::TimeBoundNotMet)
        } else if !cb.claimants@.contains(claimant) {
            Err(Error::ClaimantNotWhitelisted)
        } else {
            Ok(
                TransferRequest {
                    token: cb.token,
                    from: Party::Custody,
                    to: Party::Principal(claimant),
                    amount: cb.amount,
                },
            )
        },
    }
}

/// The slot state after `claim`: the balance is removed on success, and
/// nothing else ever changes — in particular `ever_initialized` stays set.
pub open spec fn claim_next(s: EscrowSlot, claimant: u64, now: u64) -> EscrowSlot {
    if claim_outcome(s, claimant, now) is Ok {
        EscrowSlot {
            instance_id: s.instance_id,
            balance: None,
            ever_initialized: s.ever_initialized,
            initializer: s.initializer,
        }
    } else {
        s
    }
}

/// `v` holds `p`.
fn contains_principal(v: &Vec<u64>, p: u64) -> (r: bool)
    ensures
        r == v@.contains(p),
{
    let n = v.len();
    for i in 0..n
        invariant
            n == v@.len(),
            forall|k: int| 0 <= k < i ==> v@[k] != p,
    {
        if v[i] == p {
            return true;
        }
    }
    false
}

impl EscrowSlot {
    /// A fresh, never-used slot for the instance `instance_id`.
    pub fn new(instance_id: u64) -> (s: Self)
        ensures
            s.instance_id == instance_id,
            s.balance is None,
            !s.ever_initialized,
            s.initializer is None,
    {
        EscrowSlot { instance_id, balance: None, ever_initialized: false, initializer: None }
    }

    /// Places a balance of `amount` of `token` into the slot, claimable by
    /// the `claimants` under `time_bound`, and asks the host to move the
    /// amount from `depositor` (the authenticated caller) into custody.  The
    /// host must apply the new state only if the transfer goes through.
    ///
    /// Refused, with the slot unchanged: a slot ever deposited into before
    /// (`AlreadyInitialized`, even if that balance was already claimed), or
    /// more than `MAX_CLAIMANTS` claimants (`TooManyClaimants`).
    pub fn deposit(
        &mut self,
        depositor: u64,
        token: u64,
        amount: i128,
        claimants: Vec<u64>,
        time_bound: TimeBound,
    ) -> (r: Result<TransferRequest, Error>)
        ensures
            r == deposit_outcome(*old(self), depositor, token, amount, claimants@),
            r is Err ==> *final(self) == *old(self),
            r is Ok ==> *final(self) == (EscrowSlot {
                instance_id: old(self).instance_id,
                balance: Some(ClaimableBalance { token, amount, claimants, time_bound }),
                ever_initialized: true,
                initializer: Some(depositor),
            }),
    {
        if self.ever_initialized {
            return Err(Error::AlreadyInitialized);
        }
        if claimants.len() > MAX_CLAIMANTS {
            return Err(Error::TooManyClaimants);
        }
        self.balance = Some(ClaimableBalance { token, amount, claimants, time_bound });
        self.ever_initialized = true;
        self.initializer = Some(depositor);
        Ok(TransferRequest { token, from: Party::Principal(depositor), to: Party::Custody, amount })
    }

    /// Pays the pending balance out to `claimant` (the authenticated
    /// caller): removes the balance and asks the host to move the amount
    /// from custody to the claimant.  The host must apply the new state only
    /// if the transfer goes through.
    ///
    /// Refused, with the slot unchanged: no balance present (`NotFound`,
    /// covering both "never deposited" and "already claimed"), the time
    /// bound not holding at `now` (`TimeBoundNotMet`), or a claimant not on
    /// the whitelist (`ClaimantNotWhitelisted`).
    pub fn claim(&mut self, claimant: u64, now: u64) -> (r: Result<TransferRequest, Error>)
        ensures
            r == claim_outcome(*old(self), claimant, now),
            *final(self) == claim_next(*old(self), claimant, now),
    {
        if self.balance.is_none() {
            return Err(Error::NotFound);
        }
        let cb = self.balance.as_ref().unwrap();
        if !check_time_bound(&cb.time_bound, now) {
            return Err(Error::TimeBoundNotMet);
        }
        if !contains_principal(&cb.claimants, claimant) {
            return Err(Error::ClaimantNotWhitelisted);
        }
        let req = TransferRequest {
            token: cb.token,
            from: Party::Custody,
            to: Party::Principal(claimant),
            amount: cb.amount,
        };
        self.balance = None;
        Ok(req)
    }

    /// The depositor of the one deposit this slot ever accepted, if any.
    pub fn get_initializer(&self) -> (r: Option<u64>)
        ensures
            r == self.initializer,
    {
        self.initializer
    }

    /// The audit index restricted to this instance: the instance's own
    /// identifier when `principal` is the one that deposited into it, and
    /// nothing otherwise.
    pub fn get_contracts_by_initializer(&self, principal: u64) -> (r: Vec<u64>)
        ensures
            self.initializer == Some(principal) ==> r@ == seq![self.instance_id],
            self.initializer != Some(principal) ==> r@ == Seq::<u64>::empty(),
    {
        match self.initializer {
            Some(p) if p == principal => vec![self.instance_id],
            _ => Vec::new(),
        }
    }
}

/// A claim is single-shot: once a claim on `s` has succeeded, the balance is
/// gone, and every further claim — by anyone, at any time — is refused with
/// `NotFound`.
pub proof fn claim_is_single_shot(s: EscrowSlot, c1: u64, t1: u64, c2: u64, t2: u64)
    requires
        claim_outcome(s, c1, t1) is Ok,
    ensures
        claim_outcome(claim_next(s, c1, t1), c2, t2) == Err::<TransferRequest, Error>(
            Error::NotFound,
        ),
{
}

/// A deposit is single-shot per instance: on a slot that was ever deposited
/// into, every further deposit is refused with `AlreadyInitialized` — and
/// still is after any claim, successful or not, since claiming never clears
/// the flag.
pub proof fn deposit_is_single_shot(
    s: EscrowSlot,
    depositor: u64,
    token: u64,
    amount: i128,
    claimants: Seq<u64>,
    claimant: u64,
    now: u64,
)
    requires
        s.ever_initialized,
    ensures
        deposit_outcome(s, depositor, token, amount, claimants) == Err::<TransferRequest, Error>(
            Error::AlreadyInitialized,
        ),
        claim_next(s, claimant, now).ever_initialized,
        deposit_outcome(claim_next(s, claimant, now), depositor, token, amount, claimants)
            == Err::<TransferRequest, Error>(Error::AlreadyInitialized),
{
}

/// A principal outside the whitelist can never claim: whatever the time
/// bound's state, the claim fails — with `ClaimantNotWhitelisted` whenever
/// the time bound holds, and with an earlier refusal otherwise.
pub proof fn claim_needs_whitelist(s: EscrowSlot, claimant: u64, now: u64)
    requires
        s.balance matches Some(cb) && !cb.claimants@.contains(claimant),
    ensures
        claim_outcome(s, claimant, now) is Err,
        time_bound_ok(s.balance.unwrap().time_bound, now) ==> claim_outcome(s, claimant, now)
            == Err::<TransferRequest, Error>(Error::ClaimantNotWhitelisted),
{
}

} // verus!
