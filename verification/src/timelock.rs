//! The timelock engine: per-owner capped locks with a fixed unlock time.
//!
//! A lock is created empty with an immutable cap and unlock time, filled by
//! repeated deposits up to the cap, and drained to zero by a withdrawal once
//! the unlock time has passed.  A drained lock is kept as a historical record
//! and may be filled again; nothing is ever deleted.

use vstd::prelude::*;
use crate::error::Error;
use crate::transfer::{Party, TransferRequest};

verus! {

/// One lock: value reserved for `owner` up to `max_amount`, releasable only
/// at or after `unlock_time`.
#[derive(Clone, Copy, Debug, PartialEq, Eq, Structural)]
pub struct TimeLock {
    /// The lock's identifier, unique across all owners, never reused.
    pub lock_id: u64,
    /// The value currently held; always between zero and the cap.
    pub amount: i128,
    /// The instant from which withdrawal is allowed; fixed at creation.
    pub unlock_time: u64,
    /// The immutable ceiling on the cumulative deposited amount.
    pub max_amount: i128,
}

/// A lock together with the owner it belongs to.
#[derive(Clone, Copy, Debug, PartialEq, Eq, Structural)]
pub struct LockEntry {
    /// The principal the lock belongs to.
    pub owner: u64,
    /// The lock record itself.
    pub lock: TimeLock,
}

/// A lock is well formed when its amount sits between zero and a positive cap.
pub open spec fn lock_ok(l: TimeLock) -> bool {
    0 <= l.amount <= l.max_amount && l.max_amount > 0
}

/// The registry entry at index `i` carries `owner`'s lock `lock_id`.
pub open spec fn entry_matches(e: LockEntry, owner: u64, lock_id: u64) -> bool {
    e.owner == owner && e.lock.lock_id == lock_id
}

/// The allocator of lock identifiers: hands out `last_id + 1, last_id + 2, ...`,
/// so every identifier it ever returns is distinct, across all owners.
pub struct IdAllocator {
    /// The last identifier handed out; zero before any allocation.
    pub last_id: u64,
}

impl IdAllocator {
    /// A fresh allocator; the first identifier handed out will be `1`.
    pub fn new() -> (a: Self)
        ensures
            a.last_id == 0,
    {
        IdAllocator { last_id: 0 }
    }

    /// Hands out the next identifier, strictly greater than every one
    /// handed out before.
    pub fn allocate(&mut self) -> (id: u64)
        requires
            old(self).last_id < u64::MAX,
        ensures
            final(self).last_id == old(self).last_id + 1,
            id == final(self).last_id,
    {
        self.last_id = self.last_id + 1;
        self.last_id
    }
}

/// The locks in `s` that belong to `owner`, in order.  Since the registry is
/// in creation order, so is this.
pub open spec fn user_locks_of(s: Seq<LockEntry>, owner: u64) -> Seq<TimeLock>
    decreases s.len(),
{
    if s.len() == 0 {
        Seq::empty()
    } else {
        let rest = user_locks_of(s.drop_last(), owner);
        if s.last().owner == owner {
            rest.push(s.last().lock)
        } else {
            rest
        }
    }
}

/// The timelock engine: every lock ever created, in creation order, the
/// identifier allocator, and the administrator principal.
pub struct TimelockContract {
    /// The administrator, fixed at initialization.
    pub admin: u64,
    /// The source of fresh lock identifiers.
    pub ids: IdAllocator,
    /// Every lock ever created, in creation order; never compacted.
    pub locks: Vec<LockEntry>,
}

impl TimelockContract {
    /// The registry invariant: every lock's amount sits within its cap, every
    /// identifier was handed out by the allocator, and identifiers strictly
    /// increase along the registry, so each occurs exactly once.
    pub open spec fn wf(self) -> bool {
        &&& forall|i: int|
            0 <= i < self.locks@.len() ==> lock_ok(#[trigger] self.locks@[i].lock)
        &&& forall|i: int|
            0 <= i < self.locks@.len() ==> 1 <= (#[trigger] self.locks@[i].lock.lock_id)
                <= self.ids.last_id
        &&& forall|i: int, j: int|
            0 <= i < j < self.locks@.len() ==> self.locks@[i].lock.lock_id
                < self.locks@[j].lock.lock_id
    }

    /// `owner` has a lock registered under `lock_id`.
    pub open spec fn has_lock(self, owner: u64, lock_id: u64) -> bool {
        exists|i: int|
            0 <= i < self.locks@.len() && entry_matches(#[trigger] self.locks@[i], owner, lock_id)
    }

    /// The registry index of `owner`'s lock `lock_id`; meaningful only when
    /// `has_lock` holds, and then unique because identifiers are.
    pub open spec fn lock_index(self, owner: u64, lock_id: u64) -> int {
        choose|i: int|
            0 <= i < self.locks@.len() && entry_matches(#[trigger] self.locks@[i], owner, lock_id)
    }

    /// The record of `owner`'s lock `lock_id`; meaningful only when
    /// `has_lock` holds.
    pub open spec fn lock_of(self, owner: u64, lock_id: u64) -> TimeLock {
        self.locks@[self.lock_index(owner, lock_id)].lock
    }

    /// In a well-formed registry a (owner, identifier) pair matches at most
    /// one index, because identifiers strictly increase.
    pub proof fn lemma_match_unique(self, owner: u64, lock_id: u64, i: int, j: int)
        requires
            self.wf(),
            0 <= i < self.locks@.len(),
            0 <= j < self.locks@.len(),
            entry_matches(self.locks@[i], owner, lock_id),
            entry_matches(self.locks@[j], owner, lock_id),
        ensures
            i == j,
    {
    }

    /// The money-safety invariant: in every well-formed engine state — and
    /// every operation here both requires and re-establishes well-formedness
    /// — every lock's amount lies between zero and its cap.
    pub proof fn lock_amount_within_cap(self, i: int)
        requires
            self.wf(),
            0 <= i < self.locks@.len(),
        ensures
            0 <= self.locks@[i].lock.amount <= self.locks@[i].lock.max_amount,
    {
    }

    /// Sets the engine up under an administrator, with no locks and no
    /// identifier yet handed out.
    pub fn init(admin: u64) -> (s: Self)
        ensures
            s.wf(),
            s.admin == admin,
            s.ids.last_id == 0,
            s.locks@.len() == 0,
    {
        TimelockContract { admin, ids: IdAllocator::new(), locks: Vec::new() }
    }

    /// Creates a new, empty lock for `owner` (the authenticated caller) with
    /// cap `max_amount`, unlocking `lock_period` after `now`, and returns its
    /// fresh identifier.  No value moves: creation reserves nothing.
    ///
    /// A cap that is not positive is refused with `InvalidAmount`, and the
    /// engine is left unchanged.
    pub fn create_lock(&mut self, owner: u64, max_amount: i128, lock_period: u64, now: u64) -> (r:
        Result<u64, Error>)
        requires
            old(self).wf(),
            old(self).ids.last_id < u64::MAX,
            now + lock_period <= u64::MAX,
        ensures
            final(self).wf(),
            final(self).admin == old(self).admin,
            max_amount <= 0 ==> r == Err::<u64, Error>(Error::InvalidAmount) && *final(self)
                == *old(self),
            max_amount > 0 ==> {
                &&& r == Ok::<u64, Error>((old(self).ids.last_id + 1) as u64)
                &&& final(self).ids.last_id == old(self).ids.last_id + 1
                &&& final(self).locks@ == old(self).locks@.push(
                    LockEntry {
                        owner,
                        lock: TimeLock {
                            lock_id: (old(self).ids.last_id + 1) as u64,
                            amount: 0,
                            unlock_time: (now + lock_period) as u64,
                            max_amount,
                        },
                    },
                )
            },
    {
        if max_amount <= 0 {
            return Err(Error::InvalidAmount);
        }
        let unlock_time: u64 = now + lock_period;
        let lock_id: u64 = self.ids.allocate();
        let new_lock = TimeLock { lock_id, amount: 0, unlock_time, max_amount };
        self.locks.push(LockEntry { owner, lock: new_lock });
        Ok(lock_id)
    }

    /// Finds the registry index of `owner`'s lock `lock_id`, if any.
    fn find_index(&self, owner: u64, lock_id: u64) -> (r: Option<usize>)
        ensures
            match r {
                Some(i) => i < self.locks@.len() && entry_matches(
                    self.locks@[i as int],
                    owner,
                    lock_id,
                ),
                None => !self.has_lock(owner, lock_id),
            },
    {
        let n = self.locks.len();
        for i in 0..n
            invariant
                n == self.locks@.len(),
                forall|k: int|
                    0 <= k < i ==> !entry_matches(#[trigger] self.locks@[k], owner, lock_id),
        {
            let e = self.locks[i];
            if e.owner == owner && e.lock.lock_id == lock_id {
                return Some(i);
            }
        }
        None
    }

    /// Adds `amount` to `owner`'s lock `lock_id` and asks the host to move
    /// that amount from the owner into custody.  The host must apply the new
    /// state only if the transfer goes through.
    ///
    /// Refused, with the engine unchanged: a non-positive amount
    /// (`InvalidAmount`), an unknown lock (`NotFound`), or a deposit that
    /// would push the held amount above the cap (`CapExceeded`).
    pub fn deposit(&mut self, token: u64, owner: u64, lock_id: u64, amount: i128) -> (r: Result<
        TransferRequest,
        Error,
    >)
        requires
            old(self).wf(),
        ensures
            final(self).wf(),
            final(self).admin == old(self).admin,
            final(self).ids == old(self).ids,
            amount <= 0 ==> r == Err::<TransferRequest, Error>(Error::InvalidAmount) && *final(self)
                == *old(self),
            amount > 0 && !old(self).has_lock(owner, lock_id) ==> r == Err::<
                TransferRequest,
                Error,
            >(Error::NotFound) && *final(self) == *old(self),
            amount > 0 && old(self).has_lock(owner, lock_id) && old(self).lock_of(
                owner,
                lock_id,
            ).amount + amount > old(self).lock_of(owner, lock_id).max_amount ==> r == Err::<
                TransferRequest,
                Error,
            >(Error::CapExceeded) && *final(self) == *old(self),
            amount > 0 && old(self).has_lock(owner, lock_id) && old(self).lock_of(
                owner,
                lock_id,
            ).amount + amount <= old(self).lock_of(owner, lock_id).max_amount ==> {
                &&& r == Ok::<TransferRequest, Error>(
                    TransferRequest {
                        token,
                        from: Party::Principal(owner),
                        to: Party::Custody,
                        amount,
                    },
                )
                &&& final(self).locks@ == old(self).locks@.update(
                    old(self).lock_index(owner, lock_id),
                    LockEntry {
                        owner,
                        lock: TimeLock {
                            amount: (old(self).lock_of(owner, lock_id).amount + amount) as i128,
                            ..old(self).lock_of(owner, lock_id)
                        },
                    },
                )
            },
    {
        if amount <= 0 {
            return Err(Error::InvalidAmount);
        }
        let idx = match self.find_index(owner, lock_id) {
            Some(i) => i,
            None => {
                return Err(Error::NotFound);
            },
        };
        proof {
            self.lemma_match_unique(owner, lock_id, idx as int, self.lock_index(owner, lock_id));
        }
        let timelock = self.locks[idx].lock;
        // overflow-free form of `timelock.amount + amount > timelock.max_amount`:
        // the invariant keeps the held amount at most the cap, so the
        // subtraction cannot overflow.
        if amount > timelock.max_amount - timelock.amount {
            return Err(Error::CapExceeded);
        }
        let updated = TimeLock {
            lock_id: timelock.lock_id,
            amount: timelock.amount + amount,
            unlock_time: timelock.unlock_time,
            max_amount: timelock.max_amount,
        };
        self.locks[idx] = LockEntry { owner, lock: updated };
        Ok(TransferRequest { token, from: Party::Principal(owner), to: Party::Custody, amount })
    }

    /// Withdraws everything from `owner`'s lock `lock_id`: resets the held
    /// amount to zero (the record is kept for history), returns the captured
    /// amount, and asks the host to move it from custody back to the owner.
    ///
    /// Refused, with the engine unchanged: an unknown lock (`NotFound`), or a
    /// withdrawal before the unlock time (`StillLocked`).
    pub fn withdraw(&mut self, token: u64, owner: u64, lock_id: u64, now: u64) -> (r: Result<
        (i128, TransferRequest),
        Error,
    >)
        requires
            old(self).wf(),
        ensures
            final(self).wf(),
            final(self).admin == old(self).admin,
            final(self).ids == old(self).ids,
            !old(self).has_lock(owner, lock_id) ==> r == Err::<(i128, TransferRequest), Error>(
                Error::NotFound,
            ) && *final(self) == *old(self),
            old(self).has_lock(owner, lock_id) && now < old(self).lock_of(
                owner,
                lock_id,
            ).unlock_time ==> r == Err::<(i128, TransferRequest), Error>(Error::StillLocked)
                && *final(self) == *old(self),
            old(self).has_lock(owner, lock_id) && now >= old(self).lock_of(
                owner,
                lock_id,
            ).unlock_time ==> {
                &&& r == Ok::<(i128, TransferRequest), Error>(
                    (
                        old(self).lock_of(owner, lock_id).amount,
                        TransferRequest {
                            token,
                            from: Party::Custody,
                            to: Party::Principal(owner),
                            amount: old(self).lock_of(owner, lock_id).amount,
                        },
                    ),
                )
                &&& final(self).locks@ == old(self).locks@.update(
                    old(self).lock_index(owner, lock_id),
                    LockEntry {
                        owner,
                        lock: TimeLock { amount: 0, ..old(self).lock_of(owner, lock_id) },
                    },
                )
            },
    {
        let idx = match self.find_index(owner, lock_id) {
            Some(i) => i,
            None => {
                return Err(Error::NotFound);
            },
        };
        proof {
            self.lemma_match_unique(owner, lock_id, idx as int, self.lock_index(owner, lock_id));
        }
        let timelock = self.locks[idx].lock;
        if now < timelock.unlock_time {
            return Err(Error::StillLocked);
        }
        let amount = timelock.amount;
        let drained = TimeLock {
            lock_id: timelock.lock_id,
            amount: 0,
            unlock_time: timelock.unlock_time,
            max_amount: timelock.max_amount,
        };
        self.locks[idx] = LockEntry { owner, lock: drained };
        Ok((amount, TransferRequest { token, from: Party::Custody, to: Party::Principal(owner), amount }))
    }

    /// Reads `owner`'s lock `lock_id`, if it exists.  No authorization is
    /// needed for reads.
    pub fn get_timelock(&self, owner: u64, lock_id: u64) -> (r: Option<TimeLock>)
        requires
            self.wf(),
        ensures
            self.has_lock(owner, lock_id) ==> r == Some(self.lock_of(owner, lock_id)),
            !self.has_lock(owner, lock_id) ==> r is None,
    {
        match self.find_index(owner, lock_id) {
            Some(i) => {
                proof {
                    self.lemma_match_unique(owner, lock_id, i as int, self.lock_index(owner, lock_id));
                }
                Some(self.locks[i].lock)
            },
            None => None,
        }
    }

    /// Returns all of `owner`'s locks, in creation order.  No authorization
    /// is needed for reads.
    pub fn get_user_timelocks(&self, owner: u64) -> (r: Vec<TimeLock>)
        ensures
            r@ == user_locks_of(self.locks@, owner),
    {
        let mut result: Vec<TimeLock> = Vec::new();
        let n = self.locks.len();
        for i in 0..n
            invariant
                n == self.locks@.len(),
                result@ == user_locks_of(self.locks@.subrange(0, i as int), owner),
        {
            let e = self.locks[i];
            if e.owner == owner {
                result.push(e.lock);
            }
            proof {
                let prefix = self.locks@.subrange(0, i + 1);
                assert(prefix.drop_last() =~= self.locks@.subrange(0, i as int));
                assert(prefix.last() == self.locks@[i as int]);
            }
        }
        proof {
            assert(self.locks@.subrange(0, self.locks@.len() as int) =~= self.locks@);
        }
        result
    }

    /// Would report every user holding a lock, but no global user index is
    /// maintained, so it reports none; only the administrator may ask.
    /// A caller other than the administrator is refused with `NotAuthorized`.
    pub fn get_all_users_with_locks(&self, caller: u64) -> (r: Result<Vec<u64>, Error>)
        ensures
            caller == self.admin ==> (r matches Ok(v) && v@ == Seq::<u64>::empty()),
            caller != self.admin ==> r == Err::<Vec<u64>, Error>(Error::NotAuthorized),
    {
        if caller != self.admin {
            return Err(Error::NotAuthorized);
        }
        Ok(Vec::new())
    }

    /// Returns `(amount, unlock_time, is_unlocked)` for `owner`'s lock
    /// `lock_id`, and `(0, 0, false)` when no such lock exists.  The absent
    /// case is indistinguishable from an empty lock with unlock time zero
    /// observed before time zero; callers that must tell them apart should
    /// read `get_timelock` instead.
    pub fn get_lock_status(&self, owner: u64, lock_id: u64, now: u64) -> (r: (i128, u64, bool))
        requires
            self.wf(),
        ensures
            self.has_lock(owner, lock_id) ==> r == (
                self.lock_of(owner, lock_id).amount,
                self.lock_of(owner, lock_id).unlock_time,
                now >= self.lock_of(owner, lock_id).unlock_time,
            ),
            !self.has_lock(owner, lock_id) ==> r == (0i128, 0u64, false),
    {
        match self.get_timelock(owner, lock_id) {
            Some(timelock) => (timelock.amount, timelock.unlock_time, now >= timelock.unlock_time),
            None => (0, 0, false),
        }
    }
}

} // verus!
