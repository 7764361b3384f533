use custody::error::Error;
use custody::timelock::{TimeLock, TimelockContract};
use custody::transfer::{Party, TransferRequest};

const TOKEN: u64 = 7;
const OWNER_A: u64 = 1;
const OWNER_B: u64 = 2;

#[test]
fn init_starts_empty() {
    let engine = TimelockContract::init(99);
    assert_eq!(engine.admin, 99);
    assert_eq!(engine.ids.last_id, 0);
    assert!(engine.locks.is_empty());
    assert_eq!(engine.get_timelock(OWNER_A, 1), None);
}

#[test]
fn create_deposit_cap_withdraw_scenario() {
    let mut engine = TimelockContract::init(99);

    // create at t=0 with cap 100 and period 1000: unlocks at t=1000
    let lock_id = engine.create_lock(OWNER_A, 100, 1000, 0).unwrap();
    assert_eq!(lock_id, 1);
    let lock = engine.get_timelock(OWNER_A, lock_id).unwrap();
    assert_eq!(lock.amount, 0);
    assert_eq!(lock.unlock_time, 1000);
    assert_eq!(lock.max_amount, 100);

    // deposit 60 succeeds and requests the matching transfer into custody
    let req = engine.deposit(TOKEN, OWNER_A, lock_id, 60).unwrap();
    assert_eq!(
        req,
        TransferRequest {
            token: TOKEN,
            from: Party::Principal(OWNER_A),
            to: Party::Custody,
            amount: 60,
        }
    );
    assert_eq!(engine.get_timelock(OWNER_A, lock_id).unwrap().amount, 60);

    // a further 50 would exceed the cap (110 > 100); the amount is unchanged
    assert_eq!(
        engine.deposit(TOKEN, OWNER_A, lock_id, 50),
        Err(Error::CapExceeded)
    );
    assert_eq!(engine.get_timelock(OWNER_A, lock_id).unwrap().amount, 60);

    // withdraw at t=500 is still locked; the amount is unchanged
    assert_eq!(
        engine.withdraw(TOKEN, OWNER_A, lock_id, 500),
        Err(Error::StillLocked)
    );
    assert_eq!(engine.get_timelock(OWNER_A, lock_id).unwrap().amount, 60);

    // withdraw at t=1000 succeeds, returns the held 60, resets to 0
    let (amount, req) = engine.withdraw(TOKEN, OWNER_A, lock_id, 1000).unwrap();
    assert_eq!(amount, 60);
    assert_eq!(
        req,
        TransferRequest {
            token: TOKEN,
            from: Party::Custody,
            to: Party::Principal(OWNER_A),
            amount: 60,
        }
    );
    assert_eq!(engine.get_timelock(OWNER_A, lock_id).unwrap().amount, 0);
}

#[test]
fn drained_lock_accepts_further_deposits() {
    let mut engine = TimelockContract::init(99);
    let lock_id = engine.create_lock(OWNER_A, 100, 10, 0).unwrap();
    engine.deposit(TOKEN, OWNER_A, lock_id, 100).unwrap();
    let (amount, _) = engine.withdraw(TOKEN, OWNER_A, lock_id, 10).unwrap();
    assert_eq!(amount, 100);
    // the record is retained: the cap and unlock time still hold
    let req = engine.deposit(TOKEN, OWNER_A, lock_id, 40).unwrap();
    assert_eq!(req.amount, 40);
    let lock = engine.get_timelock(OWNER_A, lock_id).unwrap();
    assert_eq!(lock.amount, 40);
    assert_eq!(lock.unlock_time, 10);
    assert_eq!(engine.deposit(TOKEN, OWNER_A, lock_id, 61), Err(Error::CapExceeded));
}

#[test]
fn create_lock_rejects_nonpositive_cap() {
    let mut engine = TimelockContract::init(99);
    assert_eq!(engine.create_lock(OWNER_A, 0, 10, 0), Err(Error::InvalidAmount));
    assert_eq!(engine.create_lock(OWNER_A, -5, 10, 0), Err(Error::InvalidAmount));
    assert!(engine.locks.is_empty());
}

#[test]
fn deposit_rejects_nonpositive_amount_and_missing_lock() {
    let mut engine = TimelockContract::init(99);
    let lock_id = engine.create_lock(OWNER_A, 100, 10, 0).unwrap();
    assert_eq!(engine.deposit(TOKEN, OWNER_A, lock_id, 0), Err(Error::InvalidAmount));
    assert_eq!(engine.deposit(TOKEN, OWNER_A, lock_id, -3), Err(Error::InvalidAmount));
    assert_eq!(engine.deposit(TOKEN, OWNER_A, 42, 5), Err(Error::NotFound));
    // someone else's lock id is not the owner's lock
    assert_eq!(engine.deposit(TOKEN, OWNER_B, lock_id, 5), Err(Error::NotFound));
}

#[test]
fn withdraw_missing_lock_is_not_found() {
    let mut engine = TimelockContract::init(99);
    assert_eq!(engine.withdraw(TOKEN, OWNER_A, 1, 0), Err(Error::NotFound));
}

#[test]
fn lock_ids_are_unique_across_owners() {
    let mut engine = TimelockContract::init(99);
    let a1 = engine.create_lock(OWNER_A, 10, 1, 0).unwrap();
    let b1 = engine.create_lock(OWNER_B, 10, 1, 0).unwrap();
    let a2 = engine.create_lock(OWNER_A, 10, 1, 0).unwrap();
    assert_eq!((a1, b1, a2), (1, 2, 3));
}

#[test]
fn get_user_timelocks_keeps_creation_order_per_owner() {
    let mut engine = TimelockContract::init(99);
    let a1 = engine.create_lock(OWNER_A, 10, 1, 0).unwrap();
    let _b1 = engine.create_lock(OWNER_B, 20, 2, 0).unwrap();
    let a2 = engine.create_lock(OWNER_A, 30, 3, 0).unwrap();
    let locks = engine.get_user_timelocks(OWNER_A);
    assert_eq!(locks.len(), 2);
    assert_eq!(locks[0].lock_id, a1);
    assert_eq!(locks[0].max_amount, 10);
    assert_eq!(locks[1].lock_id, a2);
    assert_eq!(locks[1].max_amount, 30);
    assert!(engine.get_user_timelocks(3).is_empty());
}

#[test]
fn get_lock_status_reports_state_and_unlock() {
    let mut engine = TimelockContract::init(99);
    let lock_id = engine.create_lock(OWNER_A, 100, 50, 10).unwrap();
    engine.deposit(TOKEN, OWNER_A, lock_id, 25).unwrap();
    assert_eq!(engine.get_lock_status(OWNER_A, lock_id, 59), (25, 60, false));
    assert_eq!(engine.get_lock_status(OWNER_A, lock_id, 60), (25, 60, true));
}

#[test]
fn get_lock_status_nonexistent_is_zeroes() {
    let engine = TimelockContract::init(99);
    assert_eq!(engine.get_lock_status(OWNER_A, 5, 123), (0, 0, false));
}

#[test]
fn get_all_users_with_locks_requires_admin() {
    let mut engine = TimelockContract::init(99);
    engine.create_lock(OWNER_A, 10, 1, 0).unwrap();
    assert_eq!(engine.get_all_users_with_locks(OWNER_A), Err(Error::NotAuthorized));
    // the admin gets the (unmaintained, hence empty) user index
    assert_eq!(engine.get_all_users_with_locks(99), Ok(Vec::new()));
}

#[test]
fn lock_record_is_plain_data() {
    let lock = TimeLock { lock_id: 4, amount: 2, unlock_time: 9, max_amount: 8 };
    let copy = lock;
    assert_eq!(lock, copy);
}
