//! Proportional payment splitters.
//!
//! Two flavours: a fixed-share splitter that divides a custody balance in the
//! ratio 25 / 25 / 50, and an instance that remembers three recipients and
//! splits a received value a quarter / a quarter / the rest.  In both, the
//! first two portions are rounded down and the whole remainder goes to the
//! last recipient, so the three portions always sum to the input exactly.

use vstd::prelude::*;
use crate::error::Error;

verus! {

/// Percentage of the balance owed to the first recipient.
pub const SHARE_1: u32 = 25;
/// Percentage of the balance owed to the second recipient.
pub const SHARE_2: u32 = 25;
/// Percentage of the balance owed to the third recipient.
pub const SHARE_3: u32 = 50;
/// The shares above, summed: the denominator of each portion.
pub const TOTAL_SHARES: u32 = 100;

/// The portion of `balance` owed under a percentage `share`, rounded down.
pub open spec fn share_amount(balance: int, share: int) -> int {
    (balance * share) / (TOTAL_SHARES as int)
}

/// Splits a custody balance between three fixed recipients in the ratio
/// 25 / 25 / 50, remainder to the last.
pub struct PaymentSplitter;

impl PaymentSplitter {
    /// Divides `balance` into the three portions to pay out.  The first two
    /// are rounded down; the third is the exact remainder, so the portions
    /// sum to `balance` and no value is lost to truncation.
    pub fn split_balance(balance: i128) -> (r: (i128, i128, i128))
        requires
            0 <= balance,
            balance * (SHARE_1 as int) <= i128::MAX,
            balance * (SHARE_2 as int) <= i128::MAX,
        ensures
            r.0 == share_amount(balance as int, SHARE_1 as int),
            r.1 == share_amount(balance as int, SHARE_2 as int),
            r.2 == balance - r.0 - r.1,
            r.0 + r.1 + r.2 == balance,
            0 <= r.0 && 0 <= r.1 && 0 <= r.2,
    {
        let amount1: i128 = (balance * (SHARE_1 as i128)) / (TOTAL_SHARES as i128);
        let amount2: i128 = (balance * (SHARE_2 as i128)) / (TOTAL_SHARES as i128);
        proof {
            lemma_share_bounds(balance as int, SHARE_1 as int);
            lemma_share_bounds(balance as int, SHARE_2 as int);
        }
        let amount3: i128 = balance - amount1 - amount2;
        (amount1, amount2, amount3)
    }
}

/// A portion under any share of at most half the total is nonnegative and at
/// most half the balance, so two such portions never exceed the balance.
proof fn lemma_share_bounds(balance: int, share: int)
    requires
        0 <= balance,
        0 <= share <= 50,
    ensures
        0 <= share_amount(balance, share),
        2 * share_amount(balance, share) <= balance,
{
    assert(0 <= (balance * share) / 100 && 2 * ((balance * share) / 100) <= balance)
        by (nonlinear_arith)
        requires
            0 <= balance,
            0 <= share <= 50,
    ;
}

/// The split loses nothing: the remainder goes to the last recipient, so the
/// three portions always sum to the balance exactly, whatever the rounding of
/// the first two took away.
pub proof fn split_preserves_total(balance: int)
    ensures
        share_amount(balance, SHARE_1 as int) + share_amount(balance, SHARE_2 as int) + (
        balance - share_amount(balance, SHARE_1 as int) - share_amount(balance,
            SHARE_2 as int)) == balance,
{
}

/// A splitter instance holding three recipient principals, paying them a
/// quarter, a quarter, and the rest of each received value.
pub struct Splitter {
    /// Receives a quarter of the value, rounded down.
    pub recipient1: u64,
    /// Receives a quarter of the value, rounded down.
    pub recipient2: u64,
    /// Receives the remainder: about half, plus what rounding left over.
    pub recipient3: u64,
}

/// One payout of a split value: who receives, and how much.
#[derive(Clone, Copy, Debug, PartialEq, Eq, Structural)]
pub struct Payout {
    /// The receiving principal.
    pub to: u64,
    /// The amount owed to it.
    pub amount: u128,
}

impl Splitter {
    /// Remembers the three recipients of every later split.
    pub fn new(r1: u64, r2: u64, r3: u64) -> (s: Self)
        ensures
            s.recipient1 == r1,
            s.recipient2 == r2,
            s.recipient3 == r3,
    {
        Splitter { recipient1: r1, recipient2: r2, recipient3: r3 }
    }

    /// Splits a received `value` between the three recipients: a quarter
    /// each to the first two (rounded down), the remainder to the third.
    /// A zero value is refused: there is nothing to split.
    pub fn split(&self, value: u128) -> (r: Result<(Payout, Payout, Payout), Error>)
        ensures
            value == 0 ==> r == Err::<(Payout, Payout, Payout), Error>(Error::InvalidAmount),
            value > 0 ==> r == Ok::<(Payout, Payout, Payout), Error>(
                (
                    Payout { to: self.recipient1, amount: (value / 4) as u128 },
                    Payout { to: self.recipient2, amount: (value / 4) as u128 },
                    Payout { to: self.recipient3, amount: (value - value / 4 - value / 4) as u128 },
                ),
            ),
            r matches Ok(p) ==> p.0.amount + p.1.amount + p.2.amount == value,
    {
        if value == 0 {
            return Err(Error::InvalidAmount);
        }
        let share1: u128 = value / 4;
        let share2: u128 = value / 4;
        let share3: u128 = value - share1 - share2;
        Ok(
            (
                Payout { to: self.recipient1, amount: share1 },
                Payout { to: self.recipient2, amount: share2 },
                Payout { to: self.recipient3, amount: share3 },
            ),
        )
    }
}

} // verus!
