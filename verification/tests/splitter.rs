use custody::error::Error;
use custody::splitter::{PaymentSplitter, Payout, Splitter};

#[test]
fn split_balance_divides_25_25_50() {
    assert_eq!(PaymentSplitter::split_balance(1000), (250, 250, 500));
}

#[test]
fn split_balance_gives_remainder_to_last() {
    // 999 * 25 / 100 rounds down to 249; the last recipient takes the rest
    assert_eq!(PaymentSplitter::split_balance(999), (249, 249, 501));
    let (a, b, c) = PaymentSplitter::split_balance(3);
    assert_eq!((a, b, c), (0, 0, 3));
    assert_eq!(a + b + c, 3);
}

#[test]
fn split_balance_of_zero_is_zero() {
    assert_eq!(PaymentSplitter::split_balance(0), (0, 0, 0));
}

#[test]
fn splitter_remembers_recipients() {
    let s = Splitter::new(1, 2, 3);
    assert_eq!((s.recipient1, s.recipient2, s.recipient3), (1, 2, 3));
}

#[test]
fn splitter_pays_quarter_quarter_rest() {
    let s = Splitter::new(1, 2, 3);
    let (p1, p2, p3) = s.split(100).unwrap();
    assert_eq!(p1, Payout { to: 1, amount: 25 });
    assert_eq!(p2, Payout { to: 2, amount: 25 });
    assert_eq!(p3, Payout { to: 3, amount: 50 });
}

#[test]
fn splitter_loses_nothing_to_rounding() {
    let s = Splitter::new(1, 2, 3);
    let (p1, p2, p3) = s.split(7).unwrap();
    assert_eq!((p1.amount, p2.amount, p3.amount), (1, 1, 5));
    assert_eq!(p1.amount + p2.amount + p3.amount, 7);
}

#[test]
fn splitter_refuses_empty_value() {
    let s = Splitter::new(1, 2, 3);
    assert_eq!(s.split(0), Err(Error::InvalidAmount));
}
