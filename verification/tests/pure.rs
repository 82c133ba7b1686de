//! The pure steps of the cap, on plain values.

use stellar_shield::guard::{day_of_sequence, decide_spend, spent_on_day, LEDGERS_PER_DAY};
use stellar_shield::Error;

#[test]
fn days_are_ledger_sequences_over_a_day_of_ledgers() {
    assert_eq!(day_of_sequence(0), 0);
    assert_eq!(day_of_sequence(LEDGERS_PER_DAY - 1), 0);
    assert_eq!(day_of_sequence(LEDGERS_PER_DAY), 1);
    assert_eq!(day_of_sequence(LEDGERS_PER_DAY * 3 + 5), 3);
    assert_eq!(day_of_sequence(u32::MAX), u32::MAX / 17_280);
}

#[test]
fn a_total_counts_only_on_its_own_day() {
    assert_eq!(spent_on_day(5, Some(5), Some(42)), 42);
    assert_eq!(spent_on_day(6, Some(5), Some(42)), 0);
    assert_eq!(spent_on_day(5, None, Some(42)), 0);
    // A missing bucket reads as day 0.
    assert_eq!(spent_on_day(0, None, Some(42)), 42);
    assert_eq!(spent_on_day(5, Some(5), None), 0);
}

#[test]
fn the_decision_of_a_guarded_spend() {
    assert_eq!(decide_spend(0, Some(10), 0), Err(Error::BadAmount));
    assert_eq!(decide_spend(-3, None, 0), Err(Error::BadAmount));
    assert_eq!(decide_spend(1_000_000, None, 0), Ok(None));
    assert_eq!(decide_spend(30, Some(100), 80), Err(Error::LimitExceeded));
    assert_eq!(decide_spend(20, Some(100), 80), Ok(Some(100)));
    assert_eq!(decide_spend(1, Some(i128::MAX), i128::MAX), Err(Error::Overflow));
    assert_eq!(decide_spend(5, Some(10), -20), Ok(Some(-15)));
}

#[test]
fn error_numbers_are_stable() {
    let all = [
        Error::NotInitialised,
        Error::AlreadyInitialised,
        Error::BadAmount,
        Error::LimitExceeded,
        Error::Overflow,
        Error::NoKey,
        Error::BadThreshold,
    ];
    for (i, e) in all.iter().enumerate() {
        assert_eq!(e.code() as usize, i + 1);
    }
}
