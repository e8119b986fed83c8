use parkat::errors::LedgerError;
use parkat::session::{deposit, process_exit, record_parking_start};
use parkat::state::{User, VaultCustody};

fn entry_with(amount: u64, is_parked: bool, time_stamp: i64) -> User {
    User {
        user: [3u8; 32],
        tenant: [7u8; 32],
        time_stamp,
        is_parked,
        amount,
        vault_bump: 253,
        state_bump: 252,
        number_plate: [0u8; 16],
    }
}

#[test]
fn test_deposit_zero_rejected() {
    let mut e = entry_with(5, false, 0);
    let mut v = VaultCustody { value: 5 };
    assert_eq!(deposit(&mut e, &mut v, 0), Err(LedgerError::InvalidDepositAmount));
    assert_eq!(e.amount, 5);
    assert_eq!(v.value, 5);
}

#[test]
fn test_deposit_overflow_rejected() {
    let mut e = entry_with(u64::MAX - 5, false, 0);
    let mut v = VaultCustody { value: u64::MAX - 5 };
    assert_eq!(deposit(&mut e, &mut v, 10), Err(LedgerError::ArithmeticOverflow));
    assert_eq!(e.amount, u64::MAX - 5);
    assert_eq!(v.value, u64::MAX - 5);
}

#[test]
fn test_deposit_balance_mismatch_detected() {
    // A vault that disagrees with the tracked balance is a defect signal.
    let mut e = entry_with(1, false, 0);
    let mut v = VaultCustody { value: 2 };
    assert_eq!(deposit(&mut e, &mut v, 5), Err(LedgerError::BalanceMismatch));
    assert_eq!(e.amount, 1);
    assert_eq!(v.value, 2);
}

#[test]
fn test_start_sets_session() {
    let mut e = entry_with(0, false, 0);
    assert_eq!(record_parking_start(&mut e, 1234), Ok(()));
    assert!(e.is_parked);
    assert_eq!(e.time_stamp, 1234);
}

#[test]
fn test_start_already_parked() {
    let mut e = entry_with(0, true, 77);
    assert_eq!(record_parking_start(&mut e, 1234), Err(LedgerError::AlreadyParked));
    assert!(e.is_parked);
    assert_eq!(e.time_stamp, 77);
}

#[test]
fn test_exit_underflow_detected() {
    // The fee fits in the vault but not in the tracked balance: only possible
    // on a mismatched pair, and reported as an underflow before any change.
    let mut e = entry_with(5, true, 0);
    let mut v = VaultCustody { value: 1000 };
    assert_eq!(
        process_exit(&mut e, &mut v, 60, 100),
        Err(LedgerError::ArithmeticUnderflow)
    );
    assert_eq!(e.amount, 5);
    assert_eq!(v.value, 1000);
    assert!(e.is_parked);
}

#[test]
fn test_exit_balance_mismatch_detected() {
    let mut e = entry_with(200, true, 0);
    let mut v = VaultCustody { value: 1000 };
    assert_eq!(
        process_exit(&mut e, &mut v, 60, 100),
        Err(LedgerError::BalanceMismatch)
    );
    assert_eq!(e.amount, 200);
    assert_eq!(v.value, 1000);
    assert!(e.is_parked);
}

#[test]
fn test_exit_fee_overflow() {
    // Two full minutes at a rate of u64::MAX per minute cannot be billed.
    let mut e = entry_with(100, true, 0);
    let mut v = VaultCustody { value: 100 };
    assert_eq!(
        process_exit(&mut e, &mut v, 120, u64::MAX),
        Err(LedgerError::ArithmeticOverflow)
    );
    assert_eq!(e.amount, 100);
    assert!(e.is_parked);
}

#[test]
fn test_exit_settles_fee() {
    let mut e = entry_with(5000, true, 0);
    let mut v = VaultCustody { value: 5000 };
    assert_eq!(process_exit(&mut e, &mut v, 600, 100), Ok(1000));
    assert_eq!(e.amount, 4000);
    assert_eq!(v.value, 4000);
    assert!(!e.is_parked);
    // The session start stamp is left in place; it is meaningless while idle.
    assert_eq!(e.time_stamp, 0);
}
