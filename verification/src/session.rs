use vstd::prelude::*;

use crate::errors::LedgerError;
use crate::fees::{elapsed_ok, elapsed_seconds, fee_int, compute_fee};
use crate::state::{User, UserV, VaultCustody};

verus! {

/// The exact outcome of a deposit on one ledger entry and its paired vault:
/// the entry after the call, the vault after the call, and the result.
///
/// Checks happen in order, before any mutation: a zero amount is rejected, a
/// balance that would leave the 64-bit range is rejected, and a vault whose
/// held value disagrees with the tracked balance is rejected as a defect
/// signal. Otherwise `amount` enters the vault and the tracked balance follows.
pub open spec fn deposit_outcome(e: UserV, vault: u64, amount: u64) -> (
    UserV,
    u64,
    Result<(), LedgerError>,
) {
    if amount == 0 {
        (e, vault, Err(LedgerError::InvalidDepositAmount))
    } else if e.amount + amount > u64::MAX {
        (e, vault, Err(LedgerError::ArithmeticOverflow))
    } else if e.amount != vault {
        (e, vault, Err(LedgerError::BalanceMismatch))
    } else {
        (
            UserV { amount: (e.amount + amount) as u64, ..e },
            (vault + amount) as u64,
            Ok(()),
        )
    }
}

/// The exact outcome of a session start on one ledger entry: the entry after
/// the call and the result. Starting while already parked fails; otherwise the
/// session begins at `now`. No value moves.
pub open spec fn start_outcome(e: UserV, now: i64) -> (UserV, Result<(), LedgerError>) {
    if e.is_parked {
        (e, Err(LedgerError::AlreadyParked))
    } else {
        (UserV { time_stamp: now, is_parked: true, ..e }, Ok(()))
    }
}

/// The exact outcome of a session exit with fee settlement on one ledger entry
/// and its paired vault: the entry after the call, the vault after the call,
/// and the result carrying the fee that was debited.
///
/// An idle entry is rejected; a clock regression (or an unrepresentable
/// duration) is rejected; a fee beyond the 64-bit range is rejected; a fee the
/// vault cannot cover is rejected; a fee the tracked balance cannot cover, or
/// a vault that disagrees with the tracked balance, is rejected as a defect
/// signal. Otherwise the fee leaves the vault, the balance follows, and the
/// entry returns to idle. A stay shorter than one minute settles a fee of zero.
pub open spec fn exit_outcome(e: UserV, vault: u64, now: i64, rate_per_minute: u64) -> (
    UserV,
    u64,
    Result<u64, LedgerError>,
) {
    if !e.is_parked {
        (e, vault, Err(LedgerError::NotCurrentlyParked))
    } else if !elapsed_ok(now as int, e.time_stamp as int) {
        (e, vault, Err(LedgerError::InvalidParkingDuration))
    } else {
        let fee = fee_int(now - e.time_stamp, rate_per_minute as int);
        if fee > u64::MAX {
            (e, vault, Err(LedgerError::ArithmeticOverflow))
        } else if fee > vault {
            (e, vault, Err(LedgerError::InsufficientVaultBalance))
        } else if fee > e.amount {
            (e, vault, Err(LedgerError::ArithmeticUnderflow))
        } else if e.amount != vault {
            (e, vault, Err(LedgerError::BalanceMismatch))
        } else {
            (
                UserV { amount: (e.amount - fee) as u64, is_parked: false, ..e },
                (vault - fee) as u64,
                Ok(fee as u64),
            )
        }
    }
}

/// Deposits `amount` into the entry's vault and updates the tracked balance.
///
/// The value itself is handed over by the caller (the depositing identity's
/// transfer happens at the system boundary); this function performs every
/// check and the committed state change, atomically: on any error both the
/// entry and the vault are left exactly as they were.
pub fn deposit(entry: &mut User, vault: &mut VaultCustody, amount: u64) -> (r: Result<
    (),
    LedgerError,
>)
    ensures
        r == deposit_outcome(old(entry)@, old(vault)@, amount).2,
        final(entry)@ == deposit_outcome(old(entry)@, old(vault)@, amount).0,
        final(vault)@ == deposit_outcome(old(entry)@, old(vault)@, amount).1,
        r is Ok ==> final(entry)@.amount == final(vault)@,
        r is Err ==> *final(entry) == *old(entry) && *final(vault) == *old(vault),
{
    if amount == 0 {
        return Err(LedgerError::InvalidDepositAmount);
    }
    match entry.amount.checked_add(amount) {
        None => Err(LedgerError::ArithmeticOverflow),
        Some(new_balance) => {
            if entry.amount != vault.value {
                return Err(LedgerError::BalanceMismatch);
            }
            vault.value = new_balance;
            entry.amount = new_balance;
            Ok(())
        },
    }
}

/// Begins a parked session at time `now`.
///
/// Fails with `AlreadyParked` if a session is already open, leaving the entry
/// unchanged; no value moves either way.
pub fn record_parking_start(entry: &mut User, now: i64) -> (r: Result<(), LedgerError>)
    ensures
        r == start_outcome(old(entry)@, now).1,
        final(entry)@ == start_outcome(old(entry)@, now).0,
        r is Err ==> *final(entry) == *old(entry),
{
    if entry.is_parked {
        return Err(LedgerError::AlreadyParked);
    }
    entry.time_stamp = now;
    entry.is_parked = true;
    Ok(())
}

/// Ends the parked session at time `now`, settling the whole-minute fee out of
/// the vault, and returns the fee that was debited (to be forwarded to the
/// fee recipient by the caller holding the vault's derivation proof).
///
/// Every check happens before any state change: on any error the entry and the
/// vault are left exactly as they were, and the entry stays parked.
pub fn process_exit(
    entry: &mut User,
    vault: &mut VaultCustody,
    now: i64,
    rate_per_minute: u64,
) -> (r: Result<u64, LedgerError>)
    ensures
        r == exit_outcome(old(entry)@, old(vault)@, now, rate_per_minute).2,
        final(entry)@ == exit_outcome(old(entry)@, old(vault)@, now, rate_per_minute).0,
        final(vault)@ == exit_outcome(old(entry)@, old(vault)@, now, rate_per_minute).1,
        r is Ok ==> final(entry)@.amount == final(vault)@ && !final(entry)@.is_parked,
        r is Err ==> *final(entry) == *old(entry) && *final(vault) == *old(vault),
{
    if !entry.is_parked {
        return Err(LedgerError::NotCurrentlyParked);
    }
    let elapsed = match elapsed_seconds(now, entry.time_stamp) {
        Ok(e) => e,
        Err(err) => {
            return Err(err);
        },
    };
    let fee = match compute_fee(elapsed, rate_per_minute) {
        Ok(f) => f,
        Err(err) => {
            return Err(err);
        },
    };
    if fee > vault.value {
        return Err(LedgerError::InsufficientVaultBalance);
    }
    if fee > entry.amount {
        return Err(LedgerError::ArithmeticUnderflow);
    }
    if entry.amount != vault.value {
        return Err(LedgerError::BalanceMismatch);
    }
    vault.value = vault.value - fee;
    entry.amount = entry.amount - fee;
    entry.is_parked = false;
    Ok(fee)
}

/// After any successful deposit, the entry's tracked balance equals the
/// vault's held value.
pub proof fn lemma_deposit_balance_matches_vault(e: UserV, vault: u64, amount: u64)
    requires
        deposit_outcome(e, vault, amount).2 is Ok,
    ensures
        deposit_outcome(e, vault, amount).0.amount == deposit_outcome(e, vault, amount).1,
{
}

/// After any successful session exit, the entry's tracked balance equals the
/// vault's held value.
pub proof fn lemma_exit_balance_matches_vault(e: UserV, vault: u64, now: i64, rate: u64)
    requires
        exit_outcome(e, vault, now, rate).2 is Ok,
    ensures
        exit_outcome(e, vault, now, rate).0.amount == exit_outcome(e, vault, now, rate).1,
{
}

/// The settled exit fee is non-decreasing in the elapsed time: of two
/// successful exits of the same parked entry, the later one never settles a
/// smaller fee.
pub proof fn lemma_exit_fee_monotonic(e: UserV, vault: u64, now1: i64, now2: i64, rate: u64)
    requires
        now1 <= now2,
        exit_outcome(e, vault, now1, rate).2 is Ok,
        exit_outcome(e, vault, now2, rate).2 is Ok,
    ensures
        exit_outcome(e, vault, now1, rate).2->Ok_0 <= exit_outcome(e, vault, now2, rate).2->Ok_0,
{
    crate::fees::lemma_fee_monotonic(now1 - e.time_stamp, now2 - e.time_stamp, rate as int);
}

/// A parked session exited within its first minute always settles a fee of
/// zero and closes: success is owed whenever the clock moved forward and the
/// entry agrees with its vault.
pub proof fn lemma_exit_short_stay_free(e: UserV, vault: u64, now: i64, rate: u64)
    requires
        e.is_parked,
        e.amount == vault,
        0 <= now - e.time_stamp < 60,
    ensures
        exit_outcome(e, vault, now, rate) == (
            UserV { is_parked: false, ..e },
            vault,
            Ok::<u64, LedgerError>(0u64),
        ),
{
    crate::fees::lemma_fee_short_stay_free(now - e.time_stamp, rate as int);
}

/// A deposit whose amount would push the tracked balance past the 64-bit
/// range fails with `ArithmeticOverflow` and changes nothing.
pub proof fn lemma_deposit_overflow_rejected(e: UserV, vault: u64, amount: u64)
    requires
        amount > 0,
        e.amount + amount > u64::MAX,
    ensures
        deposit_outcome(e, vault, amount) == (e, vault, Err::<(), LedgerError>(
            LedgerError::ArithmeticOverflow,
        )),
{
}

/// Starting a session on an already-parked entry fails with `AlreadyParked`
/// and changes nothing.
pub proof fn lemma_start_requires_idle(e: UserV, now: i64)
    requires
        e.is_parked,
    ensures
        start_outcome(e, now) == (e, Err::<(), LedgerError>(LedgerError::AlreadyParked)),
{
}

/// Exiting a session on an idle entry fails with `NotCurrentlyParked` and
/// changes nothing.
pub proof fn lemma_exit_requires_parked(e: UserV, vault: u64, now: i64, rate: u64)
    requires
        !e.is_parked,
    ensures
        exit_outcome(e, vault, now, rate) == (e, vault, Err::<u64, LedgerError>(
            LedgerError::NotCurrentlyParked,
        )),
{
}

} // verus!
