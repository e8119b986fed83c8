use vstd::prelude::*;

use crate::errors::LedgerError;

verus! {

/// The canonical fee policy: whole-minute billing. A session that lasted
/// `elapsed_secs` seconds costs one `rate_per_minute` for every *full* minute;
/// a final partial minute is free.
pub open spec fn fee_int(elapsed_secs: int, rate_per_minute: int) -> int {
    (elapsed_secs / 60) * rate_per_minute
}

/// An exit at time `now` of a session started at `start` has a well-defined
/// duration exactly when the elapsed time is non-negative (no clock
/// regression) and representable in a signed 64-bit subtraction.
pub open spec fn elapsed_ok(now: int, start: int) -> bool {
    0 <= now - start <= i64::MAX
}

/// Elapsed whole seconds between the session start and the exit time.
///
/// Returns `InvalidParkingDuration` when the clock ran backwards
/// (`now < start`) or the signed subtraction itself would overflow.
pub fn elapsed_seconds(now: i64, start: i64) -> (r: Result<u64, LedgerError>)
    ensures
        elapsed_ok(now as int, start as int) ==> r == Ok::<u64, LedgerError>(
            (now - start) as u64,
        ),
        !elapsed_ok(now as int, start as int) ==> r == Err::<u64, LedgerError>(
            LedgerError::InvalidParkingDuration,
        ),
{
    match now.checked_sub(start) {
        Some(d) => {
            if d >= 0 {
                Ok(d as u64)
            } else {
                Err(LedgerError::InvalidParkingDuration)
            }
        },
        None => Err(LedgerError::InvalidParkingDuration),
    }
}

/// The fee owed for a session of `elapsed_secs` seconds, under whole-minute
/// billing at `rate_per_minute`.
///
/// Returns `ArithmeticOverflow` exactly when the mathematical fee does not fit
/// in 64 bits.
pub fn compute_fee(elapsed_secs: u64, rate_per_minute: u64) -> (r: Result<u64, LedgerError>)
    ensures
        fee_int(elapsed_secs as int, rate_per_minute as int) <= u64::MAX ==> r == Ok::<
            u64,
            LedgerError,
        >(fee_int(elapsed_secs as int, rate_per_minute as int) as u64),
        fee_int(elapsed_secs as int, rate_per_minute as int) > u64::MAX ==> r == Err::<
            u64,
            LedgerError,
        >(LedgerError::ArithmeticOverflow),
{
    let minutes = elapsed_secs / 60;
    match minutes.checked_mul(rate_per_minute) {
        Some(fee) => Ok(fee),
        None => Err(LedgerError::ArithmeticOverflow),
    }
}

/// The fee is non-decreasing in the elapsed time: staying longer never costs
/// less.
pub proof fn lemma_fee_monotonic(e1: int, e2: int, rate: int)
    requires
        0 <= e1 <= e2,
        0 <= rate,
    ensures
        fee_int(e1, rate) <= fee_int(e2, rate),
{
    vstd::arithmetic::div_mod::lemma_div_is_ordered(e1, e2, 60);
    vstd::arithmetic::mul::lemma_mul_inequality(e1 / 60, e2 / 60, rate);
}

/// Under whole-minute billing, any stay shorter than one minute is free.
pub proof fn lemma_fee_short_stay_free(e: int, rate: int)
    requires
        0 <= e < 60,
    ensures
        fee_int(e, rate) == 0,
{
    vstd::arithmetic::div_mod::lemma_basic_div(e, 60);
}

} // verus!
