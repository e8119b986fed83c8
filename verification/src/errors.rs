use vstd::prelude::*;

verus! {

/// The single, flat error taxonomy of the ledger.
///
/// Every operation aborts with the first violated condition, before any state
/// is mutated, so an error always leaves the ledger exactly as it was.
/// `BalanceMismatch` is a defensive consistency signal: it is returned when a
/// ledger entry's tracked balance and its vault's held value disagree, which
/// cannot happen to a well-formed ledger and indicates a defect in the caller's
/// bookkeeping rather than a routine failure.
#[derive(Clone, Copy, PartialEq, Eq, Structural, Debug)]
pub enum LedgerError {
    EmptyName,
    EmptyPlate,
    AlreadyExists,
    NotFound,
    InvalidDepositAmount,
    ArithmeticOverflow,
    ArithmeticUnderflow,
    BalanceMismatch,
    AlreadyParked,
    NotCurrentlyParked,
    InvalidParkingDuration,
    InsufficientVaultBalance,
}

} // verus!
