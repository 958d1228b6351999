use vstd::prelude::*;

verus! {

/// A failure of the ledger's native-value transfer primitive. Every failure
/// leaves the ledger exactly as it was: an operation that meets one of these
/// commits nothing.
#[derive(Clone, Copy, PartialEq, Eq, Structural, Debug)]
pub enum TransferError {
    /// The source or the destination account does not exist in the ledger.
    UnknownAccount,
    /// The source account holds less than the amount to move.
    InsufficientBalance,
    /// Crediting the destination would push its balance past `u64::MAX`.
    BalanceOverflow,
}

/// Every way an operation on a bot record can fail. Each error aborts the
/// whole instruction: no partial mutation is ever observable.
#[derive(Clone, Copy, PartialEq, Eq, Structural, Debug)]
pub enum BotError {
    /// Activation was attempted on a record that is already active.
    AlreadyActive,
    /// Deactivation or a trade was attempted on a record that is not active.
    NotActive,
    /// The caller's identity does not match the record's owner.
    Unauthorized,
    /// A record for this owner already exists at its storage location.
    AllocationExists,
    /// The risk percentage handed to creation lies outside 0..=100.
    InvalidRiskPercentage,
    /// The underlying value transfer of a buy failed; nothing was committed.
    TransferFailed(TransferError),
}

} // verus!
