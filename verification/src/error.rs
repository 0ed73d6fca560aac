use vstd::prelude::*;

verus! {

/// Why an operation on the ledgers was refused.
///
/// The first five are validation failures: they are expected, leave every
/// ledger untouched and are handed to the caller as they are. A
/// `LedgerCallFailed` says that the ledger itself refused a call, at the top
/// level or in one of its receipts. `ClockStalled` is fatal: the epoch did not
/// change within the blocks the clock was allowed to skip.
#[derive(Clone, Copy, Debug, PartialEq, Eq, Structural)]
pub enum Error {
    InsufficientUnstakedBalance,
    InsufficientStakedBalance,
    WithdrawalLocked,
    NothingToClaim,
    UnknownFarm,
    LedgerCallFailed,
    ClockStalled,
}

} // verus!
