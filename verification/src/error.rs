use vstd::prelude::*;

verus! {

/// Why a ledger operation was refused. A refused operation leaves the ledger
/// as it was.
#[derive(Debug, Clone, Copy, PartialEq, Eq, Structural)]
pub enum CoinError {
    /// `init` was called on a ledger that already has an admin.
    AlreadyInitialized,
    /// `mint` was called before any admin was set.
    NotInitialized,
    /// The amount of a mint or a transfer was zero or negative.
    NonPositiveAmount,
    /// The sender of a transfer holds less than the amount.
    InsufficientBalance,
    /// A balance or the total supply would leave the range of `i128`.
    Overflow,
}

} // verus!
