//! A campus currency token: an issuer mints coins to accounts and account
//! holders transfer them to one another.
//!
//! The ledger keeps an issuer (the admin), the total supply minted so far, and
//! the balance of each account that has received or sent coins. Every
//! operation is stated as a transition of [`coin::CoinState`], and the public
//! proof functions in [`laws`] state what holds across operations.

pub mod balances;
pub mod coin;
pub mod error;
pub mod laws;
