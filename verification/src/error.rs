//! Why a ledger operation was rejected.

use vstd::prelude::*;

verus! {

/// The reason for which an operation failed. A failed operation has changed
/// nothing.
#[derive(Clone, Copy, Debug, PartialEq, Eq, Structural)]
pub enum Erc20Error {
    /// The debit exceeds the account's balance.
    InsufficientBalance,
    /// The amount exceeds what the owner allowed the spender.
    InsufficientAllowance,
    /// A credited balance or the new total supply does not fit in 256 bits.
    Overflow,
    /// The total supply is less than the amount taken from it. A ledger whose
    /// balances add up to its supply never reports this: there a debit that
    /// the balance covers is covered by the supply too.
    Underflow,
}

} // verus!
