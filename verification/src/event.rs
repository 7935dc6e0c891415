//! What a successful operation records.

use crate::address::Address;
use crate::uint::U256;
use vstd::prelude::*;

verus! {

/// An entry of the ledger's event log.
#[derive(Clone, Copy, Debug, PartialEq, Eq)]
pub enum Event {
    /// `value` moved from `from` to `to`. Minted tokens come from the null
    /// address, burned tokens go to it.
    Transfer { from: Address, to: Address, value: U256 },
    /// `owner` set the amount that `spender` may move on its behalf to `value`.
    Approval { owner: Address, spender: Address, value: U256 },
}

} // verus!
