//! What holds of the ledger whatever is asked of it.

use crate::address::Address;
use crate::error::Erc20Error;
use crate::state::LedgerState;
use crate::supply::{lemma_value_le_sum, sum_of};
use crate::uint::U256;
use vstd::prelude::*;

verus! {

/// One request to the ledger.
pub enum Operation {
    Mint { to: Address, value: U256 },
    Burn { owner: Address, value: U256 },
    Transfer { from: Address, to: Address, value: U256 },
    Approve { owner: Address, spender: Address, value: U256 },
    TransferFrom { spender: Address, owner: Address, to: Address, value: U256 },
}

impl Operation {
    /// The amount that the request names.
    pub open spec fn value(self) -> U256 {
        match self {
            Operation::Mint { value, .. } => value,
            Operation::Burn { value, .. } => value,
            Operation::Transfer { value, .. } => value,
            Operation::Approve { value, .. } => value,
            Operation::TransferFrom { value, .. } => value,
        }
    }
}

/// The ledger after an attempt: the new state where the attempt succeeded, the
/// state `before` where it failed.
pub open spec fn settle(before: LedgerState, attempt: Result<LedgerState, Erc20Error>)
    -> LedgerState {
    match attempt {
        Ok(next) => next,
        Err(_) => before,
    }
}

/// The ledger after `op` was asked of `s`.
pub open spec fn step(s: LedgerState, op: Operation) -> LedgerState {
    match op {
        Operation::Mint { to, value } => settle(s, s.mint(to, value)),
        Operation::Burn { owner, value } => settle(s, s.burn(owner, value)),
        Operation::Transfer { from, to, value } => settle(s, s.transfer(from, to, value)),
        Operation::Approve { owner, spender, value } => s.approve(owner, spender, value),
        Operation::TransferFrom { spender, owner, to, value } => settle(
            s,
            s.transfer_from(spender, owner, to, value),
        ),
    }
}

/// The ledger after the requests `ops` were made of an empty ledger, one after
/// the other.
pub open spec fn run(ops: Seq<Operation>) -> LedgerState
    decreases ops.len(),
{
    if ops.len() == 0 {
        LedgerState::empty()
    } else {
        step(run(ops.drop_last()), ops.last())
    }
}

/// Whatever is asked of a valid ledger, it stays valid.
pub proof fn lemma_step_keeps_valid(s: LedgerState, op: Operation)
    requires
        s.valid(),
    ensures
        step(s, op).valid(),
{
    match op {
        Operation::Mint { to, value } => s.lemma_mint_keeps_valid(to, value),
        Operation::Burn { owner, value } => s.lemma_burn_keeps_valid(owner, value),
        Operation::Transfer { from, to, value } => s.lemma_transfer_keeps_valid(from, to, value),
        Operation::Approve { owner, spender, value } => s.lemma_approve_keeps_valid(
            owner,
            spender,
            value,
        ),
        Operation::TransferFrom { spender, owner, to, value } => s.lemma_transfer_from_keeps_valid(
            spender,
            owner,
            to,
            value,
        ),
    }
}

/// In every state that a ledger can reach, the balances add up to the total
/// supply, and every balance, every allowance and the supply lie between zero
/// and 2^256 - 1.
pub proof fn lemma_reachable_ledger_is_valid(ops: Seq<Operation>)
    ensures
        run(ops).valid(),
        sum_of(run(ops).balances) == run(ops).total_supply,
    decreases ops.len(),
{
    if ops.len() > 0 {
        lemma_reachable_ledger_is_valid(ops.drop_last());
        lemma_step_keeps_valid(run(ops.drop_last()), ops.last());
    }
}

/// A mint, a burn or a transfer of nothing succeeds, on behalf included. It
/// changes no balance, no allowance and not the supply, and it is recorded like
/// any other.
pub proof fn lemma_zero_amount_moves_nothing(s: LedgerState, op: Operation)
    requires
        s.in_range(),
        op.value()@ == 0,
        !(op is Approve),
    ensures
        forall|a: Address| #[trigger] step(s, op).balance_of(a) == s.balance_of(a),
        forall|o: Address, p: Address| #[trigger]
            step(s, op).allowance(o, p) == s.allowance(o, p),
        step(s, op).total_supply == s.total_supply,
        step(s, op).events.len() == s.events.len() + 1,
{
}

/// Approving the same amount twice leaves the allowances as approving it once
/// does: the allowance is the amount, and nothing else has changed.
pub proof fn lemma_approve_is_idempotent(
    s: LedgerState,
    owner: Address,
    spender: Address,
    value: U256,
)
    ensures
        ({
            let once = s.approve(owner, spender, value);
            let twice = once.approve(owner, spender, value);
            &&& once.allowance(owner, spender) == value@
            &&& twice.allowance(owner, spender) == value@
            &&& twice.allowances == once.allowances
            &&& twice.balances == once.balances
            &&& twice.total_supply == once.total_supply
        }),
{
    let once = s.approve(owner, spender, value);
    assert(once.approve(owner, spender, value).allowances =~= once.allowances);
}

/// A transfer from `a` to `b` followed by a transfer of the same amount from
/// `b` to `a` leaves both balances as they were. The second transfer succeeds
/// if the first did.
///
/// Left out is the one case in which the two calls are no round trip: the
/// first transfer fails and the second succeeds.
pub proof fn lemma_transfer_round_trip(s: LedgerState, a: Address, b: Address, value: U256)
    requires
        s.in_range(),
        s.transfer(a, b, value) is Ok || s.transfer(b, a, value) is Err,
    ensures
        ({
            let there = settle(s, s.transfer(a, b, value));
            let back = settle(there, there.transfer(b, a, value));
            &&& s.transfer(a, b, value) is Ok ==> there.transfer(b, a, value) is Ok
            &&& back.balance_of(a) == s.balance_of(a)
            &&& back.balance_of(b) == s.balance_of(b)
            &&& back.total_supply == s.total_supply
        }),
{
}

/// Minting `value` for `a` and then burning `value` of what `a` holds leaves
/// the balance of `a` and the total supply as they were. The burn succeeds if
/// the mint did.
///
/// Left out is the one case in which the burn undoes nothing: the mint fails
/// and the burn succeeds.
pub proof fn lemma_mint_then_burn(s: LedgerState, a: Address, value: U256)
    requires
        s.mint(a, value) is Ok || s.burn(a, value) is Err,
    ensures
        ({
            let minted = settle(s, s.mint(a, value));
            let burned = settle(minted, minted.burn(a, value));
            &&& s.mint(a, value) is Ok ==> minted.burn(a, value) is Ok
            &&& burned.balance_of(a) == s.balance_of(a)
            &&& burned.total_supply == s.total_supply
        }),
{
}

/// An account can transfer all that it holds to another, and is left with
/// nothing.
///
/// Left out is the transfer of a balance that is not zero to the account
/// itself, which leaves the balance as it is.
pub proof fn lemma_transfer_of_whole_balance(s: LedgerState, a: Address, b: Address, value: U256)
    requires
        s.valid(),
        value@ == s.balance_of(a),
        a != b || value@ == 0,
    ensures
        s.transfer(a, b, value) matches Ok(next) && next.balance_of(a) == 0,
{
    s.lemma_valid_ledger_fails_only_for_want_of_funds(a, a, b, value);
}

/// An account cannot transfer one more than it holds: the transfer fails with
/// `InsufficientBalance`, and the ledger stays as it is.
pub proof fn lemma_transfer_of_more_than_balance(
    s: LedgerState,
    a: Address,
    b: Address,
    value: U256,
)
    requires
        value@ > s.balance_of(a),
    ensures
        s.transfer(a, b, value) == Err::<LedgerState, Erc20Error>(Erc20Error::InsufficientBalance),
        settle(s, s.transfer(a, b, value)) == s,
{
}

/// Once `owner` has approved `limit` for `spender`, a transfer on behalf of
/// more than `limit` fails with `InsufficientAllowance`, whatever `owner`
/// holds, and a transfer of exactly `limit` that the balance of `owner` covers
/// succeeds and leaves an allowance of zero.
pub proof fn lemma_allowance_is_enforced(
    s: LedgerState,
    owner: Address,
    spender: Address,
    to: Address,
    limit: U256,
    value: U256,
)
    requires
        s.valid(),
    ensures
        ({
            let approved = s.approve(owner, spender, limit);
            &&& value@ > limit@ ==> approved.transfer_from(spender, owner, to, value) == Err::<
                LedgerState,
                Erc20Error,
            >(Erc20Error::InsufficientAllowance)
            &&& value@ == limit@ && s.balance_of(owner) >= value@ ==> (approved.transfer_from(
                spender,
                owner,
                to,
                value,
            ) matches Ok(next) && next.allowance(owner, spender) == 0)
        }),
{
    let approved = s.approve(owner, spender, limit);
    s.lemma_approve_keeps_valid(owner, spender, limit);
    approved.lemma_valid_ledger_fails_only_for_want_of_funds(spender, owner, to, value);
}

/// A ledger without supply can mint the largest amount once. After that every
/// mint of one token or more, to any account, fails with `Overflow`.
pub proof fn lemma_mint_up_to_the_limit(
    s: LedgerState,
    a: Address,
    b: Address,
    most: U256,
    more: U256,
)
    requires
        s.valid(),
        s.total_supply == 0,
        most@ == U256::max_value(),
        more@ >= 1,
    ensures
        s.mint(a, most) matches Ok(full) && full.balance_of(a) == U256::max_value()
            && full.total_supply == U256::max_value() && full.mint(b, more) == Err::<
            LedgerState,
            Erc20Error,
        >(Erc20Error::Overflow),
{
    lemma_value_le_sum(s.balances, a);
}

} // verus!
