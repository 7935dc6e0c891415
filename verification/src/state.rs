//! The ledger as a mathematical state machine.
//!
//! [`LedgerState`] is what a ledger holds, as maps and numbers; its spec
//! functions say what each operation does to it. The contracts of the
//! executable ledger are stated over them.

use crate::address::Address;
use crate::error::Erc20Error;
use crate::event::Event;
use crate::mapping::value_at;
use crate::supply::{lemma_sum_of_insert, lemma_two_values_le_sum, lemma_value_le_sum, sum_of};
use crate::uint::U256;
use vstd::prelude::*;

verus! {

/// What is left of `m` after `amount` is taken from the entry of `k`. A key
/// without an entry gets none.
pub open spec fn debit<K>(m: Map<K, nat>, k: K, amount: nat) -> Map<K, nat> {
    if m.dom().contains(k) {
        m.insert(k, (m[k] - amount) as nat)
    } else {
        m
    }
}

/// `m` after `amount` is added to what `k` holds. The key has an entry
/// afterwards.
pub open spec fn credit<K>(m: Map<K, nat>, k: K, amount: nat) -> Map<K, nat> {
    m.insert(k, value_at(m, k) + amount)
}

/// The balances, the allowances by (owner, spender), the total supply and the
/// events recorded so far.
pub struct LedgerState {
    pub balances: Map<Address, nat>,
    pub allowances: Map<(Address, Address), nat>,
    pub total_supply: nat,
    pub events: Seq<Event>,
}

impl LedgerState {
    /// The ledger before any operation: nobody holds anything.
    pub open spec fn empty() -> LedgerState {
        LedgerState {
            balances: Map::empty(),
            allowances: Map::empty(),
            total_supply: 0,
            events: Seq::empty(),
        }
    }

    pub open spec fn balance_of(self, account: Address) -> nat {
        value_at(self.balances, account)
    }

    pub open spec fn allowance(self, owner: Address, spender: Address) -> nat {
        value_at(self.allowances, (owner, spender))
    }

    /// Every stored amount and the total supply fit in 256 bits.
    pub open spec fn in_range(self) -> bool {
        &&& forall|a: Address|
            self.balances.dom().contains(a) ==> #[trigger] self.balances[a] <= U256::max_value()
        &&& forall|p: (Address, Address)|
            self.allowances.dom().contains(p) ==> #[trigger] self.allowances[p]
                <= U256::max_value()
        &&& self.total_supply <= U256::max_value()
    }

    /// Finitely many accounts hold a balance, and the balances add up to the
    /// total supply.
    pub open spec fn conserved(self) -> bool {
        &&& self.balances.dom().finite()
        &&& sum_of(self.balances) == self.total_supply
    }

    /// The ledger is sound: its amounts are in range and its supply is
    /// conserved. Every ledger that operations can produce is.
    pub open spec fn valid(self) -> bool {
        self.in_range() && self.conserved()
    }

    /// Creates `value` new tokens for `to`.
    pub open spec fn mint(self, to: Address, value: U256) -> Result<LedgerState, Erc20Error> {
        if self.balance_of(to) + value@ > U256::max_value() || self.total_supply + value@
            > U256::max_value() {
            Err(Erc20Error::Overflow)
        } else {
            Ok(
                LedgerState {
                    balances: credit(self.balances, to, value@),
                    total_supply: self.total_supply + value@,
                    events: self.events.push(Event::Transfer { from: Address::zero(), to, value }),
                    ..self
                },
            )
        }
    }

    /// Destroys `value` of the tokens of `owner`.
    pub open spec fn burn(self, owner: Address, value: U256) -> Result<LedgerState, Erc20Error> {
        if self.balance_of(owner) < value@ {
            Err(Erc20Error::InsufficientBalance)
        } else if self.total_supply < value@ {
            Err(Erc20Error::Underflow)
        } else {
            Ok(
                LedgerState {
                    balances: debit(self.balances, owner, value@),
                    total_supply: (self.total_supply - value@) as nat,
                    events: self.events.push(
                        Event::Transfer { from: owner, to: Address::zero(), value },
                    ),
                    ..self
                },
            )
        }
    }

    /// Moves `value` from `from` to `to`.
    pub open spec fn transfer(self, from: Address, to: Address, value: U256) -> Result<
        LedgerState,
        Erc20Error,
    > {
        if self.balance_of(from) < value@ {
            Err(Erc20Error::InsufficientBalance)
        } else {
            let debited = debit(self.balances, from, value@);
            if value_at(debited, to) + value@ > U256::max_value() {
                Err(Erc20Error::Overflow)
            } else {
                Ok(
                    LedgerState {
                        balances: credit(debited, to, value@),
                        events: self.events.push(Event::Transfer { from, to, value }),
                        ..self
                    },
                )
            }
        }
    }

    /// Sets what `spender` may move out of the balance of `owner` to `value`.
    pub open spec fn approve(self, owner: Address, spender: Address, value: U256) -> LedgerState {
        LedgerState {
            allowances: self.allowances.insert((owner, spender), value@),
            events: self.events.push(Event::Approval { owner, spender, value }),
            ..self
        }
    }

    /// Moves `value` from `owner` to `to` on the word of `spender`, and takes
    /// it off what `owner` allowed `spender`. No allowance is unlimited: the
    /// largest is counted down like any other.
    pub open spec fn transfer_from(
        self,
        spender: Address,
        owner: Address,
        to: Address,
        value: U256,
    ) -> Result<LedgerState, Erc20Error> {
        if self.allowance(owner, spender) < value@ {
            Err(Erc20Error::InsufficientAllowance)
        } else {
            match self.transfer(owner, to, value) {
                Ok(moved) => Ok(
                    LedgerState {
                        allowances: debit(self.allowances, (owner, spender), value@),
                        ..moved
                    },
                ),
                Err(e) => Err(e),
            }
        }
    }

    /// A mint keeps a valid ledger valid, whether it succeeds or not.
    pub proof fn lemma_mint_keeps_valid(self, to: Address, value: U256)
        requires
            self.valid(),
        ensures
            self.mint(to, value) matches Ok(next) ==> next.valid(),
    {
        if let Ok(next) = self.mint(to, value) {
            lemma_sum_of_insert(self.balances, to, self.balance_of(to) + value@);
        }
    }

    /// A burn keeps a valid ledger valid.
    pub proof fn lemma_burn_keeps_valid(self, owner: Address, value: U256)
        requires
            self.valid(),
        ensures
            self.burn(owner, value) matches Ok(next) ==> next.valid(),
    {
        if let Ok(next) = self.burn(owner, value) {
            if self.balances.dom().contains(owner) {
                lemma_sum_of_insert(
                    self.balances,
                    owner,
                    (self.balances[owner] - value@) as nat,
                );
            }
        }
    }

    /// A transfer keeps a valid ledger valid.
    pub proof fn lemma_transfer_keeps_valid(self, from: Address, to: Address, value: U256)
        requires
            self.valid(),
        ensures
            self.transfer(from, to, value) matches Ok(next) ==> next.valid(),
    {
        if let Ok(next) = self.transfer(from, to, value) {
            let debited = debit(self.balances, from, value@);
            if self.balances.dom().contains(from) {
                lemma_sum_of_insert(
                    self.balances,
                    from,
                    (self.balances[from] - value@) as nat,
                );
            }
            lemma_sum_of_insert(debited, to, value_at(debited, to) + value@);
        }
    }

    /// An approval keeps a valid ledger valid.
    pub proof fn lemma_approve_keeps_valid(self, owner: Address, spender: Address, value: U256)
        requires
            self.valid(),
        ensures
            self.approve(owner, spender, value).valid(),
    {
        value.lemma_bounded();
    }

    /// A transfer on behalf keeps a valid ledger valid.
    pub proof fn lemma_transfer_from_keeps_valid(
        self,
        spender: Address,
        owner: Address,
        to: Address,
        value: U256,
    )
        requires
            self.valid(),
        ensures
            self.transfer_from(spender, owner, to, value) matches Ok(next) ==> next.valid(),
    {
        self.lemma_transfer_keeps_valid(owner, to, value);
    }

    /// In a valid ledger a transfer cannot overflow and a burn cannot
    /// underflow: the only way for either to fail is a balance that is too
    /// small, and for a transfer on behalf also an allowance that is too small.
    pub proof fn lemma_valid_ledger_fails_only_for_want_of_funds(
        self,
        spender: Address,
        from: Address,
        to: Address,
        value: U256,
    )
        requires
            self.valid(),
        ensures
            self.transfer(from, to, value) is Ok <==> self.balance_of(from) >= value@,
            self.transfer(from, to, value) is Err ==> self.transfer(from, to, value) == Err::<
                LedgerState,
                Erc20Error,
            >(Erc20Error::InsufficientBalance),
            self.burn(from, value) is Ok <==> self.balance_of(from) >= value@,
            self.burn(from, value) is Err ==> self.burn(from, value) == Err::<
                LedgerState,
                Erc20Error,
            >(Erc20Error::InsufficientBalance),
            self.transfer_from(spender, from, to, value) is Ok <==> self.allowance(from, spender)
                >= value@ && self.balance_of(from) >= value@,
            self.mint(to, value) is Ok <==> self.total_supply + value@ <= U256::max_value(),
    {
        lemma_value_le_sum(self.balances, from);
        lemma_value_le_sum(self.balances, to);
        if from != to {
            lemma_two_values_le_sum(self.balances, from, to);
        }
    }
}

} // verus!
