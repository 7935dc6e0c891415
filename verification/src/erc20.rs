//! The executable ledger.

use crate::address::Address;
use crate::error::Erc20Error;
use crate::event::Event;
use crate::mapping::{Key, Mapping};
use crate::state::LedgerState;
use crate::supply::{lemma_sum_of_insert, sum_of};
use crate::uint::{checked_add, checked_sub, U256};
use vstd::prelude::*;

verus! {

/// The description of a token: fixed when its ledger is made, never changed
/// afterwards.
#[derive(Clone, Copy, Debug, PartialEq, Eq)]
pub struct Erc20Params {
    pub name: &'static str,
    pub symbol: &'static str,
    pub decimals: u8,
}

/// The balances together with their sum. No value of this type has a supply
/// that differs from what its balances add up to.
struct Holdings {
    balances: Mapping<Address>,
    total_supply: U256,
}

impl Holdings {
    #[verifier::type_invariant]
    spec fn balances_add_up(self) -> bool {
        sum_of(self.balances@) == self.total_supply@
    }

    fn new() -> (r: Holdings)
        ensures
            r.balances@ == Map::<Address, nat>::empty(),
            r.total_supply@ == 0,
    {
        Holdings { balances: Mapping::new(), total_supply: U256::zero() }
    }

    /// Hands out the balances and leaves none behind.
    fn take(&mut self) -> (r: Mapping<Address>)
        ensures
            r@ == old(self).balances@,
            sum_of(r@) == old(self).total_supply@,
    {
        proof {
            use_type_invariant(&*self);
        }
        let mut taken = Holdings::new();
        std::mem::swap(self, &mut taken);
        taken.balances
    }

    /// Puts balances in place, with the supply that they add up to.
    fn put(&mut self, balances: Mapping<Address>, total_supply: U256)
        requires
            sum_of(balances@) == total_supply@,
        ensures
            final(self).balances@ == balances@,
            final(self).total_supply@ == total_supply@,
    {
        *self = Holdings { balances, total_supply };
    }
}

/// The ledger of one token: who holds how much, who may spend how much of
/// whose balance, and how much there is in all.
///
/// No operation checks who calls it. In particular anybody may mint.
pub struct Erc20 {
    params: Erc20Params,
    holdings: Holdings,
    allowances: Mapping<(Address, Address)>,
    events: Vec<Event>,
}

impl View for Erc20 {
    type V = LedgerState;

    closed spec fn view(&self) -> LedgerState {
        LedgerState {
            balances: self.holdings.balances@,
            allowances: self.allowances@,
            total_supply: self.holdings.total_supply@,
            events: self.events@,
        }
    }
}

impl Erc20 {
    /// The description that the ledger was made with.
    pub closed spec fn metadata(&self) -> Erc20Params {
        self.params
    }

    /// What an executable ledger holds is always in range: every amount in it
    /// is a 256-bit number.
    pub proof fn lemma_in_range(&self)
        ensures
            self@.in_range(),
            self@.balances.dom().finite(),
            self@.allowances.dom().finite(),
    {
        self.holdings.balances.lemma_view_is_finite_and_bounded();
        self.allowances.lemma_view_is_finite_and_bounded();
        self.holdings.total_supply.lemma_bounded();
    }

    /// An empty ledger for the token that `params` describes.
    pub fn new(params: Erc20Params) -> (r: Erc20)
        ensures
            r@ == LedgerState::empty(),
            r@.valid(),
            r.metadata() == params,
    {
        Erc20 {
            params,
            holdings: Holdings::new(),
            allowances: Mapping::new(),
            events: Vec::new(),
        }
    }

    pub fn name(&self) -> (r: &'static str)
        ensures
            r == self.metadata().name,
    {
        self.params.name
    }

    pub fn symbol(&self) -> (r: &'static str)
        ensures
            r == self.metadata().symbol,
    {
        self.params.symbol
    }

    pub fn decimals(&self) -> (r: u8)
        ensures
            r == self.metadata().decimals,
    {
        self.params.decimals
    }

    /// The balance of `account`: zero for an account that never received
    /// anything.
    pub fn balance_of(&self, account: Address) -> (r: U256)
        ensures
            r@ == self@.balance_of(account),
    {
        self.holdings.balances.get(&account)
    }

    /// What `spender` may still move out of the balance of `owner`.
    pub fn allowance(&self, owner: Address, spender: Address) -> (r: U256)
        ensures
            r@ == self@.allowance(owner, spender),
    {
        self.allowances.get(&(owner, spender))
    }

    /// The total supply, which is what all balances add up to.
    pub fn total_supply(&self) -> (r: U256)
        ensures
            r@ == self@.total_supply,
            r@ == sum_of(self@.balances),
            self@.valid(),
    {
        proof {
            use_type_invariant(&self.holdings);
            self.lemma_in_range();
        }
        self.holdings.total_supply
    }

    /// The events recorded since the log was last taken, oldest first.
    pub fn events(&self) -> (r: &Vec<Event>)
        ensures
            r@ == self@.events,
    {
        &self.events
    }

    /// Hands out the recorded events and starts the log afresh. Balances,
    /// allowances and supply stay as they are.
    pub fn take_events(&mut self) -> (r: Vec<Event>)
        ensures
            r@ == old(self)@.events,
            final(self)@ == (LedgerState { events: Seq::empty(), ..old(self)@ }),
            final(self).metadata() == old(self).metadata(),
    {
        let mut taken: Vec<Event> = Vec::new();
        std::mem::swap(&mut taken, &mut self.events);
        taken
    }

    /// Credits `to` with `value` new tokens and raises the total supply by as
    /// much. Fails with `Overflow`, changing nothing, if the new balance or the
    /// new supply would not fit in 256 bits; since no balance exceeds the
    /// supply, that is when the new supply would not fit.
    pub fn mint(&mut self, to: Address, value: U256) -> (r: Result<(), Erc20Error>)
        ensures
            match old(self)@.mint(to, value) {
                Ok(next) => r is Ok && final(self)@ == next,
                Err(e) => r == Err::<(), Erc20Error>(e) && final(self)@ == old(self)@,
            },
            r is Ok <==> old(self)@.total_supply + value@ <= U256::max_value(),
            final(self).metadata() == old(self).metadata(),
            final(self)@.valid(),
    {
        proof {
            use_type_invariant(&self.holdings);
            self.lemma_in_range();
            self@.lemma_mint_keeps_valid(to, value);
            self@.lemma_valid_ledger_fails_only_for_want_of_funds(to, to, to, value);
        }
        let balance = self.holdings.balances.get(&to);
        let new_balance = match checked_add(balance, value) {
            Some(sum) => sum,
            None => {
                return Err(Erc20Error::Overflow);
            },
        };
        let new_supply = match checked_add(self.holdings.total_supply, value) {
            Some(sum) => sum,
            None => {
                return Err(Erc20Error::Overflow);
            },
        };
        let mut balances = self.holdings.take();
        balances.set(to, new_balance);
        self.holdings.put(balances, new_supply);
        self.events.push(Event::Transfer { from: Address::zero(), to, value });
        Ok(())
    }

    /// Takes `value` off the balance of `owner` and off the total supply.
    /// Fails with `InsufficientBalance`, changing nothing, if `owner` holds
    /// less than `value`, and succeeds otherwise.
    pub fn burn(&mut self, owner: Address, value: U256) -> (r: Result<(), Erc20Error>)
        ensures
            match old(self)@.burn(owner, value) {
                Ok(next) => r is Ok && final(self)@ == next,
                Err(e) => r == Err::<(), Erc20Error>(e) && final(self)@ == old(self)@,
            },
            r is Ok <==> old(self)@.balance_of(owner) >= value@,
            final(self).metadata() == old(self).metadata(),
            final(self)@.valid(),
    {
        proof {
            use_type_invariant(&self.holdings);
            self.lemma_in_range();
            self@.lemma_burn_keeps_valid(owner, value);
            self@.lemma_valid_ledger_fails_only_for_want_of_funds(owner, owner, owner, value);
        }
        let balance = self.holdings.balances.get(&owner);
        let new_balance = match checked_sub(balance, value) {
            Some(diff) => diff,
            None => {
                return Err(Erc20Error::InsufficientBalance);
            },
        };
        let new_supply = match checked_sub(self.holdings.total_supply, value) {
            Some(diff) => diff,
            None => {
                // Not reached: the supply covers every balance.
                return Err(Erc20Error::Underflow);
            },
        };
        let mut balances = self.holdings.take();
        balances.update(&owner, new_balance);
        self.holdings.put(balances, new_supply);
        self.events.push(Event::Transfer { from: owner, to: Address::zero(), value });
        Ok(())
    }

    /// Moves `value` from the balance of `from` to that of `to`. Fails with
    /// `InsufficientBalance`, changing nothing, if `from` holds less than
    /// `value`, and succeeds otherwise: what fits in the supply fits in a
    /// balance. A transfer to oneself leaves the balance as it is.
    pub fn transfer(&mut self, from: Address, to: Address, value: U256) -> (r: Result<
        (),
        Erc20Error,
    >)
        ensures
            match old(self)@.transfer(from, to, value) {
                Ok(next) => r is Ok && final(self)@ == next,
                Err(e) => r == Err::<(), Erc20Error>(e) && final(self)@ == old(self)@,
            },
            r is Ok <==> old(self)@.balance_of(from) >= value@,
            final(self).metadata() == old(self).metadata(),
            final(self)@.valid(),
    {
        proof {
            use_type_invariant(&self.holdings);
            self.lemma_in_range();
            self@.lemma_transfer_keeps_valid(from, to, value);
            self@.lemma_valid_ledger_fails_only_for_want_of_funds(from, from, to, value);
        }
        let (debited, credited) = match self.moved_balances(from, to, value) {
            Ok(pair) => pair,
            Err(e) => {
                return Err(e);
            },
        };
        let supply = self.holdings.total_supply;
        let mut balances = self.holdings.take();
        balances.update(&from, debited);
        balances.set(to, credited);
        self.holdings.put(balances, supply);
        self.events.push(Event::Transfer { from, to, value });
        Ok(())
    }

    /// Sets what `spender` may move out of the balance of `owner` to `value`,
    /// whatever it was before.
    pub fn approve(&mut self, owner: Address, spender: Address, value: U256)
        ensures
            final(self)@ == old(self)@.approve(owner, spender, value),
            final(self).metadata() == old(self).metadata(),
            final(self)@.valid(),
    {
        proof {
            use_type_invariant(&self.holdings);
            self.lemma_in_range();
            self@.lemma_approve_keeps_valid(owner, spender, value);
        }
        self.allowances.set((owner, spender), value);
        self.events.push(Event::Approval { owner, spender, value });
    }

    /// Moves `value` from `owner` to `to` on behalf of `spender` and takes it
    /// off the allowance. Fails with `InsufficientAllowance` if `owner` allowed
    /// `spender` less than `value`, else with `InsufficientBalance` if `owner`
    /// holds less than `value`, and succeeds otherwise; a failure changes
    /// nothing, the allowance included. No allowance is unlimited: the largest
    /// is counted down like any other.
    pub fn transfer_from(&mut self, spender: Address, owner: Address, to: Address, value: U256) -> (r:
        Result<(), Erc20Error>)
        ensures
            match old(self)@.transfer_from(spender, owner, to, value) {
                Ok(next) => r is Ok && final(self)@ == next,
                Err(e) => r == Err::<(), Erc20Error>(e) && final(self)@ == old(self)@,
            },
            r is Ok <==> old(self)@.allowance(owner, spender) >= value@ && old(self)@.balance_of(
                owner,
            ) >= value@,
            final(self).metadata() == old(self).metadata(),
            final(self)@.valid(),
    {
        proof {
            use_type_invariant(&self.holdings);
            self.lemma_in_range();
            self@.lemma_transfer_from_keeps_valid(spender, owner, to, value);
            self@.lemma_valid_ledger_fails_only_for_want_of_funds(spender, owner, to, value);
        }
        let allowed = self.allowances.get(&(owner, spender));
        let new_allowance = match checked_sub(allowed, value) {
            Some(diff) => diff,
            None => {
                return Err(Erc20Error::InsufficientAllowance);
            },
        };
        let (debited, credited) = match self.moved_balances(owner, to, value) {
            Ok(pair) => pair,
            Err(e) => {
                return Err(e);
            },
        };
        let supply = self.holdings.total_supply;
        let mut balances = self.holdings.take();
        balances.update(&owner, debited);
        balances.set(to, credited);
        self.holdings.put(balances, supply);
        self.allowances.update(&(owner, spender), new_allowance);
        self.events.push(Event::Transfer { from: owner, to, value });
        Ok(())
    }

    /// The balances that `from` and `to` have once `value` has moved between
    /// them, or why it cannot move.
    fn moved_balances(&self, from: Address, to: Address, value: U256) -> (r: Result<
        (U256, U256),
        Erc20Error,
    >)
        ensures
            match self@.transfer(from, to, value) {
                Ok(next) => r matches Ok((debited, credited)) && debited@ == self@.balance_of(from)
                    - value@ && credited@ == next.balance_of(to),
                Err(e) => r == Err::<(U256, U256), Erc20Error>(e),
            },
    {
        let from_balance = self.holdings.balances.get(&from);
        let debited = match checked_sub(from_balance, value) {
            Some(diff) => diff,
            None => {
                return Err(Erc20Error::InsufficientBalance);
            },
        };
        let to_balance = if from.same(&to) {
            debited
        } else {
            self.holdings.balances.get(&to)
        };
        match checked_add(to_balance, value) {
            Some(credited) => Ok((debited, credited)),
            None => Err(Erc20Error::Overflow),
        }
    }
}

} // verus!
