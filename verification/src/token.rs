//! The token as its callers see it: one ledger, and the entry points that
//! bind each call to the identity of its caller.

use crate::address::Address;
use crate::erc20::{Erc20, Erc20Params};
use crate::error::Erc20Error;
use crate::event::Event;
use crate::state::LedgerState;
use crate::supply::sum_of;
use crate::uint::U256;
use vstd::prelude::*;

verus! {

/// A token with a fixed description and a ledger of its own.
///
/// Each entry point that acts for its caller takes the caller's address as
/// `sender`: the host that runs the token knows who called, and passes it in.
/// The entry points add nothing to what the ledger does, and an error of the
/// ledger reaches the caller as it is.
///
/// `mint` and `mint_to` are open to everybody: no caller is refused.
pub struct StylusToken {
    erc20: Erc20,
}

impl View for StylusToken {
    type V = LedgerState;

    closed spec fn view(&self) -> LedgerState {
        self.erc20@
    }
}

impl StylusToken {
    /// The description that every token is made with.
    pub open spec fn params() -> Erc20Params {
        Erc20Params { name: "MOCK USDC", symbol: "MUSDC", decimals: 6 }
    }

    /// The description that this token was made with. No operation changes it.
    pub closed spec fn metadata(&self) -> Erc20Params {
        self.erc20.metadata()
    }

    /// A token that nobody holds yet.
    pub fn new() -> (r: StylusToken)
        ensures
            r@ == LedgerState::empty(),
            r@.valid(),
            r.metadata() == StylusToken::params(),
    {
        StylusToken {
            erc20: Erc20::new(Erc20Params { name: "MOCK USDC", symbol: "MUSDC", decimals: 6 }),
        }
    }

    /// What the ledger of a token holds is always in range: every amount in it
    /// is a 256-bit number, and finitely many accounts have an entry.
    pub proof fn lemma_in_range(&self)
        ensures
            self@.in_range(),
            self@.balances.dom().finite(),
            self@.allowances.dom().finite(),
    {
        self.erc20.lemma_in_range();
    }

    /// Mints `value` new tokens for the caller.
    pub fn mint(&mut self, sender: Address, value: U256) -> (r: Result<(), Erc20Error>)
        ensures
            match old(self)@.mint(sender, value) {
                Ok(next) => r is Ok && final(self)@ == next,
                Err(e) => r == Err::<(), Erc20Error>(e) && final(self)@ == old(self)@,
            },
            r is Ok <==> old(self)@.total_supply + value@ <= U256::max_value(),
            final(self).metadata() == old(self).metadata(),
            final(self)@.valid(),
    {
        self.erc20.mint(sender, value)
    }

    /// Mints `value` new tokens for `to`.
    pub fn mint_to(&mut self, to: Address, value: U256) -> (r: Result<(), Erc20Error>)
        ensures
            match old(self)@.mint(to, value) {
                Ok(next) => r is Ok && final(self)@ == next,
                Err(e) => r == Err::<(), Erc20Error>(e) && final(self)@ == old(self)@,
            },
            r is Ok <==> old(self)@.total_supply + value@ <= U256::max_value(),
            final(self).metadata() == old(self).metadata(),
            final(self)@.valid(),
    {
        self.erc20.mint(to, value)
    }

    /// Burns `value` of the caller's tokens.
    pub fn burn(&mut self, sender: Address, value: U256) -> (r: Result<(), Erc20Error>)
        ensures
            match old(self)@.burn(sender, value) {
                Ok(next) => r is Ok && final(self)@ == next,
                Err(e) => r == Err::<(), Erc20Error>(e) && final(self)@ == old(self)@,
            },
            r is Ok <==> old(self)@.balance_of(sender) >= value@,
            final(self).metadata() == old(self).metadata(),
            final(self)@.valid(),
    {
        self.erc20.burn(sender, value)
    }

    /// Moves `value` from the caller to `to`.
    pub fn transfer(&mut self, sender: Address, to: Address, value: U256) -> (r: Result<
        (),
        Erc20Error,
    >)
        ensures
            match old(self)@.transfer(sender, to, value) {
                Ok(next) => r is Ok && final(self)@ == next,
                Err(e) => r == Err::<(), Erc20Error>(e) && final(self)@ == old(self)@,
            },
            r is Ok <==> old(self)@.balance_of(sender) >= value@,
            final(self).metadata() == old(self).metadata(),
            final(self)@.valid(),
    {
        self.erc20.transfer(sender, to, value)
    }

    /// Lets `spender` move up to `value` out of the caller's balance.
    pub fn approve(&mut self, sender: Address, spender: Address, value: U256)
        ensures
            final(self)@ == old(self)@.approve(sender, spender, value),
            final(self).metadata() == old(self).metadata(),
            final(self)@.valid(),
    {
        self.erc20.approve(sender, spender, value)
    }

    /// Moves `value` from `owner` to `to`, out of what `owner` allowed the
    /// caller.
    pub fn transfer_from(&mut self, sender: Address, owner: Address, to: Address, value: U256) -> (r:
        Result<(), Erc20Error>)
        ensures
            match old(self)@.transfer_from(sender, owner, to, value) {
                Ok(next) => r is Ok && final(self)@ == next,
                Err(e) => r == Err::<(), Erc20Error>(e) && final(self)@ == old(self)@,
            },
            r is Ok <==> old(self)@.allowance(owner, sender) >= value@ && old(self)@.balance_of(
                owner,
            ) >= value@,
            final(self).metadata() == old(self).metadata(),
            final(self)@.valid(),
    {
        self.erc20.transfer_from(sender, owner, to, value)
    }

    pub fn balance_of(&self, account: Address) -> (r: U256)
        ensures
            r@ == self@.balance_of(account),
    {
        self.erc20.balance_of(account)
    }

    pub fn allowance(&self, owner: Address, spender: Address) -> (r: U256)
        ensures
            r@ == self@.allowance(owner, spender),
    {
        self.erc20.allowance(owner, spender)
    }

    /// The total supply, which is what all balances add up to.
    pub fn total_supply(&self) -> (r: U256)
        ensures
            r@ == self@.total_supply,
            r@ == sum_of(self@.balances),
            self@.valid(),
    {
        self.erc20.total_supply()
    }

    pub fn name(&self) -> (r: &'static str)
        ensures
            r == self.metadata().name,
    {
        self.erc20.name()
    }

    pub fn symbol(&self) -> (r: &'static str)
        ensures
            r == self.metadata().symbol,
    {
        self.erc20.symbol()
    }

    pub fn decimals(&self) -> (r: u8)
        ensures
            r == self.metadata().decimals,
    {
        self.erc20.decimals()
    }

    /// The events recorded since the log was last taken, oldest first.
    pub fn events(&self) -> (r: &Vec<Event>)
        ensures
            r@ == self@.events,
    {
        self.erc20.events()
    }

    /// Hands out the recorded events and starts the log afresh.
    pub fn take_events(&mut self) -> (r: Vec<Event>)
        ensures
            r@ == old(self)@.events,
            final(self)@ == (LedgerState { events: Seq::empty(), ..old(self)@ }),
            final(self).metadata() == old(self).metadata(),
    {
        self.erc20.take_events()
    }
}

} // verus!
