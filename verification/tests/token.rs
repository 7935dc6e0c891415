use stylus_token::{Address, Erc20Error, Event, StylusToken, U256};

fn addr(tag: u8) -> Address {
    let mut bytes = [0u8; 20];
    bytes[19] = tag;
    Address::new(bytes)
}

fn amount(x: u64) -> U256 {
    U256::from_u64(x)
}

#[test]
fn a_new_token_is_empty() {
    let token = StylusToken::new();
    assert_eq!(token.total_supply(), U256::zero());
    assert_eq!(token.balance_of(addr(1)), U256::zero());
    assert_eq!(token.allowance(addr(1), addr(2)), U256::zero());
    assert!(token.events().is_empty());
}

#[test]
fn the_token_describes_itself() {
    let token = StylusToken::new();
    assert_eq!(token.name(), "MOCK USDC");
    assert_eq!(token.symbol(), "MUSDC");
    assert_eq!(token.decimals(), 6);
}

#[test]
fn self_mint_credits_the_caller() {
    let a = addr(0xa1);
    let mut token = StylusToken::new();
    assert_eq!(token.mint(a, amount(1000)), Ok(()));
    assert_eq!(token.balance_of(a), amount(1000));
    assert_eq!(token.total_supply(), amount(1000));
    assert_eq!(
        token.events(),
        &vec![Event::Transfer { from: Address::zero(), to: a, value: amount(1000) }]
    );
}

#[test]
fn mint_to_credits_the_recipient_not_the_caller() {
    let (a, b) = (addr(1), addr(2));
    let mut token = StylusToken::new();
    assert_eq!(token.mint_to(b, amount(250)), Ok(()));
    assert_eq!(token.balance_of(b), amount(250));
    assert_eq!(token.balance_of(a), U256::zero());
    assert_eq!(token.total_supply(), amount(250));
    assert_eq!(
        token.events(),
        &vec![Event::Transfer { from: Address::zero(), to: b, value: amount(250) }]
    );
}

#[test]
fn anybody_may_mint() {
    let mut token = StylusToken::new();
    for tag in 1..=5u8 {
        assert_eq!(token.mint(addr(tag), amount(10)), Ok(()));
    }
    assert_eq!(token.total_supply(), amount(50));
}

#[test]
fn mints_add_up() {
    let a = addr(1);
    let mut token = StylusToken::new();
    assert_eq!(token.mint(a, amount(5)), Ok(()));
    assert_eq!(token.mint(a, amount(7)), Ok(()));
    assert_eq!(token.balance_of(a), amount(12));
    assert_eq!(token.total_supply(), amount(12));
}

#[test]
fn a_mint_carries_into_the_next_limb() {
    let a = addr(1);
    let mut token = StylusToken::new();
    assert_eq!(token.mint(a, amount(u64::MAX)), Ok(()));
    assert_eq!(token.mint(a, amount(1)), Ok(()));
    assert_eq!(token.balance_of(a), U256::from_limbs([0, 1, 0, 0]));
    assert_eq!(token.total_supply(), U256::from_limbs([0, 1, 0, 0]));
}

#[test]
fn self_burn_debits_the_caller() {
    let a = addr(1);
    let mut token = StylusToken::new();
    assert_eq!(token.mint(a, amount(12)), Ok(()));
    assert_eq!(token.burn(a, amount(5)), Ok(()));
    assert_eq!(token.balance_of(a), amount(7));
    assert_eq!(token.total_supply(), amount(7));
    assert_eq!(
        token.events()[1],
        Event::Transfer { from: a, to: Address::zero(), value: amount(5) }
    );
}

#[test]
fn a_burn_borrows_from_the_next_limb() {
    let a = addr(1);
    let mut token = StylusToken::new();
    assert_eq!(token.mint(a, U256::from_limbs([0, 1, 0, 0])), Ok(()));
    assert_eq!(token.burn(a, amount(1)), Ok(()));
    assert_eq!(token.balance_of(a), amount(u64::MAX));
    assert_eq!(token.total_supply(), amount(u64::MAX));
}

#[test]
fn burning_more_than_the_balance_fails() {
    let (a, b) = (addr(1), addr(2));
    let mut token = StylusToken::new();
    assert_eq!(token.mint(a, amount(10)), Ok(()));
    assert_eq!(token.mint(b, amount(100)), Ok(()));
    assert_eq!(token.burn(a, amount(11)), Err(Erc20Error::InsufficientBalance));
    assert_eq!(token.balance_of(a), amount(10));
    assert_eq!(token.total_supply(), amount(110));
    assert_eq!(token.events().len(), 2);
}

#[test]
fn mint_then_burn_restores_balance_and_supply() {
    let (a, b) = (addr(1), addr(2));
    let mut token = StylusToken::new();
    assert_eq!(token.mint(a, amount(30)), Ok(()));
    assert_eq!(token.mint(b, amount(70)), Ok(()));
    assert_eq!(token.mint(a, amount(45)), Ok(()));
    assert_eq!(token.burn(a, amount(45)), Ok(()));
    assert_eq!(token.balance_of(a), amount(30));
    assert_eq!(token.total_supply(), amount(100));
}

#[test]
fn the_largest_amount_can_be_minted_once() {
    let a = addr(1);
    let mut token = StylusToken::new();
    assert_eq!(token.mint(a, U256::max()), Ok(()));
    assert_eq!(token.balance_of(a), U256::max());
    assert_eq!(token.total_supply(), U256::max());
    assert_eq!(token.mint(a, amount(1)), Err(Erc20Error::Overflow));
    assert_eq!(token.balance_of(a), U256::max());
    assert_eq!(token.total_supply(), U256::max());
    assert_eq!(token.events().len(), 1);
}

#[test]
fn a_mint_that_overflows_the_supply_alone_fails() {
    let (a, b) = (addr(1), addr(2));
    let mut token = StylusToken::new();
    assert_eq!(token.mint(a, U256::max()), Ok(()));
    assert_eq!(token.mint_to(b, amount(1)), Err(Erc20Error::Overflow));
    assert_eq!(token.balance_of(b), U256::zero());
    assert_eq!(token.total_supply(), U256::max());
}

#[test]
fn transfer_moves_funds() {
    let (a, b) = (addr(1), addr(2));
    let mut token = StylusToken::new();
    assert_eq!(token.mint(a, amount(1000)), Ok(()));
    assert_eq!(token.transfer(a, b, amount(400)), Ok(()));
    assert_eq!(token.balance_of(a), amount(600));
    assert_eq!(token.balance_of(b), amount(400));
    assert_eq!(token.total_supply(), amount(1000));
    assert_eq!(token.events()[1], Event::Transfer { from: a, to: b, value: amount(400) });
}

#[test]
fn transfer_there_and_back_restores_both_balances() {
    let (a, b) = (addr(1), addr(2));
    let mut token = StylusToken::new();
    assert_eq!(token.mint(a, amount(90)), Ok(()));
    assert_eq!(token.mint(b, amount(15)), Ok(()));
    assert_eq!(token.transfer(a, b, amount(60)), Ok(()));
    assert_eq!(token.transfer(b, a, amount(60)), Ok(()));
    assert_eq!(token.balance_of(a), amount(90));
    assert_eq!(token.balance_of(b), amount(15));
}

#[test]
fn the_whole_balance_can_be_transferred() {
    let (a, b) = (addr(1), addr(2));
    let mut token = StylusToken::new();
    assert_eq!(token.mint(a, amount(77)), Ok(()));
    let all = token.balance_of(a);
    assert_eq!(token.transfer(a, b, all), Ok(()));
    assert_eq!(token.balance_of(a), U256::zero());
    assert_eq!(token.balance_of(b), amount(77));
}

#[test]
fn one_more_than_the_balance_cannot_be_transferred() {
    let (a, b) = (addr(1), addr(2));
    let mut token = StylusToken::new();
    assert_eq!(token.mint(a, amount(77)), Ok(()));
    assert_eq!(token.mint(b, amount(3)), Ok(()));
    assert_eq!(token.transfer(a, b, amount(78)), Err(Erc20Error::InsufficientBalance));
    assert_eq!(token.balance_of(a), amount(77));
    assert_eq!(token.balance_of(b), amount(3));
    assert_eq!(token.total_supply(), amount(80));
    assert_eq!(token.events().len(), 2);
}

#[test]
fn a_transfer_to_oneself_changes_no_balance() {
    let a = addr(1);
    let mut token = StylusToken::new();
    assert_eq!(token.mint(a, amount(50)), Ok(()));
    assert_eq!(token.transfer(a, a, amount(50)), Ok(()));
    assert_eq!(token.balance_of(a), amount(50));
    assert_eq!(token.transfer(a, a, amount(51)), Err(Erc20Error::InsufficientBalance));
    assert_eq!(token.balance_of(a), amount(50));
    assert_eq!(token.total_supply(), amount(50));
}

#[test]
fn a_transfer_to_oneself_of_the_largest_amount_does_not_overflow() {
    let a = addr(1);
    let mut token = StylusToken::new();
    assert_eq!(token.mint(a, U256::max()), Ok(()));
    assert_eq!(token.transfer(a, a, U256::max()), Ok(()));
    assert_eq!(token.balance_of(a), U256::max());
}

#[test]
fn operations_on_nothing_succeed_and_are_recorded() {
    let (a, b) = (addr(1), addr(2));
    let mut token = StylusToken::new();
    assert_eq!(token.mint(a, U256::zero()), Ok(()));
    assert_eq!(token.burn(b, U256::zero()), Ok(()));
    assert_eq!(token.transfer(a, b, U256::zero()), Ok(()));
    assert_eq!(token.transfer_from(b, a, b, U256::zero()), Ok(()));
    assert_eq!(token.total_supply(), U256::zero());
    assert_eq!(token.balance_of(a), U256::zero());
    assert_eq!(token.balance_of(b), U256::zero());
    assert_eq!(
        token.events(),
        &vec![
            Event::Transfer { from: Address::zero(), to: a, value: U256::zero() },
            Event::Transfer { from: b, to: Address::zero(), value: U256::zero() },
            Event::Transfer { from: a, to: b, value: U256::zero() },
            Event::Transfer { from: a, to: b, value: U256::zero() },
        ]
    );
}

#[test]
fn approve_sets_the_allowance() {
    let (owner, spender) = (addr(1), addr(2));
    let mut token = StylusToken::new();
    token.approve(owner, spender, amount(100));
    assert_eq!(token.allowance(owner, spender), amount(100));
    assert_eq!(token.allowance(spender, owner), U256::zero());
    assert_eq!(
        token.events(),
        &vec![Event::Approval { owner, spender, value: amount(100) }]
    );
}

#[test]
fn approve_overwrites_and_does_not_add() {
    let (owner, spender) = (addr(1), addr(2));
    let mut token = StylusToken::new();
    token.approve(owner, spender, amount(100));
    token.approve(owner, spender, amount(30));
    assert_eq!(token.allowance(owner, spender), amount(30));
    token.approve(owner, spender, U256::zero());
    assert_eq!(token.allowance(owner, spender), U256::zero());
}

#[test]
fn approving_twice_is_approving_once() {
    let (owner, spender) = (addr(1), addr(2));
    let mut once = StylusToken::new();
    once.approve(owner, spender, amount(42));
    let mut twice = StylusToken::new();
    twice.approve(owner, spender, amount(42));
    twice.approve(owner, spender, amount(42));
    assert_eq!(once.allowance(owner, spender), amount(42));
    assert_eq!(twice.allowance(owner, spender), amount(42));
}

#[test]
fn the_allowance_is_enforced() {
    let (owner, spender, to) = (addr(1), addr(2), addr(3));
    let mut token = StylusToken::new();
    assert_eq!(token.mint(owner, amount(500)), Ok(()));
    token.approve(owner, spender, amount(100));
    assert_eq!(
        token.transfer_from(spender, owner, to, amount(101)),
        Err(Erc20Error::InsufficientAllowance)
    );
    assert_eq!(token.allowance(owner, spender), amount(100));
    assert_eq!(token.balance_of(owner), amount(500));
    assert_eq!(token.transfer_from(spender, owner, to, amount(100)), Ok(()));
    assert_eq!(token.allowance(owner, spender), U256::zero());
    assert_eq!(token.balance_of(owner), amount(400));
    assert_eq!(token.balance_of(to), amount(100));
    assert_eq!(token.balance_of(spender), U256::zero());
    assert_eq!(token.total_supply(), amount(500));
    assert_eq!(
        token.events()[2],
        Event::Transfer { from: owner, to, value: amount(100) }
    );
    assert_eq!(token.events().len(), 3);
}

#[test]
fn a_transfer_on_behalf_takes_only_what_it_moves() {
    let (owner, spender, to) = (addr(1), addr(2), addr(3));
    let mut token = StylusToken::new();
    assert_eq!(token.mint(owner, amount(500)), Ok(()));
    token.approve(owner, spender, amount(100));
    assert_eq!(token.transfer_from(spender, owner, to, amount(30)), Ok(()));
    assert_eq!(token.allowance(owner, spender), amount(70));
    assert_eq!(token.transfer_from(spender, owner, to, amount(71)), Err(Erc20Error::InsufficientAllowance));
    assert_eq!(token.transfer_from(spender, owner, to, amount(70)), Ok(()));
    assert_eq!(token.allowance(owner, spender), U256::zero());
    assert_eq!(token.balance_of(to), amount(100));
}

#[test]
fn an_allowance_is_no_balance() {
    let (owner, spender, to) = (addr(1), addr(2), addr(3));
    let mut token = StylusToken::new();
    assert_eq!(token.mint(owner, amount(10)), Ok(()));
    token.approve(owner, spender, amount(100));
    assert_eq!(
        token.transfer_from(spender, owner, to, amount(11)),
        Err(Erc20Error::InsufficientBalance)
    );
    assert_eq!(token.allowance(owner, spender), amount(100));
    assert_eq!(token.balance_of(owner), amount(10));
    assert_eq!(token.balance_of(to), U256::zero());
    assert_eq!(token.events().len(), 2);
}

#[test]
fn without_an_approval_nothing_can_be_spent() {
    let (owner, spender, to) = (addr(1), addr(2), addr(3));
    let mut token = StylusToken::new();
    assert_eq!(token.mint(owner, amount(10)), Ok(()));
    assert_eq!(
        token.transfer_from(spender, owner, to, amount(1)),
        Err(Erc20Error::InsufficientAllowance)
    );
    token.approve(spender, owner, amount(5));
    assert_eq!(
        token.transfer_from(spender, owner, to, amount(1)),
        Err(Erc20Error::InsufficientAllowance)
    );
}

#[test]
fn the_balances_add_up_to_the_supply() {
    let (a, b, c) = (addr(1), addr(2), addr(3));
    let mut token = StylusToken::new();
    assert_eq!(token.mint(a, amount(1000)), Ok(()));
    assert_eq!(token.mint_to(b, amount(500)), Ok(()));
    assert_eq!(token.transfer(a, c, amount(250)), Ok(()));
    assert_eq!(token.burn(b, amount(125)), Ok(()));
    token.approve(c, a, amount(200));
    assert_eq!(token.transfer_from(a, c, b, amount(50)), Ok(()));
    assert_eq!(token.burn(c, amount(1000)), Err(Erc20Error::InsufficientBalance));
    assert_eq!(token.balance_of(a), amount(750));
    assert_eq!(token.balance_of(b), amount(425));
    assert_eq!(token.balance_of(c), amount(200));
    assert_eq!(token.total_supply(), amount(1375));
}

#[test]
fn taking_the_events_empties_the_log_only() {
    let (a, b) = (addr(1), addr(2));
    let mut token = StylusToken::new();
    assert_eq!(token.mint(a, amount(9)), Ok(()));
    token.approve(a, b, amount(4));
    let taken = token.take_events();
    assert_eq!(
        taken,
        vec![
            Event::Transfer { from: Address::zero(), to: a, value: amount(9) },
            Event::Approval { owner: a, spender: b, value: amount(4) },
        ]
    );
    assert!(token.events().is_empty());
    assert_eq!(token.balance_of(a), amount(9));
    assert_eq!(token.allowance(a, b), amount(4));
    assert_eq!(token.total_supply(), amount(9));
    assert_eq!(token.transfer(a, b, amount(1)), Ok(()));
    assert_eq!(token.events().len(), 1);
}

#[test]
fn the_supply_can_be_filled_to_the_last_token() {
    let (a, b) = (addr(1), addr(2));
    let mut token = StylusToken::new();
    let all_but_one = U256::from_limbs([u64::MAX - 1, u64::MAX, u64::MAX, u64::MAX]);
    assert_eq!(token.mint(a, all_but_one), Ok(()));
    assert_eq!(token.mint(b, amount(2)), Err(Erc20Error::Overflow));
    assert_eq!(token.mint(b, amount(1)), Ok(()));
    assert_eq!(token.total_supply(), U256::max());
    assert_eq!(token.balance_of(a), all_but_one);
    assert_eq!(token.balance_of(b), amount(1));
    assert_eq!(token.transfer(b, a, amount(1)), Ok(()));
    assert_eq!(token.balance_of(a), U256::max());
    assert_eq!(token.balance_of(b), U256::zero());
}

#[test]
fn a_burn_borrows_through_every_limb() {
    let a = addr(1);
    let mut token = StylusToken::new();
    assert_eq!(token.mint(a, U256::from_limbs([0, 0, 0, 1])), Ok(()));
    assert_eq!(token.burn(a, amount(1)), Ok(()));
    assert_eq!(token.balance_of(a), U256::from_limbs([u64::MAX, u64::MAX, u64::MAX, 0]));
    assert_eq!(token.total_supply(), U256::from_limbs([u64::MAX, u64::MAX, u64::MAX, 0]));
}

#[test]
fn a_failed_first_leg_makes_no_round_trip() {
    let (a, b) = (addr(1), addr(2));
    let mut token = StylusToken::new();
    assert_eq!(token.mint(b, amount(5)), Ok(()));
    assert_eq!(token.transfer(a, b, amount(5)), Err(Erc20Error::InsufficientBalance));
    assert_eq!(token.transfer(b, a, amount(5)), Ok(()));
    assert_eq!(token.balance_of(a), amount(5));
    assert_eq!(token.balance_of(b), U256::zero());
}
