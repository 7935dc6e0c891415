//! 256-bit unsigned amounts.

use vstd::prelude::*;

verus! {

/// An unsigned 256-bit amount, held as four 64-bit limbs, least significant
/// limb first.
#[derive(Clone, Copy, Debug, PartialEq, Eq, Hash)]
pub struct U256 {
    pub limbs: [u64; 4],
}

impl View for U256 {
    type V = nat;

    /// The number that the limbs spell in base 2^64.
    open spec fn view(&self) -> nat {
        (self.limbs[0] as nat) + (self.limbs[1] as nat) * 0x1_0000_0000_0000_0000nat
            + (self.limbs[2] as nat) * 0x1_0000_0000_0000_0000_0000_0000_0000_0000nat
            + (self.limbs[3] as nat)
            * 0x1_0000_0000_0000_0000_0000_0000_0000_0000_0000_0000_0000_0000nat
    }
}

impl U256 {
    /// The largest amount: 2^256 - 1.
    pub open spec fn max_value() -> nat {
        0xffff_ffff_ffff_ffff_ffff_ffff_ffff_ffff_ffff_ffff_ffff_ffff_ffff_ffff_ffff_ffffnat
    }

    /// No amount exceeds 2^256 - 1.
    pub proof fn lemma_bounded(self)
        ensures
            self@ <= U256::max_value(),
    {
    }

    pub fn zero() -> (r: U256)
        ensures
            r@ == 0,
    {
        U256 { limbs: [0, 0, 0, 0] }
    }

    pub fn max() -> (r: U256)
        ensures
            r@ == U256::max_value(),
    {
        U256 { limbs: [u64::MAX, u64::MAX, u64::MAX, u64::MAX] }
    }

    pub fn from_u64(x: u64) -> (r: U256)
        ensures
            r@ == x,
    {
        U256 { limbs: [x, 0, 0, 0] }
    }

    pub fn from_limbs(limbs: [u64; 4]) -> (r: U256)
        ensures
            r.limbs == limbs,
    {
        U256 { limbs }
    }

    pub fn into_limbs(self) -> (r: [u64; 4])
        ensures
            r == self.limbs,
    {
        self.limbs
    }

    pub fn is_zero(&self) -> (r: bool)
        ensures
            r == (self@ == 0),
    {
        self.limbs[0] == 0 && self.limbs[1] == 0 && self.limbs[2] == 0 && self.limbs[3] == 0
    }
}

/// Adds with `alloy_primitives::U256::checked_add`. The limbs go in through
/// `from_limbs` and come back through `into_limbs`, which both take them least
/// significant first. Believed of the call: it gives the sum where the sum fits
/// in 256 bits, and `None` where it does not.
#[verifier::external_body]
pub(crate) fn checked_add(a: U256, b: U256) -> (r: Option<U256>)
    ensures
        match r {
            Some(sum) => sum@ == a@ + b@,
            None => a@ + b@ > U256::max_value(),
        },
{
    let x = alloy_primitives::U256::from_limbs(a.limbs);
    let y = alloy_primitives::U256::from_limbs(b.limbs);
    match x.checked_add(y) {
        Some(sum) => Some(U256 { limbs: sum.into_limbs() }),
        None => None,
    }
}

/// Subtracts with `alloy_primitives::U256::checked_sub`. The limbs go in
/// through `from_limbs` and come back through `into_limbs`, which both take
/// them least significant first. Believed of the call: it gives the difference
/// where `a` is at least `b`, and `None` where `a` is less.
#[verifier::external_body]
pub(crate) fn checked_sub(a: U256, b: U256) -> (r: Option<U256>)
    ensures
        match r {
            Some(diff) => a@ >= b@ && diff@ == a@ - b@,
            None => a@ < b@,
        },
{
    let x = alloy_primitives::U256::from_limbs(a.limbs);
    let y = alloy_primitives::U256::from_limbs(b.limbs);
    match x.checked_sub(y) {
        Some(diff) => Some(U256 { limbs: diff.into_limbs() }),
        None => None,
    }
}

} // verus!
