use vstd::prelude::*;

use vstd::arithmetic::div_mod::lemma_div_basics;
use vstd::arithmetic::div_mod::lemma_mod_multiples_vanish;
use vstd::arithmetic::div_mod::lemma_mod_self_0;
use vstd::arithmetic::div_mod::lemma_small_mod;
use vstd::arithmetic::mul::lemma_mul_upper_bound;

use crate::arithmetic::One;
use crate::arithmetic::Zero;
use crate::field::Field;

verus! {

/// Reduces a non-negative integer modulo `2^64`.
pub open spec fn wrap(n: int) -> u64
    recommends
        0 <= n,
{
    (n % 0x1_0000_0000_0000_0000) as u64
}

/// Exact arithmetic modulo `2^64`: the built-in conforming type of the
/// capability contract.
///
/// Addition, subtraction, multiplication and negation wrap around `2^64`;
/// division truncates towards zero and is defined for non-zero divisors.
/// Every identity law of [`Field`] holds exactly, with no rounding.
#[derive(Clone, Copy, PartialEq, Eq, Structural, Debug)]
pub struct Wrap64 {
    /// The residue, in `[0, 2^64)`.
    pub v: u64,
}

impl Wrap64 {
    /// Wraps a machine word as a residue modulo `2^64`.
    pub fn new(v: u64) -> (r: Self)
        ensures
            r.v == v,
    {
        Wrap64 { v }
    }

    /// The residue as a machine word.
    pub fn value(self) -> (r: u64)
        ensures
            r == self.v,
    {
        self.v
    }
}

impl Zero for Wrap64 {
    open spec fn spec_zero() -> Self {
        Wrap64 { v: 0 }
    }

    fn zero() -> Self {
        Wrap64 { v: 0 }
    }
}

impl One for Wrap64 {
    open spec fn spec_one() -> Self {
        Wrap64 { v: 1 }
    }

    fn one() -> Self {
        Wrap64 { v: 1 }
    }
}

impl Field for Wrap64 {
    open spec fn spec_add(self, rhs: Self) -> Self {
        Wrap64 { v: wrap(self.v as int + rhs.v as int) }
    }

    open spec fn spec_sub(self, rhs: Self) -> Self {
        Wrap64 { v: wrap(self.v as int + 0x1_0000_0000_0000_0000 - rhs.v as int) }
    }

    open spec fn spec_mul(self, rhs: Self) -> Self {
        Wrap64 { v: wrap(self.v as int * rhs.v as int) }
    }

    open spec fn spec_div(self, rhs: Self) -> Self {
        Wrap64 { v: (self.v as int / rhs.v as int) as u64 }
    }

    open spec fn spec_neg(self) -> Self {
        Wrap64 { v: wrap(0x1_0000_0000_0000_0000 - self.v as int) }
    }

    open spec fn div_defined(self, rhs: Self) -> bool {
        rhs.v != 0
    }

    fn add(self, rhs: Self) -> Self {
        let s: u128 = self.v as u128 + rhs.v as u128;
        let v: u64 = (s % 0x1_0000_0000_0000_0000u128) as u64;
        Wrap64 { v }
    }

    fn sub(self, rhs: Self) -> Self {
        let d: u128 = self.v as u128 + (0x1_0000_0000_0000_0000u128 - rhs.v as u128);
        let v: u64 = (d % 0x1_0000_0000_0000_0000u128) as u64;
        Wrap64 { v }
    }

    fn mul(self, rhs: Self) -> Self {
        proof {
            lemma_mul_upper_bound(
                self.v as int,
                0xffff_ffff_ffff_ffff,
                rhs.v as int,
                0xffff_ffff_ffff_ffff,
            );
        }
        let p: u128 = self.v as u128 * rhs.v as u128;
        let v: u64 = (p % 0x1_0000_0000_0000_0000u128) as u64;
        Wrap64 { v }
    }

    fn div(self, rhs: Self) -> Self {
        Wrap64 { v: self.v / rhs.v }
    }

    fn neg(self) -> Self {
        let d: u128 = 0x1_0000_0000_0000_0000u128 - self.v as u128;
        let v: u64 = (d % 0x1_0000_0000_0000_0000u128) as u64;
        Wrap64 { v }
    }

    proof fn lemma_additive_identity(t: Self) {
        lemma_small_mod(t.v as nat, 0x1_0000_0000_0000_0000nat);
    }

    proof fn lemma_subtractive_identity(t: Self) {
        lemma_mod_multiples_vanish(1, t.v as int, 0x1_0000_0000_0000_0000);
        lemma_small_mod(t.v as nat, 0x1_0000_0000_0000_0000nat);
    }

    proof fn lemma_annihilation(t: Self) {
        lemma_small_mod(0nat, 0x1_0000_0000_0000_0000nat);
    }

    proof fn lemma_neg_zero() {
        lemma_mod_self_0(0x1_0000_0000_0000_0000);
    }

    proof fn lemma_multiplicative_identity(t: Self) {
        lemma_small_mod(t.v as nat, 0x1_0000_0000_0000_0000nat);
    }

    proof fn lemma_div_identity(t: Self) {
        lemma_div_basics(t.v as int);
    }
}

} // verus!
