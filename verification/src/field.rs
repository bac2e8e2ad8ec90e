use vstd::prelude::*;

use crate::arithmetic::One;
use crate::arithmetic::Zero;

verus! {

/// A type whose values and operations satisfy the identity laws of a
/// [field](https://en.wikipedia.org/wiki/Field_(mathematics)) around its
/// two identity elements.
///
/// A conforming type supplies the four arithmetic operations and unary
/// negation, each specified exactly by a specification-level counterpart,
/// and must prove the identity laws stated by the `lemma_*` obligations:
/// `zero` is the additive identity on both sides of addition and of
/// subtraction, it annihilates under multiplication, its negation is
/// itself, and `one` is the multiplicative identity on both sides of
/// multiplication and a right identity of division.
///
/// Nothing more than these laws is promised: the contract is silent on
/// associativity, distributivity, and exact inverses, so that types with
/// rounding or wrapping behaviour can conform.
pub trait Field: Zero + One + Copy {
    /// The sum `self + rhs`, as a specification-level value.
    spec fn spec_add(self, rhs: Self) -> Self;

    /// The difference `self - rhs`, as a specification-level value.
    spec fn spec_sub(self, rhs: Self) -> Self;

    /// The product `self * rhs`, as a specification-level value.
    spec fn spec_mul(self, rhs: Self) -> Self;

    /// The quotient `self / rhs`, as a specification-level value.
    spec fn spec_div(self, rhs: Self) -> Self;

    /// The additive inverse `-self`, as a specification-level value.
    spec fn spec_neg(self) -> Self;

    /// The inputs on which division is defined for this type. Division by
    /// `one` is always defined (see [`Field::lemma_div_identity`]).
    spec fn div_defined(self, rhs: Self) -> bool;

    /// Adds `rhs` to `self`.
    fn add(self, rhs: Self) -> (r: Self)
        ensures
            r == self.spec_add(rhs),
    ;

    /// Subtracts `rhs` from `self`.
    fn sub(self, rhs: Self) -> (r: Self)
        ensures
            r == self.spec_sub(rhs),
    ;

    /// Multiplies `self` by `rhs`.
    fn mul(self, rhs: Self) -> (r: Self)
        ensures
            r == self.spec_mul(rhs),
    ;

    /// Divides `self` by `rhs`.
    fn div(self, rhs: Self) -> (r: Self)
        requires
            self.div_defined(rhs),
        ensures
            r == self.spec_div(rhs),
    ;

    /// Negates `self`.
    fn neg(self) -> (r: Self)
        ensures
            r == self.spec_neg(),
    ;

    /// Law: `zero` is the additive identity, on both sides.
    proof fn lemma_additive_identity(t: Self)
        ensures
            t.spec_add(Self::spec_zero()) == t,
            Self::spec_zero().spec_add(t) == t,
    ;

    /// Law: `zero` is the right identity of subtraction, and subtracting
    /// from `zero` negates.
    proof fn lemma_subtractive_identity(t: Self)
        ensures
            t.spec_sub(Self::spec_zero()) == t,
            Self::spec_zero().spec_sub(t) == t.spec_neg(),
    ;

    /// Law: `zero` annihilates under multiplication, on both sides.
    proof fn lemma_annihilation(t: Self)
        ensures
            t.spec_mul(Self::spec_zero()) == Self::spec_zero(),
            Self::spec_zero().spec_mul(t) == Self::spec_zero(),
    ;

    /// Law: the negation of `zero` is `zero`.
    proof fn lemma_neg_zero()
        ensures
            Self::spec_zero().spec_neg() == Self::spec_zero(),
    ;

    /// Law: `one` is the multiplicative identity, on both sides.
    proof fn lemma_multiplicative_identity(t: Self)
        ensures
            t.spec_mul(Self::spec_one()) == t,
            Self::spec_one().spec_mul(t) == t,
    ;

    /// Law: division by `one` is defined everywhere and is the identity.
    proof fn lemma_div_identity(t: Self)
        ensures
            t.div_defined(Self::spec_one()),
            t.spec_div(Self::spec_one()) == t,
    ;
}

} // verus!
