use vstd::prelude::*;

verus! {

/// The additive identity element for the implementing type, a distinguished
/// value satisfying, for all `t`, equations like `t + zero() == t`.
///
/// `zero` is a type-level operation: it needs no receiver value. The
/// equations themselves are promised by [`crate::field::Field`], whose
/// implementations must prove them.
pub trait Zero: Sized {
    /// The additive identity, as a specification-level value.
    spec fn spec_zero() -> Self;

    /// Returns the additive identity for the type.
    fn zero() -> (r: Self)
        ensures
            r == Self::spec_zero(),
    ;
}

/// The multiplicative identity element for the implementing type, a
/// distinguished value satisfying, for all `t`, equations like
/// `t * one() == t`.
///
/// `one` is a type-level operation: it needs no receiver value. The
/// equations themselves are promised by [`crate::field::Field`], whose
/// implementations must prove them.
pub trait One: Sized {
    /// The multiplicative identity, as a specification-level value.
    spec fn spec_one() -> Self;

    /// Returns the multiplicative identity for the type.
    fn one() -> (r: Self)
        ensures
            r == Self::spec_one(),
    ;
}

} // verus!
