use vstd::prelude::*;

verus! {

/// The arithmetic of one field sample.
///
/// Each operation is paired with a specification function that names its
/// result; the engine's contracts are stated over those names, so they say
/// exactly which operations, on which samples and in which order, produce each
/// value. What a name denotes on given samples is up to the implementing type.
pub trait Scalar: Copy + Sized {
    spec fn spec_zero() -> Self;

    spec fn spec_one() -> Self;

    spec fn spec_half() -> Self;

    spec fn spec_from_count(n: u32) -> Self;

    spec fn spec_plus(self, rhs: Self) -> Self;

    spec fn spec_minus(self, rhs: Self) -> Self;

    spec fn spec_times(self, rhs: Self) -> Self;

    spec fn spec_over(self, rhs: Self) -> Self;

    spec fn spec_negated(self) -> Self;

    spec fn spec_sine(self) -> Self;

    spec fn spec_bits(self) -> u32;

    /// The additive identity.
    fn zero() -> (r: Self)
        ensures
            r == Self::spec_zero(),
    ;

    /// The multiplicative identity.
    fn one() -> (r: Self)
        ensures
            r == Self::spec_one(),
    ;

    /// One half.
    fn half() -> (r: Self)
        ensures
            r == Self::spec_half(),
    ;

    /// The sample closest to the given count.
    fn from_count(n: u32) -> (r: Self)
        ensures
            r == Self::spec_from_count(n),
    ;

    fn plus(self, rhs: Self) -> (r: Self)
        ensures
            r == self.spec_plus(rhs),
    ;

    fn minus(self, rhs: Self) -> (r: Self)
        ensures
            r == self.spec_minus(rhs),
    ;

    fn times(self, rhs: Self) -> (r: Self)
        ensures
            r == self.spec_times(rhs),
    ;

    fn over(self, rhs: Self) -> (r: Self)
        ensures
            r == self.spec_over(rhs),
    ;

    fn negated(self) -> (r: Self)
        ensures
            r == self.spec_negated(),
    ;

    /// The sine of the sample, read as an angle in radians.
    fn sine(self) -> (r: Self)
        ensures
            r == self.spec_sine(),
    ;

    /// The 32-bit pattern that represents the sample on the wire.
    fn to_bits(self) -> (r: u32)
        ensures
            r == self.spec_bits(),
    ;
}

} // verus!
