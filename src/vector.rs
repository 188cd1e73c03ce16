use vstd::prelude::*;
use crate::scalar::Scalar;

verus! {

/// A vector of three field samples.
#[derive(Clone, Copy)]
pub struct Vector3<T> {
    pub x: T,
    pub y: T,
    pub z: T,
}

impl<T: Scalar> Vector3<T> {
    pub open spec fn spec_zero() -> Self {
        Vector3 { x: T::spec_zero(), y: T::spec_zero(), z: T::spec_zero() }
    }

    pub open spec fn spec_plus(self, rhs: Self) -> Self {
        Vector3 { x: self.x.spec_plus(rhs.x), y: self.y.spec_plus(rhs.y), z: self.z.spec_plus(rhs.z) }
    }

    pub open spec fn spec_minus(self, rhs: Self) -> Self {
        Vector3 { x: self.x.spec_minus(rhs.x), y: self.y.spec_minus(rhs.y), z: self.z.spec_minus(rhs.z) }
    }

    pub open spec fn spec_scaled(self, s: T) -> Self {
        Vector3 { x: self.x.spec_times(s), y: self.y.spec_times(s), z: self.z.spec_times(s) }
    }

    pub open spec fn spec_divided(self, s: T) -> Self {
        Vector3 { x: self.x.spec_over(s), y: self.y.spec_over(s), z: self.z.spec_over(s) }
    }

    pub fn new(x: T, y: T, z: T) -> (r: Self)
        ensures
            r.x == x && r.y == y && r.z == z,
    {
        Vector3 { x, y, z }
    }

    /// The zero vector.
    pub fn zero() -> (r: Self)
        ensures
            r == Self::spec_zero(),
    {
        Vector3 { x: T::zero(), y: T::zero(), z: T::zero() }
    }

    /// Componentwise sum.
    pub fn plus(&self, rhs: &Self) -> (r: Self)
        ensures
            r == self.spec_plus(*rhs),
    {
        Vector3 { x: self.x.plus(rhs.x), y: self.y.plus(rhs.y), z: self.z.plus(rhs.z) }
    }

    /// Componentwise difference.
    pub fn minus(&self, rhs: &Self) -> (r: Self)
        ensures
            r == self.spec_minus(*rhs),
    {
        Vector3 { x: self.x.minus(rhs.x), y: self.y.minus(rhs.y), z: self.z.minus(rhs.z) }
    }

    /// Each component multiplied by `s`.
    pub fn scaled(&self, s: T) -> (r: Self)
        ensures
            r == self.spec_scaled(s),
    {
        Vector3 { x: self.x.times(s), y: self.y.times(s), z: self.z.times(s) }
    }

    /// Each component divided by `s`.
    pub fn divided(&self, s: T) -> (r: Self)
        ensures
            r == self.spec_divided(s),
    {
        Vector3 { x: self.x.over(s), y: self.y.over(s), z: self.z.over(s) }
    }
}

} // verus!
