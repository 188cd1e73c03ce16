use vstd::prelude::*;
use crate::scalar::Scalar;
use crate::vector::Vector3;

verus! {

/// A grid axis.
#[derive(Clone, Copy, PartialEq, Eq, Structural, Debug)]
pub enum Axis {
    X,
    Y,
    Z,
}

/// The unit vector of an axis.
pub open spec fn unit<T: Scalar>(axis: Axis) -> Vector3<T> {
    match axis {
        Axis::X => Vector3 { x: T::spec_one(), y: T::spec_zero(), z: T::spec_zero() },
        Axis::Y => Vector3 { x: T::spec_zero(), y: T::spec_one(), z: T::spec_zero() },
        Axis::Z => Vector3 { x: T::spec_zero(), y: T::spec_zero(), z: T::spec_one() },
    }
}

/// A generator of current density over time.
#[derive(Clone, Copy)]
pub enum SourceObject<T> {
    /// Drives no current.
    Inert,
    /// `amplitude * sin(angular_frequency * t)` along one axis.
    OscillatingLine { amplitude: T, angular_frequency: T, axis: Axis },
}

impl<T: Scalar> SourceObject<T> {
    /// The current density at time `t`.
    pub open spec fn spec_density(self, t: T) -> Vector3<T> {
        match self {
            SourceObject::Inert => Vector3::spec_zero(),
            SourceObject::OscillatingLine { amplitude, angular_frequency, axis } =>
                unit::<T>(axis).spec_scaled(amplitude.spec_times(t.spec_times(angular_frequency).spec_sine())),
        }
    }

    /// The current density at time `t`: zero for an inert source; for a line,
    /// the unit vector of its axis times `amplitude * sin(t * angular_frequency)`.
    pub fn current_density(&self, t: T) -> (r: Vector3<T>)
        ensures
            r == self.spec_density(t),
    {
        match self {
            SourceObject::Inert => Vector3::zero(),
            SourceObject::OscillatingLine { amplitude, angular_frequency, axis } => {
                let strength = amplitude.times(t.times(*angular_frequency).sine());
                let direction = match axis {
                    Axis::X => Vector3::new(T::one(), T::zero(), T::zero()),
                    Axis::Y => Vector3::new(T::zero(), T::one(), T::zero()),
                    Axis::Z => Vector3::new(T::zero(), T::zero(), T::one()),
                };
                direction.scaled(strength)
            },
        }
    }
}

} // verus!
