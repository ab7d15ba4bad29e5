//! Vectors of three scalar components.

use vstd::prelude::*;
use crate::axis::Axis;
use crate::scalar::Scalar;

verus! {

/// Three independent components, one for each axis. Every combination of
/// encodings is a value of the type: infinities and NaNs are carried like any
/// other component.
#[derive(Clone, Copy, Debug)]
pub struct Places {
    pub x: Scalar,
    pub y: Scalar,
    pub z: Scalar,
}

impl Places {
    /// The component that lies on `axis`.
    pub open spec fn component(self, axis: Axis) -> Scalar {
        match axis {
            Axis::X => self.x,
            Axis::Y => self.y,
            Axis::Z => self.z,
        }
    }

    /// The vector with `value` on `axis` and the two other components of `self`.
    pub open spec fn replaced(self, axis: Axis, value: Scalar) -> Places {
        match axis {
            Axis::X => Places { x: value, ..self },
            Axis::Y => Places { y: value, ..self },
            Axis::Z => Places { z: value, ..self },
        }
    }

    /// The components, each with its axis, in the order X, Y, Z.
    pub open spec fn pairs(self) -> Seq<(Axis, Scalar)> {
        seq![(Axis::X, self.x), (Axis::Y, self.y), (Axis::Z, self.z)]
    }

    /// The vector of the three components, stored as they are.
    pub fn new(x: Scalar, y: Scalar, z: Scalar) -> (r: Places)
        ensures
            r == (Places { x, y, z }),
    {
        Places { x, y, z }
    }

    /// Reads the component on `axis`.
    pub fn get(&self, axis: Axis) -> (r: Scalar)
        ensures
            r == self.component(axis),
    {
        match axis {
            Axis::X => self.x,
            Axis::Y => self.y,
            Axis::Z => self.z,
        }
    }

    /// Writes `value` to the component on `axis` and to no other.
    pub fn set(&mut self, axis: Axis, value: Scalar)
        ensures
            *final(self) == old(self).replaced(axis, value),
    {
        match axis {
            Axis::X => { self.x = value; },
            Axis::Y => { self.y = value; },
            Axis::Z => { self.z = value; },
        }
    }

    /// Takes the vector apart into its three components, each with its axis,
    /// for callers that walk over them.
    pub fn components(&self) -> (r: [(Axis, Scalar); 3])
        ensures
            r@ == self.pairs(),
    {
        let r = [(Axis::X, self.x), (Axis::Y, self.y), (Axis::Z, self.z)];
        assert(r@ =~= self.pairs());
        r
    }
}

/// Taking a vector apart gives exactly three pairs, for the axes X, Y and Z in
/// that order, and each pair holds the component of its axis as it is stored,
/// whatever it encodes.
pub proof fn pairs_are_three_in_axis_order(places: Places)
    ensures
        places.pairs().len() == 3,
        places.pairs()[0].0 == Axis::X,
        places.pairs()[1].0 == Axis::Y,
        places.pairs()[2].0 == Axis::Z,
        forall|i: int| 0 <= i < 3 ==> (#[trigger] places.pairs()[i]).1 == places.component(places.pairs()[i].0),
{
}

/// Replacing the component on one axis gives that axis the new value and
/// leaves the two other components as they were.
pub proof fn replaced_changes_one_component(places: Places, axis: Axis, value: Scalar, other: Axis)
    ensures
        places.replaced(axis, value).component(axis) == value,
        other != axis ==> places.replaced(axis, value).component(other) == places.component(other),
{
}

} // verus!
