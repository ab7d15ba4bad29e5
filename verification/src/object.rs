//! A point mass and the rules by which its state changes.

use vstd::prelude::*;
use crate::axis::Axis;
use crate::places::Places;
use crate::root::Crossing;
use crate::scalar::{Scalar, ONE};

verus! {

/// What a constructor makes of the mass it is given.
#[derive(Clone, Copy, Debug, PartialEq, Eq, Structural)]
pub enum MassRule {
    /// A finite mass is stored as given; an infinity or a NaN is replaced by
    /// one.
    KeepFinite,
    /// A finite mass is replaced by one, so that a force is numerically the
    /// acceleration it causes; an infinity or a NaN is stored as given.
    UnitFinite,
}

impl MassRule {
    /// The mass that is stored for `mass`.
    pub open spec fn stored(self, mass: Scalar) -> Scalar {
        match self {
            MassRule::KeepFinite => if mass.finite() {
                mass
            } else {
                Scalar { bits: ONE }
            },
            MassRule::UnitFinite => if mass.finite() {
                Scalar { bits: ONE }
            } else {
                mass
            },
        }
    }

    /// Computes the mass that is stored for `mass`.
    pub fn apply(&self, mass: Scalar) -> (r: Scalar)
        ensures
            r == self.stored(mass),
    {
        let finite = mass.is_finite();
        match self {
            MassRule::KeepFinite => if finite {
                mass
            } else {
                Scalar::from_bits(ONE)
            },
            MassRule::UnitFinite => if finite {
                Scalar::from_bits(ONE)
            } else {
                mass
            },
        }
    }
}

/// How a force acts on an object, by the time over which it is applied.
#[derive(Clone, Copy, Debug, PartialEq, Eq, Structural)]
pub enum Application {
    /// The time is an infinity or a NaN: the force is left out.
    Ignored,
    /// The time is zero: the force acts from now on and changes the
    /// acceleration.
    Instantaneous,
    /// Any other time: the force has acted for that long and changes the
    /// velocity.
    Durational,
}

impl Application {
    /// The way in which a force applied over `time` acts.
    pub open spec fn rule(time: Scalar) -> Application {
        if !time.finite() {
            Application::Ignored
        } else if time.zero() {
            Application::Instantaneous
        } else {
            Application::Durational
        }
    }

    /// Tells how a force applied over `time` acts.
    pub fn of(time: Scalar) -> (r: Application)
        ensures
            r == Application::rule(time),
    {
        if !time.is_finite() {
            Application::Ignored
        } else if time.is_zero() {
            Application::Instantaneous
        } else {
            Application::Durational
        }
    }
}

/// A point mass: where it is, how fast it moves, how its velocity changes, and
/// how heavy it is.
#[derive(Clone, Copy, Debug)]
pub struct Object {
    pub position: Places,
    pub velocity: Places,
    pub acceleration: Places,
    pub mass: Scalar,
}

impl Object {
    /// The object after a force applied over `time` on `axis`, where
    /// `sustained` is the new acceleration on that axis if the force acts from
    /// now on, and `timed` the new velocity on that axis if it has acted for
    /// `time`.
    pub open spec fn forced(self, time: Scalar, axis: Axis, sustained: Scalar, timed: Scalar) -> Object {
        match Application::rule(time) {
            Application::Ignored => self,
            Application::Instantaneous => Object {
                acceleration: self.acceleration.replaced(axis, sustained),
                ..self
            },
            Application::Durational => Object {
                velocity: self.velocity.replaced(axis, timed),
                ..self
            },
        }
    }

    /// An object with the three vectors as given and the mass that
    /// `MassRule::KeepFinite` stores, which is always finite.
    pub fn new(position: Places, velocity: Places, acceleration: Places, mass: Scalar) -> (r: Object)
        ensures
            r == (Object {
                position,
                velocity,
                acceleration,
                mass: MassRule::KeepFinite.stored(mass),
            }),
            r.mass.finite(),
    {
        Object::with_mass_rule(position, velocity, acceleration, mass, MassRule::KeepFinite)
    }

    /// An object with the three vectors as given and the mass that `rule`
    /// stores.
    pub fn with_mass_rule(
        position: Places,
        velocity: Places,
        acceleration: Places,
        mass: Scalar,
        rule: MassRule,
    ) -> (r: Object)
        ensures
            r == (Object { position, velocity, acceleration, mass: rule.stored(mass) }),
    {
        Object { position, velocity, acceleration, mass: rule.apply(mass) }
    }

    /// Advances the object in time: `position` is where it is after the time
    /// that has passed. Its velocity, acceleration and mass stay as they are.
    pub fn overtime_mut(&mut self, position: Places)
        ensures
            *final(self) == (Object { position, ..*old(self) }),
    {
        self.position = position;
    }

    /// Applies a force over `time` on `axis`. `sustained` is the acceleration on
    /// `axis` plus the force divided by the mass; `timed` is the velocity on
    /// `axis` plus the force divided by the mass and multiplied by `time`. At
    /// most one of the two is stored, in one component of the acceleration or
    /// of the velocity, and nothing else changes.
    pub fn addforce(&mut self, time: Scalar, axis: Axis, sustained: Scalar, timed: Scalar)
        ensures
            *final(self) == old(self).forced(time, axis, sustained, timed),
    {
        match Application::of(time) {
            Application::Ignored => {},
            Application::Instantaneous => {
                self.acceleration.set(axis, sustained);
            },
            Application::Durational => {
                self.velocity.set(axis, timed);
            },
        }
    }

    /// The times at which the three coordinates cross zero, each chosen among
    /// its own candidates and independently of the two others.
    pub fn hitzero(x: Crossing, y: Crossing, z: Crossing) -> (r: Places)
        ensures
            r == (Places { x: x.chosen(), y: y.chosen(), z: z.chosen() }),
    {
        Places::new(x.select(), y.select(), z.select())
    }
}

/// A force applied over a time that is an infinity or a NaN leaves the object
/// as it was, whatever the force and the axis.
pub proof fn force_over_no_time_changes_nothing(
    object: Object,
    time: Scalar,
    axis: Axis,
    sustained: Scalar,
    timed: Scalar,
)
    requires
        !time.finite(),
    ensures
        object.forced(time, axis, sustained, timed) == object,
{
}

/// A force applied over a time of zero, of either sign, puts `sustained` into
/// the acceleration on `axis`. The acceleration on every other axis, the
/// velocity, the position and the mass stay as they were.
pub proof fn force_at_time_zero_changes_one_acceleration(
    object: Object,
    time: Scalar,
    axis: Axis,
    sustained: Scalar,
    timed: Scalar,
    other: Axis,
)
    requires
        time.zero(),
    ensures
        object.forced(time, axis, sustained, timed).acceleration.component(axis) == sustained,
        other != axis ==> object.forced(time, axis, sustained, timed).acceleration.component(other)
            == object.acceleration.component(other),
        object.forced(time, axis, sustained, timed).velocity == object.velocity,
        object.forced(time, axis, sustained, timed).position == object.position,
        object.forced(time, axis, sustained, timed).mass == object.mass,
{
}

/// A force applied over a finite time other than zero puts `timed` into the
/// velocity on `axis`. The velocity on every other axis, the acceleration, the
/// position and the mass stay as they were.
pub proof fn force_over_time_changes_one_velocity(
    object: Object,
    time: Scalar,
    axis: Axis,
    sustained: Scalar,
    timed: Scalar,
    other: Axis,
)
    requires
        time.finite(),
        !time.zero(),
    ensures
        object.forced(time, axis, sustained, timed).velocity.component(axis) == timed,
        other != axis ==> object.forced(time, axis, sustained, timed).velocity.component(other)
            == object.velocity.component(other),
        object.forced(time, axis, sustained, timed).acceleration == object.acceleration,
        object.forced(time, axis, sustained, timed).position == object.position,
        object.forced(time, axis, sustained, timed).mass == object.mass,
{
}

} // verus!
