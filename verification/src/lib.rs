//! Kinematics of a point mass on three independent axes.
//!
//! Every quantity is held as an IEEE 754 binary64 encoding. The library
//! decides how mass, force and zero crossings are treated and keeps the state
//! of the object; the arithmetic on the quantities is the caller's.

pub mod axis;
pub mod object;
pub mod places;
pub mod root;
pub mod scalar;

pub use crate::axis::Axis;
pub use crate::object::{Application, MassRule, Object};
pub use crate::places::Places;
pub use crate::root::{Crossing, Root};
pub use crate::scalar::{Scalar, EARTH_GRAVITY, ONE};
