//! The zero crossing of one coordinate.
//!
//! A coordinate moves as `a·t² + b·t + c`, where `a` is half its acceleration,
//! `b` its velocity and `c` its position. The time at which it is zero is the
//! solution of a linear equation where `a` is zero, and otherwise one of the
//! two solutions of the quadratic equation, chosen by the sign of `a`.

use vstd::prelude::*;
use crate::scalar::Scalar;

verus! {

/// Which solution gives the crossing time.
#[derive(Clone, Copy, Debug, PartialEq, Eq, Structural)]
pub enum Root {
    /// `-c / b`
    Linear,
    /// `(-b - √(b² - 4ac)) / 2a`
    Minus,
    /// `(-b + √(b² - 4ac)) / 2a`
    Plus,
}

impl Root {
    /// The solution that belongs to the quadratic coefficient `a`: the linear
    /// one where `a` is a zero of either sign; otherwise `Minus` where the sign
    /// bit of `a` is set and `Plus` where it is not. A NaN is not a zero, so
    /// it is told apart by its sign bit like any number.
    pub open spec fn rule(a: Scalar) -> Root {
        if a.zero() {
            Root::Linear
        } else if a.sign_negative() {
            Root::Minus
        } else {
            Root::Plus
        }
    }

    /// Tells which solution belongs to the quadratic coefficient `a`.
    pub fn of(a: Scalar) -> (r: Root)
        ensures
            r == Root::rule(a),
    {
        if a.is_zero() {
            Root::Linear
        } else if a.is_sign_negative() {
            Root::Minus
        } else {
            Root::Plus
        }
    }
}

/// One coordinate's quadratic coefficient together with the three solutions as
/// the caller's arithmetic gives them. A solution that does not exist as a
/// number is handed in as the NaN or the infinity that the arithmetic produced.
#[derive(Clone, Copy, Debug)]
pub struct Crossing {
    /// `a`, half the acceleration.
    pub quadratic: Scalar,
    /// The value of `-c / b`.
    pub linear: Scalar,
    /// The value of `(-b - √(b² - 4ac)) / 2a`.
    pub minus: Scalar,
    /// The value of `(-b + √(b² - 4ac)) / 2a`.
    pub plus: Scalar,
}

impl Crossing {
    /// The one solution that the coefficient selects.
    pub open spec fn chosen(self) -> Scalar {
        match Root::rule(self.quadratic) {
            Root::Linear => self.linear,
            Root::Minus => self.minus,
            Root::Plus => self.plus,
        }
    }

    /// Hands out the solution that the coefficient selects, as it was handed
    /// in.
    pub fn select(&self) -> (r: Scalar)
        ensures
            r == self.chosen(),
    {
        match Root::of(self.quadratic) {
            Root::Linear => self.linear,
            Root::Minus => self.minus,
            Root::Plus => self.plus,
        }
    }
}

/// A coordinate without acceleration crosses zero at the solution of the
/// linear equation, whatever the two other candidates are.
pub proof fn crossing_without_quadratic_term_is_linear(crossing: Crossing)
    requires
        crossing.quadratic.zero(),
    ensures
        crossing.chosen() == crossing.linear,
{
}

/// A coordinate with acceleration crosses zero at exactly one of the two
/// solutions of the quadratic equation: at `minus` where the coefficient has
/// its sign bit set, at `plus` where it has not. The linear candidate plays no
/// part.
pub proof fn crossing_with_quadratic_term_goes_by_sign(crossing: Crossing)
    requires
        !crossing.quadratic.zero(),
    ensures
        crossing.quadratic.sign_negative() ==> crossing.chosen() == crossing.minus,
        !crossing.quadratic.sign_negative() ==> crossing.chosen() == crossing.plus,
{
}

} // verus!
