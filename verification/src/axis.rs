//! The three spatial axes.

use vstd::prelude::*;

verus! {

/// One of the three orthogonal directions by which a vector's components are
/// told apart.
#[derive(Clone, Copy, Debug, PartialEq, Eq, Structural)]
pub enum Axis {
    X,
    Y,
    Z,
}

impl Axis {
    /// The letter that stands for the axis.
    pub open spec fn letter(self) -> char {
        match self {
            Axis::X => 'X',
            Axis::Y => 'Y',
            Axis::Z => 'Z',
        }
    }

    /// The axis as text: its letter and nothing else.
    pub fn label(&self) -> (r: &'static str)
        ensures
            r@ == seq![self.letter()],
    {
        proof {
            reveal_strlit("X");
            reveal_strlit("Y");
            reveal_strlit("Z");
        }
        match self {
            Axis::X => {
                assert("X"@ =~= seq!['X']);
                "X"
            },
            Axis::Y => {
                assert("Y"@ =~= seq!['Y']);
                "Y"
            },
            Axis::Z => {
                assert("Z"@ =~= seq!['Z']);
                "Z"
            },
        }
    }

    /// The label as an owned string.
    pub fn to_string(&self) -> (r: String)
        ensures
            r@ == seq![self.letter()],
    {
        self.label().to_owned()
    }
}

} // verus!
