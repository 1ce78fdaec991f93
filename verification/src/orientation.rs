//! The four screen orientations and the two directions in which the viewer
//! cycles through them.

use vstd::prelude::*;

verus! {

/// A screen orientation, named by its rotation from upright portrait.
#[derive(Clone, Copy, Debug, PartialEq, Eq, Structural)]
pub enum Orientation {
    Portrait0Deg,
    Landscape90Deg,
    Portrait180Deg,
    Landscape270Deg,
}

impl Default for Orientation {
    /// Upright portrait.
    fn default() -> (o: Self)
        ensures
            o == Orientation::Portrait0Deg,
    {
        Orientation::Portrait0Deg
    }
}

/// The orientation that follows `o` when cycling backward:
/// 0° → 90° → 180° → 270° → 0°.
pub open spec fn backward_of(o: Orientation) -> Orientation {
    match o {
        Orientation::Portrait0Deg => Orientation::Landscape90Deg,
        Orientation::Landscape90Deg => Orientation::Portrait180Deg,
        Orientation::Portrait180Deg => Orientation::Landscape270Deg,
        Orientation::Landscape270Deg => Orientation::Portrait0Deg,
    }
}

/// The orientation that follows `o` when cycling forward:
/// 0° → 270° → 180° → 90° → 0°.
pub open spec fn forward_of(o: Orientation) -> Orientation {
    match o {
        Orientation::Portrait0Deg => Orientation::Landscape270Deg,
        Orientation::Landscape270Deg => Orientation::Portrait180Deg,
        Orientation::Portrait180Deg => Orientation::Landscape90Deg,
        Orientation::Landscape90Deg => Orientation::Portrait0Deg,
    }
}

/// `o` after `n` forward steps.
pub open spec fn forward_n(o: Orientation, n: nat) -> Orientation
    decreases n,
{
    if n == 0 {
        o
    } else {
        forward_of(forward_n(o, (n - 1) as nat))
    }
}

/// A forward step undoes a backward step, and a backward step undoes a
/// forward step.
pub proof fn lemma_cycles_undo_each_other(o: Orientation)
    ensures
        forward_of(backward_of(o)) == o,
        backward_of(forward_of(o)) == o,
{
}

/// Every step changes the orientation, and four steps in one direction
/// come back to where they started.
pub proof fn lemma_four_steps_return(o: Orientation)
    ensures
        forward_of(o) != o,
        backward_of(o) != o,
        forward_n(o, 4) == o,
        backward_of(backward_of(backward_of(backward_of(o)))) == o,
{
    reveal_with_fuel(forward_n, 5);
}

} // verus!
