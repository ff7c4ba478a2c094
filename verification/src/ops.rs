use vstd::prelude::*;
use crate::canvas::MAX_DIM;

verus! {

/// Current cardinal direction of travel of the pen.
#[derive(Clone, Copy, Debug, PartialEq, Eq, Structural)]
pub enum Orientation {
    North,
    East,
    West,
    South,
}

/// One drawing instruction, produced from exactly one input byte.
#[derive(Clone, Copy, Debug, PartialEq, Eq, Structural)]
pub enum Operation {
    /// Move forward by the given distance along the current heading.
    Advance(i64),
    /// Rotate the heading 90 degrees counter-clockwise; no movement.
    TurnLeft,
    /// Rotate the heading 90 degrees clockwise; no movement.
    TurnRight,
    /// Teleport the pen to the canvas center; heading unchanged.
    Recenter,
    /// The byte matched no rule; carries it for diagnostics. No effect.
    Unrecognized(u8),
}

/// The fixed 4-cycle of a left turn: North, West, South, East, North.
pub open spec fn spec_turn_left(o: Orientation) -> Orientation {
    match o {
        Orientation::North => Orientation::West,
        Orientation::West => Orientation::South,
        Orientation::South => Orientation::East,
        Orientation::East => Orientation::North,
    }
}

/// The fixed 4-cycle of a right turn: North, East, South, West, North.
pub open spec fn spec_turn_right(o: Orientation) -> Orientation {
    match o {
        Orientation::North => Orientation::East,
        Orientation::East => Orientation::South,
        Orientation::South => Orientation::West,
        Orientation::West => Orientation::North,
    }
}

/// An advance distance small enough that moving from any in-bounds
/// coordinate cannot overflow `i64`. Every other operation qualifies.
pub open spec fn op_in_range(op: Operation) -> bool {
    match op {
        Operation::Advance(d) => -MAX_DIM <= d <= MAX_DIM,
        _ => true,
    }
}

/// Turn closure: four left turns return any heading to itself.
pub proof fn lemma_turn_left_closure(o: Orientation)
    ensures
        spec_turn_left(spec_turn_left(spec_turn_left(spec_turn_left(o)))) == o,
{
}

/// Turn closure: four right turns return any heading to itself.
pub proof fn lemma_turn_right_closure(o: Orientation)
    ensures
        spec_turn_right(spec_turn_right(spec_turn_right(spec_turn_right(o)))) == o,
{
}

} // verus!
