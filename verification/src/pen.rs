use vstd::prelude::*;
use crate::canvas::Canvas;
use crate::ops::Operation;
use crate::ops::Orientation;
use crate::ops::spec_turn_left;
use crate::ops::spec_turn_right;
use crate::ops::op_in_range;

verus! {

/// The pen (turtle): the mutable simulation state. It sits at canvas
/// coordinates `(x, y)` and travels in the direction of `heading`.
#[derive(Clone, Copy, Debug, PartialEq, Eq, Structural)]
pub struct Pen {
    pub x: i64,
    pub y: i64,
    pub heading: Orientation,
}

/// The initial pen of a simulation run: at home, facing North.
pub open spec fn pen_start(c: Canvas) -> Pen {
    Pen { x: c.home_x(), y: c.home_y(), heading: Orientation::North }
}

/// The pen is inside the drawable region of the canvas.
pub open spec fn pen_in_bounds(c: Canvas, p: Pen) -> bool {
    0 <= p.x <= c.width && 0 <= p.y <= c.height
}

/// Moving `d` units from `p` cannot overflow `i64` on either axis.
pub open spec fn forward_fits(p: Pen, d: int) -> bool {
    i64::MIN <= p.x + d <= i64::MAX && i64::MIN <= p.x - d <= i64::MAX
        && i64::MIN <= p.y + d <= i64::MAX && i64::MIN <= p.y - d <= i64::MAX
}

/// The operation's movement cannot overflow `i64` when applied to `p`.
pub open spec fn op_fits(p: Pen, op: Operation) -> bool {
    match op {
        Operation::Advance(d) => forward_fits(p, d as int),
        _ => true,
    }
}

/// Effect of an advance: North increases `y`, South decreases `y`, East
/// decreases `x`, West increases `x`. This axis/sign convention is part of
/// the visual contract and is fixed.
pub open spec fn spec_forward(p: Pen, d: i64) -> Pen {
    match p.heading {
        Orientation::North => Pen { x: p.x, y: (p.y + d) as i64, heading: p.heading },
        Orientation::South => Pen { x: p.x, y: (p.y - d) as i64, heading: p.heading },
        Orientation::West => Pen { x: (p.x + d) as i64, y: p.y, heading: p.heading },
        Orientation::East => Pen { x: (p.x - d) as i64, y: p.y, heading: p.heading },
    }
}

/// Effect of one operation on the pen, before the wrap policy is applied.
pub open spec fn spec_apply(c: Canvas, p: Pen, op: Operation) -> Pen {
    match op {
        Operation::Advance(d) => spec_forward(p, d),
        Operation::TurnLeft => Pen { x: p.x, y: p.y, heading: spec_turn_left(p.heading) },
        Operation::TurnRight => Pen { x: p.x, y: p.y, heading: spec_turn_right(p.heading) },
        Operation::Recenter => Pen { x: c.home_x(), y: c.home_y(), heading: p.heading },
        Operation::Unrecognized(_) => p,
    }
}

/// The wrap policy. Each axis is checked independently, in this fixed
/// order: x-low, x-high, then y-low, y-high. A crossed boundary resets that
/// coordinate to home and assigns the heading tied to the boundary, so a
/// y-check can override the heading set by an x-check in the same step.
pub open spec fn spec_wrap(c: Canvas, p: Pen) -> Pen {
    let q = if p.x < 0 {
        Pen { x: c.home_x(), y: p.y, heading: Orientation::West }
    } else if p.x > c.width {
        Pen { x: c.home_x(), y: p.y, heading: Orientation::East }
    } else {
        p
    };
    if q.y < 0 {
        Pen { x: q.x, y: c.home_y(), heading: Orientation::North }
    } else if q.y > c.height {
        Pen { x: q.x, y: c.home_y(), heading: Orientation::South }
    } else {
        q
    }
}

/// One full simulation step: apply the operation, then wrap.
pub open spec fn spec_step(c: Canvas, p: Pen, op: Operation) -> Pen {
    spec_wrap(c, spec_apply(c, p, op))
}

/// Wrapping always lands the pen inside the drawable region.
pub proof fn lemma_wrap_in_bounds(c: Canvas, p: Pen)
    requires
        c.wf(),
    ensures
        pen_in_bounds(c, spec_wrap(c, p)),
{
    c.lemma_home_in_bounds();
}

/// Wrapping an in-bounds pen changes nothing.
pub proof fn lemma_wrap_identity(c: Canvas, p: Pen)
    requires
        c.wf(),
        pen_in_bounds(c, p),
    ensures
        spec_wrap(c, p) == p,
{
}

/// An in-bounds pen can take any in-range operation without overflow.
pub proof fn lemma_in_bounds_op_fits(c: Canvas, p: Pen, op: Operation)
    requires
        c.wf(),
        pen_in_bounds(c, p),
        op_in_range(op),
    ensures
        op_fits(p, op),
{
}

/// An `Unrecognized` operation never changes the coordinates or heading of
/// a pen that is inside the canvas, even after the wrap policy runs.
pub proof fn lemma_unrecognized_noop(c: Canvas, p: Pen, b: u8)
    requires
        c.wf(),
        pen_in_bounds(c, p),
    ensures
        spec_step(c, p, Operation::Unrecognized(b)) == p,
{
    lemma_wrap_identity(c, p);
}

impl Pen {
    pub fn new(canvas: &Canvas) -> (r: Pen)
        requires
            canvas.wf(),
        ensures
            r == pen_start(*canvas),
    {
        Pen { x: canvas.center_x(), y: canvas.center_y(), heading: Orientation::North }
    }

    /// Move forward along the current heading.
    pub fn forward(&mut self, d: i64)
        requires
            forward_fits(*old(self), d as int),
        ensures
            *final(self) == spec_forward(*old(self), d),
    {
        match self.heading {
            Orientation::North => self.y = self.y + d,
            Orientation::South => self.y = self.y - d,
            Orientation::West => self.x = self.x + d,
            Orientation::East => self.x = self.x - d,
        }
    }

    /// Rotate the heading one step counter-clockwise; no movement.
    pub fn turn_left(&mut self)
        ensures
            final(self).x == old(self).x,
            final(self).y == old(self).y,
            final(self).heading == spec_turn_left(old(self).heading),
    {
        self.heading = match self.heading {
            Orientation::North => Orientation::West,
            Orientation::West => Orientation::South,
            Orientation::South => Orientation::East,
            Orientation::East => Orientation::North,
        };
    }

    /// Rotate the heading one step clockwise; no movement.
    pub fn turn_right(&mut self)
        ensures
            final(self).x == old(self).x,
            final(self).y == old(self).y,
            final(self).heading == spec_turn_right(old(self).heading),
    {
        self.heading = match self.heading {
            Orientation::North => Orientation::East,
            Orientation::East => Orientation::South,
            Orientation::South => Orientation::West,
            Orientation::West => Orientation::North,
        };
    }

    /// Teleport the pen to the canvas center; heading unchanged.
    pub fn recenter(&mut self, canvas: &Canvas)
        requires
            canvas.wf(),
        ensures
            final(self).x == canvas.home_x(),
            final(self).y == canvas.home_y(),
            final(self).heading == old(self).heading,
    {
        self.x = canvas.center_x();
        self.y = canvas.center_y();
    }

    /// Apply one operation to the pen (without the wrap policy).
    pub fn apply(&mut self, canvas: &Canvas, op: Operation)
        requires
            canvas.wf(),
            op_fits(*old(self), op),
        ensures
            *final(self) == spec_apply(*canvas, *old(self), op),
    {
        match op {
            Operation::Advance(d) => self.forward(d),
            Operation::TurnLeft => self.turn_left(),
            Operation::TurnRight => self.turn_right(),
            Operation::Recenter => self.recenter(canvas),
            Operation::Unrecognized(_) => (),
        }
    }

    /// Apply the wrap policy: reset each out-of-bounds coordinate to home
    /// and assign the heading tied to the boundary just crossed.
    pub fn wrap(&mut self, canvas: &Canvas)
        requires
            canvas.wf(),
        ensures
            *final(self) == spec_wrap(*canvas, *old(self)),
    {
        if self.x < 0 {
            self.x = canvas.center_x();
            self.heading = Orientation::West;
        } else if self.x > canvas.width {
            self.x = canvas.center_x();
            self.heading = Orientation::East;
        }
        if self.y < 0 {
            self.y = canvas.center_y();
            self.heading = Orientation::North;
        } else if self.y > canvas.height {
            self.y = canvas.center_y();
            self.heading = Orientation::South;
        }
    }
}

} // verus!
