use vstd::prelude::*;

verus! {

/// Upper bound on canvas dimensions. It keeps every coordinate that the
/// simulation can produce well inside `i64`: coordinates stay within
/// `[0, MAX_DIM]` between steps, and a single advance moves them by at most
/// `MAX_DIM`, so no intermediate sum can overflow.
pub const MAX_DIM: i64 = 0x1000_0000_0000_0000;

/// Immutable drawing configuration: the bounds of the canvas. The drawable
/// region is `0 <= x <= width`, `0 <= y <= height`, and the home position
/// (where the pen starts and is sent back to) is the midpoint.
#[derive(Clone, Copy, Debug, PartialEq, Eq, Structural)]
pub struct Canvas {
    pub width: i64,
    pub height: i64,
}

impl Canvas {
    /// A canvas is well formed when both dimensions are positive and small
    /// enough that the simulation's arithmetic cannot overflow.
    pub open spec fn wf(self) -> bool {
        0 < self.width <= MAX_DIM && 0 < self.height <= MAX_DIM
    }

    /// Horizontal home coordinate: the midpoint of the width.
    pub open spec fn home_x(self) -> i64 {
        (self.width as int / 2) as i64
    }

    /// Vertical home coordinate: the midpoint of the height.
    pub open spec fn home_y(self) -> i64 {
        (self.height as int / 2) as i64
    }

    pub fn new(width: i64, height: i64) -> (r: Canvas)
        requires
            0 < width <= MAX_DIM,
            0 < height <= MAX_DIM,
        ensures
            r.wf(),
            r.width == width,
            r.height == height,
    {
        Canvas { width, height }
    }

    /// The home position is always inside the drawable region.
    pub proof fn lemma_home_in_bounds(self)
        requires
            self.wf(),
        ensures
            0 <= self.home_x() <= self.width,
            0 <= self.home_y() <= self.height,
    {
    }

    pub fn center_x(&self) -> (r: i64)
        requires
            self.wf(),
        ensures
            r == self.home_x(),
    {
        ((self.width as u64) / 2) as i64
    }

    pub fn center_y(&self) -> (r: i64)
        requires
            self.wf(),
        ensures
            r == self.home_y(),
    {
        ((self.height as u64) / 2) as i64
    }
}

} // verus!
