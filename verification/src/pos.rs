//! Two-dimensional non-negative integer coordinates, used for the cursor,
//! the scroll offset, viewport sizes and screen placement.

use vstd::prelude::*;

verus! {

/// The mathematical view of a [`Pos`]: a pair of unbounded integers.
pub ghost struct PosView {
    pub x: int,
    pub y: int,
}

/// A coordinate pair `(x, y)`: `x` addresses a unit within a line, `y` a
/// line.  Coordinates are never negative; subtraction saturates at zero and
/// addition saturates at the machine limit, so the arithmetic is total.
#[derive(Clone, Copy, Debug, PartialEq, Eq, Structural)]
pub struct Pos {
    pub x: usize,
    pub y: usize,
}

impl View for Pos {
    type V = PosView;

    open spec fn view(&self) -> PosView {
        PosView { x: self.x as int, y: self.y as int }
    }
}

impl Pos {
    pub fn new(x: usize, y: usize) -> (r: Pos)
        ensures
            r.x == x,
            r.y == y,
    {
        Pos { x, y }
    }

    /// Componentwise addition, clamped at the machine limit in each axis.
    pub fn saturating_add(self, rhs: Pos) -> (r: Pos)
        ensures
            r@.x == if self.x + rhs.x <= usize::MAX { self.x + rhs.x } else { usize::MAX as int },
            r@.y == if self.y + rhs.y <= usize::MAX { self.y + rhs.y } else { usize::MAX as int },
    {
        Pos { x: self.x.saturating_add(rhs.x), y: self.y.saturating_add(rhs.y) }
    }

    /// Componentwise subtraction, clamped at zero in each axis.
    pub fn saturating_sub(self, rhs: Pos) -> (r: Pos)
        ensures
            r@.x == if self.x >= rhs.x { self.x - rhs.x } else { 0 },
            r@.y == if self.y >= rhs.y { self.y - rhs.y } else { 0 },
    {
        Pos { x: self.x.saturating_sub(rhs.x), y: self.y.saturating_sub(rhs.y) }
    }
}

impl Default for Pos {
    /// The origin `(0, 0)`.
    fn default() -> (r: Pos)
        ensures
            r.x == 0,
            r.y == 0,
    {
        Pos { x: 0, y: 0 }
    }
}

} // verus!
