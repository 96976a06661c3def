//! Points and rectangles on the screen and on the canvas.

use crate::scalar::Single;
use vstd::prelude::*;

verus! {

/// A position in window coordinates.
#[derive(Clone, Copy, Debug, PartialEq, Eq, Structural)]
pub struct ScreenPos {
    pub x: Single,
    pub y: Single,
}

/// An axis-aligned rectangle in window coordinates.
#[derive(Clone, Copy, Debug, PartialEq, Eq, Structural)]
pub struct ScreenRect {
    pub min: ScreenPos,
    pub max: ScreenPos,
}

impl ScreenRect {
    /// Whether `pos` lies inside or on the border. A NaN lies nowhere.
    pub open spec fn holds(self, pos: ScreenPos) -> bool {
        &&& self.min.x.at_most(pos.x)
        &&& pos.x.at_most(self.max.x)
        &&& self.min.y.at_most(pos.y)
        &&& pos.y.at_most(self.max.y)
    }

    pub fn contains(self, pos: ScreenPos) -> (r: bool)
        ensures
            r == self.holds(pos),
    {
        self.min.x.le(pos.x) && pos.x.le(self.max.x) && self.min.y.le(pos.y) && pos.y.le(
            self.max.y,
        )
    }
}

/// A sample of a stroke in canvas coordinates.
#[derive(Clone, Copy, Debug, PartialEq, Eq, Structural)]
pub struct StrokePoint {
    pub x: Single,
    pub y: Single,
    pub pressure: Single,
}

} // verus!
