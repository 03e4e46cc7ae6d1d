//! Screen geometry: points, rectangles, and the conversion from a rectangle
//! to the position-plus-size form that the window manager's move call takes.

use vstd::prelude::*;
use crate::handles::MonitorId;

verus! {

/// A point in screen coordinates.
#[derive(Clone, Copy, PartialEq, Eq, Structural, Debug)]
pub struct Point {
    pub x: i32,
    pub y: i32,
}

/// A rectangle in screen coordinates, given by its two corners.
#[derive(Clone, Copy, PartialEq, Eq, Structural, Debug)]
pub struct Rect {
    pub left: i32,
    pub top: i32,
    pub right: i32,
    pub bottom: i32,
}

/// A move/resize directive in the form the window manager takes: a top-left
/// position and a width and height, not a second corner.
#[derive(Clone, Copy, PartialEq, Eq, Structural, Debug)]
pub struct Placement {
    pub x: i32,
    pub y: i32,
    pub width: i32,
    pub height: i32,
}

impl Rect {
    /// A rectangle is well formed when its corners are ordered and its spans
    /// fit in a 32-bit width and height.
    pub open spec fn well_formed(&self) -> bool {
        &&& self.left <= self.right
        &&& self.top <= self.bottom
        &&& self.right - self.left <= i32::MAX
        &&& self.bottom - self.top <= i32::MAX
    }

    pub fn new(left: i32, top: i32, right: i32, bottom: i32) -> (r: Rect)
        ensures
            r == (Rect { left, top, right, bottom }),
    {
        Rect { left, top, right, bottom }
    }

    #[verifier::when_used_as_spec(well_formed)]
    pub fn is_well_formed(&self) -> (b: bool)
        ensures
            b == self.well_formed(),
    {
        self.left <= self.right && self.top <= self.bottom
            && (self.right as i64) - (self.left as i64) <= i32::MAX as i64
            && (self.bottom as i64) - (self.top as i64) <= i32::MAX as i64
    }

    /// The representative point of a window rectangle, used to pick the
    /// monitor the window occupies: one consistent corner, the top-left,
    /// read as (x = left, y = top).
    pub fn top_left(&self) -> (p: Point)
        ensures
            p.x == self.left,
            p.y == self.top,
    {
        Point { x: self.left, y: self.top }
    }

    /// The placement a well-formed rectangle corresponds to, as a value.
    pub open spec fn spec_placement(self) -> Placement {
        Placement {
            x: self.left,
            y: self.top,
            width: (self.right - self.left) as i32,
            height: (self.bottom - self.top) as i32,
        }
    }

    /// Convert the rectangle into the position-plus-size form used at every
    /// window-manager call boundary: width and height are corner differences,
    /// never raw corner values.
    pub fn to_placement(&self) -> (p: Placement)
        requires
            self.well_formed(),
        ensures
            p == self.spec_placement(),
            p.x == self.left,
            p.y == self.top,
            p.width == self.right - self.left,
            p.height == self.bottom - self.top,
            0 <= p.width,
            0 <= p.height,
    {
        Placement {
            x: self.left,
            y: self.top,
            width: ((self.right as i64) - (self.left as i64)) as i32,
            height: ((self.bottom as i64) - (self.top as i64)) as i32,
        }
    }
}

impl Placement {
    /// The window rectangle a placement produces when the window manager
    /// applies it exactly (zero non-client adjustment, as for a borderless
    /// window): the top-left corner offset by the width and height.
    pub open spec fn spec_resulting_rect(self) -> Rect {
        Rect {
            left: self.x,
            top: self.y,
            right: (self.x + self.width) as i32,
            bottom: (self.y + self.height) as i32,
        }
    }
}

/// Placing a window by a well-formed rectangle and then reading its rectangle
/// back yields that same rectangle: the placement conversion loses nothing.
pub proof fn lemma_placement_round_trip(r: Rect)
    requires
        r.well_formed(),
    ensures
        r.spec_placement().spec_resulting_rect() == r,
{
}

/// A physical display: its identifier and its full pixel rectangle.
#[derive(Clone, Copy, PartialEq, Eq, Structural, Debug)]
pub struct MonitorInfo {
    pub monitor: MonitorId,
    pub bounds: Rect,
}

} // verus!
