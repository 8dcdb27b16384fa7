//! The rectangle the client displays and moves around.

use vstd::prelude::*;

verus! {

/// Axis-aligned rectangle, top-left anchored, in buffer-pixel coordinates.
///
/// `x` and `y` are mutable and unconstrained by the buffer bounds: the
/// rectangle may sit partially or fully outside the visible region. `w` and
/// `h` are fixed at construction and must be positive.
#[derive(Clone, Copy, PartialEq, Eq, Structural, Debug)]
pub struct Rect {
    pub x: u32,
    pub y: u32,
    pub w: u32,
    pub h: u32,
}

impl Rect {
    /// A rectangle is well formed when both extents are positive.
    pub open spec fn well_formed(self) -> bool {
        self.w > 0 && self.h > 0
    }

    pub fn new(x: u32, y: u32, w: u32, h: u32) -> (r: Rect)
        requires
            w > 0,
            h > 0,
        ensures
            r == (Rect { x, y, w, h }),
            r.well_formed(),
    {
        Rect { x, y, w, h }
    }
}

} // verus!
