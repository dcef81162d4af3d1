use vstd::prelude::*;

verus! {

/// A 2D integer vector.
#[derive(Clone, Copy, Debug, PartialEq, Eq, Structural)]
pub struct Vector {
    pub x: i64,
    pub y: i64,
}

/// A direction written as a unit vector in thousandths: `(1000, 0)` points
/// along the positive X axis, `(0, 1000)` along the positive Y axis.
#[derive(Clone, Copy, Debug, PartialEq, Eq, Structural)]
pub struct Heading {
    pub x: i32,
    pub y: i32,
}

/// Thousandths in one whole, the scale of a `Heading`.
pub const HEADING_SCALE: i32 = 1000;

impl Heading {
    /// Both components lie within one whole.
    pub open spec fn wf(&self) -> bool {
        -HEADING_SCALE <= self.x <= HEADING_SCALE && -HEADING_SCALE <= self.y <= HEADING_SCALE
    }

    /// The heading along the positive X axis.
    pub fn east() -> (r: Heading)
        ensures
            r.x == HEADING_SCALE,
            r.y == 0,
            r.wf(),
    {
        Heading { x: HEADING_SCALE, y: 0 }
    }
}

} // verus!
