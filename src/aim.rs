use vstd::prelude::*;

use crate::geometry::Vector;

verus! {

/// The pointer's offset from the centre of the window, doubled so that it is
/// exact for windows of odd size, and with Y pointing up rather than down.
/// The pointer and the window's size are in one unit of the caller's choice
/// (pixels or a fraction of a pixel); window coordinates grow rightwards and
/// downwards from the top left corner. The aim angle is the four-quadrant
/// arctangent of this vector, which doubling does not change.
pub fn aim_vector(pointer_x: i32, pointer_y: i32, width: i32, height: i32) -> (v: Vector)
    ensures
        v.x == 2 * pointer_x - width,
        v.y == height - 2 * pointer_y,
{
    let x: i64 = 2 * (pointer_x as i64) - width as i64;
    let y: i64 = height as i64 - 2 * (pointer_y as i64);
    Vector { x, y }
}

/// Whether a gun aimed along `v` points into the left half plane, where its
/// sprite is drawn mirrored so that it does not hang upside down.
pub fn faces_left(v: Vector) -> (r: bool)
    ensures
        r == (v.x < 0),
{
    v.x < 0
}

} // verus!
