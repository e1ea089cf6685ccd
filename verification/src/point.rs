use vstd::prelude::*;

verus! {

/// A point on the screen: X at index 0, Y at index 1, counted from the upper
/// left-hand corner.
pub type Point = [i32; 2];

/// The size of an object by width `w` and height `h`.
#[derive(Clone, Copy, Debug, Default, PartialEq, Eq, Structural)]
pub struct Size {
    pub w: i32,
    pub h: i32,
}

/// The point `(x, y)`.
pub fn make_point_i32(x: i32, y: i32) -> (p: Point)
    ensures
        p[0] == x,
        p[1] == y,
{
    [x, y]
}

/// The point of origin, `(0, 0)`.
pub fn make_origin_point() -> (p: Point)
    ensures
        p[0] == 0,
        p[1] == 0,
{
    [0, 0]
}

/// The size of nothing: width and height 0.
pub fn make_unsized() -> (s: Size)
    ensures
        s == (Size { w: 0, h: 0 }),
{
    Size { w: 0, h: 0 }
}

} // verus!
