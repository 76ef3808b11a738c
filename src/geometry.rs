use vstd::prelude::*;

verus! {

/// A point in screen space.
#[derive(Clone, Copy, Debug, PartialEq, Eq, Structural)]
pub struct Point {
    pub x: i64,
    pub y: i64,
}

/// An axis-aligned rectangle: its top-left corner and its extent.
#[derive(Clone, Copy, Debug, PartialEq, Eq, Structural)]
pub struct Rectangle {
    pub x: i64,
    pub y: i64,
    pub width: i64,
    pub height: i64,
}

/// Whether `p` lies in `r`, all four edges included.
pub open spec fn contains(r: Rectangle, p: Point) -> bool {
    r.x <= p.x && p.x <= r.x + r.width && r.y <= p.y && p.y <= r.y + r.height
}

/// Inclusive hit test of a point against a rectangle.
pub fn rect_contains(r: Rectangle, p: Point) -> (b: bool)
    requires
        0 <= r.width,
        0 <= r.height,
        r.x + r.width <= i64::MAX,
        r.y + r.height <= i64::MAX,
    ensures
        b == contains(r, p),
{
    let inside_x = p.x >= r.x && p.x <= r.x + r.width;
    let inside_y = p.y >= r.y && p.y <= r.y + r.height;
    inside_x && inside_y
}

} // verus!
