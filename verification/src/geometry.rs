//! Integer geometry in output-local logical pixels.

use vstd::prelude::*;

verus! {

/// A position.
#[derive(Clone, Copy, Debug, PartialEq, Eq, Structural)]
pub struct Point {
    pub x: i32,
    pub y: i32,
}

/// An extent.
#[derive(Clone, Copy, Debug, PartialEq, Eq, Structural)]
pub struct Size {
    pub w: i32,
    pub h: i32,
}

/// A position together with an extent.
#[derive(Clone, Copy, Debug, PartialEq, Eq, Structural)]
pub struct Rectangle {
    pub loc: Point,
    pub size: Size,
}

impl Point {
    /// The origin, where every routed top-level is placed.
    pub open spec fn origin() -> Point {
        Point { x: 0, y: 0 }
    }

    /// The origin as a value.
    pub fn at_origin() -> (p: Point)
        ensures
            p == Point::origin(),
    {
        Point { x: 0, y: 0 }
    }
}

impl Size {
    /// True when neither a width nor a height was asked for.
    pub open spec fn unset(self) -> bool {
        self.w == 0 && self.h == 0
    }

    /// Tells whether neither a width nor a height was asked for.
    pub fn is_unset(&self) -> (b: bool)
        ensures
            b == self.unset(),
    {
        self.w == 0 && self.h == 0
    }
}

impl Rectangle {
    /// The rectangle of extent `size` whose corner lies at the origin.
    pub open spec fn covering(size: Size) -> Rectangle {
        Rectangle { loc: Point::origin(), size }
    }

    /// Builds the rectangle of extent `size` whose corner lies at the origin.
    pub fn at_origin(size: Size) -> (r: Rectangle)
        ensures
            r == Rectangle::covering(size),
    {
        Rectangle { loc: Point { x: 0, y: 0 }, size }
    }
}

} // verus!
