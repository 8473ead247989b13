//! Plain two-dimensional sizes, origins and rectangles.

use vstd::prelude::*;

verus! {

/// A position: column `x`, row `y`.
#[derive(Debug, Clone, Copy, PartialEq, Eq, Structural)]
pub struct Point {
    pub x: usize,
    pub y: usize,
}

/// A size: `w` columns, `h` rows.
#[derive(Debug, Clone, Copy, PartialEq, Eq, Structural)]
pub struct Dim2 {
    pub w: usize,
    pub h: usize,
}

/// A rectangle: its top-left corner `p` and its size `d`.
#[derive(Debug, Clone, Copy, PartialEq, Eq, Structural)]
pub struct Rect {
    pub p: Point,
    pub d: Dim2,
}

impl Point {
    pub fn new(x: usize, y: usize) -> (p: Point)
        ensures
            p == (Point { x, y }),
    {
        Point { x, y }
    }

    /// The origin.
    pub fn zero() -> (p: Point)
        ensures
            p == (Point { x: 0, y: 0 }),
    {
        Point { x: 0, y: 0 }
    }
}

impl Dim2 {
    pub fn new(w: usize, h: usize) -> (d: Dim2)
        ensures
            d == (Dim2 { w, h }),
    {
        Dim2 { w, h }
    }

    /// The size with each side halved, a trailing odd row or column dropped.
    pub open spec fn spec_halved(self) -> Dim2 {
        Dim2 { w: self.w / 2, h: self.h / 2 }
    }

    /// The size with each side halved, a trailing odd row or column dropped.
    pub fn halved(self) -> (d: Dim2)
        ensures
            d == self.spec_halved(),
    {
        Dim2 { w: self.w / 2, h: self.h / 2 }
    }
}

impl Rect {
    pub fn new(p: Point, d: Dim2) -> (r: Rect)
        ensures
            r == (Rect { p, d }),
    {
        Rect { p, d }
    }

    /// The rectangle from `start`, its top-left corner, to `end`, the
    /// corner just outside its bottom right.
    pub fn new_with_points(start: Point, end: Point) -> (r: Rect)
        requires
            start.x <= end.x,
            start.y <= end.y,
        ensures
            r.p == start,
            r.d.w == end.x - start.x,
            r.d.h == end.y - start.y,
    {
        Rect { p: start, d: Dim2 { w: end.x - start.x, h: end.y - start.y } }
    }

    /// Whether the rectangle is the whole of an image of size `dim`.
    pub open spec fn spec_covers(self, dim: Dim2) -> bool {
        self.p.x == 0 && self.p.y == 0 && self.d == dim
    }

    /// Whether the rectangle is the whole of an image of size `dim`.
    pub fn covers(self, dim: Dim2) -> (b: bool)
        ensures
            b == self.spec_covers(dim),
    {
        self.p.x == 0 && self.p.y == 0 && self.d.w == dim.w && self.d.h == dim.h
    }
}

} // verus!
