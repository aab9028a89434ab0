//! Plain geometric value types, generic over the scalar component type.
//!
//! The batching renderers move these components into interleaved vertex
//! records without doing arithmetic on them, so the same types carry any
//! scalar payload the surrounding renderer chooses.

use vstd::prelude::*;

verus! {

/// Two scalar components.
#[derive(Clone, Copy, Debug, PartialEq)]
pub struct Vec2<T> {
    pub x: T,
    pub y: T,
}

/// Three scalar components.
#[derive(Clone, Copy, Debug, PartialEq)]
pub struct Vec3<T> {
    pub x: T,
    pub y: T,
    pub z: T,
}

/// Red, green, blue and alpha components.
#[derive(Clone, Copy, Debug, PartialEq)]
pub struct Color<T> {
    pub r: T,
    pub g: T,
    pub b: T,
    pub a: T,
}

/// Three corner points in the plane.
#[derive(Clone, Copy, Debug, PartialEq)]
pub struct Triangle2<T> {
    pub a: Vec2<T>,
    pub b: Vec2<T>,
    pub c: Vec2<T>,
}

/// Three corner points in space.
#[derive(Clone, Copy, Debug, PartialEq)]
pub struct Triangle3<T> {
    pub a: Vec3<T>,
    pub b: Vec3<T>,
    pub c: Vec3<T>,
}

/// The four corners of an axis-aligned rectangle: `a` top-left, `b`
/// top-right, `c` bottom-right, `d` bottom-left (y grows downward).
#[derive(Clone, Copy, Debug, PartialEq)]
pub struct RectCorners<T> {
    pub a: Vec2<T>,
    pub b: Vec2<T>,
    pub c: Vec2<T>,
    pub d: Vec2<T>,
}

/// Integer pair, as returned by the window-size query.
#[derive(Clone, Copy, Debug, PartialEq)]
pub struct Vec2i {
    pub x: i32,
    pub y: i32,
}

/// Window dimensions in pixels.
#[derive(Clone, Copy, Debug, PartialEq)]
pub struct WindowSize {
    pub x: i32,
    pub y: i32,
}

impl<T: Copy> Vec2<T> {
    pub fn new(x: T, y: T) -> (v: Vec2<T>)
        ensures
            v == (Vec2 { x, y }),
    {
        Vec2 { x, y }
    }
}

impl<T: Copy> Vec3<T> {
    pub fn new(x: T, y: T, z: T) -> (v: Vec3<T>)
        ensures
            v == (Vec3 { x, y, z }),
    {
        Vec3 { x, y, z }
    }
}

impl<T: Copy> Color<T> {
    pub fn new(r: T, g: T, b: T, a: T) -> (c: Color<T>)
        ensures
            c == (Color { r, g, b, a }),
    {
        Color { r, g, b, a }
    }
}

impl<T: Copy> Triangle2<T> {
    pub fn new(a: Vec2<T>, b: Vec2<T>, c: Vec2<T>) -> (t: Triangle2<T>)
        ensures
            t == (Triangle2 { a, b, c }),
    {
        Triangle2 { a, b, c }
    }
}

impl<T: Copy> RectCorners<T> {
    /// First triangle of the corner split: top-left, top-right, bottom-right.
    pub open spec fn spec_tri1(&self) -> Triangle2<T> {
        Triangle2 { a: self.a, b: self.b, c: self.c }
    }

    /// Second triangle of the corner split: top-left, bottom-right,
    /// bottom-left.
    pub open spec fn spec_tri2(&self) -> Triangle2<T> {
        Triangle2 { a: self.a, b: self.c, c: self.d }
    }

    #[verifier::when_used_as_spec(spec_tri1)]
    pub fn tri1(&self) -> (t: Triangle2<T>)
        ensures
            t == self.spec_tri1(),
    {
        Triangle2 { a: self.a, b: self.b, c: self.c }
    }

    #[verifier::when_used_as_spec(spec_tri2)]
    pub fn tri2(&self) -> (t: Triangle2<T>)
        ensures
            t == self.spec_tri2(),
    {
        Triangle2 { a: self.a, b: self.c, c: self.d }
    }
}

/// The corner split covers exactly the four corners, with no corner invented
/// and none dropped.  Both triangles start at the top-left corner `a`; the
/// shared diagonal runs `c` to `a` as the closing edge of the first triangle
/// and `a` to `c` as the opening edge of the second, so the two triangles
/// wind consistently.
pub proof fn lemma_corner_split_covers<T: Copy>(q: RectCorners<T>)
    ensures
        q.tri1().a == q.a,
        q.tri1().b == q.b,
        q.tri1().c == q.c,
        q.tri2().a == q.a,
        q.tri2().b == q.c,
        q.tri2().c == q.d,
        set![q.tri1().a, q.tri1().b, q.tri1().c].union(
            set![q.tri2().a, q.tri2().b, q.tri2().c],
        ) =~= set![q.a, q.b, q.c, q.d],
{
}

} // verus!
