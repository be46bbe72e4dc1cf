//! Points, vectors and rectangles over any kind of number, and the number of a glyph.

use vstd::prelude::*;

verus! {

/// A point in 2-dimensional space, with each dimension of type `N`.
#[derive(Copy, Clone, Debug, Default, PartialOrd, Ord, PartialEq, Eq, Hash)]
pub struct Point<N> {
    pub x: N,
    pub y: N,
}

/// A vector in 2-dimensional space, with each dimension of type `N`.
#[derive(Copy, Clone, Debug, Default, PartialOrd, Ord, PartialEq, Eq, Hash)]
pub struct Vector<N> {
    pub x: N,
    pub y: N,
}

/// A convenience function for generating `Point`s.
#[inline]
pub fn point<N>(x: N, y: N) -> (p: Point<N>)
    ensures
        p == (Point { x, y }),
{
    Point { x, y }
}

/// A convenience function for generating `Vector`s.
#[inline]
pub fn vector<N>(x: N, y: N) -> (v: Vector<N>)
    ensures
        v == (Vector { x, y }),
{
    Vector { x, y }
}

/// A rectangle, with top-left corner at `min`, and bottom-right corner at
/// `max`.
#[derive(Copy, Clone, Debug, Default, PartialEq, Eq, Hash, PartialOrd, Ord)]
pub struct Rect<N> {
    pub min: Point<N>,
    pub max: Point<N>,
}

/// The number of a glyph in its font.
#[derive(Debug, Clone, Copy, PartialOrd, Ord, PartialEq, Eq, Hash)]
pub struct GlyphId(pub u16);

} // verus!
