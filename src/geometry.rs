use vstd::prelude::*;

verus! {

// Coordinates are generic: the widgets only move them from one place to
// another and never compute with them, so every statement below holds for
// whatever number type the toolkit measures in.

/// A position on the screen.
#[derive(Clone, Copy, Debug, PartialEq)]
pub struct Point<N> {
    pub x: N,
    pub y: N,
}

/// A width and a height.
#[derive(Clone, Copy, Debug, PartialEq)]
pub struct Size<N> {
    pub width: N,
    pub height: N,
}

/// A box given by its top-left corner and its size.
#[derive(Clone, Copy, Debug, PartialEq)]
pub struct Rectangle<N> {
    pub x: N,
    pub y: N,
    pub width: N,
    pub height: N,
}

/// The smallest and largest size a layout may resolve to.
#[derive(Clone, Copy, Debug, PartialEq)]
pub struct Limits<N> {
    pub min: Size<N>,
    pub max: Size<N>,
}

impl<N: Copy> Rectangle<N> {
    /// The top-left corner of the box.
    pub open spec fn top_left(self) -> Point<N> {
        Point { x: self.x, y: self.y }
    }

    /// Returns the top-left corner of the box.
    pub fn position(&self) -> (r: Point<N>)
        ensures
            r == self.top_left(),
    {
        Point { x: self.x, y: self.y }
    }
}

impl<N: Copy> Limits<N> {
    /// Limits that admit exactly one size.
    pub open spec fn is_tight_at(self, s: Size<N>) -> bool {
        self.min == s && self.max == s
    }

    /// Returns limits whose least and greatest size are both `s`.
    pub fn tight(s: Size<N>) -> (r: Limits<N>)
        ensures
            r.is_tight_at(s),
    {
        Limits { min: s, max: s }
    }
}

} // verus!
