use vstd::prelude::*;

verus! {

/// An axis-aligned rectangle: an origin and an extent along each axis.
#[derive(Debug, Clone, Copy, PartialEq, Eq, Structural)]
pub struct Rectangle<T> {
    pub x: T,
    pub y: T,
    pub width: T,
    pub height: T,
}

impl<T> Rectangle<T> {
    pub fn new(x: T, y: T, width: T, height: T) -> (rectangle: Self)
        ensures
            rectangle == (Rectangle { x, y, width, height }),
    {
        Rectangle { x, y, width, height }
    }
}

} // verus!
