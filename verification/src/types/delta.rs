use vstd::prelude::*;
use vstd::std_specs::convert::FromSpecImpl;

verus! {

/// A displacement in the plane.
#[derive(Debug, Clone, Copy, PartialEq, Eq, Structural)]
pub struct Delta<T> {
    pub x: T,
    pub y: T,
}

impl<T> Delta<T> {
    pub fn new(x: T, y: T) -> (delta: Self)
        ensures
            delta == (Delta { x, y }),
    {
        Delta { x, y }
    }
}

impl<T> From<(T, T)> for Delta<T> {
    fn from(val: (T, T)) -> (delta: Self) {
        Delta { x: val.0, y: val.1 }
    }
}

impl<T> FromSpecImpl<(T, T)> for Delta<T> {
    open spec fn obeys_from_spec() -> bool {
        true
    }

    open spec fn from_spec(val: (T, T)) -> Self {
        Delta { x: val.0, y: val.1 }
    }
}

impl<T> From<Delta<T>> for (T, T) {
    fn from(val: Delta<T>) -> (pair: Self) {
        (val.x, val.y)
    }
}

impl<T> FromSpecImpl<Delta<T>> for (T, T) {
    open spec fn obeys_from_spec() -> bool {
        true
    }

    open spec fn from_spec(val: Delta<T>) -> Self {
        (val.x, val.y)
    }
}

} // verus!
