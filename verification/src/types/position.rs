use vstd::prelude::*;
use vstd::std_specs::convert::FromSpecImpl;

verus! {

/// A point in the plane.
#[derive(Debug, Clone, Copy, PartialEq, Eq, Structural)]
pub struct Position<T> {
    pub x: T,
    pub y: T,
}

impl<T> From<(T, T)> for Position<T> {
    fn from(val: (T, T)) -> (position: Self) {
        Position { x: val.0, y: val.1 }
    }
}

impl<T> FromSpecImpl<(T, T)> for Position<T> {
    open spec fn obeys_from_spec() -> bool {
        true
    }

    open spec fn from_spec(val: (T, T)) -> Self {
        Position { x: val.0, y: val.1 }
    }
}

impl<T> From<Position<T>> for (T, T) {
    fn from(val: Position<T>) -> (pair: Self) {
        (val.x, val.y)
    }
}

impl<T> FromSpecImpl<Position<T>> for (T, T) {
    open spec fn obeys_from_spec() -> bool {
        true
    }

    open spec fn from_spec(val: Position<T>) -> Self {
        (val.x, val.y)
    }
}

} // verus!
