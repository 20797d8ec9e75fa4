use vstd::prelude::*;
use vstd::std_specs::convert::FromSpecImpl;

verus! {

/// An extent along two axes.
#[derive(Debug, Clone, Copy, PartialEq, Eq, Structural)]
pub struct Size<T> {
    pub width: T,
    pub height: T,
}

impl<T> From<(T, T)> for Size<T> {
    fn from(val: (T, T)) -> (size: Self) {
        Size { width: val.0, height: val.1 }
    }
}

impl<T> FromSpecImpl<(T, T)> for Size<T> {
    open spec fn obeys_from_spec() -> bool {
        true
    }

    open spec fn from_spec(val: (T, T)) -> Self {
        Size { width: val.0, height: val.1 }
    }
}

impl<T> From<Size<T>> for (T, T) {
    fn from(val: Size<T>) -> (pair: Self) {
        (val.width, val.height)
    }
}

impl<T> FromSpecImpl<Size<T>> for (T, T) {
    open spec fn obeys_from_spec() -> bool {
        true
    }

    open spec fn from_spec(val: Size<T>) -> Self {
        (val.width, val.height)
    }
}

impl<T> From<Size<T>> for [T; 2] {
    fn from(val: Size<T>) -> (pair: Self) {
        [val.width, val.height]
    }
}

impl<T> FromSpecImpl<Size<T>> for [T; 2] {
    open spec fn obeys_from_spec() -> bool {
        true
    }

    open spec fn from_spec(val: Size<T>) -> Self {
        [val.width, val.height]
    }
}

impl Default for Size<u32> {
    fn default() -> (size: Self)
        ensures
            size == (Size { width: 0u32, height: 0u32 }),
    {
        Size { width: 0, height: 0 }
    }
}

} // verus!
