use vstd::prelude::*;
use vstd::std_specs::convert::FromSpecImpl;

verus! {

/// A colour by its red, green, blue and alpha channels.
#[derive(Debug, Clone, Copy, PartialEq, Eq, Structural)]
pub struct Color<T> {
    pub r: T,
    pub g: T,
    pub b: T,
    pub a: T,
}

impl<T> Color<T> {
    pub fn new(r: T, g: T, b: T, a: T) -> (color: Self)
        ensures
            color == (Color { r, g, b, a }),
    {
        Color { r, g, b, a }
    }
}

impl Color<u8> {
    /// Opaque white: every channel at full intensity. As a tint it leaves a
    /// texture's own colours unchanged.
    pub open spec fn white() -> Self {
        Color { r: 255u8, g: 255u8, b: 255u8, a: 255u8 }
    }
}

impl Default for Color<u8> {
    fn default() -> (color: Self)
        ensures
            color == Color::<u8>::white(),
    {
        Color { r: 255, g: 255, b: 255, a: 255 }
    }
}

impl<T> From<Color<T>> for [T; 4] {
    fn from(val: Color<T>) -> (channels: Self) {
        [val.r, val.g, val.b, val.a]
    }
}

impl<T> FromSpecImpl<Color<T>> for [T; 4] {
    open spec fn obeys_from_spec() -> bool {
        true
    }

    open spec fn from_spec(val: Color<T>) -> Self {
        [val.r, val.g, val.b, val.a]
    }
}

} // verus!
