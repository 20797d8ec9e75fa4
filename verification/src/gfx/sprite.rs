use vstd::prelude::*;

use crate::gfx::texture::Texture;
use crate::types::{Color, Rectangle};

verus! {

/// A drawable unit: a texture, the rectangle it is drawn into and a tint.
///
/// The rectangle is given in whole pixels, and each channel of the tint in
/// 255 steps from none (0) to full (255). A place between two pixels or a
/// tint between two steps cannot be said here: who needs them keeps them in
/// floating point beside the sprite and rounds when drawing.
#[derive(Debug, Clone, Copy, PartialEq, Eq, Structural)]
pub struct Sprite {
    texture: Texture,
    target: Rectangle<i64>,
    color: Color<u8>,
}

/// What a sprite is: its texture, its destination rectangle and its tint.
pub struct SpriteView {
    pub texture: Texture,
    pub target: Rectangle<i64>,
    pub color: Color<u8>,
}

impl View for Sprite {
    type V = SpriteView;

    closed spec fn view(&self) -> SpriteView {
        SpriteView { texture: self.texture, target: self.target, color: self.color }
    }
}

impl Sprite {
    /// A sprite of `texture` at the origin, as large as the texture, tinted
    /// opaque white.
    pub fn new(texture: Texture) -> (sprite: Self)
        ensures
            sprite@.texture == texture,
            sprite@.target == (Rectangle {
                x: 0i64,
                y: 0i64,
                width: texture.width as i64,
                height: texture.height as i64,
            }),
            sprite@.color == Color::<u8>::white(),
    {
        Sprite {
            texture,
            target: Rectangle::new(0, 0, texture.width as i64, texture.height as i64),
            color: Color::default(),
        }
    }

    pub fn width(&self) -> (width: u32)
        ensures
            width == self@.texture.width,
    {
        self.texture.width
    }

    pub fn height(&self) -> (height: u32)
        ensures
            height == self@.texture.height,
    {
        self.texture.height
    }

    pub fn texture(&self) -> (texture: Texture)
        ensures
            texture == self@.texture,
    {
        self.texture
    }

    pub fn target(&self) -> (target: Rectangle<i64>)
        ensures
            target == self@.target,
    {
        self.target
    }

    pub fn target_mut(&mut self) -> (target: &mut Rectangle<i64>)
        ensures
            *target == old(self)@.target,
            final(self)@.target == *final(target),
            final(self)@.texture == old(self)@.texture,
            final(self)@.color == old(self)@.color,
    {
        &mut self.target
    }

    pub fn set_target(&mut self, target: Rectangle<i64>)
        ensures
            final(self)@.target == target,
            final(self)@.texture == old(self)@.texture,
            final(self)@.color == old(self)@.color,
    {
        self.target = target;
    }

    pub fn color(&self) -> (color: Color<u8>)
        ensures
            color == self@.color,
    {
        self.color
    }

    pub fn color_mut(&mut self) -> (color: &mut Color<u8>)
        ensures
            *color == old(self)@.color,
            final(self)@.color == *final(color),
            final(self)@.texture == old(self)@.texture,
            final(self)@.target == old(self)@.target,
    {
        &mut self.color
    }

    pub fn set_color(&mut self, color: Color<u8>)
        ensures
            final(self)@.color == color,
            final(self)@.texture == old(self)@.texture,
            final(self)@.target == old(self)@.target,
    {
        self.color = color;
    }
}

} // verus!
