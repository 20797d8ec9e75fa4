use vstd::prelude::*;

use crate::types::{Color, Position, Rectangle};

verus! {

/// One corner of a quad as it is recorded for the graphics device.
///
/// Places are whole pixels, wide enough to hold the far edge of any
/// rectangle; the tint has 8 bits for each channel; the texture coordinates
/// are 0 or 1. The device takes all of these as floating-point numbers: the
/// place as it is, each channel of the tint divided by 255.
#[derive(Debug, Clone, Copy, PartialEq, Eq, Structural)]
pub struct Vertex {
    /// Where the corner lies, in pixels.
    pub position: Position<i128>,
    /// The tint of the quad.
    pub color: Color<u8>,
    /// Which corner of the texture is sampled here: each coordinate is 0 or 1.
    pub texcoord: Position<u32>,
    /// The slot of the draw call to which the quad's texture is bound.
    pub texture_index: u32,
}

/// One rectangle of a draw call: where it lies, its tint and the slot of its
/// texture.
pub struct Quad {
    pub target: Rectangle<i64>,
    pub color: Color<u8>,
    pub slot: u32,
}

impl Quad {
    /// The `k`-th corner, in the order top left, bottom left, bottom right,
    /// top right. The y axis of the screen grows downward and the v axis of a
    /// texture upward, so the top corners sample v = 1 and the bottom ones
    /// v = 0.
    pub open spec fn corner(self, k: int) -> Vertex {
        let left = self.target.x as i128;
        let top = self.target.y as i128;
        let right = (self.target.x + self.target.width) as i128;
        let bottom = (self.target.y + self.target.height) as i128;
        let (x, y, u, v) = if k == 0 {
            (left, top, 0u32, 1u32)
        } else if k == 1 {
            (left, bottom, 0u32, 0u32)
        } else if k == 2 {
            (right, bottom, 1u32, 0u32)
        } else {
            (right, top, 1u32, 1u32)
        };
        Vertex {
            position: Position { x, y },
            color: self.color,
            texcoord: Position { x: u, y: v },
            texture_index: self.slot,
        }
    }

    /// The quad whose top left corner is `a` and whose bottom right corner is
    /// `c`.
    pub open spec fn between(a: Vertex, c: Vertex) -> Quad {
        Quad {
            target: Rectangle {
                x: a.position.x as i64,
                y: a.position.y as i64,
                width: (c.position.x - a.position.x) as i64,
                height: (c.position.y - a.position.y) as i64,
            },
            color: a.color,
            slot: a.texture_index,
        }
    }

    /// A quad is found again from two opposite corners of it.
    pub proof fn lemma_between_corners(self)
        ensures
            Quad::between(self.corner(0), self.corner(2)) == self,
    {
    }
}

/// Which corner of its quad the `j`-th index of a quad names: two triangles,
/// (0, 2, 1) and (0, 3, 2).
pub open spec fn corner_order(j: int) -> int {
    if j == 0 {
        0
    } else if j == 1 {
        2
    } else if j == 2 {
        1
    } else if j == 3 {
        0
    } else if j == 4 {
        3
    } else {
        2
    }
}

/// The vertices of `quads`, four for each, in order.
pub open spec fn quad_vertices(quads: Seq<Quad>) -> Seq<Vertex> {
    Seq::new(4 * quads.len(), |i: int| quads[i / 4].corner(i % 4))
}

/// The indices of `count` quads, six for each: the `k`-th quad names its
/// corners from `4 * k` on.
pub open spec fn quad_indices(count: nat) -> Seq<int> {
    Seq::new(6 * count, |i: int| 4 * (i / 6) + corner_order(i % 6))
}

} // verus!
