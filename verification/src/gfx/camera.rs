use vstd::prelude::*;

use crate::types::{Rectangle, Size};

verus! {

/// A point or a direction in space.
#[derive(Debug, Clone, Copy, PartialEq, Eq, Structural)]
pub struct Vector3 {
    pub x: i32,
    pub y: i32,
    pub z: i32,
}

/// A right-handed view: from `eye` towards `center`, with `up` upward.
#[derive(Debug, Clone, Copy, PartialEq, Eq, Structural)]
pub struct LookAt {
    pub eye: Vector3,
    pub center: Vector3,
    pub up: Vector3,
}

/// A right-handed orthographic projection of the box between six planes.
#[derive(Debug, Clone, Copy, PartialEq, Eq, Structural)]
pub struct Orthographic {
    pub left: u32,
    pub right: u32,
    pub bottom: u32,
    pub top: u32,
    pub near: u32,
    pub far: u32,
}

/// The camera that all draw calls of a frame share. The graphics device gets
/// the product of the projection and the view as one matrix.
#[derive(Debug, Clone, Copy, PartialEq, Eq, Structural)]
pub struct Camera {
    pub view: LookAt,
    pub projection: Orthographic,
}

impl Camera {
    /// The camera of a viewport: it looks down the z axis from one unit above
    /// the origin, and shows the pixels from (0, 0) to
    /// (`size.width`, `size.height`).
    pub open spec fn of_viewport(size: Size<u32>) -> Camera {
        Camera {
            view: LookAt {
                eye: Vector3 { x: 0i32, y: 0i32, z: 1i32 },
                center: Vector3 { x: 0i32, y: 0i32, z: 0i32 },
                up: Vector3 { x: 0i32, y: 1i32, z: 0i32 },
            },
            projection: Orthographic {
                left: 0u32,
                right: size.width,
                bottom: 0u32,
                top: size.height,
                near: 0u32,
                far: 1u32,
            },
        }
    }

    /// Whether `target` reaches every edge of what the camera shows.
    pub open spec fn covered_by(self, target: Rectangle<i64>) -> bool {
        &&& target.x <= self.projection.left
        &&& target.x + target.width >= self.projection.right
        &&& target.y <= self.projection.bottom
        &&& target.y + target.height >= self.projection.top
    }

    pub fn for_viewport(size: Size<u32>) -> (camera: Camera)
        ensures
            camera == Camera::of_viewport(size),
    {
        Camera {
            view: LookAt {
                eye: Vector3 { x: 0, y: 0, z: 1 },
                center: Vector3 { x: 0, y: 0, z: 0 },
                up: Vector3 { x: 0, y: 1, z: 0 },
            },
            projection: Orthographic {
                left: 0,
                right: size.width,
                bottom: 0,
                top: size.height,
                near: 0,
                far: 1,
            },
        }
    }

    /// Whether a sprite drawn into `target` fills the whole picture.
    pub fn covers(&self, target: Rectangle<i64>) -> (covered: bool)
        ensures
            covered == self.covered_by(target),
    {
        let right: i128 = target.x as i128 + target.width as i128;
        let top: i128 = target.y as i128 + target.height as i128;
        target.x <= self.projection.left as i64 && right >= self.projection.right as i128 && target.y
            <= self.projection.bottom as i64 && top >= self.projection.top as i128
    }

    /// A rectangle at the origin that is as large as the viewport fills the
    /// whole picture, whatever the viewport was before.
    pub proof fn lemma_viewport_covered(size: Size<u32>)
        ensures
            Camera::of_viewport(size).covered_by(
                Rectangle { x: 0i64, y: 0i64, width: size.width as i64, height: size.height as i64 },
            ),
    {
    }
}

} // verus!
