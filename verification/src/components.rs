//! The components an entity can carry.
//!
//! Vectors and matrices are `glam` values. Nothing here computes with them:
//! they are stored, handed out and replaced whole, and a contract speaks of
//! them only to say which value sits where.

use vstd::prelude::*;

verus! {

/// Makes `glam::Vec3` known as a type whose inside is not looked at.
#[verifier::external_type_specification]
#[verifier::external_body]
pub struct ExVec3(glam::Vec3);

/// Makes `glam::Mat4` known as a type whose inside is not looked at.
#[verifier::external_type_specification]
#[verifier::external_body]
pub struct ExMat4(glam::Mat4);

/// Where an entity is.
#[derive(Clone, Copy, Debug)]
pub struct Position {
    pub d: glam::Vec3,
}

/// The direction an entity faces.
#[derive(Clone, Copy, Debug)]
pub struct Rotation {
    pub d: glam::Vec3,
}

/// How much an entity is stretched along each axis.
#[derive(Clone, Copy, Debug)]
pub struct Scale {
    pub d: glam::Vec3,
}

/// One degree, in the unit angles are stored in: a millionth of a degree.
pub const DEGREE: i64 = 1_000_000;

/// The steepest pitch a camera takes, up or down: 89 degrees. Short of the
/// pole, so that the view never flips over.
pub const PITCH_LIMIT: i64 = 89_000_000;

/// A camera's orientation and the matrices derived from it.
///
/// `yaw` and `pitch` are in millionths of a degree.
#[derive(Clone, Copy, Debug)]
pub struct Camera {
    pub front: glam::Vec3,
    pub up: glam::Vec3,
    pub yaw: i64,
    pub pitch: i64,
    pub first_mouse: bool,
    pub view: glam::Mat4,
    pub projection: glam::Mat4,
}

impl Camera {
    /// Whether the pitch lies within [`PITCH_LIMIT`] of the horizon.
    pub open spec fn pitch_in_range(&self) -> bool {
        -PITCH_LIMIT <= self.pitch <= PITCH_LIMIT
    }

    /// Replaces the projection matrix and nothing else.
    pub fn set_projection(&mut self, projection: glam::Mat4)
        ensures
            *final(self) == (Camera { projection, ..*old(self) }),
    {
        self.projection = projection;
    }

    /// Replaces the front direction and the view matrix and nothing else.
    pub fn set_view(&mut self, front: glam::Vec3, view: glam::Mat4)
        ensures
            *final(self) == (Camera { front, view, ..*old(self) }),
    {
        self.front = front;
        self.view = view;
    }
}

} // verus!
