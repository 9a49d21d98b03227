//! Ready-made groups of components.

use crate::components::{Camera, Position, Rotation, Scale};
use crate::mesh::Mesh;
use vstd::prelude::*;

verus! {

/// The components of one entity. An entity has any of them or none.
#[derive(Debug)]
pub struct Bundle {
    pub position: Option<Position>,
    pub rotation: Option<Rotation>,
    pub scale: Option<Scale>,
    pub camera: Option<Camera>,
    pub mesh: Option<Mesh>,
}

/// What a camera entity is made of.
#[derive(Clone, Copy, Debug)]
pub struct CameraBundle {
    pub position: Position,
    pub direction: Rotation,
    pub camera: Camera,
}

impl Bundle {
    /// The components of an entity that has none.
    pub fn empty() -> (bundle: Bundle)
        ensures
            bundle == (Bundle {
                position: None,
                rotation: None,
                scale: None,
                camera: None,
                mesh: None,
            }),
    {
        Bundle { position: None, rotation: None, scale: None, camera: None, mesh: None }
    }

    /// The components of an entity that is a mesh and nothing else.
    pub fn from_mesh(mesh: Mesh) -> (bundle: Bundle)
        ensures
            bundle == (Bundle {
                position: None,
                rotation: None,
                scale: None,
                camera: None,
                mesh: Some(mesh),
            }),
    {
        Bundle { position: None, rotation: None, scale: None, camera: None, mesh: Some(mesh) }
    }
}

impl CameraBundle {
    /// The components of a camera entity: a position, a direction and a
    /// camera.
    pub fn into_bundle(self) -> (bundle: Bundle)
        ensures
            bundle == (Bundle {
                position: Some(self.position),
                rotation: Some(self.direction),
                scale: None,
                camera: Some(self.camera),
                mesh: None,
            }),
    {
        Bundle {
            position: Some(self.position),
            rotation: Some(self.direction),
            scale: None,
            camera: Some(self.camera),
            mesh: None,
        }
    }
}

} // verus!
