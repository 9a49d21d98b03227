//! Verified core of a small real-time renderer.
//!
//! The crate decides and keeps the books; it never reads a file, opens a
//! window or calls the graphics driver. What has to happen outside is
//! returned to the caller as plain data: [`renderer::GpuCommand`]s to run,
//! requests for assets to create, camera motions to carry out.
//!
//! - [`renderer`], [`mesh`], [`texture`], [`shader`], [`vertex`]: GPU
//!   objects and the command sequences that create, draw and delete them.
//! - [`assets`], [`material`], [`error`]: the pool in which materials,
//!   textures and shaders are loaded once and shared by name.
//! - [`scene`], [`entities`], [`components`]: entities and their
//!   components.
//! - [`input`], [`window`], [`time`]: what is known of keys, buttons,
//!   cursor, drawing surface and clock.
//! - [`systems`]: the phases of a frame.
//!
//! Numbers that come as floating point elsewhere are whole numbers here:
//! angles in millionths of a degree, mouse motion in thousandths of a
//! pixel, time in nanoseconds, and the contents of vertex buffers and the
//! field of view as the bits of their single-precision values. Vectors and
//! matrices are carried as `glam` values and never computed with.

pub mod assets;
pub mod components;
pub mod entities;
pub mod error;
pub mod input;
pub mod material;
pub mod mesh;
pub mod renderer;
pub mod scene;
pub mod shader;
pub mod systems;
pub mod texture;
pub mod time;
pub mod vertex;
pub mod window;
