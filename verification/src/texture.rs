//! Textures, and the images they are made from.

use crate::error::AssetError;
use crate::renderer::{GpuCommand, ResourceKind};
use vstd::prelude::*;

verus! {

/// A texture object on the GPU.
#[derive(Clone, Copy, Debug, PartialEq, Eq, Structural)]
pub struct Texture {
    handle: u32,
}

impl Texture {
    /// The name the driver gave the texture.
    pub closed spec fn name(&self) -> u32 {
        self.handle
    }

    /// Wraps the texture the driver named `handle`. The driver names no
    /// texture 0: that name means it made none.
    pub fn new(handle: u32) -> (made: Result<Texture, AssetError>)
        ensures
            handle == 0 ==> made == Err::<Texture, AssetError>(AssetError::AllocationFailed),
            handle != 0 ==> made is Ok && made->Ok_0.name() == handle,
    {
        if handle == 0 {
            Err(AssetError::AllocationFailed)
        } else {
            Ok(Texture { handle })
        }
    }

    /// The name the driver gave the texture.
    pub fn handle(&self) -> (handle: u32)
        ensures
            handle == self.name(),
    {
        self.handle
    }

    /// The command that binds the texture.
    pub fn bind(&self) -> (command: GpuCommand)
        ensures
            command == GpuCommand::BindTexture(self.name()),
    {
        GpuCommand::BindTexture(self.handle)
    }

    /// The command that unbinds whatever texture is bound.
    pub fn unbind(&self) -> (command: GpuCommand)
        ensures
            command == GpuCommand::BindTexture(0),
    {
        GpuCommand::BindTexture(0)
    }

    /// The commands that fill the texture with `image`, sampled with the
    /// magnification filter `mag_filter` and the anisotropy level whose
    /// single-precision bits are `anisotropy`. The texture is bound for the
    /// duration and unbound at the end.
    pub fn setup(&self, image: &Image, mag_filter: u32, anisotropy: u32) -> (commands: Vec<
        GpuCommand,
    >)
        ensures
            commands@ == texture_setup(self.name(), *image, mag_filter, anisotropy),
    {
        vec![
            self.bind(),
            GpuCommand::ConfigureTexture { mag_filter, anisotropy },
            GpuCommand::UploadImage {
                width: image.width,
                height: image.height,
                components: image.components,
                layout: image.opengl_load_type,
            },
            GpuCommand::GenerateMipmap,
            self.unbind(),
        ]
    }

    /// The command that gives the texture back to the driver.
    pub fn cleanup(self) -> (command: GpuCommand)
        ensures
            command == (GpuCommand::Delete { kind: ResourceKind::Texture, id: self.name() }),
    {
        GpuCommand::Delete { kind: ResourceKind::Texture, id: self.handle }
    }
}

/// OpenGL's number for a one-channel pixel layout.
pub const GL_RED: u32 = 0x1903;

/// OpenGL's number for a two-channel pixel layout.
pub const GL_RG: u32 = 0x8227;

/// OpenGL's number for a three-channel pixel layout.
pub const GL_RGB: u32 = 0x1907;

/// OpenGL's number for a four-channel pixel layout.
pub const GL_RGBA: u32 = 0x1908;

/// The pixel layout of an image with `components` channels. An image with
/// an unheard-of number of channels is taken for three-channel.
pub open spec fn load_type(components: i32) -> u32 {
    if components == 1 {
        GL_RED
    } else if components == 2 {
        GL_RG
    } else if components == 4 {
        GL_RGBA
    } else {
        GL_RGB
    }
}

/// Reads `gl::RED`. Taken on trust: the `gl` crate gives the constant the
/// number OpenGL gives `GL_RED`.
#[verifier::external_body]
fn gl_red() -> (code: u32)
    ensures
        code == GL_RED,
{
    gl::RED
}

/// Reads `gl::RG`. Taken on trust: the `gl` crate gives the constant the
/// number OpenGL gives `GL_RG`.
#[verifier::external_body]
fn gl_rg() -> (code: u32)
    ensures
        code == GL_RG,
{
    gl::RG
}

/// Reads `gl::RGB`. Taken on trust: the `gl` crate gives the constant the
/// number OpenGL gives `GL_RGB`.
#[verifier::external_body]
fn gl_rgb() -> (code: u32)
    ensures
        code == GL_RGB,
{
    gl::RGB
}

/// Reads `gl::RGBA`. Taken on trust: the `gl` crate gives the constant the
/// number OpenGL gives `GL_RGBA`.
#[verifier::external_body]
fn gl_rgba() -> (code: u32)
    ensures
        code == GL_RGBA,
{
    gl::RGBA
}

/// The commands that fill the texture named `handle` with `image`.
pub open spec fn texture_setup(handle: u32, image: Image, mag_filter: u32, anisotropy: u32) -> Seq<
    GpuCommand,
> {
    seq![
        GpuCommand::BindTexture(handle),
        GpuCommand::ConfigureTexture { mag_filter, anisotropy },
        GpuCommand::UploadImage {
            width: image.width,
            height: image.height,
            components: image.components,
            layout: image.opengl_load_type,
        },
        GpuCommand::GenerateMipmap,
        GpuCommand::BindTexture(0),
    ]
}

/// The shape of a decoded image.
#[derive(Clone, Copy, Debug, PartialEq, Eq, Structural)]
pub struct Image {
    pub width: i32,
    pub height: i32,
    pub components: i32,
    pub opengl_load_type: u32,
}

impl Image {
    /// The shape of a decoded image of the given size and channel count,
    /// with the pixel layout to upload it in.
    pub fn new(width: i32, height: i32, components: i32) -> (image: Image)
        ensures
            image == (Image { width, height, components, opengl_load_type: load_type(components) }),
    {
        let opengl_load_type = match components {
            1 => gl_red(),
            2 => gl_rg(),
            3 => gl_rgb(),
            4 => gl_rgba(),
            _ => gl_rgb(),
        };
        Image { width, height, components, opengl_load_type }
    }
}

} // verus!
