//! Materials: which shader and which textures a mesh is drawn with.

use crate::error::AssetError;
use vstd::prelude::*;

verus! {

/// How a texture is sampled when it is drawn larger than its source.
#[derive(Clone, Copy, Debug, PartialEq, Eq, Structural)]
pub enum MagnificationFilter {
    Linear,
    Nearest,
}

/// OpenGL's number for nearest-texel magnification.
pub const GL_NEAREST: u32 = 0x2600;

/// OpenGL's number for linear magnification.
pub const GL_LINEAR: u32 = 0x2601;

/// The OpenGL number that selects `filter`.
pub open spec fn gl_filter(filter: MagnificationFilter) -> u32 {
    match filter {
        MagnificationFilter::Linear => GL_LINEAR,
        MagnificationFilter::Nearest => GL_NEAREST,
    }
}

/// Reads `gl::LINEAR`. Taken on trust: the `gl` crate gives the constant
/// the number OpenGL gives `GL_LINEAR`.
#[verifier::external_body]
fn gl_linear() -> (code: u32)
    ensures
        code == GL_LINEAR,
{
    gl::LINEAR
}

/// Reads `gl::NEAREST`. Taken on trust: the `gl` crate gives the constant
/// the number OpenGL gives `GL_NEAREST`.
#[verifier::external_body]
fn gl_nearest() -> (code: u32)
    ensures
        code == GL_NEAREST,
{
    gl::NEAREST
}

/// OpenGL's number for `filter`.
pub fn to_gl_filter(filter: &MagnificationFilter) -> (code: u32)
    ensures
        code == gl_filter(*filter),
{
    match filter {
        MagnificationFilter::Linear => gl_linear(),
        MagnificationFilter::Nearest => gl_nearest(),
    }
}

/// A named choice of shader and textures.
#[derive(Debug, PartialEq, Eq)]
pub struct Material {
    pub name: String,
    pub textures: Vec<(String, MagnificationFilter)>,
    pub shader: String,
}

/// What a [`Material`] says.
pub struct MaterialView {
    pub name: Seq<char>,
    pub textures: Seq<(Seq<char>, MagnificationFilter)>,
    pub shader: Seq<char>,
}

impl View for Material {
    type V = MaterialView;

    open spec fn view(&self) -> MaterialView {
        MaterialView {
            name: self.name@,
            textures: self.textures@.map_values(
                |texture: (String, MagnificationFilter)| (texture.0@, texture.1),
            ),
            shader: self.shader@,
        }
    }
}

/// What came of looking a material's description up by name.
#[derive(Debug, PartialEq, Eq)]
pub enum MaterialSource {
    /// There is no description by that name.
    Missing,
    /// There is one, but it could not be understood.
    Unreadable,
    /// There is one, and this is what it says.
    Parsed(Material),
}

/// The material without a name, textures or shader.
pub open spec fn blank() -> MaterialView {
    MaterialView { name: Seq::empty(), textures: Seq::empty(), shader: Seq::empty() }
}

impl Material {
    /// The material that a looked-up description stands for: what it says
    /// where it was understood, the blank material where it was not, and no
    /// material at all where there is no description.
    pub fn new(source: MaterialSource) -> (made: Result<Material, AssetError>)
        ensures
            match source {
                MaterialSource::Missing => made == Err::<Material, AssetError>(
                    AssetError::NotFound,
                ),
                MaterialSource::Unreadable => made is Ok && made->Ok_0@ == blank(),
                MaterialSource::Parsed(material) => made == Ok::<Material, AssetError>(material),
            },
    {
        match source {
            MaterialSource::Missing => Err(AssetError::NotFound),
            MaterialSource::Unreadable => {
                let material = Material {
                    name: String::new(),
                    textures: Vec::new(),
                    shader: String::new(),
                };
                assert(material@.textures =~= Seq::empty());
                Ok(material)
            },
            MaterialSource::Parsed(material) => Ok(material),
        }
    }

    /// A second material that says the same.
    pub fn duplicate(&self) -> (copy: Material)
        ensures
            copy@ == self@,
    {
        let mut textures: Vec<(String, MagnificationFilter)> = Vec::new();
        let mut i: usize = 0;
        while i < self.textures.len()
            invariant
                i <= self.textures.len(),
                textures@.len() == i,
                forall|k: int|
                    0 <= k < i ==> (#[trigger] textures@[k]).0@ == self.textures@[k].0@
                        && textures@[k].1 == self.textures@[k].1,
            decreases self.textures.len() - i,
        {
            let name = self.textures[i].0.clone();
            let filter = self.textures[i].1;
            textures.push((name, filter));
            i += 1;
        }
        let copy = Material { name: self.name.clone(), textures, shader: self.shader.clone() };
        assert(copy@.textures =~= self@.textures);
        copy
    }
}

} // verus!
