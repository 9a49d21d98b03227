//! GPU objects and the commands that act on them.
//!
//! Nothing here talks to the graphics driver. A function that needs the GPU
//! to do something returns the [`GpuCommand`]s to run, in order; object
//! names come from the driver and are handed in by the caller.

use vstd::prelude::*;

verus! {

/// The kinds of object the GPU keeps for us.
#[derive(Clone, Copy, Debug, PartialEq, Eq, Structural)]
pub enum ResourceKind {
    VertexArray,
    Buffer,
    Texture,
    ShaderProgram,
}

/// How polygons are rasterised.
#[derive(Clone, Copy, Debug, PartialEq, Eq, Structural)]
pub enum PolygonMode {
    Fill,
    Line,
}

/// One instruction for the graphics driver.
///
/// Binding the name 0 unbinds. An upload takes its bytes from the object
/// that was created together with the command.
#[derive(Clone, Copy, Debug, PartialEq, Eq, Structural)]
pub enum GpuCommand {
    BindVertexArray(u32),
    BindArrayBuffer(u32),
    BindElementBuffer(u32),
    /// Upload the bound vertex buffer's words: `bytes` bytes, drawn statically.
    ArrayBufferData { bytes: usize },
    /// Upload the bound index buffer's indices: `bytes` bytes, drawn statically.
    ElementBufferData { bytes: usize },
    /// Describe attribute `index` of the bound vertex buffer: `size` floats
    /// per vertex, not normalised, `stride` bytes from one vertex to the next.
    VertexAttribPointer { index: u32, size: i32, stride: i32 },
    EnableVertexAttribArray(u32),
    /// Draw `count` indices of the bound vertex array as triangles.
    DrawElements { count: i32 },
    UseProgram(u32),
    /// Upload the product of the projection and view matrices of the camera
    /// of entity `camera` to the uniform `camMatrix` of `program`.
    UploadCameraMatrix { program: u32, camera: usize },
    BindTexture(u32),
    /// Set up sampling of the bound texture: repeat along both axes, blend
    /// between mipmap levels when drawn smaller, use the magnification
    /// filter with OpenGL's number `mag_filter` when drawn larger, and
    /// filter anisotropically up to the level whose single-precision bits
    /// are `anisotropy`.
    ConfigureTexture { mag_filter: u32, anisotropy: u32 },
    /// Upload the decoded image as level 0 of the bound texture: `width` by
    /// `height` pixels of `components` bytes each, in the pixel layout with
    /// OpenGL's number `layout`.
    UploadImage { width: i32, height: i32, components: i32, layout: u32 },
    /// Derive the smaller levels of the bound texture from level 0.
    GenerateMipmap,
    SetPolygonMode(PolygonMode),
    /// Give the object back to the driver.
    Delete { kind: ResourceKind, id: u32 },
}

/// The bytes taken by `words` 32-bit words.
pub open spec fn byte_len(words: nat) -> nat {
    words * 4
}

/// The polygon mode that draws wireframes, or filled faces.
pub open spec fn polygon_mode(is_wireframe: bool) -> PolygonMode {
    if is_wireframe {
        PolygonMode::Line
    } else {
        PolygonMode::Fill
    }
}

/// What every GPU buffer object can do.
pub trait BufferObject: Sized {
    /// The name the driver gave the object.
    spec fn name(&self) -> u32;

    /// The command that binds the object.
    spec fn bind_command(&self) -> GpuCommand;

    /// The command that unbinds whatever object of this kind is bound.
    spec fn unbind_command(&self) -> GpuCommand;

    /// The kind of object this is.
    spec fn kind(&self) -> ResourceKind;

    fn bind(&self) -> (command: GpuCommand)
        ensures
            command == self.bind_command(),
    ;

    fn unbind(&self) -> (command: GpuCommand)
        ensures
            command == self.unbind_command(),
    ;

    /// Gives the object up. It cannot be used afterwards.
    fn cleanup(self) -> (command: GpuCommand)
        ensures
            command == (GpuCommand::Delete { kind: self.kind(), id: self.name() }),
    ;
}

/// A vertex array object.
#[derive(Debug)]
pub struct VAO {
    id: u32,
}

impl VAO {
    /// Wraps the vertex array the driver named `id`.
    pub fn new(id: u32) -> (vao: VAO)
        ensures
            vao.name() == id,
    {
        VAO { id }
    }
}

impl BufferObject for VAO {
    closed spec fn name(&self) -> u32 {
        self.id
    }

    open spec fn bind_command(&self) -> GpuCommand {
        GpuCommand::BindVertexArray(self.name())
    }

    open spec fn unbind_command(&self) -> GpuCommand {
        GpuCommand::BindVertexArray(0)
    }

    open spec fn kind(&self) -> ResourceKind {
        ResourceKind::VertexArray
    }

    fn bind(&self) -> (command: GpuCommand) {
        GpuCommand::BindVertexArray(self.id)
    }

    fn unbind(&self) -> (command: GpuCommand) {
        GpuCommand::BindVertexArray(0)
    }

    fn cleanup(self) -> (command: GpuCommand) {
        GpuCommand::Delete { kind: ResourceKind::VertexArray, id: self.id }
    }
}

/// A vertex buffer: 32-bit words, `size` of them per vertex, feeding
/// attribute `index`.
#[derive(Debug)]
pub struct VBO {
    id: u32,
    data: Vec<u32>,
    index: u32,
    size: i32,
}

/// The commands that upload a vertex buffer of `words` words named `id`
/// and attach it to attribute `index` of the vertex array `vao`, `size`
/// tightly packed floats per vertex.
pub open spec fn vbo_setup(vao: u32, id: u32, words: nat, index: u32, size: i32) -> Seq<
    GpuCommand,
> {
    seq![
        GpuCommand::BindVertexArray(vao),
        GpuCommand::BindArrayBuffer(id),
        GpuCommand::ArrayBufferData { bytes: byte_len(words) as usize },
        GpuCommand::VertexAttribPointer { index, size, stride: (size * 4) as i32 },
        GpuCommand::EnableVertexAttribArray(index),
        GpuCommand::BindArrayBuffer(0),
        GpuCommand::BindVertexArray(0),
    ]
}

/// The component counts whose stride in bytes fits the driver's integer.
pub open spec fn size_fits(size: i32) -> bool {
    -0x2000_0000 <= size < 0x2000_0000
}

impl VBO {
    /// Wraps the buffer the driver named `id`, and says how to fill it with
    /// `data` and attach it to `vao`.
    pub fn new(id: u32, data: Vec<u32>, index: u32, size: i32, vao: &VAO) -> (made: (
        VBO,
        Vec<GpuCommand>,
    ))
        requires
            data@.len() > 0,
            byte_len(data@.len()) <= usize::MAX,
            size_fits(size),
        ensures
            made.0.name() == id,
            made.0.words() == data@,
            made.0.attribute() == index,
            made.0.components() == size,
            made.1@ == vbo_setup(vao.name(), id, data@.len(), index, size),
    {
        let commands = vec![
            vao.bind(),
            GpuCommand::BindArrayBuffer(id),
            GpuCommand::ArrayBufferData { bytes: data.len() * 4 },
            GpuCommand::VertexAttribPointer { index, size, stride: size * 4 },
            GpuCommand::EnableVertexAttribArray(index),
            GpuCommand::BindArrayBuffer(0),
            vao.unbind(),
        ];
        (VBO { id, data, index, size }, commands)
    }

    /// The words the buffer was filled with.
    pub closed spec fn words(&self) -> Seq<u32> {
        self.data@
    }

    /// The attribute the buffer feeds.
    pub closed spec fn attribute(&self) -> u32 {
        self.index
    }

    /// How many floats of the buffer make up one vertex.
    pub closed spec fn components(&self) -> i32 {
        self.size
    }

    /// The words the buffer was filled with.
    pub fn get_data(&self) -> (data: &Vec<u32>)
        ensures
            data@ == self.words(),
    {
        &self.data
    }
}

impl BufferObject for VBO {
    closed spec fn name(&self) -> u32 {
        self.id
    }

    open spec fn bind_command(&self) -> GpuCommand {
        GpuCommand::BindArrayBuffer(self.name())
    }

    open spec fn unbind_command(&self) -> GpuCommand {
        GpuCommand::BindArrayBuffer(0)
    }

    open spec fn kind(&self) -> ResourceKind {
        ResourceKind::Buffer
    }

    fn bind(&self) -> (command: GpuCommand) {
        GpuCommand::BindArrayBuffer(self.id)
    }

    fn unbind(&self) -> (command: GpuCommand) {
        GpuCommand::BindArrayBuffer(0)
    }

    fn cleanup(self) -> (command: GpuCommand) {
        GpuCommand::Delete { kind: ResourceKind::Buffer, id: self.id }
    }
}

/// An index buffer.
#[derive(Debug)]
pub struct IBO {
    id: u32,
    indices: Vec<i32>,
}

/// The commands that upload an index buffer of `count` indices named `id`
/// into the vertex array `vao`. The buffer stays bound to the vertex array:
/// that binding is what a draw reads.
pub open spec fn ibo_setup(vao: u32, id: u32, count: nat) -> Seq<GpuCommand> {
    seq![
        GpuCommand::BindVertexArray(vao),
        GpuCommand::BindElementBuffer(id),
        GpuCommand::ElementBufferData { bytes: byte_len(count) as usize },
        GpuCommand::BindVertexArray(0),
    ]
}

impl IBO {
    /// Wraps the buffer the driver named `id`, and says how to fill it with
    /// `indices` inside `vao`.
    pub fn new(id: u32, indices: Vec<i32>, vao: &VAO) -> (made: (IBO, Vec<GpuCommand>))
        requires
            indices@.len() > 0,
            byte_len(indices@.len()) <= usize::MAX,
        ensures
            made.0.name() == id,
            made.0.elements() == indices@,
            made.1@ == ibo_setup(vao.name(), id, indices@.len()),
    {
        let commands = vec![
            vao.bind(),
            GpuCommand::BindElementBuffer(id),
            GpuCommand::ElementBufferData { bytes: indices.len() * 4 },
            vao.unbind(),
        ];
        (IBO { id, indices }, commands)
    }

    /// The indices the buffer was filled with.
    pub closed spec fn elements(&self) -> Seq<i32> {
        self.indices@
    }

    /// The indices the buffer was filled with.
    pub fn get_indices(&self) -> (indices: &Vec<i32>)
        ensures
            indices@ == self.elements(),
    {
        &self.indices
    }
}

impl BufferObject for IBO {
    closed spec fn name(&self) -> u32 {
        self.id
    }

    open spec fn bind_command(&self) -> GpuCommand {
        GpuCommand::BindElementBuffer(self.name())
    }

    open spec fn unbind_command(&self) -> GpuCommand {
        GpuCommand::BindElementBuffer(0)
    }

    open spec fn kind(&self) -> ResourceKind {
        ResourceKind::Buffer
    }

    fn bind(&self) -> (command: GpuCommand) {
        GpuCommand::BindElementBuffer(self.id)
    }

    fn unbind(&self) -> (command: GpuCommand) {
        GpuCommand::BindElementBuffer(0)
    }

    fn cleanup(self) -> (command: GpuCommand) {
        GpuCommand::Delete { kind: ResourceKind::Buffer, id: self.id }
    }
}

/// Flips the wireframe flag and returns the command that puts the new mode
/// in force. Run it at once.
pub fn toggle_wireframe(is_wireframe: &mut bool) -> (command: GpuCommand)
    ensures
        *final(is_wireframe) == !*old(is_wireframe),
        command == GpuCommand::SetPolygonMode(polygon_mode(!*old(is_wireframe))),
{
    *is_wireframe = !*is_wireframe;
    update_wireframe(is_wireframe)
}

/// The command that puts the mode chosen by the wireframe flag in force.
pub fn update_wireframe(is_wireframe: &bool) -> (command: GpuCommand)
    ensures
        command == GpuCommand::SetPolygonMode(polygon_mode(*is_wireframe)),
{
    if *is_wireframe {
        GpuCommand::SetPolygonMode(PolygonMode::Line)
    } else {
        GpuCommand::SetPolygonMode(PolygonMode::Fill)
    }
}

} // verus!
