//! Geometry that lives on the GPU.

use crate::renderer::{
    byte_len, ibo_setup, size_fits, vbo_setup, BufferObject, GpuCommand, ResourceKind, IBO, VAO, VBO,
};
use vstd::prelude::*;
use vstd::string::StringExecFns;

verus! {

/// A vertex array, its index buffer and its vertex buffers, together with
/// the name of the material to draw them with. The material is looked up
/// by name when the mesh is drawn; the mesh holds no share in it.
#[derive(Debug)]
pub struct Mesh {
    vao: VAO,
    ibo: IBO,
    buffers: Vec<VBO>,
    index_count: i32,
    material: String,
}

/// One GPU object, as the driver knows it.
pub struct GpuHandle {
    pub kind: ResourceKind,
    pub id: u32,
}

/// The delete command for every handle of `handles`, in their order.
pub open spec fn deletions(handles: Seq<GpuHandle>) -> Seq<GpuCommand> {
    handles.map_values(|handle: GpuHandle| GpuCommand::Delete { kind: handle.kind, id: handle.id })
}

/// The commands that draw `count` indices of the vertex array `vao`.
pub open spec fn draw(vao: u32, count: i32) -> Seq<GpuCommand> {
    seq![
        GpuCommand::BindVertexArray(vao),
        GpuCommand::DrawElements { count },
        GpuCommand::BindVertexArray(0),
    ]
}

impl Mesh {
    /// The name of the vertex array.
    pub closed spec fn vertex_array(&self) -> u32 {
        self.vao.name()
    }

    /// The name of the index buffer.
    pub closed spec fn index_buffer(&self) -> u32 {
        self.ibo.name()
    }

    /// The indices a draw runs over.
    pub closed spec fn indices(&self) -> Seq<i32> {
        self.ibo.elements()
    }

    /// The vertex buffers, oldest first.
    pub closed spec fn buffers(&self) -> Seq<VBO> {
        self.buffers@
    }

    /// The names of the vertex buffers, oldest first.
    pub open spec fn vertex_buffers(&self) -> Seq<u32> {
        self.buffers().map_values(|buffer: VBO| buffer.name())
    }

    /// The name of the material the mesh is drawn with.
    pub closed spec fn material_name(&self) -> Seq<char> {
        self.material@
    }

    /// How many indices a draw covers.
    pub closed spec fn index_count(&self) -> i32 {
        self.index_count
    }

    /// Every GPU object the mesh holds: the vertex buffers, oldest first,
    /// then the index buffer, then the vertex array.
    pub open spec fn handles(&self) -> Seq<GpuHandle> {
        self.vertex_buffers().map_values(
            |id: u32| GpuHandle { kind: ResourceKind::Buffer, id },
        ).push(GpuHandle { kind: ResourceKind::Buffer, id: self.index_buffer() }).push(
            GpuHandle { kind: ResourceKind::VertexArray, id: self.vertex_array() },
        )
    }

    /// A mesh over the vertex array `vao` and the index buffer `ibo`, both
    /// freshly named by the driver, with no vertex buffers yet. The commands
    /// upload the indices.
    pub fn new(vao: u32, ibo: u32, indices: Vec<i32>, material: &str) -> (made: (
        Mesh,
        Vec<GpuCommand>,
    ))
        requires
            0 < indices@.len() <= i32::MAX,
            byte_len(indices@.len()) <= usize::MAX,
        ensures
            made.0.vertex_array() == vao,
            made.0.index_buffer() == ibo,
            made.0.indices() == indices@,
            made.0.buffers() == Seq::<VBO>::empty(),
            made.0.index_count() == indices@.len(),
            made.0.material_name() == material@,
            made.1@ == ibo_setup(vao, ibo, indices@.len()),
    {
        let index_count = indices.len() as i32;
        let vao = VAO::new(vao);
        let (ibo, commands) = IBO::new(ibo, indices, &vao);
        let mesh = Mesh {
            vao,
            ibo,
            buffers: Vec::new(),
            index_count,
            material: String::from_str(material),
        };
        (mesh, commands)
    }

    /// Adds the vertex buffer `id`, freshly named by the driver, filled with
    /// `data` and feeding attribute `index` with `size` floats per vertex.
    /// The commands bind the mesh's vertex array around the upload.
    pub fn add_buffer(&mut self, id: u32, data: Vec<u32>, index: u32, size: i32) -> (commands: Vec<
        GpuCommand,
    >)
        requires
            data@.len() > 0,
            byte_len(data@.len()) <= usize::MAX,
            size_fits(size),
        ensures
            final(self).vertex_array() == old(self).vertex_array(),
            final(self).index_buffer() == old(self).index_buffer(),
            final(self).indices() == old(self).indices(),
            final(self).index_count() == old(self).index_count(),
            final(self).material_name() == old(self).material_name(),
            final(self).buffers().len() == old(self).buffers().len() + 1,
            final(self).buffers().drop_last() == old(self).buffers(),
            final(self).buffers().last().name() == id,
            final(self).buffers().last().words() == data@,
            final(self).buffers().last().attribute() == index,
            final(self).buffers().last().components() == size,
            final(self).vertex_buffers() == old(self).vertex_buffers().push(id),
            commands@ == vbo_setup(old(self).vertex_array(), id, data@.len(), index, size),
    {
        let (buffer, commands) = VBO::new(id, data, index, size, &self.vao);
        self.buffers.push(buffer);
        assert(self.buffers().drop_last() =~= old(self).buffers());
        assert(self.vertex_buffers() =~= old(self).vertex_buffers().push(id));
        commands
    }

    /// The commands that draw the mesh: bind the vertex array, draw every
    /// index, unbind. Shader and textures are the caller's business.
    pub fn render(&self) -> (commands: Vec<GpuCommand>)
        ensures
            commands@ == draw(self.vertex_array(), self.index_count()),
    {
        vec![
            self.vao.bind(),
            GpuCommand::DrawElements { count: self.index_count },
            self.vao.unbind(),
        ]
    }

    /// The indices a draw runs over.
    pub fn get_indices(&self) -> (indices: &Vec<i32>)
        ensures
            indices@ == self.indices(),
    {
        self.ibo.get_indices()
    }

    /// The vertex buffers, oldest first.
    pub fn get_buffers(&self) -> (buffers: &Vec<VBO>)
        ensures
            buffers@ == self.buffers(),
    {
        &self.buffers
    }

    /// The name of the material the mesh is drawn with.
    pub fn material(&self) -> (name: &String)
        ensures
            name@ == self.material_name(),
    {
        &self.material
    }

    /// Gives up the mesh. The commands delete every GPU object it held,
    /// each exactly once, and do nothing else.
    pub fn destroy(self) -> (commands: Vec<GpuCommand>)
        ensures
            commands@ == deletions(self.handles()),
    {
        let ghost names = self.vertex_buffers();
        let ghost held = self.handles();
        let Mesh { vao, ibo, buffers, index_count: _, material: _ } = self;
        let mut commands: Vec<GpuCommand> = Vec::new();
        for buffer in it: buffers
            invariant
                it.seq().len() == names.len(),
                forall|k: int| 0 <= k < names.len() ==> (#[trigger] it.seq()[k]).name() == names[k],
                commands@.len() == it.index(),
                forall|k: int|
                    0 <= k < it.index() ==> #[trigger] commands@[k] == (GpuCommand::Delete {
                        kind: ResourceKind::Buffer,
                        id: names[k],
                    }),
        {
            commands.push(buffer.cleanup());
        }
        commands.push(ibo.cleanup());
        commands.push(vao.cleanup());
        assert(commands@ =~= deletions(held));
        commands
    }
}

/// Destroying a mesh deletes exactly what it holds: one command for each
/// vertex buffer it was given, one for its index buffer and one for its
/// vertex array, each a deletion, and no command besides.
pub proof fn lemma_destroy_is_exact(mesh: Mesh)
    ensures
        mesh.handles().len() == mesh.vertex_buffers().len() + 2,
        deletions(mesh.handles()).len() == mesh.handles().len(),
        forall|k: int|
            0 <= k < mesh.vertex_buffers().len() ==> #[trigger] deletions(mesh.handles())[k] == (
            GpuCommand::Delete { kind: ResourceKind::Buffer, id: mesh.vertex_buffers()[k] }),
        deletions(mesh.handles())[mesh.vertex_buffers().len() as int] == (GpuCommand::Delete {
            kind: ResourceKind::Buffer,
            id: mesh.index_buffer(),
        }),
        deletions(mesh.handles())[mesh.vertex_buffers().len() as int + 1] == (GpuCommand::Delete {
            kind: ResourceKind::VertexArray,
            id: mesh.vertex_array(),
        }),
{
}

} // verus!
