//! Vertices as they are laid out for upload.
//!
//! A coordinate is kept as the 32 bits of its single-precision value, which
//! is what a vertex buffer takes.

use vstd::prelude::*;

verus! {

/// One corner of a mesh.
#[derive(Clone, Copy, Debug, PartialEq, Eq)]
pub struct Vertex {
    pub position: [u32; 3],
    pub tex_coord: [u32; 2],
    pub normals: [u32; 3],
}

/// The positions of the vertices one after the other: x, y and z of the
/// first, then of the second, and so on.
pub open spec fn positions(vertices: Seq<Vertex>) -> Seq<u32> {
    Seq::new(vertices.len() * 3, |k: int| vertices[k / 3].position@[k % 3])
}

/// The texture coordinates of the vertices one after the other: u and v of
/// the first, then of the second, and so on.
pub open spec fn texture_coords(vertices: Seq<Vertex>) -> Seq<u32> {
    Seq::new(vertices.len() * 2, |k: int| vertices[k / 2].tex_coord@[k % 2])
}

/// The words of a vertex buffer that holds the positions of `vertices`.
pub fn get_position_data(vertices: &Vec<Vertex>) -> (data: Vec<u32>)
    ensures
        data@ == positions(vertices@),
{
    let mut data: Vec<u32> = Vec::new();
    let mut i: usize = 0;
    while i < vertices.len()
        invariant
            i <= vertices.len(),
            data@.len() == i * 3,
            forall|k: int| 0 <= k < data@.len() ==> data@[k] == vertices@[k / 3].position@[k % 3],
        decreases vertices.len() - i,
    {
        let position = vertices[i].position;
        data.push(position[0]);
        data.push(position[1]);
        data.push(position[2]);
        i += 1;
    }
    assert(data@ =~= positions(vertices@));
    data
}

/// The words of a vertex buffer that holds the texture coordinates of
/// `vertices`.
pub fn get_texture_coord_data(vertices: &Vec<Vertex>) -> (data: Vec<u32>)
    ensures
        data@ == texture_coords(vertices@),
{
    let mut data: Vec<u32> = Vec::new();
    let mut i: usize = 0;
    while i < vertices.len()
        invariant
            i <= vertices.len(),
            data@.len() == i * 2,
            forall|k: int| 0 <= k < data@.len() ==> data@[k] == vertices@[k / 2].tex_coord@[k % 2],
        decreases vertices.len() - i,
    {
        let tex_coord = vertices[i].tex_coord;
        data.push(tex_coord[0]);
        data.push(tex_coord[1]);
        i += 1;
    }
    assert(data@ =~= texture_coords(vertices@));
    data
}

} // verus!
