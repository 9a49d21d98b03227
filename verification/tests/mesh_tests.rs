use butter_engine::mesh::Mesh;
use butter_engine::renderer::{
    toggle_wireframe, update_wireframe, BufferObject, GpuCommand, PolygonMode, ResourceKind, IBO,
    VAO, VBO,
};

fn pyramid() -> (Mesh, Vec<GpuCommand>) {
    let indices = vec![0, 1, 2, 0, 2, 3, 0, 1, 4, 1, 2, 4, 2, 3, 4, 3, 0, 4];
    Mesh::new(10, 11, indices, "wood")
}

#[test]
fn vertex_array_commands() {
    let vao = VAO::new(3);
    assert_eq!(vao.bind(), GpuCommand::BindVertexArray(3));
    assert_eq!(vao.unbind(), GpuCommand::BindVertexArray(0));
    assert_eq!(vao.cleanup(), GpuCommand::Delete { kind: ResourceKind::VertexArray, id: 3 });
}

#[test]
fn vertex_buffer_setup_binds_the_vertex_array_around_the_upload() {
    let vao = VAO::new(3);
    let (vbo, commands) = VBO::new(8, vec![1, 2, 3, 4, 5, 6], 1, 3, &vao);
    assert_eq!(
        commands,
        vec![
            GpuCommand::BindVertexArray(3),
            GpuCommand::BindArrayBuffer(8),
            GpuCommand::ArrayBufferData { bytes: 24 },
            GpuCommand::VertexAttribPointer { index: 1, size: 3, stride: 12 },
            GpuCommand::EnableVertexAttribArray(1),
            GpuCommand::BindArrayBuffer(0),
            GpuCommand::BindVertexArray(0),
        ]
    );
    assert_eq!(vbo.get_data(), &vec![1, 2, 3, 4, 5, 6]);
    assert_eq!(vbo.bind(), GpuCommand::BindArrayBuffer(8));
    assert_eq!(vbo.unbind(), GpuCommand::BindArrayBuffer(0));
    assert_eq!(vbo.cleanup(), GpuCommand::Delete { kind: ResourceKind::Buffer, id: 8 });
}

#[test]
fn index_buffer_stays_bound_to_the_vertex_array() {
    let vao = VAO::new(3);
    let (ibo, commands) = IBO::new(9, vec![0, 1, 2], &vao);
    assert_eq!(
        commands,
        vec![
            GpuCommand::BindVertexArray(3),
            GpuCommand::BindElementBuffer(9),
            GpuCommand::ElementBufferData { bytes: 12 },
            GpuCommand::BindVertexArray(0),
        ]
    );
    assert_eq!(ibo.get_indices(), &vec![0, 1, 2]);
    assert_eq!(ibo.bind(), GpuCommand::BindElementBuffer(9));
    assert_eq!(ibo.unbind(), GpuCommand::BindElementBuffer(0));
    assert_eq!(ibo.cleanup(), GpuCommand::Delete { kind: ResourceKind::Buffer, id: 9 });
}

#[test]
fn new_mesh_uploads_its_indices() {
    let (mesh, commands) = pyramid();
    assert_eq!(
        commands,
        vec![
            GpuCommand::BindVertexArray(10),
            GpuCommand::BindElementBuffer(11),
            GpuCommand::ElementBufferData { bytes: 72 },
            GpuCommand::BindVertexArray(0),
        ]
    );
    assert_eq!(mesh.material(), "wood");
    assert_eq!(mesh.get_indices().len(), 18);
    assert_eq!(mesh.get_indices()[17], 4);
    assert!(mesh.get_buffers().is_empty());
}

#[test]
fn add_buffer_attaches_to_the_mesh_vertex_array() {
    let (mut mesh, _) = pyramid();
    let texture_coords: Vec<u32> =
        [0.0f32, 0.0, 5.0, 0.0, 0.0, 0.0, 5.0, 0.0, 2.5, 5.0].iter().map(|v| v.to_bits()).collect();
    let commands = mesh.add_buffer(14, texture_coords.clone(), 2, 2);
    assert_eq!(mesh.get_buffers().len(), 1);
    assert_eq!(mesh.get_buffers()[0].get_data(), &texture_coords);
    assert_eq!(
        commands,
        vec![
            GpuCommand::BindVertexArray(10),
            GpuCommand::BindArrayBuffer(14),
            GpuCommand::ArrayBufferData { bytes: 40 },
            GpuCommand::VertexAttribPointer { index: 2, size: 2, stride: 8 },
            GpuCommand::EnableVertexAttribArray(2),
            GpuCommand::BindArrayBuffer(0),
            GpuCommand::BindVertexArray(0),
        ]
    );
}

#[test]
fn render_draws_every_index() {
    let (mut mesh, _) = pyramid();
    mesh.add_buffer(12, vec![0; 15], 0, 3);
    assert_eq!(
        mesh.render(),
        vec![
            GpuCommand::BindVertexArray(10),
            GpuCommand::DrawElements { count: 18 },
            GpuCommand::BindVertexArray(0),
        ]
    );
}

#[test]
fn destroy_releases_exactly_what_was_allocated() {
    let (mut mesh, _) = pyramid();
    mesh.add_buffer(12, vec![0; 15], 0, 3);
    mesh.add_buffer(13, vec![0; 15], 1, 3);
    mesh.add_buffer(14, vec![0; 10], 2, 2);
    let created = vec![
        (ResourceKind::VertexArray, 10),
        (ResourceKind::Buffer, 11),
        (ResourceKind::Buffer, 12),
        (ResourceKind::Buffer, 13),
        (ResourceKind::Buffer, 14),
    ];
    let commands = mesh.destroy();
    assert_eq!(
        commands,
        vec![
            GpuCommand::Delete { kind: ResourceKind::Buffer, id: 12 },
            GpuCommand::Delete { kind: ResourceKind::Buffer, id: 13 },
            GpuCommand::Delete { kind: ResourceKind::Buffer, id: 14 },
            GpuCommand::Delete { kind: ResourceKind::Buffer, id: 11 },
            GpuCommand::Delete { kind: ResourceKind::VertexArray, id: 10 },
        ]
    );
    let mut destroyed: Vec<(ResourceKind, u32)> = Vec::new();
    for command in &commands {
        match command {
            GpuCommand::Delete { kind, id } => destroyed.push((*kind, *id)),
            other => panic!("destroy issued {:?}", other),
        }
    }
    assert_eq!(destroyed.len(), created.len());
    for handle in &created {
        assert_eq!(destroyed.iter().filter(|gone| *gone == handle).count(), 1);
    }
}

#[test]
fn destroy_of_a_mesh_without_vertex_buffers() {
    let (mesh, _) = pyramid();
    assert_eq!(
        mesh.destroy(),
        vec![
            GpuCommand::Delete { kind: ResourceKind::Buffer, id: 11 },
            GpuCommand::Delete { kind: ResourceKind::VertexArray, id: 10 },
        ]
    );
}

#[test]
fn wireframe_toggle_flips_and_reports_the_new_mode() {
    let mut flag = false;
    assert_eq!(toggle_wireframe(&mut flag), GpuCommand::SetPolygonMode(PolygonMode::Line));
    assert!(flag);
    assert_eq!(toggle_wireframe(&mut flag), GpuCommand::SetPolygonMode(PolygonMode::Fill));
    assert!(!flag);
    assert_eq!(update_wireframe(&true), GpuCommand::SetPolygonMode(PolygonMode::Line));
    assert_eq!(update_wireframe(&false), GpuCommand::SetPolygonMode(PolygonMode::Fill));
}
