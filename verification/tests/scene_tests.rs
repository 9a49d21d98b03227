use butter_engine::components::{Camera, Position, Rotation, Scale};
use butter_engine::entities::{Bundle, CameraBundle};
use butter_engine::mesh::Mesh;
use butter_engine::renderer::{GpuCommand, ResourceKind};
use butter_engine::scene::{ComponentSet, EntityId, SceneStore};
use glam::{Mat4, Vec3};

fn camera() -> Camera {
    Camera {
        front: Vec3::new(0.0, 0.0, 0.0),
        up: Vec3::new(0.0, 1.0, 0.0),
        yaw: 0,
        pitch: 0,
        first_mouse: true,
        view: Mat4::IDENTITY,
        projection: Mat4::IDENTITY,
    }
}

fn camera_bundle() -> Bundle {
    CameraBundle {
        position: Position { d: Vec3::new(0.0, 0.0, 3.0) },
        direction: Rotation { d: Vec3::ZERO },
        camera: camera(),
    }
    .into_bundle()
}

fn mesh_bundle(vao: u32) -> Bundle {
    Bundle::from_mesh(Mesh::new(vao, vao + 1, vec![0, 1, 2], "wood").0)
}

fn nothing() -> ComponentSet {
    ComponentSet { position: false, rotation: false, scale: false, camera: false, mesh: false }
}

#[test]
fn spawn_names_entities_in_order() {
    let mut store = SceneStore::new();
    assert_eq!(store.len(), 0);
    assert_eq!(store.spawn(camera_bundle()), EntityId(0));
    assert_eq!(store.spawn(mesh_bundle(1)), EntityId(1));
    assert_eq!(store.spawn(Bundle::empty()), EntityId(2));
    assert_eq!(store.len(), 3);
}

#[test]
fn query_finds_exactly_the_entities_with_the_components() {
    let mut store = SceneStore::new();
    store.spawn(mesh_bundle(1));
    store.spawn(camera_bundle());
    store.spawn(Bundle::empty());
    store.spawn(mesh_bundle(3));
    let meshes = ComponentSet { mesh: true, ..nothing() };
    let cameras = ComponentSet { camera: true, ..nothing() };
    let steered = ComponentSet { position: true, rotation: true, camera: true, ..nothing() };
    let scaled = ComponentSet { scale: true, ..nothing() };
    let both = ComponentSet { camera: true, mesh: true, ..nothing() };
    assert_eq!(store.query(&meshes), vec![EntityId(0), EntityId(3)]);
    assert_eq!(store.query(&cameras), vec![EntityId(1)]);
    assert_eq!(store.query(&steered), vec![EntityId(1)]);
    assert_eq!(store.query(&scaled), vec![]);
    assert_eq!(store.query(&both), vec![]);
    assert_eq!(
        store.query(&nothing()),
        vec![EntityId(0), EntityId(1), EntityId(2), EntityId(3)]
    );
}

#[test]
fn query_is_stable() {
    let mut store = SceneStore::new();
    store.spawn(mesh_bundle(1));
    store.spawn(camera_bundle());
    store.spawn(mesh_bundle(3));
    let meshes = ComponentSet { mesh: true, ..nothing() };
    let first = store.query(&meshes);
    let second = store.query(&meshes);
    assert_eq!(first, second);
}

#[test]
fn query_of_an_empty_scene() {
    let store = SceneStore::new();
    assert_eq!(store.query(&nothing()), vec![]);
}

#[test]
fn get_returns_the_components() {
    let mut store = SceneStore::new();
    let id = store.spawn(camera_bundle());
    let bundle = store.get(id).unwrap();
    assert_eq!(bundle.position.unwrap().d, Vec3::new(0.0, 0.0, 3.0));
    assert_eq!(bundle.camera.unwrap().up, Vec3::new(0.0, 1.0, 0.0));
    assert!(bundle.mesh.is_none());
    assert!(bundle.scale.is_none());
    assert!(store.get(EntityId(1)).is_none());
}

#[test]
fn setters_replace_a_component_in_place() {
    let mut store = SceneStore::new();
    let id = store.spawn(camera_bundle());
    let other = store.spawn(camera_bundle());
    assert!(store.set_position(id, Position { d: Vec3::new(1.0, 2.0, 3.0) }));
    assert!(store.set_rotation(id, Rotation { d: Vec3::X }));
    let mut turned = camera();
    turned.yaw = 90_000_000;
    assert!(store.set_camera(id, turned));
    let bundle = store.get(id).unwrap();
    assert_eq!(bundle.position.unwrap().d, Vec3::new(1.0, 2.0, 3.0));
    assert_eq!(bundle.rotation.unwrap().d, Vec3::X);
    assert_eq!(bundle.camera.unwrap().yaw, 90_000_000);
    let untouched = store.get(other).unwrap();
    assert_eq!(untouched.position.unwrap().d, Vec3::new(0.0, 0.0, 3.0));
    assert_eq!(untouched.camera.unwrap().yaw, 0);
}

#[test]
fn setters_do_not_add_components() {
    let mut store = SceneStore::new();
    let id = store.spawn(mesh_bundle(1));
    assert!(!store.set_position(id, Position { d: Vec3::ZERO }));
    assert!(!store.set_rotation(id, Rotation { d: Vec3::ZERO }));
    assert!(!store.set_scale(id, Scale { d: Vec3::ONE }));
    assert!(!store.set_camera(id, camera()));
    assert!(!store.set_camera(EntityId(9), camera()));
    let bundle = store.get(id).unwrap();
    assert!(bundle.position.is_none());
    assert!(bundle.camera.is_none());
}

#[test]
fn set_scale_replaces_a_scale() {
    let mut store = SceneStore::new();
    let mut bundle = Bundle::empty();
    bundle.scale = Some(Scale { d: Vec3::ONE });
    let id = store.spawn(bundle);
    assert!(store.set_scale(id, Scale { d: Vec3::new(2.0, 2.0, 2.0) }));
    assert_eq!(store.get(id).unwrap().scale.unwrap().d, Vec3::new(2.0, 2.0, 2.0));
}

#[test]
fn taken_mesh_can_be_destroyed() {
    let mut store = SceneStore::new();
    let id = store.spawn(mesh_bundle(5));
    let mesh = store.take_mesh(id).unwrap();
    assert!(store.get(id).unwrap().mesh.is_none());
    assert!(store.take_mesh(id).is_none());
    assert!(store.take_mesh(EntityId(4)).is_none());
    assert_eq!(store.len(), 1);
    assert_eq!(
        mesh.destroy(),
        vec![
            GpuCommand::Delete { kind: ResourceKind::Buffer, id: 6 },
            GpuCommand::Delete { kind: ResourceKind::VertexArray, id: 5 },
        ]
    );
}
