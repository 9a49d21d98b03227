use butter_engine::assets::{AssetPool, AssetRequest, MaterialLoad};
use butter_engine::components::{Camera, Position, Rotation, DEGREE, PITCH_LIMIT};
use butter_engine::entities::{Bundle, CameraBundle};
use butter_engine::input::{
    ElementState, Input, KEY_A, KEY_D, KEY_F5, KEY_S, KEY_W, MOUSE_LEFT, MOUSE_RIGHT,
};
use butter_engine::material::{MagnificationFilter, Material, MaterialSource};
use butter_engine::mesh::Mesh;
use butter_engine::renderer::{GpuCommand, PolygonMode};
use butter_engine::scene::{EntityId, SceneStore};
use butter_engine::systems::{
    move_camera, render_scene, run_frame, update_projection, update_wireframe, CameraMotion,
    FrameContext, ProjectionGate, ProjectionInputs, RenderError, SENSITIVITY,
};
use butter_engine::window::{CursorGrabMode, Window};
use glam::{Mat4, Vec3};

fn camera() -> Camera {
    Camera {
        front: Vec3::new(0.0, 0.0, 0.0),
        up: Vec3::new(0.0, 1.0, 0.0),
        yaw: 0,
        pitch: 0,
        first_mouse: true,
        view: Mat4::IDENTITY,
        projection: Mat4::IDENTITY,
    }
}

fn camera_bundle(camera: Camera) -> Bundle {
    CameraBundle {
        position: Position { d: Vec3::new(0.0, 0.0, 3.0) },
        direction: Rotation { d: Vec3::ZERO },
        camera,
    }
    .into_bundle()
}

fn scene_with(camera: Camera) -> SceneStore {
    let mut store = SceneStore::new();
    store.spawn(camera_bundle(camera));
    store
}

fn captured_window() -> Window {
    let mut window = Window::new(1280, 720);
    window.set_cursor_grab(CursorGrabMode::Confined, false);
    window
}

fn seasoned() -> Camera {
    let mut camera = camera();
    camera.first_mouse = false;
    camera
}

fn camera_of(store: &SceneStore, id: usize) -> Camera {
    store.get(EntityId(id)).unwrap().camera.unwrap()
}

fn still(entity: usize, captured: bool) -> CameraMotion {
    CameraMotion {
        entity: EntityId(entity),
        captured,
        forward: false,
        backward: false,
        left: false,
        right: false,
    }
}

fn wood_pool() -> AssetPool {
    let mut pool = AssetPool::new();
    let wood = Material {
        name: "wood".to_string(),
        textures: vec![("planks_oak".to_string(), MagnificationFilter::Nearest)],
        shader: "default".to_string(),
    };
    pool.store_texture("planks_oak", 21).unwrap();
    pool.store_shader("default", 31).unwrap();
    pool.store_material("wood", wood).unwrap();
    pool
}

fn mesh(vao: u32, material: &str) -> Mesh {
    Mesh::new(vao, vao + 1, vec![0, 1, 2, 0, 2, 3], material).0
}

fn pass_for(program: u32, texture: u32, camera: usize, vao: u32, count: i32) -> Vec<GpuCommand> {
    vec![
        GpuCommand::UseProgram(program),
        GpuCommand::UploadCameraMatrix { program, camera },
        GpuCommand::BindTexture(texture),
        GpuCommand::BindVertexArray(vao),
        GpuCommand::DrawElements { count },
        GpuCommand::BindVertexArray(0),
        GpuCommand::BindTexture(0),
        GpuCommand::UseProgram(0),
    ]
}

#[test]
fn free_cursor_leaves_the_camera_alone() {
    let mut store = scene_with(seasoned());
    let mut window = Window::new(1280, 720);
    let mut input = Input::new();
    input.dispatch_mouse_motion(40_000, 10_000);
    input.dispatch_keyboard(KEY_W, ElementState::Pressed);
    input.update();
    input.dispatch_mouse_motion(40_000, 10_000);
    let pass = move_camera(&mut store, &input, &mut window, false);
    assert_eq!(pass.grab, None);
    assert_eq!(pass.motions, vec![still(0, false)]);
    assert_eq!(camera_of(&store, 0).yaw, 0);
    assert_eq!(camera_of(&store, 0).pitch, 0);
    assert!(!camera_of(&store, 0).first_mouse);
    assert_eq!(window.cursor_grab(), CursorGrabMode::Free);
}

#[test]
fn captured_cursor_turns_the_camera() {
    let mut store = scene_with(seasoned());
    let mut window = captured_window();
    let mut input = Input::new();
    input.dispatch_mouse_motion(40_000, 10_000);
    let pass = move_camera(&mut store, &input, &mut window, false);
    assert_eq!(pass.grab, None);
    assert_eq!(pass.motions, vec![still(0, true)]);
    assert_eq!(camera_of(&store, 0).yaw, 4 * DEGREE);
    assert_eq!(camera_of(&store, 0).pitch, -DEGREE);
    assert_eq!(camera_of(&store, 0).yaw, 40_000 * SENSITIVITY);
}

#[test]
fn pitch_is_clamped_at_both_ends() {
    let mut store = scene_with(seasoned());
    let mut window = captured_window();
    let mut input = Input::new();
    input.dispatch_mouse_motion(0, -2_000_000);
    move_camera(&mut store, &input, &mut window, false);
    assert_eq!(camera_of(&store, 0).pitch, PITCH_LIMIT);
    assert_eq!(camera_of(&store, 0).pitch, 89 * DEGREE);
    move_camera(&mut store, &input, &mut window, false);
    assert_eq!(camera_of(&store, 0).pitch, 89 * DEGREE);
    input.update();
    input.dispatch_mouse_motion(0, i64::MAX);
    move_camera(&mut store, &input, &mut window, false);
    assert_eq!(camera_of(&store, 0).pitch, -89 * DEGREE);
    input.update();
    input.dispatch_mouse_motion(0, i64::MIN);
    move_camera(&mut store, &input, &mut window, false);
    assert_eq!(camera_of(&store, 0).pitch, 89 * DEGREE);
    input.update();
    input.dispatch_mouse_motion(0, 10_000);
    move_camera(&mut store, &input, &mut window, false);
    assert_eq!(camera_of(&store, 0).pitch, 88 * DEGREE);
}

#[test]
fn pitch_stays_clamped_over_a_run_of_samples() {
    let mut store = scene_with(seasoned());
    let mut window = captured_window();
    let samples: [i64; 8] = [-500_000, -500_000, 3_000_000, 1, -1, i64::MIN, i64::MAX, -890_001];
    for sample in samples {
        let mut input = Input::new();
        input.dispatch_mouse_motion(sample, sample);
        move_camera(&mut store, &input, &mut window, false);
        let pitch = camera_of(&store, 0).pitch;
        assert!(-89 * DEGREE <= pitch && pitch <= 89 * DEGREE);
    }
}

#[test]
fn yaw_is_not_clamped_but_stops_at_the_end_of_the_range() {
    let mut store = scene_with(seasoned());
    let mut window = captured_window();
    let mut input = Input::new();
    input.dispatch_mouse_motion(7_200_000, 0);
    move_camera(&mut store, &input, &mut window, false);
    assert_eq!(camera_of(&store, 0).yaw, 720 * DEGREE);
    input.dispatch_mouse_motion(i64::MAX, 0);
    move_camera(&mut store, &input, &mut window, false);
    assert_eq!(camera_of(&store, 0).yaw, i64::MAX);
    input.update();
    input.dispatch_mouse_motion(-1, 0);
    move_camera(&mut store, &input, &mut window, false);
    assert_eq!(camera_of(&store, 0).yaw, i64::MAX - 100);
}

#[test]
fn first_sample_is_discarded_whatever_its_size() {
    let mut store = scene_with(camera());
    let mut window = captured_window();
    let mut input = Input::new();
    input.dispatch_mouse_motion(i64::MAX, i64::MIN);
    move_camera(&mut store, &input, &mut window, false);
    assert_eq!(camera_of(&store, 0).yaw, 0);
    assert_eq!(camera_of(&store, 0).pitch, 0);
    assert!(!camera_of(&store, 0).first_mouse);
    input.update();
    input.dispatch_mouse_motion(10_000, 0);
    move_camera(&mut store, &input, &mut window, false);
    assert_eq!(camera_of(&store, 0).yaw, DEGREE);
}

#[test]
fn sample_of_the_capturing_frame_is_discarded() {
    let mut store = scene_with(seasoned());
    let mut window = Window::new(1280, 720);
    let mut input = Input::new();
    input.dispatch_mouse_buttons(MOUSE_LEFT, ElementState::Pressed);
    input.dispatch_mouse_motion(123_456, 654_321);
    let pass = move_camera(&mut store, &input, &mut window, false);
    assert_eq!(pass.grab, Some(CursorGrabMode::Confined));
    assert_eq!(pass.motions, vec![still(0, true)]);
    assert_eq!(window.cursor_grab(), CursorGrabMode::Confined);
    assert_eq!(camera_of(&store, 0).yaw, 0);
    assert_eq!(camera_of(&store, 0).pitch, 0);
    input.update();
    input.dispatch_mouse_motion(10_000, -10_000);
    let pass = move_camera(&mut store, &input, &mut window, false);
    assert_eq!(pass.grab, None);
    assert_eq!(camera_of(&store, 0).yaw, DEGREE);
    assert_eq!(camera_of(&store, 0).pitch, DEGREE);
}

#[test]
fn right_button_frees_the_cursor_and_has_the_last_word() {
    let mut store = scene_with(seasoned());
    let mut window = captured_window();
    let mut input = Input::new();
    input.dispatch_mouse_buttons(MOUSE_LEFT, ElementState::Pressed);
    input.dispatch_mouse_buttons(MOUSE_RIGHT, ElementState::Pressed);
    input.dispatch_mouse_motion(10_000, 0);
    let pass = move_camera(&mut store, &input, &mut window, false);
    assert_eq!(pass.grab, Some(CursorGrabMode::Free));
    assert_eq!(pass.motions, vec![still(0, false)]);
    assert_eq!(window.cursor_grab(), CursorGrabMode::Free);
    assert_eq!(camera_of(&store, 0).yaw, 0);
}

#[test]
fn held_buttons_ask_for_nothing() {
    let mut store = scene_with(seasoned());
    let mut window = Window::new(1280, 720);
    let mut input = Input::new();
    input.dispatch_mouse_buttons(MOUSE_LEFT, ElementState::Pressed);
    input.update();
    let pass = move_camera(&mut store, &input, &mut window, false);
    assert_eq!(pass.grab, None);
    assert_eq!(window.cursor_grab(), CursorGrabMode::Free);
}

#[test]
fn platform_that_only_locks_never_captures() {
    let mut store = scene_with(seasoned());
    let mut window = Window::new(1280, 720);
    let mut input = Input::new();
    input.dispatch_mouse_buttons(MOUSE_LEFT, ElementState::Pressed);
    input.dispatch_mouse_motion(10_000, 0);
    let pass = move_camera(&mut store, &input, &mut window, true);
    assert_eq!(pass.grab, Some(CursorGrabMode::Locked));
    assert_eq!(pass.motions, vec![still(0, false)]);
    assert_eq!(window.cursor_grab(), CursorGrabMode::Locked);
    assert_eq!(camera_of(&store, 0).yaw, 0);
}

#[test]
fn held_keys_move_the_camera_while_captured() {
    let mut store = scene_with(seasoned());
    let mut window = captured_window();
    let mut input = Input::new();
    input.dispatch_keyboard(KEY_W, ElementState::Pressed);
    input.dispatch_keyboard(KEY_D, ElementState::Pressed);
    let pass = move_camera(&mut store, &input, &mut window, false);
    assert_eq!(pass.motions, vec![still(0, true)]);
    input.update();
    input.dispatch_keyboard(KEY_A, ElementState::Pressed);
    let pass = move_camera(&mut store, &input, &mut window, false);
    assert_eq!(
        pass.motions,
        vec![CameraMotion {
            entity: EntityId(0),
            captured: true,
            forward: true,
            backward: false,
            left: false,
            right: true,
        }]
    );
    input.update();
    input.dispatch_keyboard(KEY_W, ElementState::Released);
    input.dispatch_keyboard(KEY_S, ElementState::Pressed);
    input.update();
    let pass = move_camera(&mut store, &input, &mut window, false);
    assert_eq!(
        pass.motions,
        vec![CameraMotion {
            entity: EntityId(0),
            captured: true,
            forward: false,
            backward: true,
            left: true,
            right: true,
        }]
    );
}

#[test]
fn only_entities_with_position_direction_and_camera_are_steered() {
    let mut store = SceneStore::new();
    store.spawn(Bundle::from_mesh(mesh(1, "wood")));
    let mut lone = Bundle::empty();
    lone.camera = Some(seasoned());
    store.spawn(lone);
    store.spawn(camera_bundle(seasoned()));
    store.spawn(camera_bundle(camera()));
    let mut window = captured_window();
    let mut input = Input::new();
    input.dispatch_mouse_motion(10_000, 0);
    let pass = move_camera(&mut store, &input, &mut window, false);
    assert_eq!(pass.motions, vec![still(2, true), still(3, true)]);
    assert_eq!(camera_of(&store, 1).yaw, 0);
    assert_eq!(camera_of(&store, 2).yaw, DEGREE);
    assert_eq!(camera_of(&store, 3).yaw, 0);
    assert!(!camera_of(&store, 3).first_mouse);
}

#[test]
fn scene_without_a_steerable_camera_ignores_the_buttons() {
    let mut store = SceneStore::new();
    store.spawn(Bundle::from_mesh(mesh(1, "wood")));
    let mut window = Window::new(1280, 720);
    let mut input = Input::new();
    input.dispatch_mouse_buttons(MOUSE_LEFT, ElementState::Pressed);
    let pass = move_camera(&mut store, &input, &mut window, false);
    assert_eq!(pass.grab, None);
    assert!(pass.motions.is_empty());
    assert_eq!(window.cursor_grab(), CursorGrabMode::Free);
}

#[test]
fn wireframe_toggles_on_the_frame_of_the_press_only() {
    let mut input = Input::new();
    let mut flag = false;
    assert_eq!(update_wireframe(&input, &mut flag), None);
    input.dispatch_keyboard(KEY_F5, ElementState::Pressed);
    assert_eq!(
        update_wireframe(&input, &mut flag),
        Some(GpuCommand::SetPolygonMode(PolygonMode::Line))
    );
    assert!(flag);
    input.update();
    assert_eq!(update_wireframe(&input, &mut flag), None);
    assert!(flag);
    input.dispatch_keyboard(KEY_F5, ElementState::Released);
    input.dispatch_keyboard(KEY_F5, ElementState::Pressed);
    assert_eq!(
        update_wireframe(&input, &mut flag),
        Some(GpuCommand::SetPolygonMode(PolygonMode::Fill))
    );
    assert!(!flag);
}

#[test]
fn projection_is_recomputed_only_on_change() {
    let store = scene_with(camera());
    let mut gate = ProjectionGate::new();
    let fov = 90.0f32.to_bits();
    let first = ProjectionInputs { width: 1280, height: 720, fov };
    assert_eq!(update_projection(&mut gate, &store, first), vec![EntityId(0)]);
    assert_eq!(update_projection(&mut gate, &store, first), vec![]);
    assert_eq!(update_projection(&mut gate, &store, first), vec![]);
    let same_shape = ProjectionInputs { width: 1920, height: 1080, fov };
    assert_eq!(update_projection(&mut gate, &store, same_shape), vec![]);
    let narrower = ProjectionInputs { width: 800, height: 600, fov };
    assert_eq!(update_projection(&mut gate, &store, narrower), vec![EntityId(0)]);
    assert_eq!(update_projection(&mut gate, &store, narrower), vec![]);
    let wider_view = ProjectionInputs { width: 800, height: 600, fov: 100.0f32.to_bits() };
    assert_eq!(update_projection(&mut gate, &store, wider_view), vec![EntityId(0)]);
    assert_eq!(update_projection(&mut gate, &store, wider_view), vec![]);
}

#[test]
fn projection_of_a_flat_surface() {
    let store = scene_with(camera());
    let mut gate = ProjectionGate::new();
    let flat = ProjectionInputs { width: 0, height: 0, fov: 1 };
    assert_eq!(update_projection(&mut gate, &store, flat), vec![EntityId(0)]);
    assert_eq!(update_projection(&mut gate, &store, flat), vec![]);
    let real = ProjectionInputs { width: 4, height: 3, fov: 1 };
    assert_eq!(update_projection(&mut gate, &store, real), vec![EntityId(0)]);
    let line = ProjectionInputs { width: 8, height: 0, fov: 1 };
    assert_eq!(update_projection(&mut gate, &store, line), vec![EntityId(0)]);
}

#[test]
fn projection_stays_byte_identical_without_a_change() {
    let mut store = scene_with(camera());
    let mut gate = ProjectionGate::new();
    let fov = 90.0f32;
    let inputs = ProjectionInputs { width: 1280, height: 720, fov: fov.to_bits() };
    for id in update_projection(&mut gate, &store, inputs) {
        let mut camera = store.get(id).unwrap().camera.unwrap();
        camera.set_projection(Mat4::perspective_rh_gl(fov, 1280.0 / 720.0, 0.01, 100.0));
        store.set_camera(id, camera);
    }
    let before = camera_of(&store, 0).projection.to_cols_array().map(|v| v.to_bits());
    assert_ne!(camera_of(&store, 0).projection, Mat4::IDENTITY);
    for id in update_projection(&mut gate, &store, inputs) {
        let mut camera = store.get(id).unwrap().camera.unwrap();
        camera.set_projection(Mat4::IDENTITY);
        store.set_camera(id, camera);
    }
    let after = camera_of(&store, 0).projection.to_cols_array().map(|v| v.to_bits());
    assert_eq!(before, after);
}

#[test]
fn camera_setters_touch_one_thing() {
    let mut camera = seasoned();
    camera.yaw = 5;
    camera.set_projection(Mat4::ZERO);
    assert_eq!(camera.projection, Mat4::ZERO);
    assert_eq!(camera.view, Mat4::IDENTITY);
    assert_eq!(camera.yaw, 5);
    camera.set_view(Vec3::Z, Mat4::from_scale(Vec3::new(2.0, 2.0, 2.0)));
    assert_eq!(camera.front, Vec3::Z);
    assert_eq!(camera.view, Mat4::from_scale(Vec3::new(2.0, 2.0, 2.0)));
    assert_eq!(camera.projection, Mat4::ZERO);
    assert_eq!(camera.up, Vec3::new(0.0, 1.0, 0.0));
}

#[test]
fn scene_is_drawn_mesh_by_mesh() {
    let mut store = SceneStore::new();
    store.spawn(Bundle::from_mesh(mesh(1, "wood")));
    store.spawn(camera_bundle(camera()));
    store.spawn(Bundle::from_mesh(mesh(5, "wood")));
    let pool = wood_pool();
    let mut expected = pass_for(31, 21, 1, 1, 6);
    expected.extend(pass_for(31, 21, 1, 5, 6));
    assert_eq!(render_scene(&store, &pool), Ok(expected));
}

#[test]
fn scene_without_meshes_draws_nothing() {
    let store = scene_with(camera());
    assert_eq!(render_scene(&store, &wood_pool()), Ok(vec![]));
}

#[test]
fn scene_needs_exactly_one_camera() {
    let mut store = SceneStore::new();
    store.spawn(Bundle::from_mesh(mesh(1, "wood")));
    let pool = wood_pool();
    assert_eq!(render_scene(&store, &pool), Err(RenderError::MissingCamera));
    store.spawn(camera_bundle(camera()));
    assert!(render_scene(&store, &pool).is_ok());
    store.spawn(camera_bundle(camera()));
    assert_eq!(render_scene(&store, &pool), Err(RenderError::AmbiguousCamera));
}

#[test]
fn unloaded_material_fails_the_whole_scene() {
    let mut store = scene_with(camera());
    store.spawn(Bundle::from_mesh(mesh(1, "wood")));
    store.spawn(Bundle::from_mesh(mesh(3, "stone")));
    store.spawn(Bundle::from_mesh(mesh(5, "wood")));
    assert_eq!(render_scene(&store, &wood_pool()), Err(RenderError::UnresolvedMaterial));
    assert_eq!(render_scene(&store, &AssetPool::new()), Err(RenderError::UnresolvedMaterial));
}

#[test]
fn material_without_a_texture_cannot_be_drawn() {
    let mut pool = wood_pool();
    let bare = Material { name: "bare".to_string(), textures: vec![], shader: "default".to_string() };
    pool.store_material("bare", bare).unwrap();
    let mut store = scene_with(camera());
    store.spawn(Bundle::from_mesh(mesh(1, "bare")));
    assert_eq!(render_scene(&store, &pool), Err(RenderError::UntexturedMaterial));
}

#[test]
fn only_the_first_texture_is_bound() {
    let mut pool = wood_pool();
    pool.store_texture("moss", 22).unwrap();
    let mossy = Material {
        name: "mossy".to_string(),
        textures: vec![
            ("moss".to_string(), MagnificationFilter::Linear),
            ("planks_oak".to_string(), MagnificationFilter::Linear),
        ],
        shader: "default".to_string(),
    };
    pool.store_material("mossy", mossy).unwrap();
    let mut store = scene_with(camera());
    store.spawn(Bundle::from_mesh(mesh(1, "mossy")));
    assert_eq!(render_scene(&store, &pool), Ok(pass_for(31, 22, 0, 1, 6)));
}

fn acquire_wood(pool: &mut AssetPool, created: &mut Vec<String>) -> Material {
    let description = Material {
        name: "wood".to_string(),
        textures: vec![("planks_oak".to_string(), MagnificationFilter::Nearest)],
        shader: "default".to_string(),
    };
    match pool.load_material("wood") {
        MaterialLoad::Ready(material) => material,
        MaterialLoad::Resolve => {
            let material = Material::new(MaterialSource::Parsed(description)).unwrap();
            loop {
                match pool.missing_for(&material) {
                    Some(AssetRequest::Texture(request)) => {
                        assert_eq!(request.mag_filter, gl::NEAREST);
                        created.push(format!("texture {}", request.name));
                        pool.store_texture(&request.name, 21).unwrap();
                    }
                    Some(AssetRequest::Shader(request)) => {
                        created.push(format!("shader {}", request.name));
                        pool.store_shader(&request.name, 31).unwrap();
                    }
                    None => break,
                }
            }
            pool.store_material("wood", material).unwrap();
            match pool.load_material("wood") {
                MaterialLoad::Ready(material) => material,
                MaterialLoad::Resolve => panic!("a stored material is loaded"),
            }
        }
    }
}

#[test]
fn one_frame_end_to_end() {
    let fov = 90.0f32.to_radians();
    let mut created: Vec<String> = Vec::new();
    let mut assets = AssetPool::new();
    let wood = acquire_wood(&mut assets, &mut created);
    assert_eq!(wood.shader, "default");
    assets.release_material("wood");

    let mut store = SceneStore::new();
    let eye = store.spawn(camera_bundle(camera()));
    let (mut pyramid, _) =
        Mesh::new(1, 2, vec![0, 1, 2, 0, 2, 3, 0, 1, 4, 1, 2, 4, 2, 3, 4, 3, 0, 4], "wood");
    pyramid.add_buffer(3, vec![0; 15], 0, 3);
    pyramid.add_buffer(4, vec![0; 15], 1, 3);
    pyramid.add_buffer(5, vec![0; 10], 2, 2);
    store.spawn(Bundle::from_mesh(pyramid));

    let mut context = FrameContext {
        store,
        assets,
        input: Input::new(),
        window: Window::new(1280, 720),
        gate: ProjectionGate::new(),
        is_wireframe: false,
        fov: fov.to_bits(),
    };
    context.input.update();
    let frame = run_frame(&mut context, false);

    assert_eq!(created, vec!["texture planks_oak".to_string(), "shader default".to_string()]);
    assert_eq!(context.assets.texture_count(), 1);
    assert_eq!(context.assets.shader_count(), 1);
    assert_eq!(context.assets.material_count(), 1);

    assert_eq!(frame.pass.grab, None);
    assert_eq!(frame.pass.motions, vec![still(0, false)]);
    assert_eq!(frame.wireframe, None);
    assert!(!context.is_wireframe);

    assert_eq!(frame.stale, vec![eye]);
    for id in &frame.stale {
        let mut camera = context.store.get(*id).unwrap().camera.unwrap();
        let aspect = context.window.width() as f32 / context.window.height() as f32;
        camera.set_projection(Mat4::perspective_rh_gl(
            f32::from_bits(context.fov),
            aspect,
            0.01,
            100.0,
        ));
        context.store.set_camera(*id, camera);
    }
    assert_eq!(
        context.store.get(eye).unwrap().camera.unwrap().projection,
        Mat4::perspective_rh_gl(90.0f32.to_radians(), 1280.0 / 720.0, 0.01, 100.0)
    );

    let commands = frame.drawn.unwrap();
    assert_eq!(commands, pass_for(31, 21, 0, 1, 18));
    let draws = commands
        .iter()
        .filter(|command| matches!(command, GpuCommand::DrawElements { .. }))
        .count();
    assert_eq!(draws, 1);

    let again = run_frame(&mut context, false);
    assert_eq!(again.stale, vec![]);
    assert_eq!(again.drawn, Ok(pass_for(31, 21, 0, 1, 18)));
}

#[test]
fn frame_runs_its_phases_in_order() {
    let mut store = scene_with(seasoned());
    store.spawn(Bundle::from_mesh(mesh(7, "wood")));
    let mut context = FrameContext {
        store,
        assets: wood_pool(),
        input: Input::new(),
        window: Window::new(800, 600),
        gate: ProjectionGate::new(),
        is_wireframe: false,
        fov: 7,
    };
    context.input.dispatch_mouse_buttons(MOUSE_LEFT, ElementState::Pressed);
    context.input.dispatch_keyboard(KEY_F5, ElementState::Pressed);
    context.input.dispatch_mouse_motion(5_000, 5_000);
    let frame = run_frame(&mut context, false);
    assert_eq!(frame.pass.grab, Some(CursorGrabMode::Confined));
    assert_eq!(frame.pass.motions, vec![still(0, true)]);
    assert_eq!(frame.stale, vec![EntityId(0)]);
    assert_eq!(frame.wireframe, Some(GpuCommand::SetPolygonMode(PolygonMode::Line)));
    assert!(context.is_wireframe);
    assert_eq!(frame.drawn, Ok(pass_for(31, 21, 0, 7, 6)));
    assert_eq!(context.window.cursor_grab(), CursorGrabMode::Confined);

    context.input.update();
    context.input.dispatch_mouse_motion(5_000, 5_000);
    let frame = run_frame(&mut context, false);
    assert_eq!(frame.pass.grab, None);
    assert_eq!(frame.stale, vec![]);
    assert_eq!(frame.wireframe, None);
    assert!(context.is_wireframe);
    assert_eq!(camera_of(&context.store, 0).yaw, 500_000);
    assert_eq!(camera_of(&context.store, 0).pitch, -500_000);
}
