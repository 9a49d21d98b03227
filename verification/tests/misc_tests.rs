use butter_engine::error::{AssetError, AssetKind};
use butter_engine::material::{to_gl_filter, MagnificationFilter};
use butter_engine::renderer::{GpuCommand, ResourceKind};
use butter_engine::shader::{Shader, ShaderStage};
use butter_engine::texture::{Image, Texture};
use butter_engine::time::{frame_sleep, Time};
use butter_engine::vertex::{get_position_data, get_texture_coord_data, Vertex};
use butter_engine::window::{CursorGrabMode, Window};

#[test]
fn filters_map_to_the_driver_numbers() {
    assert_eq!(to_gl_filter(&MagnificationFilter::Linear), gl::LINEAR);
    assert_eq!(to_gl_filter(&MagnificationFilter::Nearest), gl::NEAREST);
    assert_eq!(to_gl_filter(&MagnificationFilter::Linear), 0x2601);
    assert_eq!(to_gl_filter(&MagnificationFilter::Nearest), 0x2600);
}

#[test]
fn image_layout_follows_the_channel_count() {
    assert_eq!(Image::new(4, 2, 1).opengl_load_type, gl::RED);
    assert_eq!(Image::new(4, 2, 2).opengl_load_type, gl::RG);
    assert_eq!(Image::new(4, 2, 3).opengl_load_type, gl::RGB);
    assert_eq!(Image::new(4, 2, 4).opengl_load_type, gl::RGBA);
    assert_eq!(Image::new(4, 2, 0).opengl_load_type, gl::RGB);
    assert_eq!(Image::new(4, 2, 5).opengl_load_type, gl::RGB);
    assert_eq!(Image::new(4, 2, -1).opengl_load_type, gl::RGB);
    assert_eq!(
        Image::new(640, 480, 4),
        Image { width: 640, height: 480, components: 4, opengl_load_type: 0x1908 }
    );
    assert_eq!(Image::new(1, 1, 1).opengl_load_type, 0x1903);
    assert_eq!(Image::new(1, 1, 2).opengl_load_type, 0x8227);
    assert_eq!(Image::new(1, 1, 3).opengl_load_type, 0x1907);
}

#[test]
fn texture_commands() {
    assert_eq!(Texture::new(0), Err(AssetError::AllocationFailed));
    let texture = Texture::new(6).unwrap();
    assert_eq!(texture.handle(), 6);
    assert_eq!(texture.bind(), GpuCommand::BindTexture(6));
    assert_eq!(texture.unbind(), GpuCommand::BindTexture(0));
    assert_eq!(texture.cleanup(), GpuCommand::Delete { kind: ResourceKind::Texture, id: 6 });
}

#[test]
fn shader_commands() {
    assert_eq!(Shader::new(0), Err(AssetError::AllocationFailed));
    let shader = Shader::new(4).unwrap();
    assert_eq!(shader.program(), 4);
    assert_eq!(shader.bind(), GpuCommand::UseProgram(4));
    assert_eq!(shader.unbind(), GpuCommand::UseProgram(0));
    assert_eq!(shader.cleanup(), GpuCommand::Delete { kind: ResourceKind::ShaderProgram, id: 4 });
}

#[test]
fn failed_shader_stages_are_reported_in_build_order() {
    assert_eq!(Shader::failed_stages(true, true, true), vec![]);
    assert_eq!(Shader::failed_stages(false, true, true), vec![ShaderStage::Vertex]);
    assert_eq!(Shader::failed_stages(true, false, true), vec![ShaderStage::Fragment]);
    assert_eq!(Shader::failed_stages(true, true, false), vec![ShaderStage::Program]);
    assert_eq!(
        Shader::failed_stages(false, false, false),
        vec![ShaderStage::Vertex, ShaderStage::Fragment, ShaderStage::Program]
    );
}

#[test]
fn error_messages() {
    assert_eq!(
        AssetError::StillInUse.describe(AssetKind::Material, "wood"),
        "Material, wood, is still in use!"
    );
    assert_eq!(
        AssetError::StillInUse.describe(AssetKind::Texture, "planks_oak"),
        "Texture, planks_oak, is still in use!"
    );
    assert_eq!(
        AssetError::StillInUse.describe(AssetKind::Shader, "default"),
        "Shader, default, is still in use!"
    );
    assert_eq!(
        AssetError::NotFound.describe(AssetKind::Material, "stone"),
        "Material, stone, was not found!"
    );
    assert_eq!(
        AssetError::AllocationFailed.describe(AssetKind::Texture, ""),
        "Texture, , could not be created!"
    );
}

#[test]
fn first_update_only_marks_the_time() {
    let mut time = Time::new(1_000);
    assert_eq!(time.startup(), 1_000);
    assert_eq!(time.delta(), 0);
    assert_eq!(time.first_update(), None);
    assert_eq!(time.last_update(), None);
    time.update(5_000);
    assert_eq!(time.delta(), 0);
    assert_eq!(time.raw_delta(), 0);
    assert_eq!(time.first_update(), Some(5_000));
    assert_eq!(time.last_update(), Some(5_000));
}

#[test]
fn later_updates_measure_the_frame() {
    let mut time = Time::new(0);
    time.update(1_000_000);
    time.update(17_666_667);
    assert_eq!(time.delta(), 16_666_667);
    assert_eq!(time.raw_delta(), 16_666_667);
    assert_eq!(time.first_update(), Some(1_000_000));
    assert_eq!(time.last_update(), Some(17_666_667));
    time.update(17_666_667);
    assert_eq!(time.delta(), 0);
}

#[test]
fn a_clock_that_runs_backwards_measures_nothing() {
    let mut time = Time::new(0);
    time.update(500);
    time.update(400);
    assert_eq!(time.delta(), 0);
    assert_eq!(time.last_update(), Some(400));
    time.update(450);
    assert_eq!(time.delta(), 50);
}

#[test]
fn frame_sleep_is_the_rest_of_the_budget() {
    assert_eq!(frame_sleep(60, 0), 16_666_666);
    assert_eq!(frame_sleep(60, 6_666_666), 10_000_000);
    assert_eq!(frame_sleep(1, 999_999_999), 1);
    assert_eq!(frame_sleep(i32::MAX, 0), 0);
    assert_eq!(frame_sleep(1_000_000_000, 0), 1);
}

#[test]
fn frame_sleep_saturates_at_zero() {
    assert_eq!(frame_sleep(60, 16_666_666), 0);
    assert_eq!(frame_sleep(60, 16_666_667), 0);
    assert_eq!(frame_sleep(60, u64::MAX), 0);
    assert_eq!(frame_sleep(-1, 0), 0);
    assert_eq!(frame_sleep(i32::MIN, 5), 0);
}

#[test]
fn window_geometry() {
    let mut window = Window::new(1280, 720);
    assert_eq!(window.width(), 1280);
    assert_eq!(window.height(), 720);
    assert!(window.has_focus());
    assert_eq!(window.center_of_window(), (640, 360));
    assert_eq!(window.center_on_display(1920, 1080), (320, 180));
    assert_eq!(window.center_on_display(1280, 720), (0, 0));
    window.resize(801, 601);
    assert_eq!(window.center_of_window(), (400, 300));
    assert_eq!(window.center_on_display(1920, 1080), (559, 239));
}

#[test]
fn cursor_grab_follows_the_platform() {
    let mut window = Window::new(800, 600);
    assert_eq!(window.cursor_grab(), CursorGrabMode::Free);
    assert_eq!(window.set_cursor_grab(CursorGrabMode::Confined, false), CursorGrabMode::Confined);
    assert_eq!(window.cursor_grab(), CursorGrabMode::Confined);
    assert_eq!(window.set_cursor_grab(CursorGrabMode::Free, false), CursorGrabMode::Free);
    assert_eq!(window.cursor_grab(), CursorGrabMode::Free);
    assert_eq!(window.set_cursor_grab(CursorGrabMode::Confined, true), CursorGrabMode::Locked);
    assert_eq!(window.cursor_grab(), CursorGrabMode::Locked);
    assert_eq!(window.set_cursor_grab(CursorGrabMode::Free, true), CursorGrabMode::Locked);
    assert_eq!(window.set_cursor_grab(CursorGrabMode::Locked, false), CursorGrabMode::Locked);
}

#[test]
fn confined_cursor_is_recentred_while_focused() {
    let mut window = Window::new(800, 600);
    assert_eq!(window.update(), None);
    window.set_cursor_grab(CursorGrabMode::Confined, false);
    assert_eq!(window.update(), Some((400, 300)));
    window.set_focus(false);
    assert!(!window.has_focus());
    assert_eq!(window.update(), None);
    window.set_focus(true);
    window.set_cursor_grab(CursorGrabMode::Locked, false);
    assert_eq!(window.update(), None);
}

#[test]
fn texture_setup_binds_configures_uploads_and_unbinds() {
    let texture = Texture::new(6).unwrap();
    let image = Image::new(64, 32, 4);
    let aniso = 4.0f32.to_bits();
    assert_eq!(
        texture.setup(&image, gl::NEAREST, aniso),
        vec![
            GpuCommand::BindTexture(6),
            GpuCommand::ConfigureTexture { mag_filter: 0x2600, anisotropy: 0x4080_0000 },
            GpuCommand::UploadImage { width: 64, height: 32, components: 4, layout: gl::RGBA },
            GpuCommand::GenerateMipmap,
            GpuCommand::BindTexture(0),
        ]
    );
}

fn corner(x: f32, y: f32, z: f32, u: f32, v: f32) -> Vertex {
    Vertex {
        position: [x.to_bits(), y.to_bits(), z.to_bits()],
        tex_coord: [u.to_bits(), v.to_bits()],
        normals: [0, 0, 0],
    }
}

#[test]
fn vertex_data_is_laid_out_vertex_by_vertex() {
    let vertices = vec![corner(-0.5, 0.0, 0.5, 0.0, 0.0), corner(0.5, 0.8, -0.5, 5.0, 2.5)];
    let positions: Vec<f32> =
        get_position_data(&vertices).into_iter().map(f32::from_bits).collect();
    let coords: Vec<f32> =
        get_texture_coord_data(&vertices).into_iter().map(f32::from_bits).collect();
    assert_eq!(positions, vec![-0.5, 0.0, 0.5, 0.5, 0.8, -0.5]);
    assert_eq!(coords, vec![0.0, 0.0, 5.0, 2.5]);
    assert_eq!(get_position_data(&Vec::new()), Vec::<u32>::new());
    assert_eq!(get_texture_coord_data(&Vec::new()), Vec::<u32>::new());
}
