//! The phases of a frame.
//!
//! A frame runs its phases in this order: the input is refreshed and the
//! frame's events are dispatched into it; the camera is steered; the
//! projection is brought up to date; the wireframe switch is looked at; the
//! scene is drawn. Each phase here decides and records. What takes the
//! windowing system, the GPU or arithmetic on vectors is told to the caller,
//! who does it before the next phase.

use crate::assets::{complete, known, position, AssetPool};
use crate::components::{Camera, PITCH_LIMIT};
use crate::entities::Bundle;
use crate::input::{
    saturate, state_of, Input, InputView, KeyState, KEY_A, KEY_D, KEY_F5, KEY_S, KEY_W, MOUSE_LEFT,
    MOUSE_RIGHT,
};
use crate::mesh::{draw, Mesh};
use crate::renderer::{polygon_mode, toggle_wireframe, GpuCommand};
use crate::scene::{carries, lemma_matching, matching, ComponentSet, EntityId, SceneStore};
use crate::window::{effective_grab, CursorGrabMode, Window, WindowView};
use vstd::prelude::*;

verus! {

/// How far the camera turns for a mouse movement: millionths of a degree
/// per thousandth of a pixel. A tenth of a degree per pixel.
pub const SENSITIVITY: i64 = 100;

/// The pitch nearest to `pitch` that the camera may take.
pub open spec fn clamp_pitch(pitch: int) -> i64 {
    if pitch > PITCH_LIMIT {
        PITCH_LIMIT
    } else if pitch < -PITCH_LIMIT {
        (-PITCH_LIMIT) as i64
    } else {
        pitch as i64
    }
}

/// The camera after a mouse movement of `delta_xpos` to the right and
/// `delta_ypos` down. A movement that is to be discarded turns nothing.
/// Either way the camera is then past its first movement.
pub open spec fn turned(camera: Camera, delta_xpos: i64, delta_ypos: i64, discard: bool) -> Camera {
    let right: int = if discard {
        0
    } else {
        delta_xpos as int
    };
    let up: int = if discard {
        0
    } else {
        -(delta_ypos as int)
    };
    Camera {
        yaw: saturate(camera.yaw + right * SENSITIVITY),
        pitch: clamp_pitch(camera.pitch + up * SENSITIVITY),
        first_mouse: false,
        ..camera
    }
}

/// The camera after the movements of `samples`, oldest first, none of them
/// discarded but the first where the camera has yet to see one.
pub open spec fn turned_by(camera: Camera, samples: Seq<(i64, i64)>) -> Camera
    decreases samples.len(),
{
    if samples.len() == 0 {
        camera
    } else {
        let earlier = turned_by(camera, samples.drop_last());
        turned(earlier, samples.last().0, samples.last().1, earlier.first_mouse)
    }
}

/// The cursor mode the mouse buttons ask for, if any: the left button
/// captures the cursor, the right button frees it and has the last word.
pub open spec fn grab_asked(input: InputView) -> Option<CursorGrabMode> {
    if state_of(input.buttons, MOUSE_RIGHT) == KeyState::JustPressed {
        Some(CursorGrabMode::Free)
    } else if state_of(input.buttons, MOUSE_LEFT) == KeyState::JustPressed {
        Some(CursorGrabMode::Confined)
    } else {
        None
    }
}

/// The cursor mode after the mouse buttons had their say.
pub open spec fn grab_after(mode: CursorGrabMode, input: InputView, locks_only: bool) -> CursorGrabMode {
    match grab_asked(input) {
        Some(asked) => effective_grab(asked, locks_only),
        None => mode,
    }
}

/// What the caller has to do for one camera entity after the steering
/// phase.
///
/// Where the cursor is captured, first move the position: forward and
/// backward along the camera's front as it was before this frame, left and
/// right along the normalised cross product of front and up, each by the
/// camera speed times the frame's duration, in the order forward, backward,
/// left, right. Then make the direction the unit vector of the camera's yaw
/// and pitch and the front the normalised direction. Captured or not, make
/// the view matrix look from the position along the front.
#[derive(Clone, Copy, Debug, PartialEq, Eq, Structural)]
pub struct CameraMotion {
    pub entity: EntityId,
    pub captured: bool,
    pub forward: bool,
    pub backward: bool,
    pub left: bool,
    pub right: bool,
}

/// What the steering phase decided.
#[derive(Debug)]
pub struct CameraPass {
    /// The cursor mode to hand to the windowing system, if a button asked
    /// for one.
    pub grab: Option<CursorGrabMode>,
    /// One entry for every entity that was steered, oldest entity first.
    pub motions: Vec<CameraMotion>,
}

/// The components an entity needs to be steered.
pub open spec fn steered_set() -> ComponentSet {
    ComponentSet { position: true, rotation: true, scale: false, camera: true, mesh: false }
}

/// The work left to the caller for the entity `entity`.
pub open spec fn motion_of(entity: EntityId, input: InputView, captured: bool) -> CameraMotion {
    CameraMotion {
        entity,
        captured,
        forward: captured && state_of(input.keys, KEY_W) == KeyState::Pressed,
        backward: captured && state_of(input.keys, KEY_S) == KeyState::Pressed,
        left: captured && state_of(input.keys, KEY_A) == KeyState::Pressed,
        right: captured && state_of(input.keys, KEY_D) == KeyState::Pressed,
    }
}

/// One entity after the steering phase: where it can be steered and the
/// cursor is captured, its camera has turned by the mouse movement; the
/// movement is discarded where the camera has yet to see one or the cursor
/// was captured only this frame.
pub open spec fn steered(bundle: Bundle, input: InputView, captured: bool, entering: bool) -> Bundle {
    if carries(bundle, steered_set()) && captured {
        let camera = bundle.camera->0;
        Bundle {
            camera: Some(
                turned(camera, input.delta_xpos, input.delta_ypos, camera.first_mouse || entering),
            ),
            ..bundle
        }
    } else {
        bundle
    }
}

fn turn(camera: &Camera, delta_xpos: i64, delta_ypos: i64, discard: bool) -> (after: Camera)
    ensures
        after == turned(*camera, delta_xpos, delta_ypos, discard),
{
    let right: i128 = if discard {
        0
    } else {
        delta_xpos as i128
    };
    let up: i128 = if discard {
        0
    } else {
        -(delta_ypos as i128)
    };
    let gain: i128 = SENSITIVITY as i128;
    assert(right * gain == right * 100 && up * gain == up * 100) by (nonlinear_arith)
        requires
            gain == 100,
    ;
    let yaw: i128 = camera.yaw as i128 + right * gain;
    let pitch: i128 = camera.pitch as i128 + up * gain;
    let yaw: i64 = if yaw > i64::MAX as i128 {
        i64::MAX
    } else if yaw < i64::MIN as i128 {
        i64::MIN
    } else {
        yaw as i64
    };
    let pitch: i64 = if pitch > PITCH_LIMIT as i128 {
        PITCH_LIMIT
    } else if pitch < -(PITCH_LIMIT as i128) {
        -PITCH_LIMIT
    } else {
        pitch as i64
    };
    Camera {
        front: camera.front,
        up: camera.up,
        yaw,
        pitch,
        first_mouse: false,
        view: camera.view,
        projection: camera.projection,
    }
}

/// The entities the steering phase steers, oldest first.
pub open spec fn steerable(entities: Seq<Bundle>) -> Seq<EntityId> {
    matching(entities, steered_set(), entities.len() as int)
}

/// The cursor mode after the steering phase. Without an entity to steer
/// the buttons are not looked at.
pub open spec fn mode_steered(
    entities: Seq<Bundle>,
    mode: CursorGrabMode,
    input: InputView,
    locks_only: bool,
) -> CursorGrabMode {
    if steerable(entities).len() == 0 {
        mode
    } else {
        grab_after(mode, input, locks_only)
    }
}

/// The cursor mode the steering phase hands to the windowing system, if
/// any.
pub open spec fn grab_due(
    entities: Seq<Bundle>,
    mode: CursorGrabMode,
    input: InputView,
    locks_only: bool,
) -> Option<CursorGrabMode> {
    if steerable(entities).len() == 0 || grab_asked(input) is None {
        None
    } else {
        Some(grab_after(mode, input, locks_only))
    }
}

/// The scene after the steering phase: every entity that can be steered
/// has been, and the others are as they were.
pub open spec fn scene_steered(
    entities: Seq<Bundle>,
    mode: CursorGrabMode,
    input: InputView,
    locks_only: bool,
) -> Seq<Bundle> {
    let captured = mode_steered(entities, mode, input, locks_only) == CursorGrabMode::Confined;
    let entering = captured && mode != CursorGrabMode::Confined;
    entities.map_values(|bundle: Bundle| steered(bundle, input, captured, entering))
}

/// The work the steering phase leaves to the caller, oldest entity first.
pub open spec fn motions_due(
    entities: Seq<Bundle>,
    mode: CursorGrabMode,
    input: InputView,
    locks_only: bool,
) -> Seq<CameraMotion> {
    let captured = mode_steered(entities, mode, input, locks_only) == CursorGrabMode::Confined;
    steerable(entities).map_values(|id: EntityId| motion_of(id, input, captured))
}

/// The steering phase. Lets the mouse buttons capture or free the cursor,
/// then turns every camera that has a position and a direction by the
/// mouse movement, if the cursor is captured. Without such a camera
/// nothing happens at all.
pub fn move_camera(
    store: &mut SceneStore,
    input: &Input,
    window: &mut Window,
    locks_only: bool,
) -> (pass: CameraPass)
    ensures
        final(store)@ == scene_steered(old(store)@, old(window)@.grab_mode, input@, locks_only),
        final(window)@ == (WindowView {
            grab_mode: mode_steered(old(store)@, old(window)@.grab_mode, input@, locks_only),
            ..old(window)@
        }),
        pass.grab == grab_due(old(store)@, old(window)@.grab_mode, input@, locks_only),
        pass.motions@ == motions_due(old(store)@, old(window)@.grab_mode, input@, locks_only),
{
    let set = ComponentSet { position: true, rotation: true, scale: false, camera: true, mesh: false };
    let ids = store.query(&set);
    let count = store.len();
    proof {
        lemma_matching(store@, set, store@.len() as int);
    }
    if ids.len() == 0 {
        proof {
            let mode = old(window)@.grab_mode;
            assert forall|i: int| 0 <= i < store@.len() implies !carries(
                #[trigger] store@[i],
                set,
            ) by {
                if carries(store@[i], set) {
                    assert(ids@.contains(EntityId(i as usize)));
                }
            }
            assert(store@ =~= scene_steered(store@, mode, input@, locks_only));
        }
        return CameraPass { grab: None, motions: Vec::new() };
    }
    let before = window.cursor_grab();
    let mut grab: Option<CursorGrabMode> = None;
    if input.mouse_just_pressed(MOUSE_LEFT) {
        grab = Some(window.set_cursor_grab(CursorGrabMode::Confined, locks_only));
    }
    if input.mouse_just_pressed(MOUSE_RIGHT) {
        grab = Some(window.set_cursor_grab(CursorGrabMode::Free, locks_only));
    }
    let captured = window.cursor_grab() == CursorGrabMode::Confined;
    let entering = captured && before != CursorGrabMode::Confined;
    let forward = captured && input.keyboard_pressed(KEY_W);
    let backward = captured && input.keyboard_pressed(KEY_S);
    let left = captured && input.keyboard_pressed(KEY_A);
    let right = captured && input.keyboard_pressed(KEY_D);
    let mut motions: Vec<CameraMotion> = Vec::new();
    let ghost start = store@;
    let mut k: usize = 0;
    while k < ids.len()
        invariant
            k <= ids.len(),
            set == steered_set(),
            ids@ == matching(start, set, start.len() as int),
            start.len() == count,
            store@.len() == start.len(),
            forall|i: int|
                0 <= i < start.len() ==> #[trigger] store@[i] == if exists|j: int|
                    0 <= j < k && ids@[j].0 == i {
                    steered(start[i], input@, captured, entering)
                } else {
                    start[i]
                },
            forall|m: int|
                0 <= m < ids@.len() ==> {
                    let id = (#[trigger] ids@[m]).0;
                    id < start.len() && carries(start[id as int], set)
                },
            forall|a: int, b: int|
                0 <= a < b < ids@.len() ==> (#[trigger] ids@[a]).0 < (#[trigger] ids@[b]).0,
            motions@.len() == k,
            forall|m: int| 0 <= m < k ==> #[trigger] motions@[m] == motion_of(ids@[m], input@, captured),
            forward == (captured && state_of(input@.keys, KEY_W) == KeyState::Pressed),
            backward == (captured && state_of(input@.keys, KEY_S) == KeyState::Pressed),
            left == (captured && state_of(input@.keys, KEY_A) == KeyState::Pressed),
            right == (captured && state_of(input@.keys, KEY_D) == KeyState::Pressed),
        decreases ids.len() - k,
    {
        let id = ids[k];
        let ghost seen = store@;
        assert(seen[id.0 as int] == start[id.0 as int]) by {
            if exists|j: int| 0 <= j < k && ids@[j].0 == id.0 {
                let j = choose|j: int| 0 <= j < k && ids@[j].0 == id.0;
                assert(ids@[j].0 < ids@[k as int].0);
            }
        }
        if captured {
            let camera = match store.get(id) {
                Some(bundle) => bundle.camera,
                None => None,
            };
            match camera {
                Some(camera) => {
                    let discard = camera.first_mouse || entering;
                    let after = turn(&camera, input.delta_xpos(), input.delta_ypos(), discard);
                    store.set_camera(id, after);
                },
                None => {},
            }
        }
        motions.push(CameraMotion { entity: id, captured, forward, backward, left, right });
        proof {
            assert forall|i: int| 0 <= i < start.len() implies #[trigger] store@[i] == if exists|
                j: int,
            |
                0 <= j < k + 1 && ids@[j].0 == i {
                steered(start[i], input@, captured, entering)
            } else {
                start[i]
            } by {
                if i == id.0 {
                    assert(ids@[k as int].0 == i);
                } else {
                    assert(store@[i] == seen[i]);
                    if exists|j: int| 0 <= j < k + 1 && ids@[j].0 == i {
                        let j = choose|j: int| 0 <= j < k + 1 && ids@[j].0 == i;
                        assert(j < k);
                    }
                }
            }
        }
        k += 1;
    }
    proof {
        let goal = start.map_values(|bundle: Bundle| steered(bundle, input@, captured, entering));
        assert forall|i: int| 0 <= i < start.len() implies store@[i] == goal[i] by {
            if carries(start[i], set) {
                assert(ids@.contains(EntityId(i as usize)));
                let j = choose|j: int| 0 <= j < ids@.len() && ids@[j] == EntityId(i as usize);
                assert(ids@[j].0 == i);
            } else {
                if exists|j: int| 0 <= j < k && ids@[j].0 == i {
                    let j = choose|j: int| 0 <= j < k && ids@[j].0 == i;
                    assert(carries(start[ids@[j].0 as int], set));
                }
            }
        }
        assert(store@ =~= goal);
        assert(motions@ =~= ids@.map_values(|id: EntityId| motion_of(id, input@, captured)));
    }
    CameraPass { grab, motions }
}

/// Whatever the mouse does, the pitch ends within its limit.
pub proof fn lemma_pitch_is_clamped(camera: Camera, delta_xpos: i64, delta_ypos: i64, discard: bool)
    ensures
        turned(camera, delta_xpos, delta_ypos, discard).pitch_in_range(),
{
}

/// After any run of mouse movements the pitch is within its limit: after
/// none, if it was before; after one or more, in any case.
pub proof fn lemma_pitch_stays_clamped(camera: Camera, samples: Seq<(i64, i64)>)
    requires
        camera.pitch_in_range() || samples.len() > 0,
    ensures
        turned_by(camera, samples).pitch_in_range(),
    decreases samples.len(),
{
    if samples.len() > 0 {
        let earlier = turned_by(camera, samples.drop_last());
        lemma_pitch_is_clamped(earlier, samples.last().0, samples.last().1, earlier.first_mouse);
    }
}

/// A discarded movement turns nothing, however large it is: the yaw stays,
/// and so does a pitch that was within its limit.
pub proof fn lemma_discarded_sample_turns_nothing(camera: Camera, delta_xpos: i64, delta_ypos: i64)
    ensures
        turned(camera, delta_xpos, delta_ypos, true).yaw == camera.yaw,
        camera.pitch_in_range() ==> turned(camera, delta_xpos, delta_ypos, true).pitch
            == camera.pitch,
        turned(camera, delta_xpos, delta_ypos, true) == turned(camera, 0, 0, true),
{
}

/// The first movement a camera sees while the cursor is captured turns
/// nothing, and neither does the movement of the frame in which the cursor
/// was captured.
pub proof fn lemma_first_sample_is_discarded(
    bundle: Bundle,
    input: InputView,
    entering: bool,
)
    requires
        carries(bundle, steered_set()),
        bundle.camera->0.first_mouse || entering,
    ensures
        steered(bundle, input, true, entering).camera->0.yaw == bundle.camera->0.yaw,
        bundle.camera->0.pitch_in_range() ==> steered(bundle, input, true, entering).camera->0.pitch
            == bundle.camera->0.pitch,
        !steered(bundle, input, true, entering).camera->0.first_mouse,
{
}

/// The wireframe phase. On the frame in which the switch key goes down,
/// flips the flag and returns the command that puts the new polygon mode in
/// force, to be run at once. On any other frame does nothing.
pub fn update_wireframe(input: &Input, is_wireframe: &mut bool) -> (command: Option<GpuCommand>)
    ensures
        state_of(input@.keys, KEY_F5) == KeyState::JustPressed ==> *final(is_wireframe) == !*old(is_wireframe) && command == Some(GpuCommand::SetPolygonMode(polygon_mode(!*old(is_wireframe)))),
        state_of(input@.keys, KEY_F5) != KeyState::JustPressed ==> *final(is_wireframe) == *old(is_wireframe) && command == None::<GpuCommand>,
{
    if input.keyboard_just_pressed(KEY_F5) {
        Some(toggle_wireframe(is_wireframe))
    } else {
        None
    }
}

/// What a projection matrix is computed from: the size of the drawing
/// surface and the field of view, the latter as the bits of the number the
/// settings hold.
#[derive(Clone, Copy, Debug, PartialEq, Eq, Structural)]
pub struct ProjectionInputs {
    pub width: u32,
    pub height: u32,
    pub fov: u32,
}

/// Whether two surfaces have the same shape: the same size, or, where both
/// have a height, the same width for the same height.
pub open spec fn same_aspect(a: ProjectionInputs, b: ProjectionInputs) -> bool {
    ||| a.width == b.width && a.height == b.height
    ||| a.height != 0 && b.height != 0 && a.width * b.height == b.width * a.height
}

/// Whether a projection computed from `seen` is out of date for `current`.
pub open spec fn projection_due(seen: Option<ProjectionInputs>, current: ProjectionInputs) -> bool {
    match seen {
        None => true,
        Some(seen) => seen.fov != current.fov || !same_aspect(seen, current),
    }
}

/// What is remembered after the projection phase has looked at `current`.
pub open spec fn gate_after(seen: Option<ProjectionInputs>, current: ProjectionInputs) -> Option<
    ProjectionInputs,
> {
    if projection_due(seen, current) {
        Some(current)
    } else {
        seen
    }
}

/// Remembers what the projection matrices were last computed from.
#[derive(Clone, Copy, Debug)]
pub struct ProjectionGate {
    seen: Option<ProjectionInputs>,
}

/// The components an entity needs to have a projection.
pub open spec fn camera_set() -> ComponentSet {
    ComponentSet { position: false, rotation: false, scale: false, camera: true, mesh: false }
}

impl ProjectionGate {
    /// What the projection matrices were last computed from, if they ever
    /// were.
    pub closed spec fn seen(&self) -> Option<ProjectionInputs> {
        self.seen
    }

    /// A gate that has seen nothing: the first update is due.
    pub fn new() -> (gate: ProjectionGate)
        ensures
            gate.seen() == None::<ProjectionInputs>,
    {
        ProjectionGate { seen: None }
    }
}

/// The projection phase. Where the shape of the surface or the field of
/// view differs from what the projection matrices were last computed from,
/// remembers the new values and returns every entity with a camera: the
/// caller computes the matrix anew and sets it on each. Otherwise changes
/// nothing and returns no entity, so that every matrix stays as it is.
pub fn update_projection(
    gate: &mut ProjectionGate,
    store: &SceneStore,
    current: ProjectionInputs,
) -> (stale: Vec<EntityId>)
    ensures
        final(gate).seen() == gate_after(old(gate).seen(), current),
        projection_due(old(gate).seen(), current) ==> stale@ == matching(
            store@,
            camera_set(),
            store@.len() as int,
        ),
        !projection_due(old(gate).seen(), current) ==> stale@ == Seq::<EntityId>::empty(),
{
    let due = match gate.seen {
        None => true,
        Some(seen) => {
            let same_size = seen.width == current.width && seen.height == current.height;
            assert(seen.width * current.height <= 0xffff_ffff * 0xffff_ffff && current.width
                * seen.height <= 0xffff_ffff * 0xffff_ffff) by (nonlinear_arith)
                requires
                    0 <= seen.width <= 0xffff_ffff,
                    0 <= seen.height <= 0xffff_ffff,
                    0 <= current.width <= 0xffff_ffff,
                    0 <= current.height <= 0xffff_ffff,
            ;
            let same_shape = seen.height != 0 && current.height != 0 && seen.width as u64
                * current.height as u64 == current.width as u64 * seen.height as u64;
            seen.fov != current.fov || !(same_size || same_shape)
        },
    };
    if due {
        gate.seen = Some(current);
        store.query(
            &ComponentSet { position: false, rotation: false, scale: false, camera: true, mesh: false },
        )
    } else {
        Vec::new()
    }
}

/// Run twice in a row on the same surface and settings, the projection
/// phase finds nothing to do the second time.
pub proof fn lemma_projection_is_idempotent(seen: Option<ProjectionInputs>, current: ProjectionInputs)
    ensures
        !projection_due(gate_after(seen, current), current),
        gate_after(gate_after(seen, current), current) == gate_after(seen, current),
{
}

/// Why a scene could not be drawn.
#[derive(Clone, Copy, Debug, PartialEq, Eq, Structural)]
pub enum RenderError {
    /// No entity has a camera.
    MissingCamera,
    /// More than one entity has a camera.
    AmbiguousCamera,
    /// A mesh names a material that is not loaded.
    UnresolvedMaterial,
    /// A mesh names a material without a texture.
    UntexturedMaterial,
}

/// The components an entity needs to be drawn.
pub open spec fn mesh_set() -> ComponentSet {
    ComponentSet { position: false, rotation: false, scale: false, camera: false, mesh: true }
}

/// The commands that draw one mesh: use the program, upload the camera's
/// matrix, bind the texture, draw, and unbind texture and program again.
pub open spec fn mesh_pass(program: u32, texture: u32, camera: usize, vao: u32, count: i32) -> Seq<
    GpuCommand,
> {
    seq![
        GpuCommand::UseProgram(program),
        GpuCommand::UploadCameraMatrix { program, camera },
        GpuCommand::BindTexture(texture),
    ] + draw(vao, count) + seq![GpuCommand::BindTexture(0), GpuCommand::UseProgram(0)]
}

/// The commands that draw `mesh` as seen by the camera of entity `camera`,
/// with the shader and the first texture of the mesh's material.
pub open spec fn mesh_drawn(mesh: Mesh, assets: AssetPool, camera: usize) -> Result<
    Seq<GpuCommand>,
    RenderError,
> {
    let materials = assets.materials();
    if !known(materials, mesh.material_name()) {
        Err(RenderError::UnresolvedMaterial)
    } else {
        let material = materials[position(materials, mesh.material_name())].asset@;
        if !known(assets.shaders(), material.shader) {
            Err(RenderError::UnresolvedMaterial)
        } else if material.textures.len() == 0 {
            Err(RenderError::UntexturedMaterial)
        } else if !known(assets.textures(), material.textures[0].0) {
            Err(RenderError::UnresolvedMaterial)
        } else {
            let shader = assets.shaders()[position(assets.shaders(), material.shader)].asset;
            let texture = assets.textures()[position(
                assets.textures(),
                material.textures[0].0,
            )].asset;
            Ok(
                mesh_pass(
                    shader.name(),
                    texture.name(),
                    camera,
                    mesh.vertex_array(),
                    mesh.index_count(),
                ),
            )
        }
    }
}

/// The commands that draw the meshes of the first `upto` entities of
/// `ids`, in that order; the first mesh that cannot be drawn fails the lot.
pub open spec fn meshes_drawn(
    entities: Seq<Bundle>,
    assets: AssetPool,
    camera: usize,
    ids: Seq<EntityId>,
    upto: int,
) -> Result<Seq<GpuCommand>, RenderError>
    decreases upto,
{
    if upto <= 0 {
        Ok(Seq::empty())
    } else {
        match meshes_drawn(entities, assets, camera, ids, upto - 1) {
            Err(error) => Err(error),
            Ok(before) => match mesh_drawn(
                entities[ids[upto - 1].0 as int].mesh->0,
                assets,
                camera,
            ) {
                Err(error) => Err(error),
                Ok(more) => Ok(before + more),
            },
        }
    }
}

/// The commands that draw the scene: every mesh, oldest entity first, as
/// seen by the one camera. A scene without a camera, or with several, is
/// not drawn.
pub open spec fn scene_drawn(entities: Seq<Bundle>, assets: AssetPool) -> Result<
    Seq<GpuCommand>,
    RenderError,
> {
    let cameras = matching(entities, camera_set(), entities.len() as int);
    let meshes = matching(entities, mesh_set(), entities.len() as int);
    if cameras.len() == 0 {
        Err(RenderError::MissingCamera)
    } else if cameras.len() > 1 {
        Err(RenderError::AmbiguousCamera)
    } else {
        meshes_drawn(entities, assets, cameras[0].0, meshes, meshes.len() as int)
    }
}

fn draw_mesh(mesh: &Mesh, assets: &AssetPool, camera: usize) -> (drawn: Result<
    Vec<GpuCommand>,
    RenderError,
>)
    requires
        assets.wf(),
    ensures
        match drawn {
            Ok(commands) => mesh_drawn(*mesh, *assets, camera) == Ok::<Seq<GpuCommand>, RenderError>(
                commands@,
            ),
            Err(error) => mesh_drawn(*mesh, *assets, camera) == Err::<Seq<GpuCommand>, RenderError>(
                error,
            ),
        },
{
    let material = match assets.get_material(mesh.material().as_str()) {
        Some(material) => material,
        None => {
            return Err(RenderError::UnresolvedMaterial);
        },
    };
    let shader = match assets.get_shader(material.shader.as_str()) {
        Some(shader) => shader,
        None => {
            return Err(RenderError::UnresolvedMaterial);
        },
    };
    if material.textures.len() == 0 {
        return Err(RenderError::UntexturedMaterial);
    }
    assert(material@.textures[0].0 == material.textures@[0].0@);
    let texture = match assets.get_texture(material.textures[0].0.as_str()) {
        Some(texture) => texture,
        None => {
            return Err(RenderError::UnresolvedMaterial);
        },
    };
    let mut commands = vec![
        shader.bind(),
        GpuCommand::UploadCameraMatrix { program: shader.program(), camera },
        texture.bind(),
    ];
    let mut body = mesh.render();
    commands.append(&mut body);
    commands.push(texture.unbind());
    commands.push(shader.unbind());
    assert(commands@ =~= mesh_pass(
        shader.name(),
        texture.name(),
        camera,
        mesh.vertex_array(),
        mesh.index_count(),
    ));
    Ok(commands)
}

/// The drawing phase. Returns the commands that draw every mesh of the
/// scene as seen by its one camera, or says why the scene cannot be drawn;
/// there is no drawing a part of it.
pub fn render_scene(store: &SceneStore, assets: &AssetPool) -> (rendered: Result<
    Vec<GpuCommand>,
    RenderError,
>)
    requires
        assets.wf(),
    ensures
        match rendered {
            Ok(commands) => scene_drawn(store@, *assets) == Ok::<Seq<GpuCommand>, RenderError>(
                commands@,
            ),
            Err(error) => scene_drawn(store@, *assets) == Err::<Seq<GpuCommand>, RenderError>(error),
        },
{
    let cameras = store.query(
        &ComponentSet { position: false, rotation: false, scale: false, camera: true, mesh: false },
    );
    if cameras.len() == 0 {
        return Err(RenderError::MissingCamera);
    }
    if cameras.len() > 1 {
        return Err(RenderError::AmbiguousCamera);
    }
    let camera = cameras[0].0;
    let meshes = store.query(
        &ComponentSet { position: false, rotation: false, scale: false, camera: false, mesh: true },
    );
    let count = store.len();
    proof {
        lemma_matching(store@, mesh_set(), store@.len() as int);
    }
    let mut commands: Vec<GpuCommand> = Vec::new();
    let mut k: usize = 0;
    while k < meshes.len()
        invariant
            k <= meshes.len(),
            assets.wf(),
            cameras@ == matching(store@, camera_set(), store@.len() as int),
            cameras@.len() == 1,
            camera == cameras@[0].0,
            meshes@ == matching(store@, mesh_set(), store@.len() as int),
            forall|m: int|
                0 <= m < meshes@.len() ==> {
                    let id = (#[trigger] meshes@[m]).0;
                    id < store@.len() && carries(store@[id as int], mesh_set())
                },
            meshes_drawn(store@, *assets, camera, meshes@, k as int) == Ok::<
                Seq<GpuCommand>,
                RenderError,
            >(commands@),
        decreases meshes.len() - k,
    {
        let id = meshes[k];
        let mesh = match store.get(id) {
            Some(bundle) => match &bundle.mesh {
                Some(mesh) => mesh,
                None => {
                    assert(false);
                    return Err(RenderError::UnresolvedMaterial);
                },
            },
            None => {
                assert(false);
                return Err(RenderError::UnresolvedMaterial);
            },
        };
        match draw_mesh(mesh, assets, camera) {
            Ok(more) => {
                let mut more = more;
                commands.append(&mut more);
            },
            Err(error) => {
                proof {
                    assert(store@[meshes@[k as int].0 as int].mesh->0 == *mesh);
                    assert(meshes_drawn(store@, *assets, camera, meshes@, k + 1) == Err::<
                        Seq<GpuCommand>,
                        RenderError,
                    >(error));
                    lemma_failure_is_final(
                        store@,
                        *assets,
                        camera,
                        meshes@,
                        k + 1,
                        meshes@.len() as int,
                    );
                }
                return Err(error);
            },
        }
        k += 1;
    }
    Ok(commands)
}

/// Once a mesh has failed, the scene has: drawing further meshes does not
/// mend it.
pub proof fn lemma_failure_is_final(
    entities: Seq<Bundle>,
    assets: AssetPool,
    camera: usize,
    ids: Seq<EntityId>,
    failed: int,
    upto: int,
)
    requires
        0 <= failed <= upto,
        meshes_drawn(entities, assets, camera, ids, failed) is Err,
    ensures
        meshes_drawn(entities, assets, camera, ids, upto) == meshes_drawn(
            entities,
            assets,
            camera,
            ids,
            failed,
        ),
    decreases upto - failed,
{
    if failed < upto {
        lemma_failure_is_final(entities, assets, camera, ids, failed, upto - 1);
    }
}

/// Everything the phases of a frame work on.
#[derive(Debug)]
pub struct FrameContext {
    pub store: SceneStore,
    pub assets: AssetPool,
    pub input: Input,
    pub window: Window,
    pub gate: ProjectionGate,
    /// Whether polygons are drawn as outlines.
    pub is_wireframe: bool,
    /// The field of view, as the bits of the number the settings hold.
    pub fov: u32,
}

/// What the phases of one frame decided, in the order the caller acts on
/// it: steer the cameras, recompute the stale projections, switch the
/// polygon mode, run the drawing commands.
#[derive(Debug)]
pub struct Frame {
    pub pass: CameraPass,
    pub stale: Vec<EntityId>,
    pub wireframe: Option<GpuCommand>,
    pub drawn: Result<Vec<GpuCommand>, RenderError>,
}

/// What the projection phase of this frame works from.
pub open spec fn projection_inputs(window: WindowView, fov: u32) -> ProjectionInputs {
    ProjectionInputs { width: window.width, height: window.height, fov }
}

/// Runs the phases of a frame that follow the dispatch of its events:
/// steering, projection, wireframe, drawing, each on what the one before
/// left. The input and the assets are read, not changed.
pub fn run_frame(context: &mut FrameContext, locks_only: bool) -> (frame: Frame)
    requires
        old(context).assets.wf(),
    ensures
        final(context).assets == old(context).assets,
        final(context).input == old(context).input,
        final(context).fov == old(context).fov,
        final(context).store@ == scene_steered(
            old(context).store@,
            old(context).window@.grab_mode,
            old(context).input@,
            locks_only,
        ),
        final(context).window@ == (WindowView {
            grab_mode: mode_steered(
                old(context).store@,
                old(context).window@.grab_mode,
                old(context).input@,
                locks_only,
            ),
            ..old(context).window@
        }),
        frame.pass.grab == grab_due(
            old(context).store@,
            old(context).window@.grab_mode,
            old(context).input@,
            locks_only,
        ),
        frame.pass.motions@ == motions_due(
            old(context).store@,
            old(context).window@.grab_mode,
            old(context).input@,
            locks_only,
        ),
        final(context).gate.seen() == gate_after(
            old(context).gate.seen(),
            projection_inputs(old(context).window@, old(context).fov),
        ),
        frame.stale@ == if projection_due(
            old(context).gate.seen(),
            projection_inputs(old(context).window@, old(context).fov),
        ) {
            matching(final(context).store@, camera_set(), final(context).store@.len() as int)
        } else {
            Seq::empty()
        },
        state_of(old(context).input@.keys, KEY_F5) == KeyState::JustPressed ==> final(context).is_wireframe == !old(context).is_wireframe && frame.wireframe == Some(
            GpuCommand::SetPolygonMode(polygon_mode(!old(context).is_wireframe)),
        ),
        state_of(old(context).input@.keys, KEY_F5) != KeyState::JustPressed ==> final(context).is_wireframe == old(context).is_wireframe && frame.wireframe == None::<GpuCommand>,
        match frame.drawn {
            Ok(commands) => scene_drawn(final(context).store@, old(context).assets) == Ok::<
                Seq<GpuCommand>,
                RenderError,
            >(commands@),
            Err(error) => scene_drawn(final(context).store@, old(context).assets) == Err::<
                Seq<GpuCommand>,
                RenderError,
            >(error),
        },
{
    let pass = move_camera(&mut context.store, &context.input, &mut context.window, locks_only);
    let current = ProjectionInputs {
        width: context.window.width(),
        height: context.window.height(),
        fov: context.fov,
    };
    let stale = update_projection(&mut context.gate, &context.store, current);
    let wireframe = update_wireframe(&context.input, &mut context.is_wireframe);
    let drawn = render_scene(&context.store, &context.assets);
    Frame { pass, stale, wireframe, drawn }
}

/// Steering leaves every projection matrix as it is: only the caller's
/// recomputation, asked for by the projection phase, replaces one.
pub proof fn lemma_steering_keeps_projection(
    bundle: Bundle,
    input: InputView,
    captured: bool,
    entering: bool,
)
    requires
        bundle.camera is Some,
    ensures
        steered(bundle, input, captured, entering).camera is Some,
        steered(bundle, input, captured, entering).camera->0.projection
            == bundle.camera->0.projection,
{
}

/// A mesh whose material is loaded can be drawn, if only the material has
/// a texture: in a pool, what a loaded material names is loaded too.
pub proof fn lemma_loaded_material_draws(mesh: Mesh, assets: AssetPool, camera: usize)
    requires
        assets.wf(),
        known(assets.materials(), mesh.material_name()),
    ensures
        mesh_drawn(mesh, assets, camera) is Ok || mesh_drawn(mesh, assets, camera) == Err::<
            Seq<GpuCommand>,
            RenderError,
        >(RenderError::UntexturedMaterial),
        mesh_drawn(mesh, assets, camera) is Ok <==> assets.materials()[position(
            assets.materials(),
            mesh.material_name(),
        )].asset@.textures.len() > 0,
{
    let materials = assets.materials();
    let i = position(materials, mesh.material_name());
    let material = materials[i].asset@;
    assert(complete(material, assets.textures(), assets.shaders()));
    if material.textures.len() > 0 {
        assert(known(assets.textures(), material.textures[0].0));
    }
}

} // verus!
