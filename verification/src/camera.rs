//! The free-look camera and the controller that steers it.
//!
//! The controller gathers input between frames. Once per frame
//! [`Controller::update_camera`] hands what it gathered to an integrator,
//! which does the rounding arithmetic, stores the pose that comes back with
//! the pitch kept under a quarter turn, and forgets what was only valid for
//! that frame.

use crate::scalar::{Scalar, Vector3, ONE_BITS};
use vstd::prelude::*;

verus! {

/// The encoding of the largest pitch: a quarter turn less `0.0001` radians.
pub const SAFE_FRAC_PI_2_BITS: u32 = 0x3FC9_0C94;

/// The encoding of `100.0`, the number of pixels one scrolled line counts for.
pub const PIXELS_PER_LINE_BITS: u32 = 0x42C8_0000;

/// Takes the depth range of a perspective projection from `[-1, 1]` to
/// `[0, 1]`: the encodings of
///
/// ```text
/// [1, 0, 0,   0]
/// [0, 1, 0,   0]
/// [0, 0, 0.5, 0]
/// [0, 0, 0.5, 1]
/// ```
///
/// column by column.
pub const OPENGL_TO_WGPU_MATRIX: [[u32; 4]; 4] = [
    [0x3F80_0000, 0, 0, 0],
    [0, 0x3F80_0000, 0, 0],
    [0, 0, 0x3F00_0000, 0],
    [0, 0, 0x3F00_0000, 0x3F80_0000],
];

/// The largest pitch.
pub open spec fn spec_safe_limit() -> Scalar {
    Scalar { bits: SAFE_FRAC_PI_2_BITS }
}

#[verifier::when_used_as_spec(spec_safe_limit)]
pub fn safe_limit() -> (r: Scalar)
    ensures
        r == spec_safe_limit(),
{
    Scalar::from_bits(SAFE_FRAC_PI_2_BITS)
}

/// Whether `pitch` is a number from the negated limit to the limit.
pub open spec fn pitch_in_limits(pitch: Scalar) -> bool {
    !pitch.spec_is_nan() && -spec_safe_limit().rank() <= pitch.rank() <= spec_safe_limit().rank()
}

/// `pitch` brought back into the limits. A NaN is left as it is.
pub open spec fn spec_clamp_pitch(pitch: Scalar) -> Scalar {
    pitch.spec_clamp(spec_safe_limit().spec_neg(), spec_safe_limit())
}

#[verifier::when_used_as_spec(spec_clamp_pitch)]
pub fn clamp_pitch(pitch: Scalar) -> (r: Scalar)
    ensures
        r == spec_clamp_pitch(pitch),
        !pitch.spec_is_nan() ==> pitch_in_limits(r),
        pitch_in_limits(pitch) ==> r == pitch,
        pitch.spec_is_nan() ==> r == pitch,
{
    let limit = safe_limit();
    pitch.clamp(limit.neg(), limit)
}

/// Where the eye is and where it looks.
#[derive(Clone, Copy, Debug, PartialEq, Eq, Structural)]
pub struct Pose {
    pub position: Vector3,
    /// The angle around the vertical axis, in radians.
    pub yaw: Scalar,
    /// The angle around the horizontal axis, in radians.
    pub pitch: Scalar,
}

/// What a [`Camera`] holds.
#[derive(Clone, Copy, Debug, PartialEq, Eq, Structural)]
pub struct CameraView {
    pub position: Vector3,
    pub yaw: Scalar,
    pub pitch: Scalar,
    /// The width of the surface; the aspect ratio is `width / height`.
    pub width: u32,
    /// The height of the surface.
    pub height: u32,
    pub fovy: Scalar,
    pub znear: Scalar,
    pub zfar: Scalar,
}

impl CameraView {
    pub open spec fn pose(self) -> Pose {
        Pose { position: self.position, yaw: self.yaw, pitch: self.pitch }
    }

    /// The camera moved to `pose`, with the pitch brought into the limits.
    pub open spec fn with_pose(self, pose: Pose) -> CameraView {
        CameraView {
            position: pose.position,
            yaw: pose.yaw,
            pitch: spec_clamp_pitch(pose.pitch),
            ..self
        }
    }

    /// The camera on a surface of another size.
    pub open spec fn with_size(self, width: u32, height: u32) -> CameraView {
        CameraView { width, height, ..self }
    }

    /// What the camera is meant to satisfy: the pitch is within the limits,
    /// the aspect ratio is positive, and the near plane lies in front of the
    /// eye and before the far plane.
    pub open spec fn wf(self) -> bool {
        &&& pitch_in_limits(self.pitch)
        &&& self.width > 0
        &&& self.height > 0
        &&& Scalar::spec_zero().spec_lt(self.znear)
        &&& self.znear.spec_lt(self.zfar)
    }
}

/// Whether `matrix` says what `project` returns.
pub open spec fn projects<F: Fn(CameraView) -> [[Scalar; 4]; 4]>(
    project: F,
    matrix: spec_fn(CameraView) -> [[Scalar; 4]; 4],
) -> bool {
    forall|camera: CameraView, view_proj: [[Scalar; 4]; 4]| #[trigger]
        call_ensures(project, (camera,), view_proj) ==> view_proj == matrix(camera)
}

/// The record handed to the shaders: the eye and the view-projection matrix.
#[derive(Clone, Copy, Debug)]
pub struct Raw {
    /// The eye in homogeneous coordinates.
    pub view_position: [Scalar; 4],
    /// The view-projection matrix, column by column.
    pub view_proj: [[Scalar; 4]; 4],
}

impl Raw {
    /// The record for an eye at `position` and a view-projection matrix
    /// `view_proj`, which the caller derives from the camera.
    pub fn new(position: Vector3, view_proj: [[Scalar; 4]; 4]) -> (raw: Raw)
        ensures
            raw.view_position@ == seq![position.x, position.y, position.z, Scalar::spec_one()],
            raw.view_proj == view_proj,
    {
        Raw {
            view_position: [position.x, position.y, position.z, Scalar::from_bits(ONE_BITS)],
            view_proj,
        }
    }
}

/// An eye with a perspective projection.
#[derive(Clone, Copy, Debug)]
pub struct Camera {
    position: Vector3,
    yaw: Scalar,
    pitch: Scalar,
    width: u32,
    height: u32,
    fovy: Scalar,
    znear: Scalar,
    zfar: Scalar,
}

impl View for Camera {
    type V = CameraView;

    closed spec fn view(&self) -> CameraView {
        CameraView {
            position: self.position,
            yaw: self.yaw,
            pitch: self.pitch,
            width: self.width,
            height: self.height,
            fovy: self.fovy,
            znear: self.znear,
            zfar: self.zfar,
        }
    }
}

impl Camera {
    /// A camera with the given pose and projection, on a surface of
    /// `width` by `height`. Nothing is checked or changed: see
    /// [`CameraView::wf`] for what the values are meant to satisfy.
    pub fn new(
        position: Vector3,
        yaw: Scalar,
        pitch: Scalar,
        fovy: Scalar,
        znear: Scalar,
        zfar: Scalar,
        width: u32,
        height: u32,
    ) -> (camera: Camera)
        ensures
            camera@ == (CameraView { position, yaw, pitch, width, height, fovy, znear, zfar }),
    {
        Camera { position, yaw, pitch, width, height, fovy, znear, zfar }
    }

    /// Takes the aspect ratio from a surface of `width` by `height`, and
    /// changes nothing else.
    pub fn resize(&mut self, width: u32, height: u32)
        requires
            height != 0,
        ensures
            final(self)@ == old(self)@.with_size(width, height),
            final(self)@.position == old(self)@.position,
            final(self)@.yaw == old(self)@.yaw,
            final(self)@.pitch == old(self)@.pitch,
            final(self)@.fovy == old(self)@.fovy,
            final(self)@.znear == old(self)@.znear,
            final(self)@.zfar == old(self)@.zfar,
            old(self)@.wf() && width != 0 ==> final(self)@.wf(),
    {
        self.width = width;
        self.height = height;
    }

    /// Everything the camera holds, as one value.
    pub fn parameters(&self) -> (parameters: CameraView)
        ensures
            parameters == self@,
    {
        CameraView {
            position: self.position,
            yaw: self.yaw,
            pitch: self.pitch,
            width: self.width,
            height: self.height,
            fovy: self.fovy,
            znear: self.znear,
            zfar: self.zfar,
        }
    }

    /// The record for the shaders.
    ///
    /// `project` is called once, with everything the camera holds, and
    /// returns the view-projection matrix. The record is that matrix beside
    /// the camera's position; the camera itself is not changed. Where
    /// `project` is a function, of which `matrix` says what it returns, the
    /// record is a function of what the camera holds and of nothing else.
    pub fn to_raw<F: Fn(CameraView) -> [[Scalar; 4]; 4]>(&self, project: F) -> (raw: Raw)
        requires
            call_requires(project, (self@,)),
        ensures
            call_ensures(project, (self@,), raw.view_proj),
            raw.view_position@ == seq![
                self@.position.x,
                self@.position.y,
                self@.position.z,
                Scalar::spec_one(),
            ],
            forall|matrix: spec_fn(CameraView) -> [[Scalar; 4]; 4]|
                projects(project, matrix) ==> raw.view_proj == #[trigger] matrix(self@),
    {
        Raw::new(self.position, project(self.parameters()))
    }

    pub fn pose(&self) -> (pose: Pose)
        ensures
            pose == self@.pose(),
    {
        Pose { position: self.position, yaw: self.yaw, pitch: self.pitch }
    }

    /// Moves the camera to `pose`. The pitch is brought into the limits
    /// first, so afterwards it lies within them unless it is a NaN.
    pub fn set_pose(&mut self, pose: Pose)
        ensures
            final(self)@ == old(self)@.with_pose(pose),
            !pose.pitch.spec_is_nan() ==> pitch_in_limits(final(self)@.pitch),
            !pose.pitch.spec_is_nan() && old(self)@.wf() ==> final(self)@.wf(),
    {
        self.position = pose.position;
        self.yaw = pose.yaw;
        self.pitch = clamp_pitch(pose.pitch);
    }
}

/// A key of the keyboard, as far as the controller tells keys apart.
#[derive(Clone, Copy, Debug, PartialEq, Eq, Structural)]
pub enum Key {
    W,
    A,
    S,
    D,
    Up,
    Down,
    Left,
    Right,
    Space,
    LShift,
    /// Any other key.
    Other,
}

/// Whether a key or a button went down or came up.
#[derive(Clone, Copy, Debug, PartialEq, Eq, Structural)]
pub enum ElementState {
    Pressed,
    Released,
}

/// A way the camera can be pushed.
#[derive(Clone, Copy, Debug, PartialEq, Eq, Structural)]
pub enum Direction {
    Forward,
    Backward,
    Left,
    Right,
    Up,
    Down,
}

/// A turn of the mouse wheel, by its horizontal and vertical part.
#[derive(Clone, Copy, Debug, PartialEq, Eq, Structural)]
pub enum MouseScrollDelta {
    /// Counted in lines.
    LineDelta(Scalar, Scalar),
    /// Counted in pixels.
    PixelDelta(Scalar, Scalar),
}

impl Key {
    /// The direction a key pushes in: two keys each for forward, backward,
    /// left and right, one each for up and down, none for any other key.
    pub open spec fn spec_direction(self) -> Option<Direction> {
        match self {
            Key::W | Key::Up => Some(Direction::Forward),
            Key::S | Key::Down => Some(Direction::Backward),
            Key::A | Key::Left => Some(Direction::Left),
            Key::D | Key::Right => Some(Direction::Right),
            Key::Space => Some(Direction::Up),
            Key::LShift => Some(Direction::Down),
            Key::Other => None,
        }
    }

    #[verifier::when_used_as_spec(spec_direction)]
    pub fn direction(self) -> (r: Option<Direction>)
        ensures
            r == self.spec_direction(),
    {
        match self {
            Key::W | Key::Up => Some(Direction::Forward),
            Key::S | Key::Down => Some(Direction::Backward),
            Key::A | Key::Left => Some(Direction::Left),
            Key::D | Key::Right => Some(Direction::Right),
            Key::Space => Some(Direction::Up),
            Key::LShift => Some(Direction::Down),
            Key::Other => None,
        }
    }
}

impl MouseScrollDelta {
    /// The vertical part of the turn, in its own unit.
    pub open spec fn amount(self) -> Scalar {
        match self {
            MouseScrollDelta::LineDelta(_, lines) => lines,
            MouseScrollDelta::PixelDelta(_, pixels) => pixels,
        }
    }

    /// How many pixels one unit of the turn counts for: a hundred for a
    /// line, one for a pixel.
    pub open spec fn pixels_per_unit(self) -> Scalar {
        match self {
            MouseScrollDelta::LineDelta(_, _) => Scalar { bits: PIXELS_PER_LINE_BITS },
            MouseScrollDelta::PixelDelta(_, _) => Scalar::spec_one(),
        }
    }
}

/// What the controller has gathered for one frame, as the integrator reads
/// it.
#[derive(Clone, Copy, Debug, PartialEq, Eq, Structural)]
pub struct Motion {
    /// The push forward less the push backward: `1.0`, `-1.0` or `0.0`.
    pub forward: Scalar,
    /// The push right less the push left.
    pub right: Scalar,
    /// The push up less the push down.
    pub up: Scalar,
    /// The last turn of the wheel, in units of `scroll_unit` pixels.
    pub scroll: Scalar,
    /// The pixels that one unit of `scroll` counts for.
    pub scroll_unit: Scalar,
    /// The last horizontal move of the mouse, which turns the yaw.
    pub yaw_delta: Scalar,
    /// The last vertical move of the mouse with its sign changed, which
    /// turns the pitch.
    pub pitch_delta: Scalar,
    pub speed: Scalar,
    pub sensitivity: Scalar,
}

/// What a [`Controller`] holds.
pub struct ControllerView {
    pub left: bool,
    pub right: bool,
    pub forward: bool,
    pub backward: bool,
    pub up: bool,
    pub down: bool,
    pub rotate_horizontal: Scalar,
    pub rotate_vertical: Scalar,
    pub scroll: Scalar,
    pub scroll_unit: Scalar,
    pub speed: Scalar,
    pub sensitivity: Scalar,
}

impl ControllerView {
    /// The controller with the push in one direction switched on or off.
    pub open spec fn with_push(self, direction: Direction, on: bool) -> ControllerView {
        match direction {
            Direction::Forward => ControllerView { forward: on, ..self },
            Direction::Backward => ControllerView { backward: on, ..self },
            Direction::Left => ControllerView { left: on, ..self },
            Direction::Right => ControllerView { right: on, ..self },
            Direction::Up => ControllerView { up: on, ..self },
            Direction::Down => ControllerView { down: on, ..self },
        }
    }

    /// The controller after `key` went down or came up: the push of the key
    /// is on or off, and a key that pushes nowhere changes nothing.
    pub open spec fn with_key(self, key: Key, state: ElementState) -> ControllerView {
        match key.spec_direction() {
            Some(direction) => self.with_push(direction, state == ElementState::Pressed),
            None => self,
        }
    }

    /// The controller after the mouse moved by `dx` and `dy`, which take
    /// the place of any move before.
    pub open spec fn with_mouse_move(self, dx: Scalar, dy: Scalar) -> ControllerView {
        ControllerView { rotate_horizontal: dx, rotate_vertical: dy, ..self }
    }

    /// The controller after the wheel was turned by `delta`, whose vertical
    /// part takes the place of any turn before.
    pub open spec fn with_scroll(self, delta: MouseScrollDelta) -> ControllerView {
        ControllerView { scroll: delta.amount(), scroll_unit: delta.pixels_per_unit(), ..self }
    }

    /// The controller once a frame has used up the mouse move and the turn
    /// of the wheel: both are zero again, the pushes stay.
    pub open spec fn at_rest(self) -> ControllerView {
        ControllerView {
            rotate_horizontal: Scalar::spec_zero(),
            rotate_vertical: Scalar::spec_zero(),
            scroll: Scalar::spec_zero(),
            scroll_unit: Scalar::spec_one(),
            ..self
        }
    }

    pub open spec fn motion(self) -> Motion {
        Motion {
            forward: Scalar::spec_difference_of_flags(self.forward, self.backward),
            right: Scalar::spec_difference_of_flags(self.right, self.left),
            up: Scalar::spec_difference_of_flags(self.up, self.down),
            scroll: self.scroll,
            scroll_unit: self.scroll_unit,
            yaw_delta: self.rotate_horizontal,
            pitch_delta: self.rotate_vertical.spec_neg(),
            speed: self.speed,
            sensitivity: self.sensitivity,
        }
    }
}

/// Whether `step` says what `integrate` returns.
pub open spec fn integrates<F: Fn(Motion, Pose, Scalar) -> Pose>(
    integrate: F,
    step: spec_fn(Motion, Pose, Scalar) -> Pose,
) -> bool {
    forall|motion: Motion, pose: Pose, dt: Scalar, moved: Pose| #[trigger]
        call_ensures(integrate, (motion, pose, dt), moved) ==> moved == step(motion, pose, dt)
}

/// Gathers key presses, mouse moves and turns of the wheel between frames.
#[derive(Clone, Copy, Debug)]
pub struct Controller {
    amount_left: bool,
    amount_right: bool,
    amount_forward: bool,
    amount_backward: bool,
    amount_up: bool,
    amount_down: bool,
    rotate_horizontal: Scalar,
    rotate_vertical: Scalar,
    scroll: Scalar,
    scroll_unit: Scalar,
    speed: Scalar,
    sensitivity: Scalar,
}

impl View for Controller {
    type V = ControllerView;

    closed spec fn view(&self) -> ControllerView {
        ControllerView {
            left: self.amount_left,
            right: self.amount_right,
            forward: self.amount_forward,
            backward: self.amount_backward,
            up: self.amount_up,
            down: self.amount_down,
            rotate_horizontal: self.rotate_horizontal,
            rotate_vertical: self.rotate_vertical,
            scroll: self.scroll,
            scroll_unit: self.scroll_unit,
            speed: self.speed,
            sensitivity: self.sensitivity,
        }
    }
}

impl Controller {
    /// A controller on which nothing is pressed, moved or turned.
    pub fn new(speed: Scalar, sensitivity: Scalar) -> (controller: Controller)
        ensures
            controller@ == (ControllerView {
                left: false,
                right: false,
                forward: false,
                backward: false,
                up: false,
                down: false,
                rotate_horizontal: Scalar::spec_zero(),
                rotate_vertical: Scalar::spec_zero(),
                scroll: Scalar::spec_zero(),
                scroll_unit: Scalar::spec_one(),
                speed,
                sensitivity,
            }),
            controller@.at_rest() == controller@,
    {
        Controller {
            amount_left: false,
            amount_right: false,
            amount_forward: false,
            amount_backward: false,
            amount_up: false,
            amount_down: false,
            rotate_horizontal: Scalar::zero(),
            rotate_vertical: Scalar::zero(),
            scroll: Scalar::zero(),
            scroll_unit: Scalar::one(),
            speed,
            sensitivity,
        }
    }

    /// Switches the push of `key` on when it went down and off when it came
    /// up. Returns whether the key pushes in any direction; a key that does
    /// not changes nothing.
    pub fn process_keyboard(&mut self, key: Key, state: ElementState) -> (recognized: bool)
        ensures
            recognized == key.spec_direction().is_some(),
            final(self)@ == old(self)@.with_key(key, state),
    {
        let on = match state {
            ElementState::Pressed => true,
            ElementState::Released => false,
        };
        match key.direction() {
            Some(Direction::Forward) => {
                self.amount_forward = on;
                true
            },
            Some(Direction::Backward) => {
                self.amount_backward = on;
                true
            },
            Some(Direction::Left) => {
                self.amount_left = on;
                true
            },
            Some(Direction::Right) => {
                self.amount_right = on;
                true
            },
            Some(Direction::Up) => {
                self.amount_up = on;
                true
            },
            Some(Direction::Down) => {
                self.amount_down = on;
                true
            },
            None => false,
        }
    }

    /// Takes `dx` and `dy` as the mouse move of this frame, in place of any
    /// move taken before.
    pub fn process_mouse(&mut self, dx: Scalar, dy: Scalar)
        ensures
            final(self)@ == old(self)@.with_mouse_move(dx, dy),
    {
        self.rotate_horizontal = dx;
        self.rotate_vertical = dy;
    }

    /// Takes the vertical part of `delta` as the turn of the wheel of this
    /// frame, in place of any turn taken before, and notes how many pixels
    /// its unit counts for.
    pub fn process_scroll(&mut self, delta: &MouseScrollDelta)
        ensures
            final(self)@ == old(self)@.with_scroll(*delta),
    {
        match delta {
            MouseScrollDelta::LineDelta(_, lines) => {
                self.scroll = *lines;
                self.scroll_unit = Scalar::from_bits(PIXELS_PER_LINE_BITS);
            },
            MouseScrollDelta::PixelDelta(_, pixels) => {
                self.scroll = *pixels;
                self.scroll_unit = Scalar::one();
            },
        }
    }

    /// What has been gathered since the last frame.
    pub fn motion(&self) -> (motion: Motion)
        ensures
            motion == self@.motion(),
    {
        Motion {
            forward: Scalar::difference_of_flags(self.amount_forward, self.amount_backward),
            right: Scalar::difference_of_flags(self.amount_right, self.amount_left),
            up: Scalar::difference_of_flags(self.amount_up, self.amount_down),
            scroll: self.scroll,
            scroll_unit: self.scroll_unit,
            yaw_delta: self.rotate_horizontal,
            pitch_delta: self.rotate_vertical.neg(),
            speed: self.speed,
            sensitivity: self.sensitivity,
        }
    }

    /// Forgets the mouse move and the turn of the wheel.
    pub fn rest(&mut self)
        ensures
            final(self)@ == old(self)@.at_rest(),
            final(self)@.rotate_horizontal == Scalar::spec_zero(),
            final(self)@.rotate_vertical == Scalar::spec_zero(),
            final(self)@.scroll == Scalar::spec_zero(),
    {
        self.rotate_horizontal = Scalar::zero();
        self.rotate_vertical = Scalar::zero();
        self.scroll = Scalar::zero();
        self.scroll_unit = Scalar::one();
    }

    /// Advances `camera` by one frame of `dt` seconds.
    ///
    /// `integrate` is called once, with the motion gathered, the camera's
    /// pose and `dt`, and returns the pose after the frame. The camera takes
    /// that pose with the pitch brought into the limits, whatever the
    /// integrator returned, and the controller forgets the mouse move and
    /// the turn of the wheel, so that neither acts on a second frame. Where
    /// `integrate` is a function, of which `step` says what it returns, the
    /// camera afterwards is [`CameraView::with_pose`] of that pose.
    pub fn update_camera<F: Fn(Motion, Pose, Scalar) -> Pose>(
        &mut self,
        camera: &mut Camera,
        dt: Scalar,
        integrate: F,
    )
        requires
            call_requires(integrate, (old(self)@.motion(), old(camera)@.pose(), dt)),
        ensures
            exists|moved: Pose|
                {
                    &&& #[trigger] call_ensures(
                        integrate,
                        (old(self)@.motion(), old(camera)@.pose(), dt),
                        moved,
                    )
                    &&& final(camera)@ == old(camera)@.with_pose(moved)
                },
            forall|step: spec_fn(Motion, Pose, Scalar) -> Pose|
                integrates(integrate, step) ==> final(camera)@
                    == #[trigger] old(camera)@.with_pose(
                    step(old(self)@.motion(), old(camera)@.pose(), dt),
                ),
            final(camera)@.pitch.spec_is_nan() || pitch_in_limits(final(camera)@.pitch),
            old(camera)@.wf() && !final(camera)@.pitch.spec_is_nan() ==> final(camera)@.wf(),
            final(self)@ == old(self)@.at_rest(),
            final(self)@.rotate_horizontal == Scalar::spec_zero(),
            final(self)@.rotate_vertical == Scalar::spec_zero(),
            final(self)@.scroll == Scalar::spec_zero(),
    {
        let moved = integrate(self.motion(), camera.pose(), dt);
        camera.set_pose(moved);
        self.rest();
    }
}

/// However a camera is moved, a pitch that is a number ends within the
/// limits, and one already within them is kept.
pub proof fn lemma_pitch_clamped(camera: CameraView, pose: Pose)
    requires
        !pose.pitch.spec_is_nan(),
    ensures
        pitch_in_limits(camera.with_pose(pose).pitch),
        pitch_in_limits(pose.pitch) ==> camera.with_pose(pose).pitch == pose.pitch,
{
}

/// A frame leaves nothing of the mouse move or of the turn of the wheel,
/// and a second rest changes nothing more.
pub proof fn lemma_rest_clears(controller: ControllerView)
    ensures
        controller.at_rest().rotate_horizontal == Scalar::spec_zero(),
        controller.at_rest().rotate_vertical == Scalar::spec_zero(),
        controller.at_rest().scroll == Scalar::spec_zero(),
        controller.at_rest().motion().yaw_delta == Scalar::spec_zero(),
        controller.at_rest().motion().pitch_delta.rank() == 0,
        controller.at_rest().at_rest() == controller.at_rest(),
{
}

} // verus!
