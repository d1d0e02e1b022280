use cgmath::{InnerSpace, Matrix4, Point3, Rad, Vector3 as Vec3};
use scene_core::camera::{
    clamp_pitch, safe_limit, Camera, CameraView, Controller, Direction, ElementState, Key, Motion,
    MouseScrollDelta, Pose, Raw, OPENGL_TO_WGPU_MATRIX, PIXELS_PER_LINE_BITS, SAFE_FRAC_PI_2_BITS,
};
use scene_core::scalar::{Scalar, Vector3};

const SAFE_FRAC_PI_2: f32 = std::f32::consts::FRAC_PI_2 - 0.0001;

fn scalar(value: f32) -> Scalar {
    Scalar::from_bits(value.to_bits())
}

fn number(value: Scalar) -> f32 {
    f32::from_bits(value.to_bits())
}

fn vector(x: f32, y: f32, z: f32) -> Vector3 {
    Vector3 { x: scalar(x), y: scalar(y), z: scalar(z) }
}

fn numbers(vector: Vector3) -> (f32, f32, f32) {
    (number(vector.x), number(vector.y), number(vector.z))
}

fn camera_at(position: Vector3, yaw: f32, pitch: f32) -> Camera {
    Camera::new(position, scalar(yaw), scalar(pitch), scalar(0.785), scalar(0.1), scalar(100.0), 800, 600)
}

/// One frame of motion, in rounding arithmetic.
fn integrate(motion: Motion, pose: Pose, dt: Scalar) -> Pose {
    let dt = number(dt);
    let speed = number(motion.speed);
    let sensitivity = number(motion.sensitivity);
    let mut position = Vec3::new(number(pose.position.x), number(pose.position.y), number(pose.position.z));
    let (yaw_sin, yaw_cos) = number(pose.yaw).sin_cos();
    let forward = Vec3::new(yaw_cos, 0.0, yaw_sin).normalize();
    let right = Vec3::new(-yaw_sin, 0.0, yaw_cos).normalize();
    position += forward * number(motion.forward) * speed * dt;
    position += right * number(motion.right) * speed * dt;
    let (pitch_sin, pitch_cos) = number(pose.pitch).sin_cos();
    let scrollward = Vec3::new(pitch_cos * yaw_cos, pitch_sin, pitch_cos * yaw_sin).normalize();
    let scroll = number(motion.scroll) * number(motion.scroll_unit);
    position += scrollward * scroll * speed * sensitivity * dt;
    position.y += number(motion.up) * speed * dt;
    let yaw = number(pose.yaw) + number(motion.yaw_delta) * sensitivity * dt;
    let pitch = number(pose.pitch) + number(motion.pitch_delta) * sensitivity * dt;
    Pose { position: vector(position.x, position.y, position.z), yaw: scalar(yaw), pitch: scalar(pitch) }
}

#[test]
fn safe_limit_is_a_quarter_turn_less_a_little() {
    assert_eq!(SAFE_FRAC_PI_2_BITS, SAFE_FRAC_PI_2.to_bits());
    assert_eq!(safe_limit().to_bits(), SAFE_FRAC_PI_2.to_bits());
    assert!(number(safe_limit()) < std::f32::consts::FRAC_PI_2);
}

#[test]
fn pixels_per_line_is_a_hundred() {
    assert_eq!(PIXELS_PER_LINE_BITS, 100.0f32.to_bits());
}

#[test]
fn depth_correction_matrix_is_exact() {
    let expected: [[f32; 4]; 4] = [
        [1.0, 0.0, 0.0, 0.0],
        [0.0, 1.0, 0.0, 0.0],
        [0.0, 0.0, 0.5, 0.0],
        [0.0, 0.0, 0.5, 1.0],
    ];
    for column in 0..4 {
        for row in 0..4 {
            assert_eq!(OPENGL_TO_WGPU_MATRIX[column][row], expected[column][row].to_bits());
        }
    }
}

#[test]
fn clamp_pitch_agrees_with_the_comparisons() {
    for pitch in [0.0f32, -0.0, 0.3, -0.3, 1.57, -1.57, 1.5706964, 1.5707, 1.5707964, -1.5708, 2.0, -2.0, 1.0e30, -1.0e30, f32::INFINITY, f32::NEG_INFINITY] {
        let expected = if pitch < -SAFE_FRAC_PI_2 {
            -SAFE_FRAC_PI_2
        } else if pitch > SAFE_FRAC_PI_2 {
            SAFE_FRAC_PI_2
        } else {
            pitch
        };
        assert_eq!(clamp_pitch(scalar(pitch)).to_bits(), expected.to_bits(), "{pitch:?}");
    }
}

#[test]
fn clamp_pitch_leaves_a_nan_alone() {
    assert!(number(clamp_pitch(scalar(f32::NAN))).is_nan());
    assert_eq!(clamp_pitch(scalar(f32::NAN)), scalar(f32::NAN));
}

#[test]
fn new_camera_keeps_what_it_was_given() {
    let camera = Camera::new(vector(0.0, 5.0, 10.0), scalar(-1.5), scalar(-0.35), scalar(0.785), scalar(0.1), scalar(100.0), 1280, 720);
    assert_eq!(camera.pose().position, vector(0.0, 5.0, 10.0));
    assert_eq!(camera.parameters().yaw, scalar(-1.5));
    assert_eq!(camera.parameters().pitch, scalar(-0.35));
    assert_eq!(camera.parameters().fovy, scalar(0.785));
    assert_eq!(camera.parameters().znear, scalar(0.1));
    assert_eq!(camera.parameters().zfar, scalar(100.0));
    assert_eq!(camera.parameters().width, 1280);
    assert_eq!(camera.parameters().height, 720);
}

#[test]
fn new_camera_does_not_clamp() {
    let camera = camera_at(vector(0.0, 0.0, 0.0), 0.0, 3.0);
    assert_eq!(camera.parameters().pitch, scalar(3.0));
}

#[test]
fn resize_changes_the_aspect_only() {
    let mut camera = Camera::new(vector(1.0, 2.0, 3.0), scalar(0.25), scalar(-0.5), scalar(0.785), scalar(0.1), scalar(100.0), 800, 600);
    camera.resize(1920, 1080);
    assert_eq!(camera.parameters().width, 1920);
    assert_eq!(camera.parameters().height, 1080);
    assert_eq!(camera.parameters().width as f32 / camera.parameters().height as f32, 1920.0 / 1080.0);
    assert_eq!(camera.pose().position, vector(1.0, 2.0, 3.0));
    assert_eq!(camera.parameters().yaw, scalar(0.25));
    assert_eq!(camera.parameters().pitch, scalar(-0.5));
    assert_eq!(camera.parameters().fovy, scalar(0.785));
    assert_eq!(camera.parameters().znear, scalar(0.1));
    assert_eq!(camera.parameters().zfar, scalar(100.0));
}

/// The view-projection matrix, in rounding arithmetic.
fn project(camera: CameraView) -> [[Scalar; 4]; 4] {
    let correction = Matrix4::from(OPENGL_TO_WGPU_MATRIX.map(|column| column.map(f32::from_bits)));
    let aspect = camera.width as f32 / camera.height as f32;
    let perspective = correction
        * cgmath::perspective(Rad(number(camera.fovy)), aspect, number(camera.znear), number(camera.zfar));
    let (x, y, z) = numbers(camera.position);
    let direction = Vec3::new(number(camera.yaw).cos(), number(camera.pitch).sin(), number(camera.yaw).sin());
    let orientation = Matrix4::look_to_rh(Point3::new(x, y, z), direction.normalize(), Vec3::unit_y());
    let matrix: [[f32; 4]; 4] = (perspective * orientation).into();
    matrix.map(|column| column.map(scalar))
}

#[test]
fn to_raw_puts_the_eye_in_homogeneous_coordinates() {
    let camera = camera_at(vector(1.5, -2.0, 3.25), 0.0, 0.0);
    let mut matrix = [[scalar(0.0); 4]; 4];
    matrix[2][3] = scalar(7.0);
    let raw = camera.to_raw(|_: CameraView| matrix);
    assert_eq!(raw.view_position, [scalar(1.5), scalar(-2.0), scalar(3.25), scalar(1.0)]);
    assert_eq!(raw.view_proj, matrix);
}

#[test]
fn to_raw_hands_the_projector_what_the_camera_holds() {
    let camera = Camera::new(vector(0.0, 5.0, 10.0), scalar(-1.5), scalar(-0.35), scalar(0.785), scalar(0.1), scalar(100.0), 1280, 720);
    let expected = CameraView {
        position: vector(0.0, 5.0, 10.0),
        yaw: scalar(-1.5),
        pitch: scalar(-0.35),
        width: 1280,
        height: 720,
        fovy: scalar(0.785),
        znear: scalar(0.1),
        zfar: scalar(100.0),
    };
    camera.to_raw(|given: CameraView| {
        assert_eq!(given, expected);
        [[scalar(0.0); 4]; 4]
    });
    assert_eq!(camera.parameters(), expected);
}

#[test]
fn to_raw_twice_gives_the_same_record() {
    let camera = camera_at(vector(1.5, -2.0, 3.25), 0.4, 0.2);
    let first = camera.to_raw(project);
    let second = camera.to_raw(project);
    assert_eq!(first.view_position, second.view_position);
    assert_eq!(first.view_proj, second.view_proj);
    assert_eq!(first.view_proj, project(camera.parameters()));
}

#[test]
fn to_raw_changes_with_the_camera() {
    let mut camera = camera_at(vector(1.5, -2.0, 3.25), 0.4, 0.2);
    let before = camera.to_raw(project);
    camera.resize(600, 800);
    let after = camera.to_raw(project);
    assert_eq!(before.view_position, after.view_position);
    assert_ne!(before.view_proj, after.view_proj);
}

#[test]
fn depth_correction_halves_and_shifts_the_depth() {
    let correction = Matrix4::from(OPENGL_TO_WGPU_MATRIX.map(|column| column.map(f32::from_bits)));
    let near: [f32; 4] = (correction * cgmath::Vector4::new(0.25, -0.5, -1.0, 1.0)).into();
    let far: [f32; 4] = (correction * cgmath::Vector4::new(0.25, -0.5, 1.0, 1.0)).into();
    assert_eq!(near, [0.25, -0.5, 0.0, 1.0]);
    assert_eq!(far, [0.25, -0.5, 1.0, 1.0]);
}

#[test]
fn raw_new_sets_the_fourth_coordinate_to_one() {
    let raw = Raw::new(vector(0.0, 0.0, 0.0), [[scalar(0.0); 4]; 4]);
    assert_eq!(raw.view_position[3].to_bits(), 1.0f32.to_bits());
}

#[test]
fn keys_map_to_directions() {
    assert_eq!(Key::W.direction(), Some(Direction::Forward));
    assert_eq!(Key::Up.direction(), Some(Direction::Forward));
    assert_eq!(Key::S.direction(), Some(Direction::Backward));
    assert_eq!(Key::Down.direction(), Some(Direction::Backward));
    assert_eq!(Key::A.direction(), Some(Direction::Left));
    assert_eq!(Key::Left.direction(), Some(Direction::Left));
    assert_eq!(Key::D.direction(), Some(Direction::Right));
    assert_eq!(Key::Right.direction(), Some(Direction::Right));
    assert_eq!(Key::Space.direction(), Some(Direction::Up));
    assert_eq!(Key::LShift.direction(), Some(Direction::Down));
    assert_eq!(Key::Other.direction(), None);
}

#[test]
fn new_controller_is_at_rest() {
    let controller = Controller::new(scalar(4.0), scalar(0.4));
    let motion = controller.motion();
    assert_eq!(motion.forward, scalar(0.0));
    assert_eq!(motion.right, scalar(0.0));
    assert_eq!(motion.up, scalar(0.0));
    assert_eq!(motion.scroll, scalar(0.0));
    assert_eq!(motion.scroll_unit, scalar(1.0));
    assert_eq!(motion.yaw_delta, scalar(0.0));
    assert_eq!(number(motion.pitch_delta), 0.0);
    assert_eq!(motion.speed, scalar(4.0));
    assert_eq!(motion.sensitivity, scalar(0.4));
}

#[test]
fn process_keyboard_sets_and_clears_each_push() {
    let pairs = [
        (Key::W, Key::S),
        (Key::Up, Key::Down),
        (Key::D, Key::A),
        (Key::Right, Key::Left),
        (Key::Space, Key::LShift),
    ];
    for (index, (positive, negative)) in pairs.into_iter().enumerate() {
        let axis = |motion: Motion| match index {
            0 | 1 => motion.forward,
            2 | 3 => motion.right,
            _ => motion.up,
        };
        let mut controller = Controller::new(scalar(4.0), scalar(0.4));
        assert!(controller.process_keyboard(positive, ElementState::Pressed));
        assert_eq!(axis(controller.motion()), scalar(1.0));
        assert!(controller.process_keyboard(negative, ElementState::Pressed));
        assert_eq!(axis(controller.motion()), scalar(0.0));
        assert!(controller.process_keyboard(positive, ElementState::Released));
        assert_eq!(axis(controller.motion()), scalar(-1.0));
        assert!(controller.process_keyboard(negative, ElementState::Released));
        assert_eq!(axis(controller.motion()), scalar(0.0));
    }
}

#[test]
fn process_keyboard_touches_one_axis() {
    let mut controller = Controller::new(scalar(4.0), scalar(0.4));
    controller.process_keyboard(Key::A, ElementState::Pressed);
    let motion = controller.motion();
    assert_eq!(motion.right, scalar(-1.0));
    assert_eq!(motion.forward, scalar(0.0));
    assert_eq!(motion.up, scalar(0.0));
}

#[test]
fn process_keyboard_passes_over_other_keys() {
    let mut controller = Controller::new(scalar(4.0), scalar(0.4));
    controller.process_keyboard(Key::W, ElementState::Pressed);
    let before = controller.motion();
    assert!(!controller.process_keyboard(Key::Other, ElementState::Pressed));
    assert!(!controller.process_keyboard(Key::Other, ElementState::Released));
    assert_eq!(controller.motion(), before);
}

#[test]
fn process_mouse_overwrites() {
    let mut controller = Controller::new(scalar(4.0), scalar(0.4));
    controller.process_mouse(scalar(3.0), scalar(-2.0));
    controller.process_mouse(scalar(0.5), scalar(0.25));
    let motion = controller.motion();
    assert_eq!(motion.yaw_delta, scalar(0.5));
    assert_eq!(motion.pitch_delta, scalar(-0.25));
}

#[test]
fn process_scroll_counts_a_line_for_a_hundred_pixels() {
    let mut controller = Controller::new(scalar(4.0), scalar(0.4));
    controller.process_scroll(&MouseScrollDelta::LineDelta(scalar(9.0), scalar(2.0)));
    let motion = controller.motion();
    assert_eq!(number(motion.scroll) * number(motion.scroll_unit), 200.0);
    assert_eq!(motion.scroll, scalar(2.0));
    assert_eq!(motion.scroll_unit, scalar(100.0));
}

#[test]
fn process_scroll_passes_pixels_through() {
    let mut controller = Controller::new(scalar(4.0), scalar(0.4));
    controller.process_scroll(&MouseScrollDelta::PixelDelta(scalar(9.0), scalar(-37.5)));
    let motion = controller.motion();
    assert_eq!(number(motion.scroll) * number(motion.scroll_unit), -37.5);
    assert_eq!(motion.scroll, scalar(-37.5));
    assert_eq!(motion.scroll_unit, scalar(1.0));
}

#[test]
fn process_scroll_overwrites() {
    let mut controller = Controller::new(scalar(4.0), scalar(0.4));
    controller.process_scroll(&MouseScrollDelta::LineDelta(scalar(0.0), scalar(2.0)));
    controller.process_scroll(&MouseScrollDelta::PixelDelta(scalar(0.0), scalar(5.0)));
    let motion = controller.motion();
    assert_eq!(number(motion.scroll) * number(motion.scroll_unit), 5.0);
}

#[test]
fn rest_clears_what_lasts_one_frame() {
    let mut controller = Controller::new(scalar(4.0), scalar(0.4));
    controller.process_keyboard(Key::W, ElementState::Pressed);
    controller.process_mouse(scalar(3.0), scalar(-2.0));
    controller.process_scroll(&MouseScrollDelta::LineDelta(scalar(0.0), scalar(2.0)));
    controller.rest();
    let motion = controller.motion();
    assert_eq!(motion.yaw_delta.to_bits(), 0);
    assert_eq!(number(motion.pitch_delta), 0.0);
    assert_eq!(motion.scroll.to_bits(), 0);
    assert_eq!(motion.scroll_unit, scalar(1.0));
    assert_eq!(motion.forward, scalar(1.0));
}

#[test]
fn set_pose_clamps_the_pitch() {
    let mut camera = camera_at(vector(0.0, 0.0, 0.0), 0.0, 0.0);
    camera.set_pose(Pose { position: vector(1.0, 2.0, 3.0), yaw: scalar(9.0), pitch: scalar(2.0) });
    assert_eq!(camera.pose().position, vector(1.0, 2.0, 3.0));
    assert_eq!(camera.parameters().yaw, scalar(9.0));
    assert_eq!(camera.parameters().pitch, scalar(SAFE_FRAC_PI_2));
    camera.set_pose(Pose { position: vector(1.0, 2.0, 3.0), yaw: scalar(9.0), pitch: scalar(-2.0) });
    assert_eq!(camera.parameters().pitch, scalar(-SAFE_FRAC_PI_2));
    camera.set_pose(Pose { position: vector(1.0, 2.0, 3.0), yaw: scalar(9.0), pitch: scalar(0.75) });
    assert_eq!(camera.parameters().pitch, scalar(0.75));
    assert_eq!(camera.parameters().width, 800);
    assert_eq!(camera.parameters().height, 600);
    assert_eq!(camera.parameters().fovy, scalar(0.785));
}

#[test]
fn update_camera_hands_the_integrator_what_was_gathered() {
    let mut controller = Controller::new(scalar(4.0), scalar(0.4));
    controller.process_keyboard(Key::S, ElementState::Pressed);
    controller.process_mouse(scalar(3.0), scalar(-2.0));
    let mut camera = camera_at(vector(1.0, 2.0, 3.0), 0.5, 0.25);
    let expected_motion = controller.motion();
    let expected_pose = camera.pose();
    controller.update_camera(&mut camera, scalar(0.016), |motion: Motion, pose: Pose, dt: Scalar| {
        assert_eq!(motion, expected_motion);
        assert_eq!(pose, expected_pose);
        assert_eq!(dt, scalar(0.016));
        Pose { position: vector(7.0, 8.0, 9.0), yaw: scalar(1.0), pitch: scalar(-1.0) }
    });
    assert_eq!(camera.pose(), Pose { position: vector(7.0, 8.0, 9.0), yaw: scalar(1.0), pitch: scalar(-1.0) });
}

#[test]
fn pitch_stays_within_the_limits() {
    let mut controller = Controller::new(scalar(4.0), scalar(0.4));
    let mut camera = camera_at(vector(0.0, 0.0, 0.0), 0.0, 0.0);
    for dy in [1.0e9f32, -1.0e9, 3.0, -3.0, 1.0e30, -1.0e30, f32::MAX, f32::MIN, 0.001, -0.001, 40.0, 40.0, -40.0, f32::INFINITY] {
        controller.process_mouse(scalar(dy / 2.0), scalar(dy));
        controller.update_camera(&mut camera, scalar(0.5), integrate);
        let pitch = number(camera.parameters().pitch);
        assert!(-SAFE_FRAC_PI_2 <= pitch && pitch <= SAFE_FRAC_PI_2, "{dy:?} gave {pitch:?}");
    }
}

#[test]
fn pitch_overshoot_is_clamped_back_in_the_same_frame() {
    let mut controller = Controller::new(scalar(4.0), scalar(1.0));
    let mut camera = camera_at(vector(0.0, 0.0, 0.0), 0.0, 1.5);
    controller.process_mouse(scalar(0.0), scalar(-10.0));
    controller.update_camera(&mut camera, scalar(1.0), integrate);
    assert_eq!(camera.parameters().pitch, scalar(SAFE_FRAC_PI_2));
    controller.process_mouse(scalar(0.0), scalar(0.5));
    controller.update_camera(&mut camera, scalar(1.0), integrate);
    assert_eq!(number(camera.parameters().pitch), SAFE_FRAC_PI_2 + -0.5 * 1.0 * 1.0);
}

#[test]
fn a_pitch_that_is_no_number_is_kept() {
    let mut controller = Controller::new(scalar(4.0), scalar(0.4));
    let mut camera = camera_at(vector(0.0, 0.0, 0.0), 0.0, 0.0);
    controller.process_mouse(scalar(0.0), scalar(1.0));
    controller.update_camera(&mut camera, scalar(f32::NAN), integrate);
    assert!(number(camera.parameters().pitch).is_nan());
}

#[test]
fn update_camera_clears_what_lasts_one_frame() {
    let mut controller = Controller::new(scalar(4.0), scalar(0.4));
    let mut camera = camera_at(vector(0.0, 0.0, 0.0), 0.0, 0.0);
    controller.process_keyboard(Key::D, ElementState::Pressed);
    controller.process_mouse(scalar(12.0), scalar(-7.0));
    controller.process_scroll(&MouseScrollDelta::LineDelta(scalar(0.0), scalar(3.0)));
    controller.update_camera(&mut camera, scalar(0.016), integrate);
    let motion = controller.motion();
    assert_eq!(motion.yaw_delta.to_bits(), 0);
    assert_eq!(number(motion.pitch_delta), 0.0);
    assert_eq!(motion.scroll.to_bits(), 0);
    assert_eq!(motion.right, scalar(1.0));
    assert_eq!(motion.speed, scalar(4.0));
    assert_eq!(motion.sensitivity, scalar(0.4));
}

#[test]
fn a_mouse_move_turns_one_frame_only() {
    let mut controller = Controller::new(scalar(4.0), scalar(0.4));
    let mut camera = camera_at(vector(0.0, 0.0, 0.0), 0.0, 0.0);
    controller.process_mouse(scalar(10.0), scalar(0.0));
    controller.update_camera(&mut camera, scalar(0.5), integrate);
    let yaw = camera.parameters().yaw;
    assert_eq!(number(yaw), 10.0 * 0.4 * 0.5);
    controller.update_camera(&mut camera, scalar(0.5), integrate);
    assert_eq!(camera.parameters().yaw, yaw);
}

#[test]
fn zero_motion_leaves_the_camera_where_it_is() {
    let mut controller = Controller::new(scalar(4.0), scalar(0.4));
    let mut camera = camera_at(vector(0.0, 5.0, 10.0), -1.5, -0.35);
    controller.update_camera(&mut camera, scalar(1.0), integrate);
    assert_eq!(numbers(camera.pose().position), (0.0, 5.0, 10.0));
    assert_eq!(number(camera.parameters().yaw), -1.5);
    assert_eq!(number(camera.parameters().pitch), -0.35);
}

#[test]
fn forward_motion_moves_along_the_yaw() {
    let mut controller = Controller::new(scalar(4.0), scalar(0.4));
    let mut camera = camera_at(vector(1.0, 5.0, -3.0), 0.0, 0.0);
    controller.process_keyboard(Key::W, ElementState::Pressed);
    controller.update_camera(&mut camera, scalar(0.5), integrate);
    assert_eq!(numbers(camera.pose().position), (3.0, 5.0, -3.0));
    assert_eq!(number(camera.parameters().yaw), 0.0);
    assert_eq!(number(camera.parameters().pitch), 0.0);
}

#[test]
fn pitch_does_not_change_the_way_forward() {
    let mut controller = Controller::new(scalar(4.0), scalar(0.4));
    let mut camera = camera_at(vector(0.0, 0.0, 0.0), 0.0, 1.0);
    controller.process_keyboard(Key::W, ElementState::Pressed);
    controller.update_camera(&mut camera, scalar(0.5), integrate);
    assert_eq!(numbers(camera.pose().position), (2.0, 0.0, 0.0));
}

#[test]
fn up_and_down_move_along_the_vertical_axis() {
    let mut controller = Controller::new(scalar(4.0), scalar(0.4));
    let mut camera = camera_at(vector(0.0, 1.0, 0.0), 0.7, 0.2);
    controller.process_keyboard(Key::Space, ElementState::Pressed);
    controller.update_camera(&mut camera, scalar(0.25), integrate);
    assert_eq!(numbers(camera.pose().position), (0.0, 2.0, 0.0));
    controller.process_keyboard(Key::Space, ElementState::Released);
    controller.process_keyboard(Key::LShift, ElementState::Pressed);
    controller.update_camera(&mut camera, scalar(0.5), integrate);
    assert_eq!(numbers(camera.pose().position), (0.0, 0.0, 0.0));
}

#[test]
fn scroll_moves_along_the_line_of_sight() {
    let mut controller = Controller::new(scalar(4.0), scalar(0.5));
    let mut camera = camera_at(vector(0.0, 0.0, 0.0), 0.0, 0.0);
    controller.process_scroll(&MouseScrollDelta::LineDelta(scalar(0.0), scalar(1.0)));
    controller.update_camera(&mut camera, scalar(0.5), integrate);
    assert_eq!(numbers(camera.pose().position), (100.0, 0.0, 0.0));
    controller.update_camera(&mut camera, scalar(0.5), integrate);
    assert_eq!(numbers(camera.pose().position), (100.0, 0.0, 0.0));
}
