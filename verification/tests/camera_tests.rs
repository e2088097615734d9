use lyutmc::camera::camera_controller::{update_camera, CameraMoves};
use lyutmc::camera::camera_uniform::{CameraUniform, MATRIX_SIZE};
use lyutmc::binding::{BindGroupLayoutEntry, BindingType, BufferUsages, ShaderStage};
use lyutmc::input::{InputManager, Key};
use ultraviolet::{projection, Mat4, Vec3};

fn still() -> CameraMoves {
    CameraMoves { dolly_forward: false, dolly_backward: false, strafe_right: false, strafe_left: false }
}

fn matrix_bytes(m: Mat4) -> [u8; 64] {
    let mut bytes = [0u8; 64];
    for (i, x) in m.as_array().iter().enumerate() {
        bytes[4 * i..4 * i + 4].copy_from_slice(&x.to_ne_bytes());
    }
    bytes
}

fn view_projection(eye: Vec3, target: Vec3, up: Vec3, aspect: f32) -> Mat4 {
    let view = Mat4::look_at(eye, target, up);
    let proj = projection::perspective_wgpu_dx(std::f32::consts::PI / 4.0, aspect, 0.1, 100.0);
    proj * view
}

#[test]
fn no_key_no_move() {
    let input = InputManager::new();
    assert_eq!(update_camera(&input, true), still());
    assert_eq!(update_camera(&input, false), still());
    assert!(!update_camera(&input, true).any());
}

#[test]
fn each_key_asks_for_its_own_move() {
    let mut input = InputManager::new();
    input.set_key_state(Key::W, true);
    assert_eq!(update_camera(&input, true), CameraMoves { dolly_forward: true, ..still() });
    input.set_key_state(Key::W, false);
    input.set_key_state(Key::S, true);
    assert_eq!(update_camera(&input, true), CameraMoves { dolly_backward: true, ..still() });
    input.set_key_state(Key::S, false);
    input.set_key_state(Key::D, true);
    assert_eq!(update_camera(&input, true), CameraMoves { strafe_right: true, ..still() });
    input.set_key_state(Key::D, false);
    input.set_key_state(Key::A, true);
    assert_eq!(update_camera(&input, true), CameraMoves { strafe_left: true, ..still() });
    assert!(update_camera(&input, true).any());
}

#[test]
fn forward_dolly_is_refused_within_one_step() {
    let mut input = InputManager::new();
    input.set_key_state(Key::W, true);
    input.set_key_state(Key::S, true);
    assert_eq!(
        update_camera(&input, false),
        CameraMoves { dolly_forward: false, dolly_backward: true, ..still() }
    );
    assert_eq!(
        update_camera(&input, true),
        CameraMoves { dolly_forward: true, dolly_backward: true, ..still() }
    );
}

#[test]
fn other_keys_do_not_move_the_camera() {
    let mut input = InputManager::new();
    input.set_key_state(Key::Space, true);
    input.set_key_state(Key::F11, true);
    input.set_key_state(Key::Other(3), true);
    assert_eq!(update_camera(&input, true), still());
}

#[test]
fn dolly_forward_never_inverts_the_view_direction() {
    let speed: f32 = 0.2;
    let target = Vec3::new(0.0, 0.0, 0.0);
    let mut eye = Vec3::new(0.0, 1.0, 2.0);
    assert!(((target - eye).mag() - 2.236).abs() < 1e-3);
    let mut input = InputManager::new();
    input.set_key_state(Key::W, true);
    let mut previous = (target - eye).normalized();
    for _ in 0..200 {
        let forward = target - eye;
        let moves = update_camera(&input, forward.mag() > speed);
        assert!(!moves.dolly_backward && !moves.strafe_left && !moves.strafe_right);
        if moves.dolly_forward {
            eye += forward.normalized() * speed;
        }
        let now = (target - eye).normalized();
        assert!(previous.dot(now) > 0.0);
        assert!((target - eye).mag() > 0.0);
        previous = now;
    }
    assert!((target - eye).mag() <= speed);
}

#[test]
fn view_projection_is_reproducible() {
    let eye = Vec3::new(0.0, 1.0, 2.0);
    let target = Vec3::new(0.0, 0.0, 0.0);
    let up = Vec3::new(0.0, 1.0, 0.0);
    let first = matrix_bytes(view_projection(eye, target, up, 1.0));
    let second = matrix_bytes(view_projection(eye, target, up, 1.0));
    assert_eq!(first, second);
    let mut uniform = CameraUniform::new(first);
    let write = uniform.sync(second);
    assert_eq!(write.data, first.to_vec());
    assert_eq!(uniform.contents(), first.to_vec());
}

#[test]
fn uniform_holds_what_it_was_made_with() {
    let mut bytes = [0u8; 64];
    for (i, b) in bytes.iter_mut().enumerate() {
        *b = i as u8;
    }
    let uniform = CameraUniform::new(bytes);
    assert_eq!(uniform.contents(), bytes.to_vec());
    assert_eq!(uniform.contents().len(), MATRIX_SIZE);
    let write = uniform.upload();
    assert_eq!(write.offset, 0);
    assert_eq!(write.data, bytes.to_vec());
}

#[test]
fn sync_replaces_the_whole_matrix() {
    let mut uniform = CameraUniform::new([0u8; 64]);
    let mut bytes = [0u8; 64];
    for (i, b) in bytes.iter_mut().enumerate() {
        *b = 255 - i as u8;
    }
    let write = uniform.sync(bytes);
    assert_eq!(write.offset, 0);
    assert_eq!(write.data.len(), 64);
    assert_eq!(write.data, bytes.to_vec());
    assert_eq!(uniform.contents(), bytes.to_vec());
    uniform.update_view_projection([7u8; 64]);
    assert_eq!(uniform.contents(), vec![7u8; 64]);
}

#[test]
fn sync_uploads_the_camera_matrix_column_by_column() {
    let m = view_projection(Vec3::new(0.0, 2.0, 3.0), Vec3::new(0.0, 0.0, 0.0), Vec3::unit_y(), 16.0 / 9.0);
    let mut uniform = CameraUniform::new([0u8; 64]);
    let write = uniform.sync(matrix_bytes(m));
    for col in 0..4 {
        for row in 0..4 {
            let at = 4 * (4 * col + row);
            let mut word = [0u8; 4];
            word.copy_from_slice(&write.data[at..at + 4]);
            assert_eq!(f32::from_ne_bytes(word).to_bits(), m.cols[col][row].to_bits());
        }
    }
}

#[test]
fn uniform_buffer_is_bound_to_the_vertex_stage() {
    assert_eq!(
        CameraUniform::layout_entry(),
        BindGroupLayoutEntry { binding: 0, visibility: ShaderStage::Vertex, ty: BindingType::UniformBuffer }
    );
    assert_eq!(
        CameraUniform::buffer_usage(),
        BufferUsages { uniform: true, copy_dst: true, vertex: false, index: false }
    );
}

#[test]
fn view_projection_matches_the_reference_matrix() {
    let m = view_projection(
        Vec3::new(0.0, 1.0, 2.0),
        Vec3::new(0.0, 0.0, 0.0),
        Vec3::new(0.0, 1.0, 0.0),
        1.0,
    );
    let expected: [f32; 16] = [
        2.4142135, 0.0, 0.0, 0.0,
        0.0, 2.1593380, -0.44766127, -0.4472136,
        0.0, -1.0796690, -0.89532253, -0.8944272,
        0.0, 0.0, 2.1382063, 2.236068,
    ];
    let uniform = CameraUniform::new(matrix_bytes(m));
    let bytes = uniform.contents();
    for i in 0..16 {
        let mut word = [0u8; 4];
        word.copy_from_slice(&bytes[4 * i..4 * i + 4]);
        let got = f32::from_ne_bytes(word);
        assert!((got - expected[i]).abs() < 1e-4, "entry {}: {} and {}", i, got, expected[i]);
    }
}
