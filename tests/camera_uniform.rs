use raytracer::camera::{
    CameraController, CameraUniform, InputEvent, KeyCode, CAMERA_EYE_OFFSET, CAMERA_UNIFORM_SIZE,
    CAMERA_VIEW_PARAMS_OFFSET, F32_ONE_BITS,
};

#[test]
fn camera_uniform_starts_at_identity() {
    let u = CameraUniform::new();
    for i in 0..4 {
        for k in 0..4 {
            let expected = if i == k { 1.0f32.to_bits() } else { 0 };
            assert_eq!(u.rotation_matrix[i][k], expected);
        }
    }
    assert_eq!(F32_ONE_BITS, 1.0f32.to_bits());
    assert_eq!(u.eye, [0, 0, 0]);
    assert_eq!(u.view_params, [0, 0, 0]);
}

#[test]
fn camera_uniform_layout_puts_fields_on_rows() {
    let mut u = CameraUniform::new();
    let mut m = [[0u32; 4]; 4];
    for i in 0..4 {
        for k in 0..4 {
            m[i][k] = (i * 4 + k + 100) as u32;
        }
    }
    u.update(m, [1, 2, 3], 4, 5, 6);
    let words = u.words();
    assert_eq!(words.len() * 4, CAMERA_UNIFORM_SIZE);
    for j in 0..16 {
        assert_eq!(words[j], (j + 100) as u32);
    }
    assert_eq!(&words[CAMERA_EYE_OFFSET / 4..CAMERA_EYE_OFFSET / 4 + 4], &[1, 2, 3, 0]);
    assert_eq!(&words[CAMERA_VIEW_PARAMS_OFFSET / 4..], &[4, 5, 6, 0]);
    let bytes = u.bytes();
    assert_eq!(bytes.len(), 96);
    assert_eq!(&bytes[64..68], &1u32.to_ne_bytes());
    assert_eq!(&bytes[84..88], &5u32.to_ne_bytes());
}

#[test]
fn view_params_are_width_height_near() {
    let mut u = CameraUniform::new();
    u.update_view_params(2.0f32.to_bits(), 1.5f32.to_bits(), 0.01f32.to_bits());
    assert_eq!(u.view_params, [2.0f32.to_bits(), 1.5f32.to_bits(), 0.01f32.to_bits()]);
    assert_eq!(u.rotation_matrix, CameraUniform::new().rotation_matrix);
}

#[test]
fn controller_tracks_movement_keys() {
    let mut c = CameraController::new(0.2f32.to_bits());
    assert!(!c.is_forward_pressed && !c.is_backward_pressed && !c.is_left_pressed && !c.is_right_pressed);
    assert!(c.process_events(&InputEvent::Key { code: KeyCode::W, pressed: true }));
    assert!(c.process_events(&InputEvent::Key { code: KeyCode::D, pressed: true }));
    assert!(c.is_forward_pressed && c.is_right_pressed);
    assert!(!c.is_backward_pressed && !c.is_left_pressed);
    assert!(c.process_events(&InputEvent::Key { code: KeyCode::W, pressed: false }));
    assert!(!c.is_forward_pressed);
    assert!(c.process_events(&InputEvent::Key { code: KeyCode::A, pressed: true }));
    assert!(c.process_events(&InputEvent::Key { code: KeyCode::S, pressed: true }));
    assert!(c.is_left_pressed && c.is_backward_pressed);
    assert_eq!(c.speed, 0.2f32.to_bits());
}

#[test]
fn controller_ignores_other_input() {
    let mut c = CameraController::new(0);
    assert!(!c.process_events(&InputEvent::Key { code: KeyCode::Other, pressed: true }));
    assert!(!c.process_events(&InputEvent::Other));
    assert_eq!(c, CameraController::new(0));
}

#[test]
fn forward_stops_at_one_step_from_target() {
    let mut c = CameraController::new(0.2f32.to_bits());
    c.process_events(&InputEvent::Key { code: KeyCode::W, pressed: true });
    assert!(c.planned_moves(true).forward);
    assert!(!c.planned_moves(false).forward);
    c.process_events(&InputEvent::Key { code: KeyCode::S, pressed: true });
    let moves = c.planned_moves(false);
    assert!(moves.backward && !moves.forward && !moves.left && !moves.right);
}
