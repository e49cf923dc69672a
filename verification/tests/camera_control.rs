use orbit_scene::camera::{
    BufferWrite, Camera, CameraController, CameraError, CameraState, Motion, ShaderStage, Sight,
    UniformBinding, UniformLayout, UNIFORM_SIZE,
};
use orbit_scene::input::{command_for_key, Command, ElementState, Key, WindowEvent};

type Pose = ([f32; 3], [f32; 3], [f32; 3]);

fn pose() -> Pose {
    ([0.0, 1.0, 2.0], [0.0, 0.0, 0.0], [0.0, 1.0, 0.0])
}

fn bits(pose: &Pose) -> Vec<u32> {
    let mut out = Vec::new();
    for v in [pose.0, pose.1, pose.2] {
        for c in v {
            out.push(c.to_bits());
        }
    }
    out
}

fn press(key: Key) -> WindowEvent {
    WindowEvent::KeyboardInput { state: ElementState::Pressed, key: Some(key) }
}

fn release(key: Key) -> WindowEvent {
    WindowEvent::KeyboardInput { state: ElementState::Released, key: Some(key) }
}

#[test]
fn key_table_binds_ten_keys() {
    assert_eq!(command_for_key(Key::Space), Some(Command::MoveUp));
    assert_eq!(command_for_key(Key::LShift), Some(Command::MoveDown));
    assert_eq!(command_for_key(Key::W), Some(Command::Forward));
    assert_eq!(command_for_key(Key::Up), Some(Command::Forward));
    assert_eq!(command_for_key(Key::A), Some(Command::Left));
    assert_eq!(command_for_key(Key::Left), Some(Command::Left));
    assert_eq!(command_for_key(Key::S), Some(Command::Backward));
    assert_eq!(command_for_key(Key::Down), Some(Command::Backward));
    assert_eq!(command_for_key(Key::D), Some(Command::Right));
    assert_eq!(command_for_key(Key::Right), Some(Command::Right));
    assert_eq!(command_for_key(Key::Escape), None);
    assert_eq!(command_for_key(Key::Other), None);
}

#[test]
fn new_controller_holds_no_key() {
    let c = CameraController::new();
    assert!(!c.is_up_pressed && !c.is_down_pressed);
    assert!(!c.is_forward_pressed && !c.is_backward_pressed);
    assert!(!c.is_left_pressed && !c.is_right_pressed);
}

#[test]
fn press_sets_only_its_own_key() {
    let mut c = CameraController::new();
    assert!(c.process_events(&press(Key::W)));
    assert_eq!(c, CameraController { is_forward_pressed: true, ..CameraController::new() });
    assert!(c.process_events(&press(Key::Space)));
    assert!(c.process_events(&press(Key::LShift)));
    assert!(c.process_events(&press(Key::Left)));
    assert!(c.process_events(&press(Key::Down)));
    assert!(c.process_events(&press(Key::D)));
    assert_eq!(
        c,
        CameraController {
            is_up_pressed: true,
            is_down_pressed: true,
            is_forward_pressed: true,
            is_backward_pressed: true,
            is_left_pressed: true,
            is_right_pressed: true,
        }
    );
}

#[test]
fn release_clears_the_key() {
    let mut c = CameraController::new();
    assert!(c.process_events(&press(Key::A)));
    assert!(c.process_events(&press(Key::S)));
    assert!(c.process_events(&release(Key::Left)));
    assert_eq!(c, CameraController { is_backward_pressed: true, ..CameraController::new() });
    // Releasing a key that is not held is still the camera's event.
    assert!(c.process_events(&release(Key::W)));
    assert_eq!(c, CameraController { is_backward_pressed: true, ..CameraController::new() });
}

#[test]
fn other_events_are_not_the_cameras() {
    let mut c = CameraController::new();
    c.process_events(&press(Key::W));
    let before = c;
    assert!(!c.process_events(&press(Key::Escape)));
    assert!(!c.process_events(&press(Key::Other)));
    assert!(!c.process_events(&WindowEvent::KeyboardInput {
        state: ElementState::Pressed,
        key: None,
    }));
    assert!(!c.process_events(&WindowEvent::CloseRequested));
    assert!(!c.process_events(&WindowEvent::Resized { width: 3, height: 4 }));
    assert!(!c.process_events(&WindowEvent::ScaleFactorChanged { width: 3, height: 4 }));
    assert!(!c.process_events(&WindowEvent::Other));
    assert_eq!(c, before);
}

#[test]
fn tick_moves_in_a_fixed_order() {
    let all = CameraController {
        is_up_pressed: true,
        is_down_pressed: true,
        is_forward_pressed: true,
        is_backward_pressed: true,
        is_left_pressed: true,
        is_right_pressed: true,
    };
    assert_eq!(
        all.update_camera(Sight::Beyond),
        Ok(vec![Motion::Advance, Motion::Retreat, Motion::OrbitRight, Motion::OrbitLeft])
    );
}

#[test]
fn tick_does_not_advance_onto_the_target() {
    let mut c = CameraController::new();
    c.process_events(&press(Key::W));
    assert_eq!(c.update_camera(Sight::Beyond), Ok(vec![Motion::Advance]));
    assert_eq!(c.update_camera(Sight::Within), Ok(vec![]));
    c.process_events(&press(Key::S));
    assert_eq!(c.update_camera(Sight::Within), Ok(vec![Motion::Retreat]));
}

#[test]
fn tick_ignores_up_and_down() {
    let mut c = CameraController::new();
    c.process_events(&press(Key::Space));
    c.process_events(&press(Key::LShift));
    assert_eq!(c.update_camera(Sight::Beyond), Ok(vec![]));
    assert_eq!(CameraController::new().update_camera(Sight::Beyond), Ok(vec![]));
}

#[test]
fn tick_orbits_right_before_left() {
    let mut c = CameraController::new();
    c.process_events(&press(Key::A));
    assert_eq!(c.update_camera(Sight::Within), Ok(vec![Motion::OrbitLeft]));
    c.process_events(&press(Key::D));
    assert_eq!(c.update_camera(Sight::Within), Ok(vec![Motion::OrbitRight, Motion::OrbitLeft]));
}

#[test]
fn tick_fails_with_the_eye_at_the_target() {
    let mut c = CameraController::new();
    assert_eq!(c.update_camera(Sight::Coincident), Err(CameraError::Degenerate));
    c.process_events(&press(Key::S));
    assert_eq!(c.update_camera(Sight::Coincident), Err(CameraError::Degenerate));
}

#[test]
fn new_camera_takes_the_targets_aspect() {
    let camera = Camera::new(pose(), 800, 600);
    assert_eq!((camera.width, camera.height), (800, 600));
    assert_eq!(bits(&camera.geometry), bits(&pose()));
}

#[test]
fn resize_changes_the_aspect_and_nothing_else() {
    let mut camera = Camera::new(pose(), 800, 600);
    camera.update_aspect_ratio(1024, 768);
    assert_eq!((camera.width, camera.height), (1024, 768));
    assert_eq!(camera.width as f32 / camera.height as f32, 1024.0f32 / 768.0f32);
    assert_eq!(bits(&camera.geometry), bits(&pose()));
}

#[test]
fn state_resize_keeps_geometry_and_keys() {
    let mut state = CameraState::new(pose(), 800, 600);
    assert!(state.on_input(&press(Key::D)));
    let write = state.on_resize(1024, 768, Sight::Beyond);
    assert_eq!(write, Ok(BufferWrite { offset: 0, size: 64 }));
    assert_eq!((state.camera_desc.width, state.camera_desc.height), (1024, 768));
    assert_eq!(bits(&state.camera_desc.geometry), bits(&pose()));
    assert_eq!(
        state.camera_controller,
        CameraController { is_right_pressed: true, ..CameraController::new() }
    );
}

#[test]
fn state_resize_fails_with_the_eye_at_the_target() {
    let mut state = CameraState::new(pose(), 800, 600);
    let write = state.on_resize(640, 480, Sight::Coincident);
    assert_eq!(write, Err(CameraError::Degenerate));
    assert_eq!((state.camera_desc.width, state.camera_desc.height), (640, 480));
}

#[test]
fn state_update_plans_and_writes_the_whole_uniform() {
    let mut state = CameraState::new(pose(), 800, 600);
    state.on_input(&press(Key::Up));
    state.on_input(&press(Key::Right));
    let update = state.on_update(Sight::Beyond).unwrap();
    assert_eq!(update.motions, vec![Motion::Advance, Motion::OrbitRight]);
    assert_eq!(update.write, BufferWrite { offset: 0, size: UNIFORM_SIZE });
    let near = state.on_update(Sight::Within).unwrap();
    assert_eq!(near.motions, vec![Motion::OrbitRight]);
    assert_eq!(near.write, BufferWrite { offset: 0, size: 64 });
}

#[test]
fn state_update_fails_with_the_eye_at_the_target() {
    let state = CameraState::new(pose(), 800, 600);
    assert_eq!(state.on_update(Sight::Coincident).unwrap_err(), CameraError::Degenerate);
}

#[test]
fn state_input_reports_movement_keys() {
    let mut state = CameraState::new(pose(), 800, 600);
    assert!(state.on_input(&press(Key::W)));
    assert!(state.on_input(&release(Key::W)));
    assert!(!state.on_input(&press(Key::Escape)));
    assert!(!state.on_input(&WindowEvent::CloseRequested));
    assert_eq!(state.camera_controller, CameraController::new());
}

#[test]
fn uniform_sync_is_whole_or_fails() {
    assert_eq!(CameraState::<Pose>::full_write(), BufferWrite { offset: 0, size: 64 });
    assert_eq!(CameraState::<Pose>::sync(Sight::Within), Ok(BufferWrite { offset: 0, size: 64 }));
    assert_eq!(CameraState::<Pose>::sync(Sight::Beyond), Ok(BufferWrite { offset: 0, size: 64 }));
    assert_eq!(CameraState::<Pose>::sync(Sight::Coincident), Err(CameraError::Degenerate));
}

#[test]
fn camera_binding_is_a_vertex_stage_uniform() {
    let state = CameraState::new(pose(), 800, 600);
    assert_eq!(
        state.bind_group_layout(),
        UniformLayout {
            binding: 0,
            visibility: ShaderStage::Vertex,
            has_dynamic_offset: false,
            min_binding_size: None,
        }
    );
    assert_eq!(state.bind_group(), UniformBinding { binding: 0, offset: 0, size: None });
}
