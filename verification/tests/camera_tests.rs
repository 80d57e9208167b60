use unnamed_engine::camera::{CameraController, DELTA_MAX, PITCH_LIMIT};
use unnamed_engine::event::{Event, KeyCode, MouseButton};
use unnamed_engine::fixed::ONE;

fn controller() -> CameraController {
    // speed 4.0, sensitivity 0.4 (rounded to the fixed-point grid)
    CameraController::new(4 * ONE, 26214, 800, 600)
}

#[test]
fn recognized_movement_keys_are_consumed() {
    let mut c = controller();
    let keys = [
        KeyCode::KeyW,
        KeyCode::ArrowUp,
        KeyCode::KeyS,
        KeyCode::ArrowDown,
        KeyCode::KeyA,
        KeyCode::ArrowLeft,
        KeyCode::KeyD,
        KeyCode::ArrowRight,
        KeyCode::Space,
        KeyCode::ShiftLeft,
    ];
    for key in keys {
        assert!(c.process_events(Event::KeyboardInput { key, is_pressed: true }));
    }
}

#[test]
fn unrecognized_keys_are_not_consumed() {
    let mut c = controller();
    assert!(!c.process_events(Event::KeyboardInput { key: KeyCode::Other(44), is_pressed: true }));
    assert!(!c.process_events(Event::Shutdown));
    assert!(!c.process_events(Event::Redraw));
    assert!(!c.process_events(Event::Resize { width: 10, height: 10 }));
    assert!(!c.process_events(Event::MousePosition { x: 1, y: 2 }));
    assert!(!c.process_events(Event::MouseInput { button: MouseButton::Left, is_pressed: true }));
}

#[test]
fn mouse_motion_and_scroll_are_consumed_and_clamped() {
    let mut c = controller();
    assert!(c.process_events(Event::MouseMotion { dx: i64::MAX, dy: i64::MIN }));
    assert_eq!(c.rotate_horizontal, DELTA_MAX);
    assert_eq!(c.rotate_vertical, -DELTA_MAX);
    assert!(c.process_events(Event::MouseScroll { delta: 3 * ONE }));
    assert_eq!(c.scroll, 3 * ONE);
}

#[test]
fn forward_key_then_unit_update_moves_exactly_speed_along_forward_axis() {
    let mut c = controller();
    let before = c.camera.position;
    assert!(c.process_events(Event::KeyboardInput { key: KeyCode::KeyW, is_pressed: true }));
    c.update(ONE);
    // The camera starts a three-quarter turn around, so forward is the
    // negative z axis; one second at speed 4.0 moves exactly 4 units.
    assert_eq!(c.camera.position.x, before.x);
    assert_eq!(c.camera.position.y, before.y);
    assert_eq!(c.camera.position.z, before.z - 4 * ONE);
}

#[test]
fn update_zeroes_rotation_and_scroll_accumulators() {
    let mut c = controller();
    c.process_events(Event::MouseMotion { dx: 100, dy: -50 });
    c.process_events(Event::MouseScroll { delta: ONE });
    c.update(ONE / 2);
    assert_eq!(c.rotate_horizontal, 0);
    assert_eq!(c.rotate_vertical, 0);
    assert_eq!(c.scroll, 0);
}

#[test]
fn pitch_never_exceeds_clamp_bound() {
    let mut c = controller();
    for _ in 0..50 {
        c.process_events(Event::MouseMotion { dx: 0, dy: -DELTA_MAX });
        c.update(ONE);
        assert!(c.camera.pitch.abs() <= PITCH_LIMIT);
    }
    for _ in 0..100 {
        c.process_events(Event::MouseMotion { dx: 0, dy: DELTA_MAX });
        c.update(ONE);
        assert!(c.camera.pitch.abs() <= PITCH_LIMIT);
    }
    assert_eq!(c.camera.pitch, -PITCH_LIMIT);
}

#[test]
fn released_key_clears_intent() {
    let mut c = controller();
    c.process_events(Event::KeyboardInput { key: KeyCode::KeyW, is_pressed: true });
    c.process_events(Event::KeyboardInput { key: KeyCode::KeyW, is_pressed: false });
    let before = c.camera.position;
    c.update(ONE);
    assert_eq!(c.camera.position, before);
}

#[test]
fn resize_updates_projection_only() {
    let mut c = controller();
    let camera_before = c.camera;
    c.resize(1920, 1080);
    assert_eq!(c.projection.width, 1920);
    assert_eq!(c.projection.height, 1080);
    assert_eq!(c.camera, camera_before);
}
