use unnamed_engine::camera::CameraController;
use unnamed_engine::event::{Event, KeyCode};
use unnamed_engine::fixed::ONE;
use unnamed_engine::renderer::RendererState;
use unnamed_engine::viewport::{PresentMode, SurfaceFormat, ViewportDesc};
use unnamed_engine::voxel::Color;

fn renderer_state() -> RendererState {
    let formats = vec![SurfaceFormat { id: 0, srgb: true }];
    let modes = vec![PresentMode::Immediate];
    let viewport = ViewportDesc::new(Color { r: 0, g: 0, b: 0, a: 255 })
        .build(&formats, &modes, 800, 600);
    RendererState::new(viewport, CameraController::new(4 * ONE, 26214, 800, 600))
}

#[test]
fn zero_width_resize_event_leaves_the_viewport_unchanged() {
    let mut r = renderer_state();
    let before = r.viewport;
    r.process_events(Event::Resize { width: 0, height: 600 });
    assert_eq!(r.viewport, before);
    assert!(!r.take_redraw_request());
}

#[test]
fn accepted_resize_reconfigures_and_requests_a_redraw() {
    let mut r = renderer_state();
    r.process_events(Event::Resize { width: 1024, height: 768 });
    assert_eq!(r.viewport.width, 1024);
    assert_eq!(r.viewport.height, 768);
    assert_eq!(r.camera_controller.projection.width, 1024);
    assert_eq!(r.camera_controller.projection.height, 768);
    assert!(r.take_redraw_request());
    assert!(!r.take_redraw_request());
}

#[test]
fn redraw_event_requests_a_redraw() {
    let mut r = renderer_state();
    r.process_events(Event::Redraw);
    assert!(r.take_redraw_request());
}

#[test]
fn camera_events_pass_through_to_the_controller() {
    let mut r = renderer_state();
    assert!(r.process_events(Event::KeyboardInput { key: KeyCode::KeyW, is_pressed: true }));
    let z_before = r.camera_controller.camera.position.z;
    r.update(ONE);
    assert_eq!(r.camera_controller.camera.position.z, z_before - 4 * ONE);
}
