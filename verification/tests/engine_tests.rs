use unnamed_engine::engine::{Engine, EngineError};
use unnamed_engine::event::{Event, KeyCode, MouseButton};
use unnamed_engine::module::{Module, ModuleError};
use unnamed_engine::state::State;
use unnamed_engine::viewport::{
    FrameRecovery, PresentMode, SurfaceError, SurfaceFormat, Viewport, ViewportDesc,
};
use unnamed_engine::voxel::Color;

/// A module that counts what the engine asks of it.
struct CountingModule {
    consumed: u32,
    updates: u32,
    draws: u32,
    raw_events: u32,
    viewport: Option<Viewport>,
    render_result: Result<(), ModuleError>,
}

impl CountingModule {
    fn new() -> Self {
        CountingModule {
            consumed: 0,
            updates: 0,
            draws: 0,
            raw_events: 0,
            viewport: None,
            render_result: Ok(()),
        }
    }
}

impl Module for CountingModule {
    type RawEvent = u32;

    fn process_events(&mut self, event: Event) -> bool {
        self.consumed += 1;
        matches!(event, Event::Redraw)
    }

    fn update(&mut self, _dt: i64) -> Result<(), ModuleError> {
        self.updates += 1;
        Ok(())
    }

    fn render(&mut self) -> Result<(), ModuleError> {
        self.draws += 1;
        self.render_result
    }

    fn viewport(&self) -> Option<Viewport> {
        self.viewport
    }

    fn process_window_events(&mut self, _event: &u32) {
        self.raw_events += 1;
    }
}

fn engine_with_module(module: CountingModule) -> Engine<CountingModule> {
    let mut engine: Engine<CountingModule> = Engine::new("test window".to_string());
    let mut state: State<CountingModule> = State::new();
    state.register_module(module);
    engine.state = Some(state);
    engine.start();
    engine
}

/// One simulated driver tick: skip everything when the engine asked to
/// exit, otherwise update then draw, applying the draw recovery.
fn tick(engine: &mut Engine<CountingModule>) -> bool {
    if engine.should_exit() {
        return false;
    }
    let state = engine.state.as_mut().unwrap();
    let _ = state.update(65536);
    let draw = state.render();
    if let Err(e) = draw {
        engine.handle_render_error(e);
    }
    true
}

#[test]
fn shutdown_event_stops_the_engine_and_skips_the_next_draw() {
    let mut engine = engine_with_module(CountingModule::new());
    assert!(tick(&mut engine));
    assert_eq!(engine.state.as_ref().unwrap().modules[0].draws, 1);

    engine.handle_event(Event::Shutdown);
    assert!(engine.should_exit());

    // The next idle tick exits the loop without a further draw call.
    assert!(!tick(&mut engine));
    assert_eq!(engine.state.as_ref().unwrap().modules[0].draws, 1);
}

#[test]
fn events_reach_modules_before_the_application() {
    let mut engine = engine_with_module(CountingModule::new());
    let handled = engine.handle_event(Event::Redraw);
    assert!(handled);
    assert_eq!(engine.state.as_ref().unwrap().modules[0].consumed, 1);
}

#[test]
fn shutdown_still_reaches_the_modules_and_latches() {
    // A shutdown event goes through the same dispatch as any other
    // event before the engine reacts to it.
    let mut engine = engine_with_module(CountingModule::new());
    engine.handle_event(Event::Shutdown);
    assert_eq!(engine.state.as_ref().unwrap().modules[0].consumed, 1);
    assert!(engine.should_exit());
}

#[test]
fn keyboard_and_mouse_are_latched_by_the_engine() {
    let mut engine = engine_with_module(CountingModule::new());
    engine.handle_event(Event::KeyboardInput { key: KeyCode::KeyD, is_pressed: true });
    engine.handle_event(Event::MouseInput { button: MouseButton::Right, is_pressed: true });
    assert!(engine.keyboard().is_pressed(KeyCode::KeyD));
    assert!(!engine.keyboard().is_pressed(KeyCode::KeyA));
    assert!(engine.input_manager.mouse.is_pressed(MouseButton::Right));
    assert!(!engine.input_manager.mouse.is_pressed(MouseButton::Left));

    engine.handle_event(Event::KeyboardInput { key: KeyCode::KeyD, is_pressed: false });
    assert!(!engine.keyboard().is_pressed(KeyCode::KeyD));
}

#[test]
fn out_of_memory_during_draw_shuts_the_engine_down() {
    let mut module = CountingModule::new();
    module.render_result = Err(ModuleError::Surface(SurfaceError::OutOfMemory));
    let mut engine = engine_with_module(module);
    assert!(tick(&mut engine));
    assert!(engine.should_exit());
}

#[test]
fn outdated_surface_asks_for_a_reconfigure_and_keeps_running() {
    let mut module = CountingModule::new();
    module.render_result = Err(ModuleError::Surface(SurfaceError::Outdated));
    let mut engine = engine_with_module(module);
    let r = engine.handle_render_error(ModuleError::Surface(SurfaceError::Outdated));
    assert_eq!(r, FrameRecovery::Reconfigure);
    assert!(!engine.should_exit());
}

#[test]
fn other_draw_failures_drop_the_frame_and_keep_running() {
    let mut engine = engine_with_module(CountingModule::new());
    assert_eq!(engine.handle_render_error(ModuleError::Failed), FrameRecovery::SkipFrame);
    assert_eq!(
        engine.handle_render_error(ModuleError::Surface(SurfaceError::Timeout)),
        FrameRecovery::SkipFrame
    );
    assert!(!engine.should_exit());
}

#[test]
fn get_state_reports_a_missing_state() {
    let mut engine: Engine<CountingModule> = Engine::new("bare".to_string());
    assert_eq!(engine.get_state().err(), Some(EngineError::NoState));
    engine.state = Some(State::new());
    assert!(engine.get_state().is_ok());
}

#[test]
fn find_viewport_returns_the_first_offered_viewport() {
    let viewport = ViewportDesc::new(Color { r: 1, g: 2, b: 3, a: 255 }).build(
        &vec![SurfaceFormat { id: 5, srgb: true }],
        &vec![PresentMode::Immediate],
        640,
        480,
    );
    let mut state: State<CountingModule> = State::new();
    state.register_module(CountingModule::new());
    let mut owner = CountingModule::new();
    owner.viewport = Some(viewport);
    state.register_module(owner);
    assert_eq!(state.find_viewport(), Some(viewport));

    let empty: State<CountingModule> = State::new();
    assert_eq!(empty.find_viewport(), None);
}

#[test]
fn raw_window_events_reach_every_module() {
    let mut state: State<CountingModule> = State::new();
    state.register_module(CountingModule::new());
    state.register_module(CountingModule::new());
    state.forward_window_event(&42);
    assert_eq!(state.modules[0].raw_events, 1);
    assert_eq!(state.modules[1].raw_events, 1);
}

#[test]
fn update_and_render_run_in_registration_order_once_per_tick() {
    let mut engine = engine_with_module(CountingModule::new());
    for _ in 0..3 {
        tick(&mut engine);
    }
    let m = &engine.state.as_ref().unwrap().modules[0];
    assert_eq!(m.updates, 3);
    assert_eq!(m.draws, 3);
}
