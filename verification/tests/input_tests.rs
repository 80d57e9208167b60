use unnamed_engine::event::{Event, KeyCode, MouseButton};
use unnamed_engine::input::input_manager::InputManager;
use unnamed_engine::input::keyboard::Keyboard;
use unnamed_engine::input::mouse::Mouse;

#[test]
fn unreported_keys_read_as_released() {
    let keyboard = Keyboard::new();
    assert!(!keyboard.is_pressed(KeyCode::KeyW));
    assert!(!keyboard.is_pressed(KeyCode::Other(123)));
}

#[test]
fn set_key_latches_and_overwrites() {
    let mut keyboard = Keyboard::new();
    keyboard.set_key(KeyCode::KeyW, true);
    keyboard.set_key(KeyCode::Space, true);
    assert!(keyboard.is_pressed(KeyCode::KeyW));
    assert!(keyboard.is_pressed(KeyCode::Space));
    keyboard.set_key(KeyCode::KeyW, false);
    assert!(!keyboard.is_pressed(KeyCode::KeyW));
    assert!(keyboard.is_pressed(KeyCode::Space));
}

#[test]
fn keyboard_processes_only_keyboard_events() {
    let mut keyboard = Keyboard::new();
    keyboard.process_events(Event::KeyboardInput { key: KeyCode::KeyA, is_pressed: true });
    keyboard.process_events(Event::MouseInput { button: MouseButton::Left, is_pressed: true });
    keyboard.process_events(Event::Redraw);
    assert!(keyboard.is_pressed(KeyCode::KeyA));
}

#[test]
fn mouse_latches_buttons_independently() {
    let mut mouse = Mouse::new();
    mouse.set_button(MouseButton::Left, true);
    mouse.set_button(MouseButton::Other(9), true);
    assert!(mouse.is_pressed(MouseButton::Left));
    assert!(mouse.is_pressed(MouseButton::Other(9)));
    assert!(!mouse.is_pressed(MouseButton::Middle));
    mouse.set_button(MouseButton::Left, false);
    assert!(!mouse.is_pressed(MouseButton::Left));
}

#[test]
fn input_manager_feeds_both_elements() {
    let mut manager = InputManager::new();
    manager.process_events(&Event::KeyboardInput { key: KeyCode::ShiftLeft, is_pressed: true });
    manager.process_events(&Event::MouseInput { button: MouseButton::Back, is_pressed: true });
    assert!(manager.keyboard.is_pressed(KeyCode::ShiftLeft));
    assert!(manager.mouse.is_pressed(MouseButton::Back));
    assert!(!manager.mouse.is_pressed(MouseButton::Forward));
}

#[test]
fn keyboard_prepare_changes_nothing() {
    let mut keyboard = Keyboard::new();
    keyboard.set_key(KeyCode::KeyS, true);
    keyboard.prepare();
    assert!(keyboard.is_pressed(KeyCode::KeyS));
}
