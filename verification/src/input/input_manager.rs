//! The input manager: feeds every event to the keyboard and mouse, so
//! their latched state is consistent before any application code runs.

use vstd::prelude::*;
use crate::event::Event;
use super::keyboard::Keyboard;
use super::mouse::Mouse;

verus! {

/// Responsible for handling all the possible inputs; an input that can
/// be latched is latched here.
pub struct InputManager {
    pub keyboard: Keyboard,
    pub mouse: Mouse,
}

impl InputManager {
    pub open spec fn wf(&self) -> bool {
        self.keyboard.wf() && self.mouse.wf()
    }

    pub fn new() -> (m: InputManager)
        ensures
            m.wf(),
            m.keyboard.key_map() == Map::<crate::event::KeyCode, bool>::empty(),
            m.mouse.button_map() == Map::<crate::event::MouseButton, bool>::empty(),
    {
        let keyboard = Keyboard::new();
        let mouse = Mouse::new();
        Self { keyboard, mouse }
    }

    /// Handles the event and replicates it to the input elements.
    pub fn process_events(&mut self, event: &Event)
        requires
            old(self).wf(),
        ensures
            final(self).wf(),
            final(self).keyboard.key_map() == match *event {
                Event::KeyboardInput { key, is_pressed } => old(self).keyboard.key_map().insert(
                    key,
                    is_pressed,
                ),
                _ => old(self).keyboard.key_map(),
            },
            final(self).mouse.button_map() == match *event {
                Event::MouseInput { button, is_pressed } => old(self).mouse.button_map().insert(
                    button,
                    is_pressed,
                ),
                _ => old(self).mouse.button_map(),
            },
    {
        self.keyboard.process_events(*event);
        self.mouse.process_events(*event);
    }
}

} // verus!
