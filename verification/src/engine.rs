//! The engine: the running flag, the input manager and the composed
//! modules, together with the decisions of the frame driver. The platform
//! loop itself lives with the windowing layer; it feeds normalized events
//! through [`Engine::handle_event`], asks [`Engine::should_exit`] before
//! every redraw, and applies the recovery that
//! [`Engine::handle_render_error`] decides.

use vstd::prelude::*;
use crate::event::Event;
use crate::input::input_manager::InputManager;
use crate::input::keyboard::Keyboard;
use crate::module::{Module, ModuleError};
use crate::state::State;
use crate::viewport::{recovery_spec, FrameRecovery};

verus! {

/// The errors the engine itself reports.
#[derive(Debug, Clone, Copy, PartialEq, Eq, Structural)]
pub enum EngineError {
    /// No runtime state was attached yet.
    NoState,
}

/// The recovery a failed draw asks for: surface failures follow the
/// viewport policy, anything else drops the single frame.
pub open spec fn module_recovery_spec(e: ModuleError) -> FrameRecovery {
    match e {
        ModuleError::Surface(s) => recovery_spec(s),
        ModuleError::Failed => FrameRecovery::SkipFrame,
    }
}

/// The core wrapper: owns the running flag, the input manager and,
/// once attached, the runtime state with the modules.
pub struct Engine<M> {
    pub running: bool,
    pub title: String,
    pub input_manager: InputManager,
    pub state: Option<State<M>>,
}

impl<M: Module> Engine<M> {
    /// Whether the run loop should keep going.
    pub open spec fn is_running(&self) -> bool {
        self.running
    }

    /// The window title the engine was created with.
    pub open spec fn title_view(&self) -> Seq<char> {
        self.title@
    }

    pub open spec fn wf(&self) -> bool {
        self.input_manager.wf()
    }

    pub fn new(title: String) -> (e: Engine<M>)
        ensures
            e.wf(),
            !e.is_running(),
            e.title_view() == title@,
            e.state is None,
            e.input_manager.keyboard.key_map() == Map::<crate::event::KeyCode, bool>::empty(),
            e.input_manager.mouse.button_map() == Map::<crate::event::MouseButton, bool>::empty(),
    {
        let input_manager = InputManager::new();
        let state: Option<State<M>> = None;

        Engine { running: false, title, input_manager, state }
    }

    /// The runtime state, or an explicit error while none is attached.
    pub fn get_state(&mut self) -> (r: Result<&mut State<M>, EngineError>)
        ensures
            old(self).state is Some <==> r is Ok,
            old(self).state is None ==> r == Result::<&mut State<M>, EngineError>::Err(
                EngineError::NoState,
            ) && *final(self) == *old(self),
    {
        match self.state {
            Some(ref mut state) => Ok(state),
            None => Err(EngineError::NoState),
        }
    }

    /// Exposes the keyboard.
    pub fn keyboard(&self) -> (k: &Keyboard)
        ensures
            *k == self.input_manager.keyboard,
    {
        &self.input_manager.keyboard
    }

    /// Marks the engine running. The caller then drives the platform
    /// loop until [`Engine::should_exit`] answers true.
    pub fn start(&mut self)
        ensures
            final(self).is_running(),
            final(self).title_view() == old(self).title_view(),
            final(self).input_manager == old(self).input_manager,
            final(self).state == old(self).state,
    {
        self.running = true;
    }

    /// Requests a graceful shutdown: the loop exits after the current
    /// tick, without a further draw.
    pub fn stop(&mut self)
        ensures
            !final(self).is_running(),
            final(self).title_view() == old(self).title_view(),
            final(self).input_manager == old(self).input_manager,
            final(self).state == old(self).state,
    {
        if self.running {
            self.running = false;
        }
    }

    /// Whether the next redraw should exit the loop instead of drawing.
    pub fn should_exit(&self) -> (r: bool)
        ensures
            r == !self.is_running(),
    {
        !self.running
    }

    /// Handle one normalized event: offer it to every module first, then
    /// latch it in the input manager, then apply the engine's own
    /// reaction (a shutdown event flips the running flag). The caller
    /// then forwards the event to the host application — every event,
    /// the shutdown event included — so the engine's invariants are
    /// never violated by application logic running first. The result
    /// signals that some module handled the event internally; the driver
    /// may use it to request an immediate redraw.
    pub fn handle_event(&mut self, event: Event) -> (handled: bool)
        requires
            old(self).wf(),
            old(self).state is Some,
        ensures
            final(self).wf(),
            final(self).state is Some,
            old(self).state matches Some(so) ==> (final(self).state matches Some(st)
                && st.modules@.len() == so.modules@.len()),
            final(self).is_running() == (old(self).is_running() && !(event is Shutdown)),
            final(self).title_view() == old(self).title_view(),
            final(self).input_manager.keyboard.key_map() == match event {
                Event::KeyboardInput { key, is_pressed } => old(
                    self,
                ).input_manager.keyboard.key_map().insert(key, is_pressed),
                _ => old(self).input_manager.keyboard.key_map(),
            },
            final(self).input_manager.mouse.button_map() == match event {
                Event::MouseInput { button, is_pressed } => old(
                    self,
                ).input_manager.mouse.button_map().insert(button, is_pressed),
                _ => old(self).input_manager.mouse.button_map(),
            },
    {
        let handled: bool = match self.state {
            Some(ref mut state) => state.process_events(event),
            None => false,
        };

        self.input_manager.process_events(&event);

        if matches!(event, Event::Shutdown) {
            self.stop();
        }

        handled
    }

    /// Decide and apply the recovery for a failed draw: a stale surface
    /// asks for a reconfigure, device memory exhaustion initiates an
    /// orderly shutdown, anything else drops the frame.
    pub fn handle_render_error(&mut self, error: ModuleError) -> (r: FrameRecovery)
        ensures
            r == module_recovery_spec(error),
            final(self).is_running() == (old(self).is_running() && !(r is Shutdown)),
            final(self).title_view() == old(self).title_view(),
            final(self).input_manager == old(self).input_manager,
            final(self).state == old(self).state,
    {
        let recovery: FrameRecovery = match error {
            ModuleError::Surface(s) => {
                match s {
                    crate::viewport::SurfaceError::Outdated => FrameRecovery::Reconfigure,
                    crate::viewport::SurfaceError::OutOfMemory => FrameRecovery::Shutdown,
                    _ => FrameRecovery::SkipFrame,
                }
            },
            ModuleError::Failed => FrameRecovery::SkipFrame,
        };
        if matches!(recovery, FrameRecovery::Shutdown) {
            self.stop();
        }
        recovery
    }
}

} // verus!
