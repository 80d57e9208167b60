//! The module capability contract: every subsystem the engine composes
//! implements it. Modules consume normalized events, advance once per
//! tick, draw once per tick, and may expose the viewport they own or
//! observe raw platform events.

use vstd::prelude::*;
use crate::event::Event;
use crate::viewport::{SurfaceError, Viewport};

verus! {

/// Why a module's work failed.
#[derive(Debug, Clone, Copy, PartialEq, Eq, Structural)]
pub enum ModuleError {
    /// Drawing failed because of the presentation surface.
    Surface(SurfaceError),
    /// Any other failure; the frame is dropped and the run continues.
    Failed,
}

/// A self-contained subsystem that the engine drives. Implementations
/// live with their callers; the engine only relies on the shape of the
/// capability set.
pub trait Module {
    /// The raw platform event type this module may observe.
    type RawEvent;

    /// Consume one event; the result signals whether the event was fully
    /// handled internally.
    fn process_events(&mut self, event: Event) -> bool;

    /// Advance this module's state by `dt` fixed-point seconds.
    fn update(&mut self, dt: i64) -> Result<(), ModuleError>;

    /// Issue this module's draw work for the current tick.
    fn render(&mut self) -> Result<(), ModuleError> {
        Ok(())
    }

    /// The viewport configuration this module owns, if any.
    fn viewport(&self) -> Option<Viewport> {
        None
    }

    /// Observe a raw platform event without consuming it.
    fn process_window_events(&mut self, _event: &Self::RawEvent) {
    }
}

} // verus!
