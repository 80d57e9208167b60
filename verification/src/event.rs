//! The closed set of normalized input and lifecycle events.
//!
//! Producers translate native platform notifications into this set one to
//! one; no native type crosses the module boundary. Mouse deltas are carried
//! as fixed-point values with 16 fractional bits (see `crate::fixed`).

use vstd::prelude::*;

verus! {

/// A physical key, restricted to the closed set the engine reacts to.
/// Every other key arrives as `Other` with its platform scan code.
#[derive(Debug, Clone, Copy, PartialEq, Eq, Structural)]
pub enum KeyCode {
    KeyW,
    KeyA,
    KeyS,
    KeyD,
    ArrowUp,
    ArrowDown,
    ArrowLeft,
    ArrowRight,
    Space,
    ShiftLeft,
    Other(u32),
}

/// A mouse button.
#[derive(Debug, Clone, Copy, PartialEq, Eq, Structural)]
pub enum MouseButton {
    Left,
    Right,
    Middle,
    Back,
    Forward,
    Other(u16),
}

/// A normalized event. Immutable, cheaply copyable; produced once per
/// platform notification and dispatched to every module without mutation.
#[derive(Debug, Clone, Copy, PartialEq, Eq, Structural)]
pub enum Event {
    /// The engine should shut down after the current tick.
    Shutdown,
    /// The window was resized to the given physical size.
    Resize { width: u32, height: u32 },
    /// A key changed state.
    KeyboardInput { key: KeyCode, is_pressed: bool },
    /// Relative mouse movement, fixed-point.
    MouseMotion { dx: i64, dy: i64 },
    /// Absolute cursor position in physical pixels.
    MousePosition { x: u32, y: u32 },
    /// A mouse button changed state.
    MouseInput { button: MouseButton, is_pressed: bool },
    /// Vertical scroll delta, fixed-point.
    MouseScroll { delta: i64 },
    /// A new frame should be produced.
    Redraw,
}

} // verus!
