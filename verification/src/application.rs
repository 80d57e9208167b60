//! The host application boundary: what an application built on the
//! engine provides, and what it is created from.

use vstd::prelude::*;
use crate::event::Event;

verus! {

/// What an application is created from.
pub struct ApplicationDescriptor {
    pub title: String,
}

/// The lifecycle callbacks an application implements. The engine calls
/// `start` once before the loop, `update` and `render` once per tick
/// after its own, and `on_event` once per normalized event after its own
/// handling.
pub trait Application: Sized {
    fn new(desc: ApplicationDescriptor) -> Self;

    fn start(&mut self);

    fn update(&mut self);

    fn render(&mut self);

    fn render_gui(&mut self);

    fn on_event(&mut self, event: Event);
}

} // verus!
