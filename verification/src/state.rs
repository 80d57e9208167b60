//! The composition root: an ordered collection of modules, dispatched in
//! registration order. Ordering is significant: later modules may read
//! state mutated by earlier ones within the same tick.

use vstd::prelude::*;
use crate::event::Event;
use crate::module::{Module, ModuleError};
use crate::viewport::Viewport;

verus! {

/// Runtime data: the registered modules, in insertion order.
pub struct State<M> {
    pub modules: Vec<M>,
}

impl<M: Module> State<M> {
    /// An empty composition; the caller registers its modules.
    pub fn new() -> (s: State<M>)
        ensures
            s.modules@.len() == 0,
    {
        let modules: Vec<M> = Vec::new();
        Self { modules }
    }

    pub fn register_module(&mut self, module: M)
        ensures
            final(self).modules@ == old(self).modules@.push(module),
    {
        self.modules.push(module);
    }

    /// Offer the event to every module, in order. True when some module
    /// signalled that it handled the event internally.
    pub fn process_events(&mut self, event: Event) -> (handled: bool)
        ensures
            final(self).modules@.len() == old(self).modules@.len(),
    {
        let mut handled: bool = false;
        let n: usize = self.modules.len();
        let mut i: usize = 0;
        while i < n
            invariant
                n == self.modules@.len(),
                n == old(self).modules@.len(),
                i <= n,
            decreases n - i,
        {
            if self.modules[i].process_events(event) {
                handled = true;
            }
            i = i + 1;
        }
        handled
    }

    /// Advance every module by `dt`, in order, stopping at the first
    /// failure.
    pub fn update(&mut self, dt: i64) -> (r: Result<(), ModuleError>)
        ensures
            final(self).modules@.len() == old(self).modules@.len(),
    {
        let n: usize = self.modules.len();
        let mut i: usize = 0;
        while i < n
            invariant
                n == self.modules@.len(),
                n == old(self).modules@.len(),
                i <= n,
            decreases n - i,
        {
            let step: Result<(), ModuleError> = self.modules[i].update(dt);
            if let Err(e) = step {
                return Err(e);
            }
            i = i + 1;
        }
        Ok(())
    }

    /// Draw every module, in order, stopping at the first failure.
    pub fn render(&mut self) -> (r: Result<(), ModuleError>)
        ensures
            final(self).modules@.len() == old(self).modules@.len(),
    {
        let n: usize = self.modules.len();
        let mut i: usize = 0;
        while i < n
            invariant
                n == self.modules@.len(),
                n == old(self).modules@.len(),
                i <= n,
            decreases n - i,
        {
            let step: Result<(), ModuleError> = self.modules[i].render();
            if let Err(e) = step {
                return Err(e);
            }
            i = i + 1;
        }
        Ok(())
    }

    /// The viewport of the first module that reports one; an explicit
    /// not-found answer when none does.
    pub fn find_viewport(&self) -> (r: Option<Viewport>) {
        let n: usize = self.modules.len();
        let mut i: usize = 0;
        while i < n
            invariant
                n == self.modules@.len(),
                i <= n,
            decreases n - i,
        {
            let found: Option<Viewport> = self.modules[i].viewport();
            if let Some(v) = found {
                return Some(v);
            }
            i = i + 1;
        }
        None
    }

    /// Let every module observe a raw platform event.
    pub fn forward_window_event(&mut self, event: &M::RawEvent)
        ensures
            final(self).modules@.len() == old(self).modules@.len(),
    {
        let n: usize = self.modules.len();
        let mut i: usize = 0;
        while i < n
            invariant
                n == self.modules@.len(),
                n == old(self).modules@.len(),
                i <= n,
            decreases n - i,
        {
            self.modules[i].process_window_events(event);
            i = i + 1;
        }
    }
}

} // verus!
