//! The render module's engine-side core: the viewport configuration, the
//! camera controller, and the pending redraw request. The windowing and
//! GPU layer around it owns the native surface; it forwards events and
//! elapsed time here, and performs one redraw whenever
//! [`RendererState::take_redraw_request`] answers true.

use vstd::prelude::*;
use crate::camera::{process_spec, recognized, update_spec, CameraController, Projection, DT_MAX};
use crate::event::Event;
use crate::viewport::{resize_spec, Viewport};

verus! {

/// The verified state of the render module.
pub struct RendererState {
    pub viewport: Viewport,
    pub camera_controller: CameraController,
    pub redraw_requested: bool,
}

/// How one event changes the renderer: the camera consumes what it
/// recognizes; an accepted resize reconfigures the viewport and the
/// projection and asks for a redraw; a redraw event asks for a redraw.
pub open spec fn renderer_process_spec(r: RendererState, event: Event) -> RendererState {
    let stepped = RendererState {
        camera_controller: process_spec(r.camera_controller, event),
        ..r
    };
    match event {
        Event::Resize { width, height } => {
            if width > 0 && height > 0 {
                RendererState {
                    viewport: resize_spec(stepped.viewport, width, height),
                    camera_controller: CameraController {
                        projection: Projection {
                            width,
                            height,
                            ..stepped.camera_controller.projection
                        },
                        ..stepped.camera_controller
                    },
                    redraw_requested: true,
                }
            } else {
                stepped
            }
        },
        Event::Redraw => RendererState { redraw_requested: true, ..stepped },
        _ => stepped,
    }
}

impl RendererState {
    pub open spec fn wf(&self) -> bool {
        self.viewport.wf() && self.camera_controller.wf()
    }

    pub fn new(viewport: Viewport, camera_controller: CameraController) -> (r: RendererState)
        requires
            viewport.wf(),
            camera_controller.wf(),
        ensures
            r.wf(),
            r.viewport == viewport,
            r.camera_controller == camera_controller,
            !r.redraw_requested,
    {
        RendererState { viewport, camera_controller, redraw_requested: false }
    }

    /// Consume one event. A rejected resize (a zero dimension) touches
    /// nothing, so the surface configuration is never invalidated.
    pub fn process_events(&mut self, event: Event) -> (consumed: bool)
        requires
            old(self).wf(),
        ensures
            consumed == recognized(event),
            *final(self) == renderer_process_spec(*old(self), event),
            final(self).wf(),
    {
        let consumed: bool = self.camera_controller.process_events(event);
        match event {
            Event::Resize { width, height } => {
                if width > 0 && height > 0 {
                    self.viewport.resize(width, height);
                    self.camera_controller.resize(width, height);
                    self.redraw_requested = true;
                }
            },
            Event::Redraw => {
                self.redraw_requested = true;
            },
            _ => {},
        }
        consumed
    }

    /// Advance the camera by `dt` fixed-point seconds.
    pub fn update(&mut self, dt: i64)
        requires
            old(self).wf(),
            0 <= dt <= DT_MAX,
        ensures
            final(self).wf(),
            final(self).camera_controller == update_spec(old(self).camera_controller, dt as int),
            final(self).viewport == old(self).viewport,
            final(self).redraw_requested == old(self).redraw_requested,
    {
        self.camera_controller.update(dt);
    }

    /// Whether a redraw is pending; asking clears the request.
    pub fn take_redraw_request(&mut self) -> (requested: bool)
        ensures
            requested == old(self).redraw_requested,
            !final(self).redraw_requested,
            final(self).viewport == old(self).viewport,
            final(self).camera_controller == old(self).camera_controller,
    {
        let requested: bool = self.redraw_requested;
        self.redraw_requested = false;
        requested
    }
}

} // verus!
