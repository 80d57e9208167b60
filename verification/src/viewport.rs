//! The viewport: the engine-side configuration of the presentation
//! surface. It owns the chosen pixel format, presentation mode and size;
//! the native surface itself lives with the windowing layer, which applies
//! this configuration after every accepted change.
//!
//! While live, both dimensions stay positive: a resize request with a zero
//! dimension is dropped without touching the configuration, so the surface
//! is never reconfigured to an invalid size.

use vstd::prelude::*;
use crate::voxel::Color;

verus! {

/// A pixel format the surface offers: an opaque identifier plus whether
/// the format is sRGB-capable.
#[derive(Debug, Clone, Copy, PartialEq, Eq, Structural)]
pub struct SurfaceFormat {
    pub id: u32,
    pub srgb: bool,
}

/// A presentation mode the surface offers.
#[derive(Debug, Clone, Copy, PartialEq, Eq, Structural)]
pub enum PresentMode {
    AutoVsync,
    AutoNoVsync,
    Fifo,
    FifoRelaxed,
    Immediate,
    Mailbox,
}

/// Why acquiring a presentable target failed.
#[derive(Debug, Clone, Copy, PartialEq, Eq, Structural)]
pub enum SurfaceError {
    /// Acquisition took too long.
    Timeout,
    /// The surface no longer matches the window; it must be reconfigured.
    Outdated,
    /// The surface was lost.
    Lost,
    /// The device is out of memory.
    OutOfMemory,
}

/// What the frame driver does about a failed acquisition.
#[derive(Debug, Clone, Copy, PartialEq, Eq, Structural)]
pub enum FrameRecovery {
    /// Reconfigure the surface and retry next tick.
    Reconfigure,
    /// Drop this frame and carry on next tick.
    SkipFrame,
    /// Initiate an orderly shutdown.
    Shutdown,
}

/// First sRGB-capable slot among `formats` from `i` on.
pub open spec fn find_srgb(formats: Seq<SurfaceFormat>, i: int) -> Option<int>
    decreases formats.len() - i,
{
    if i < 0 || i >= formats.len() {
        None
    } else if formats[i].srgb {
        Some(i)
    } else {
        find_srgb(formats, i + 1)
    }
}

/// The format policy: the first sRGB-capable format, else the first
/// offered one.
pub open spec fn chosen_format(formats: Seq<SurfaceFormat>) -> SurfaceFormat {
    match find_srgb(formats, 0) {
        Some(i) => formats[i],
        None => formats[0],
    }
}

/// The presentation-mode policy: low-latency immediate mode when offered,
/// else the first offered one.
pub open spec fn chosen_mode(modes: Seq<PresentMode>) -> PresentMode {
    if modes.contains(PresentMode::Immediate) {
        PresentMode::Immediate
    } else {
        modes[0]
    }
}

/// How an accepted or dropped resize changes the configuration: a request
/// with a zero dimension leaves it untouched.
pub open spec fn resize_spec(v: Viewport, width: u32, height: u32) -> Viewport {
    if width == 0 || height == 0 {
        v
    } else {
        Viewport { width, height, ..v }
    }
}

/// The policy applied to a failed acquisition: an outdated surface is
/// reconfigured and retried, device memory exhaustion shuts the engine
/// down, and any other failure drops the single frame.
pub open spec fn recovery_spec(e: SurfaceError) -> FrameRecovery {
    match e {
        SurfaceError::Outdated => FrameRecovery::Reconfigure,
        SurfaceError::OutOfMemory => FrameRecovery::Shutdown,
        _ => FrameRecovery::SkipFrame,
    }
}

/// What a viewport is created from: the clear color behind the scene.
/// The native window and surface stay with the windowing layer.
#[derive(Debug, Clone, Copy, PartialEq, Eq, Structural)]
pub struct ViewportDesc {
    pub background: Color,
}

/// The engine-side configuration of the presentation surface.
#[derive(Debug, Clone, Copy, PartialEq, Eq, Structural)]
pub struct Viewport {
    pub background: Color,
    pub width: u32,
    pub height: u32,
    pub format: SurfaceFormat,
    pub present_mode: PresentMode,
}

impl ViewportDesc {
    pub fn new(background: Color) -> (d: ViewportDesc)
        ensures
            d.background == background,
    {
        ViewportDesc { background }
    }

    /// Choose a configuration from what the surface offers, sized to the
    /// window's current physical size.
    pub fn build(
        self,
        formats: &Vec<SurfaceFormat>,
        modes: &Vec<PresentMode>,
        width: u32,
        height: u32,
    ) -> (v: Viewport)
        requires
            formats@.len() > 0,
            modes@.len() > 0,
            width > 0,
            height > 0,
        ensures
            v.wf(),
            v.background == self.background,
            v.width == width,
            v.height == height,
            v.format == chosen_format(formats@),
            v.present_mode == chosen_mode(modes@),
    {
        let n: usize = formats.len();
        let mut i: usize = 0;
        let mut format: SurfaceFormat = formats[0];
        let mut found: bool = false;
        while i < n && !found
            invariant
                n == formats@.len() > 0,
                i <= n,
                !found ==> find_srgb(formats@, 0) == find_srgb(formats@, i as int),
                !found ==> format == formats@[0],
                found ==> find_srgb(formats@, 0) == Some(i as int) && format == formats@[i as int],
            decreases n - i + (if found { 0int } else { 1int }),
        {
            if formats[i].srgb {
                format = formats[i];
                found = true;
            } else {
                i = i + 1;
            }
        }

        let m: usize = modes.len();
        let mut j: usize = 0;
        let mut immediate: bool = false;
        while j < m
            invariant
                m == modes@.len(),
                j <= m,
                immediate == exists|k: int| 0 <= k < j && modes@[k] == PresentMode::Immediate,
            decreases m - j,
        {
            if matches!(modes[j], PresentMode::Immediate) {
                immediate = true;
            }
            j = j + 1;
        }
        let present_mode: PresentMode = if immediate {
            PresentMode::Immediate
        } else {
            modes[0]
        };

        Viewport { background: self.background, width, height, format, present_mode }
    }
}

impl Viewport {
    /// Both dimensions are positive while the viewport is live.
    pub open spec fn wf(&self) -> bool {
        self.width > 0 && self.height > 0
    }

    /// Apply a resize request. A request with a zero dimension is dropped
    /// without reconfiguring; an accepted request only changes the size.
    pub fn resize(&mut self, width: u32, height: u32)
        requires
            old(self).wf(),
        ensures
            *final(self) == resize_spec(*old(self), width, height),
            final(self).wf(),
    {
        if width > 0 && height > 0 {
            self.width = width;
            self.height = height;
        }
    }

    /// Decide how to recover from a failed frame acquisition.
    pub fn classify_acquire_error(&self, e: SurfaceError) -> (r: FrameRecovery)
        ensures
            r == recovery_spec(e),
    {
        match e {
            SurfaceError::Outdated => FrameRecovery::Reconfigure,
            SurfaceError::OutOfMemory => FrameRecovery::Shutdown,
            SurfaceError::Timeout => FrameRecovery::SkipFrame,
            SurfaceError::Lost => FrameRecovery::SkipFrame,
        }
    }
}

/// Dropping a resize request with a zero dimension leaves the whole
/// configuration unchanged.
pub proof fn lemma_resize_zero_noop(v: Viewport, width: u32, height: u32)
    requires
        width == 0 || height == 0,
    ensures
        resize_spec(v, width, height) == v,
{
}

/// Resizing is idempotent: applying the same request twice yields the
/// same viewport as applying it once.
pub proof fn lemma_resize_idempotent(v: Viewport, width: u32, height: u32)
    ensures
        resize_spec(resize_spec(v, width, height), width, height) == resize_spec(
            v,
            width,
            height,
        ),
{
}

} // verus!
