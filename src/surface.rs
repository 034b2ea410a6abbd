use vstd::prelude::*;

verus! {

/// How presentation is paced. Only vsync-locked first-in-first-out
/// presentation is used by this renderer.
#[derive(Clone, Copy, Debug, PartialEq, Eq, Structural)]
pub enum PresentMode {
    Fifo,
}

/// The part of the surface configuration that the render logic decides:
/// its extent in pixels and its presentation mode.
#[derive(Clone, Copy, Debug, PartialEq, Eq, Structural)]
pub struct SurfaceConfig {
    pub width: u32,
    pub height: u32,
    pub present_mode: PresentMode,
}

impl SurfaceConfig {
    /// A configuration may be applied only with a non-zero extent.
    pub open spec fn wf(&self) -> bool {
        self.width > 0 && self.height > 0
    }

    /// The configuration after a resize request to `(w, h)`: applied when
    /// both dimensions are positive, ignored otherwise.
    pub open spec fn resized(self, w: u32, h: u32) -> SurfaceConfig {
        if w > 0 && h > 0 {
            SurfaceConfig { width: w, height: h, ..self }
        } else {
            self
        }
    }

    /// A FIFO configuration of the given extent; `None` when either
    /// dimension is zero, since a surface is never configured empty.
    pub fn new(width: u32, height: u32) -> (r: Option<SurfaceConfig>)
        ensures
            width > 0 && height > 0 <==> r.is_some(),
            r.is_some() ==> r.unwrap().wf() && r.unwrap().width == width
                && r.unwrap().height == height && r.unwrap().present_mode == PresentMode::Fifo,
    {
        if width > 0 && height > 0 {
            Some(SurfaceConfig { width, height, present_mode: PresentMode::Fifo })
        } else {
            None
        }
    }

    /// Applies a resize request. Returns whether it was applied, that is
    /// whether the surface must be configured again.
    pub fn resize(&mut self, width: u32, height: u32) -> (applied: bool)
        requires
            old(self).wf(),
        ensures
            *final(self) == old(self).resized(width, height),
            final(self).wf(),
            applied == (width > 0 && height > 0),
    {
        if width > 0 && height > 0 {
            self.width = width;
            self.height = height;
            true
        } else {
            false
        }
    }
}

} // verus!
