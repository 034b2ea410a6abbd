use vstd::prelude::*;
use crate::clock::{Elapsed, max_nanos};
use crate::frame::{AcquireOutcome, FrameAction};
use crate::surface::SurfaceConfig;

verus! {

/// The abstract render state: the applied surface configuration and the
/// time, in nanoseconds, that the uniform holds.
pub struct RenderModel {
    pub config: SurfaceConfig,
    pub time: nat,
}

impl RenderModel {
    pub open spec fn wf(self) -> bool {
        self.config.wf()
    }

    /// After a resize request to `(w, h)`.
    pub open spec fn resized(self, w: u32, h: u32) -> RenderModel {
        RenderModel { config: self.config.resized(w, h), ..self }
    }

    /// After an update by `dt` nanoseconds.
    pub open spec fn updated(self, dt: nat) -> RenderModel {
        RenderModel { time: self.time + dt, ..self }
    }

    /// After updates by each of `deltas` in turn.
    pub open spec fn updated_all(self, deltas: Seq<Elapsed>) -> RenderModel
        decreases deltas.len(),
    {
        if deltas.len() == 0 {
            self
        } else {
            self.updated_all(deltas.drop_last()).updated(deltas.last().nanos())
        }
    }

    /// What becomes of a frame whose texture request gave `outcome`.
    pub open spec fn frame_action(self, outcome: AcquireOutcome) -> FrameAction {
        match outcome {
            AcquireOutcome::Acquired => FrameAction::Draw,
            AcquireOutcome::Lost => FrameAction::Reconfigure {
                width: self.config.width,
                height: self.config.height,
            },
            AcquireOutcome::OutOfMemory => FrameAction::Terminate,
            AcquireOutcome::Outdated => FrameAction::Skip,
            AcquireOutcome::Timeout => FrameAction::Skip,
        }
    }
}

/// The sum of a sequence of spans, in nanoseconds.
pub open spec fn sum_nanos(deltas: Seq<Elapsed>) -> nat
    decreases deltas.len(),
{
    if deltas.len() == 0 {
        0
    } else {
        sum_nanos(deltas.drop_last()) + deltas.last().nanos()
    }
}

/// The render logic's state: the surface configuration and the time since
/// the state was created, which the time uniform carries.
pub struct RenderState {
    config: SurfaceConfig,
    time: Elapsed,
}

impl View for RenderState {
    type V = RenderModel;

    closed spec fn view(&self) -> RenderModel {
        RenderModel { config: self.config, time: self.time.nanos() }
    }
}

impl RenderState {
    pub closed spec fn wf(&self) -> bool {
        self.config.wf() && self.time.wf()
    }

    /// A state for a surface of the given extent, at time zero; `None` when
    /// either dimension is zero.
    pub fn new(width: u32, height: u32) -> (r: Option<RenderState>)
        ensures
            r.is_some() <==> width > 0 && height > 0,
            r.is_some() ==> r.unwrap().wf() && r.unwrap()@.time == 0
                && r.unwrap()@.config == (SurfaceConfig {
                    width,
                    height,
                    present_mode: crate::surface::PresentMode::Fifo,
                }),
    {
        match SurfaceConfig::new(width, height) {
            Some(config) => Some(RenderState { config, time: Elapsed::zero() }),
            None => None,
        }
    }

    /// The applied surface configuration.
    pub fn config(&self) -> (r: SurfaceConfig)
        requires
            self.wf(),
        ensures
            r == self@.config,
            r.wf(),
    {
        self.config
    }

    /// The time the uniform holds.
    pub fn time(&self) -> (r: Elapsed)
        requires
            self.wf(),
        ensures
            r.wf(),
            r.nanos() == self@.time,
    {
        self.time
    }

    /// Applies a resize request: a positive extent is stored and returned
    /// true, meaning the surface must be configured again before the next
    /// frame; an extent with a zero dimension is ignored.
    pub fn resize(&mut self, width: u32, height: u32) -> (applied: bool)
        requires
            old(self).wf(),
        ensures
            final(self).wf(),
            final(self)@.wf(),
            final(self)@ == old(self)@.resized(width, height),
            applied == (width > 0 && height > 0),
    {
        self.config.resize(width, height)
    }

    /// Advances the time by `dt`, the span since the previous frame. The
    /// total must stay representable.
    pub fn update(&mut self, dt: Elapsed)
        requires
            old(self).wf(),
            dt.wf(),
            old(self)@.time + dt.nanos() <= max_nanos(),
        ensures
            final(self).wf(),
            final(self)@ == old(self)@.updated(dt.nanos()),
    {
        match self.time.checked_add(&dt) {
            Some(t) => {
                self.time = t;
            },
            None => {},
        }
    }

    /// Whether `update(dt)` can be applied without the time overflowing.
    pub fn can_update(&self, dt: Elapsed) -> (r: bool)
        requires
            self.wf(),
            dt.wf(),
        ensures
            r == (self@.time + dt.nanos() <= max_nanos()),
    {
        self.time.checked_add(&dt).is_some()
    }

    /// Decides what the frame does after asking the surface for a texture:
    /// draw and present it; on a lost surface present nothing and configure
    /// it again at the stored extent; on exhausted memory end; otherwise
    /// drop the frame. The state is not changed.
    pub fn frame_action(&self, outcome: AcquireOutcome) -> (r: FrameAction)
        ensures
            r == self@.frame_action(outcome),
    {
        match outcome {
            AcquireOutcome::Acquired => FrameAction::Draw,
            AcquireOutcome::Lost => FrameAction::Reconfigure {
                width: self.config.width,
                height: self.config.height,
            },
            AcquireOutcome::OutOfMemory => FrameAction::Terminate,
            AcquireOutcome::Outdated => FrameAction::Skip,
            AcquireOutcome::Timeout => FrameAction::Skip,
        }
    }
}

/// A resize to a positive extent stores exactly that extent; one with a
/// zero dimension leaves the state unchanged. Either way the configuration
/// stays non-empty.
pub proof fn lemma_resize_stores_or_ignores(m: RenderModel, w: u32, h: u32)
    requires
        m.wf(),
    ensures
        m.resized(w, h).wf(),
        w > 0 && h > 0 ==> m.resized(w, h).config.width == w && m.resized(w, h).config.height == h,
        !(w > 0 && h > 0) ==> m.resized(w, h) == m,
{
}

/// After a run of updates, the time has grown by exactly the sum of the
/// spans handed in; the configuration is untouched.
pub proof fn lemma_updates_sum(m: RenderModel, deltas: Seq<Elapsed>)
    ensures
        m.updated_all(deltas).time == m.time + sum_nanos(deltas),
        m.updated_all(deltas).config == m.config,
    decreases deltas.len(),
{
    if deltas.len() > 0 {
        lemma_updates_sum(m, deltas.drop_last());
    }
}

/// Every acquired texture is drawn, whatever came before.
pub proof fn lemma_acquired_draws(m: RenderModel)
    ensures
        m.frame_action(AcquireOutcome::Acquired) == FrameAction::Draw,
{
}

/// A lost surface presents nothing and is configured again at the most
/// recent positive extent that a resize stored.
pub proof fn lemma_lost_reconfigures_latest(m: RenderModel, w: u32, h: u32)
    requires
        m.wf(),
        w > 0,
        h > 0,
    ensures
        m.resized(w, h).frame_action(AcquireOutcome::Lost) == (FrameAction::Reconfigure { width: w, height: h }),
        m.frame_action(AcquireOutcome::Lost) == (FrameAction::Reconfigure {
            width: m.config.width,
            height: m.config.height,
        }),
        m.frame_action(AcquireOutcome::Lost) != FrameAction::Draw,
{
}

} // verus!
