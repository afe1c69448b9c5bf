//! The renderer bridge: a state machine driven by the host's lifecycle callbacks.
use vstd::prelude::*;

use crate::frame::{plan_render_pass, plan_spec, Dimensions, RenderPassPlan};

verus! {

/// Why a surface could not get a renderer. Each of these is fatal for the
/// surface: nothing is retried until the host tears the surface down.
#[derive(Clone, Copy, Debug, PartialEq, Eq, Structural)]
pub enum InitError {
    /// The procedure resolver left required entry points unresolved.
    ResolverUnusable,
    /// The GPU backend refused the host's context.
    AdapterRejected,
    /// No framebuffer was bound as the draw target: the host had not made its
    /// context current.
    NoFramebuffer,
}

/// What the host side found when it tried to open an adapter.
#[derive(Clone, Copy, Debug, PartialEq, Eq, Structural)]
pub enum InitOutcome {
    /// The resolver did not supply the entry points; no adapter was opened.
    Unresolved,
    /// The backend did not open an adapter on the host context.
    Rejected,
    /// An adapter is open, and the host context had `draw_framebuffer` bound
    /// as its draw target (zero: none).
    Opened { draw_framebuffer: u32 },
}

/// Where the bridge stands in its lifecycle.
#[derive(Clone, Copy, Debug, PartialEq, Eq, Structural)]
pub enum Phase {
    /// No adapter is held.
    Uninitialized,
    /// An adapter has been asked for and its outcome is awaited; `paint` holds
    /// the dimensions of the latest paint request since then, if any.
    Opening { paint: Option<Dimensions> },
    /// An adapter is held and the host framebuffer `framebuffer` is adopted.
    Ready { framebuffer: u32 },
}

/// A lifecycle event delivered to the bridge.
#[derive(Clone, Copy, Debug, PartialEq, Eq, Structural)]
pub enum Event {
    /// The host surface changed size.
    Resize,
    /// The host asks for a frame of the given physical dimensions.
    Paint(Dimensions),
    /// The outcome of a [`Request::OpenAdapter`].
    Opened(InitOutcome),
    /// Whether the submission of a [`Request::Render`] succeeded.
    Submitted(bool),
    /// The host surface is being destroyed.
    Unrealize,
}

/// What the host side must do in answer to an event.
#[derive(Clone, Copy, Debug, PartialEq, Eq, Structural)]
pub enum Request {
    Nothing,
    /// Resolve the graphics entry points, open an adapter against the current
    /// host context, read the framebuffer bound as draw target, and report
    /// with [`Event::Opened`].
    OpenAdapter,
    /// Keep the adapter, unbind `framebuffer` from the host context (the id
    /// stays valid), then draw `render` if there is one.
    Adopt { framebuffer: u32, render: Option<RenderPassPlan> },
    /// Open a device and queue with no extra features and default limits,
    /// record and submit this render pass, and report with
    /// [`Event::Submitted`].
    Render(RenderPassPlan),
    /// Drop whatever was opened for this surface and report the error to the
    /// host.
    Fail(InitError),
    /// The frame was submitted: the host may present it.
    Present,
    /// The frame's submission failed: log it and skip presenting this frame.
    SkipFrame,
    /// Drop the device, queue and adapter. The host framebuffer is not
    /// touched.
    Release,
}

/// The state of a renderer bridge for one host surface.
#[derive(Clone, Copy, Debug, PartialEq, Eq, Structural)]
pub struct WgpuArea {
    pub phase: Phase,
    /// The fatal error that stopped this surface from getting a renderer.
    pub failure: Option<InitError>,
    /// How many adapters were asked for since the surface was last torn down.
    pub adapter_opens: u64,
}

/// The error that an adapter outcome reports, if any.
pub open spec fn outcome_error(o: InitOutcome) -> Option<InitError> {
    match o {
        InitOutcome::Unresolved => Some(InitError::ResolverUnusable),
        InitOutcome::Rejected => Some(InitError::AdapterRejected),
        InitOutcome::Opened { draw_framebuffer } => {
            if draw_framebuffer == 0 {
                Some(InitError::NoFramebuffer)
            } else {
                None
            }
        },
    }
}

/// The entry points that the resolver returned are usable: there is at least
/// one, and none of them is null.
pub open spec fn entry_points_usable_spec(addresses: Seq<usize>) -> bool {
    addresses.len() > 0 && forall|i: int| 0 <= i < addresses.len() ==> addresses[i] != 0
}

/// Whether the addresses the resolver gave for the required entry points let
/// an adapter be opened.
pub fn entry_points_usable(addresses: &Vec<usize>) -> (r: bool)
    ensures
        r == entry_points_usable_spec(addresses@),
{
    if addresses.len() == 0 {
        return false;
    }
    let mut i: usize = 0;
    while i < addresses.len()
        invariant
            0 <= i <= addresses@.len(),
            forall|j: int| 0 <= j < i ==> addresses@[j] != 0,
        decreases addresses@.len() - i,
    {
        if addresses[i] == 0 {
            return false;
        }
        i = i + 1;
    }
    true
}

/// The framebuffer id in a draw-framebuffer binding as the context reports it:
/// the same bits read as an unsigned id. Zero stands for no framebuffer; every
/// other value is an id.
pub fn bound_framebuffer(binding: i32) -> (r: u32)
    ensures
        r == binding as u32,
        r == 0 <==> binding == 0,
{
    proof {
        assert((binding as u32 == 0) <==> (binding == 0)) by (bit_vector);
    }
    binding as u32
}

impl Default for WgpuArea {
    fn default() -> (r: WgpuArea)
        ensures
            r == WgpuArea::initial(),
    {
        WgpuArea::new()
    }
}

impl WgpuArea {
    /// A bridge that holds nothing.
    pub open spec fn initial() -> WgpuArea {
        WgpuArea { phase: Phase::Uninitialized, failure: None, adapter_opens: 0 }
    }

    /// The frame awaiting an adapter, if any.
    pub open spec fn pending_paint(self) -> Option<Dimensions> {
        match self.phase {
            Phase::Opening { paint } => paint,
            _ => None,
        }
    }

    /// An adapter is asked for at most once per surface lifetime: exactly when
    /// the bridge has left its initial state, and a failure leaves nothing held.
    pub open spec fn wf(self) -> bool {
        &&& self.adapter_opens <= 1
        &&& (self.adapter_opens == 0 <==> (self.phase is Uninitialized && self.failure is None))
        &&& (self.failure is Some ==> self.phase is Uninitialized)
    }

    /// What every entry point does first: an adapter is asked for
    /// when none is held, none is awaited and no fatal error stopped this
    /// surface.
    pub open spec fn ensure_renderer_spec(self, paint: Option<Dimensions>) -> (WgpuArea, Request) {
        if self.phase is Uninitialized && self.failure is None {
            (
                WgpuArea {
                    phase: Phase::Opening { paint },
                    adapter_opens: (self.adapter_opens + 1) as u64,
                    ..self
                },
                Request::OpenAdapter,
            )
        } else {
            (self, Request::Nothing)
        }
    }

    pub open spec fn resize_spec(self) -> (WgpuArea, Request) {
        self.ensure_renderer_spec(None)
    }

    pub open spec fn render_spec(self, dims: Dimensions) -> (WgpuArea, Request) {
        match self.phase {
            Phase::Ready { framebuffer } => match plan_spec(framebuffer, dims) {
                Some(p) => (self, Request::Render(p)),
                None => (self, Request::Nothing),
            },
            Phase::Opening { .. } => (WgpuArea { phase: Phase::Opening { paint: Some(dims) }, ..self }, Request::Nothing),
            Phase::Uninitialized => self.ensure_renderer_spec(Some(dims)),
        }
    }

    pub open spec fn opened_spec(self, o: InitOutcome) -> (WgpuArea, Request) {
        match self.phase {
            Phase::Opening { paint } => match outcome_error(o) {
                Some(e) => (
                    WgpuArea { phase: Phase::Uninitialized, failure: Some(e), ..self },
                    Request::Fail(e),
                ),
                None => {
                    let framebuffer = o->draw_framebuffer;
                    let render = match paint {
                        Some(d) => plan_spec(framebuffer, d),
                        None => None,
                    };
                    (
                        WgpuArea { phase: Phase::Ready { framebuffer }, ..self },
                        Request::Adopt { framebuffer, render },
                    )
                },
            },
            _ => (self, Request::Nothing),
        }
    }

    pub open spec fn submitted_spec(self, ok: bool) -> (WgpuArea, Request) {
        if self.phase is Ready {
            (self, if ok { Request::Present } else { Request::SkipFrame })
        } else {
            (self, Request::Nothing)
        }
    }

    pub open spec fn unrealize_spec(self) -> (WgpuArea, Request) {
        (
            WgpuArea::initial(),
            if self.phase is Uninitialized { Request::Nothing } else { Request::Release },
        )
    }

    /// The bridge's answer to one event: its next state and the request to the
    /// host side.
    pub open spec fn step(self, e: Event) -> (WgpuArea, Request) {
        match e {
            Event::Resize => self.resize_spec(),
            Event::Paint(d) => self.render_spec(d),
            Event::Opened(o) => self.opened_spec(o),
            Event::Submitted(ok) => self.submitted_spec(ok),
            Event::Unrealize => self.unrealize_spec(),
        }
    }

    /// A bridge for a surface that has not been realized yet.
    pub fn new() -> (r: WgpuArea)
        ensures
            r == WgpuArea::initial(),
            r.wf(),
    {
        WgpuArea { phase: Phase::Uninitialized, failure: None, adapter_opens: 0 }
    }

    /// Whether an adapter is held and the host framebuffer adopted.
    pub fn is_ready(&self) -> (r: bool)
        ensures
            r == self.phase is Ready,
    {
        matches!(self.phase, Phase::Ready { .. })
    }

    fn ensure_renderer(&mut self, paint: Option<Dimensions>) -> (r: Request)
        requires
            old(self).wf(),
        ensures
            (*final(self), r) == old(self).ensure_renderer_spec(paint),
            final(self).wf(),
    {
        if matches!(self.phase, Phase::Uninitialized) && self.failure.is_none() {
            self.phase = Phase::Opening { paint };
            self.adapter_opens = self.adapter_opens + 1;
            Request::OpenAdapter
        } else {
            Request::Nothing
        }
    }

    /// The host surface changed size. The size itself is read again at each
    /// paint; here the bridge only asks for its adapter if it has none yet.
    pub fn resize(&mut self) -> (r: Request)
        requires
            old(self).wf(),
        ensures
            (*final(self), r) == old(self).resize_spec(),
            final(self).wf(),
    {
        self.ensure_renderer(None)
    }

    /// The host asks for a frame of `dims` physical pixels. A ready bridge
    /// answers with the render pass of that frame (none if a side is zero);
    /// one without an adapter asks for it and draws the latest requested
    /// frame once it is adopted.
    pub fn render(&mut self, dims: Dimensions) -> (r: Request)
        requires
            old(self).wf(),
        ensures
            (*final(self), r) == old(self).render_spec(dims),
            final(self).wf(),
    {
        match self.phase {
            Phase::Ready { framebuffer } => match plan_render_pass(framebuffer, dims) {
                Some(p) => Request::Render(p),
                None => Request::Nothing,
            },
            Phase::Opening { .. } => {
                self.phase = Phase::Opening { paint: Some(dims) };
                Request::Nothing
            },
            Phase::Uninitialized => self.ensure_renderer(Some(dims)),
        }
    }

    /// The host reports how opening the adapter went. A failure is recorded
    /// and leaves the bridge without an adapter; success adopts the host
    /// framebuffer and draws the frame asked for meanwhile.
    pub fn renderer_opened(&mut self, outcome: InitOutcome) -> (r: Request)
        requires
            old(self).wf(),
        ensures
            (*final(self), r) == old(self).opened_spec(outcome),
            final(self).wf(),
    {
        match self.phase {
            Phase::Opening { paint } => {
                let err = match outcome {
                    InitOutcome::Unresolved => Some(InitError::ResolverUnusable),
                    InitOutcome::Rejected => Some(InitError::AdapterRejected),
                    InitOutcome::Opened { draw_framebuffer } => {
                        if draw_framebuffer == 0 {
                            Some(InitError::NoFramebuffer)
                        } else {
                            None
                        }
                    },
                };
                match err {
                    Some(e) => {
                        self.phase = Phase::Uninitialized;
                        self.failure = Some(e);
                        Request::Fail(e)
                    },
                    None => {
                        let framebuffer = match outcome {
                            InitOutcome::Opened { draw_framebuffer } => draw_framebuffer,
                            _ => 0,
                        };
                        let render = match paint {
                            Some(d) => plan_render_pass(framebuffer, d),
                            None => None,
                        };
                        self.phase = Phase::Ready { framebuffer };
                        Request::Adopt { framebuffer, render }
                    },
                }
            },
            _ => Request::Nothing,
        }
    }

    /// The host reports whether the frame's submission succeeded. Either way
    /// the bridge stays as it is, ready for the next frame.
    pub fn submitted(&self, ok: bool) -> (r: Request)
        ensures
            (*self, r) == self.submitted_spec(ok),
    {
        if matches!(self.phase, Phase::Ready { .. }) {
            if ok {
                Request::Present
            } else {
                Request::SkipFrame
            }
        } else {
            Request::Nothing
        }
    }

    /// The host surface is being destroyed: whatever is held is released and
    /// the bridge starts over. On a bridge that holds nothing this changes
    /// nothing and asks for nothing.
    pub fn unrealize(&mut self) -> (r: Request)
        ensures
            (*final(self), r) == old(self).unrealize_spec(),
            final(self).wf(),
    {
        let r = if matches!(self.phase, Phase::Uninitialized) {
            Request::Nothing
        } else {
            Request::Release
        };
        *self = WgpuArea::new();
        r
    }

    /// Hands one event to the bridge.
    pub fn handle(&mut self, e: Event) -> (r: Request)
        requires
            old(self).wf(),
        ensures
            (*final(self), r) == old(self).step(e),
            final(self).wf(),
    {
        match e {
            Event::Resize => self.resize(),
            Event::Paint(d) => self.render(d),
            Event::Opened(o) => self.renderer_opened(o),
            Event::Submitted(ok) => self.submitted(ok),
            Event::Unrealize => self.unrealize(),
        }
    }
}

} // verus!
