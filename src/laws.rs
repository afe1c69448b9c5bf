//! Properties of the bridge over whole sequences of lifecycle events.
use vstd::prelude::*;

use crate::area::{Event, InitError, InitOutcome, Phase, Request, WgpuArea};
use crate::frame::{foreign_view_spec, plan_spec, Dimensions, Extent3d, RenderPassPlan};

verus! {

/// The bridge after handling `evs` in order, starting from `s`.
pub open spec fn run(s: WgpuArea, evs: Seq<Event>) -> WgpuArea
    decreases evs.len(),
{
    if evs.len() == 0 {
        s
    } else {
        run(s, evs.drop_last()).step(evs.last()).0
    }
}

/// The request answered to the `k`-th event of `evs`.
pub open spec fn request_at(s: WgpuArea, evs: Seq<Event>, k: int) -> Request {
    run(s, evs.take(k)).step(evs[k]).1
}

/// How many adapters the bridge asks for while handling `evs`.
pub open spec fn adapters_requested(s: WgpuArea, evs: Seq<Event>) -> nat
    decreases evs.len(),
{
    if evs.len() == 0 {
        0
    } else {
        adapters_requested(s, evs.drop_last()) + if run(s, evs.drop_last()).step(
            evs.last(),
        ).1 is OpenAdapter {
            1nat
        } else {
            0nat
        }
    }
}

/// The render pass a request asks the host side to draw, if any.
pub open spec fn planned_pass(r: Request) -> Option<RenderPassPlan> {
    match r {
        Request::Render(p) => Some(p),
        Request::Adopt { render, .. } => render,
        _ => None,
    }
}

/// The dimensions of the latest paint request among `evs`.
pub open spec fn latest_paint(evs: Seq<Event>) -> Option<Dimensions>
    decreases evs.len(),
{
    if evs.len() == 0 {
        None
    } else {
        match evs.last() {
            Event::Paint(d) => Some(d),
            _ => latest_paint(evs.drop_last()),
        }
    }
}

pub open spec fn extent_of(d: Dimensions) -> Extent3d {
    Extent3d { width: d.width, height: d.height, depth_or_array_layers: 1 }
}

proof fn lemma_run_prefix(s: WgpuArea, evs: Seq<Event>, k: int)
    requires
        0 <= k < evs.len(),
    ensures
        run(s, evs.take(k + 1)) == run(s, evs.take(k)).step(evs[k]).0,
{
    assert(evs.take(k + 1).drop_last() =~= evs.take(k));
}

proof fn lemma_run_wf(s: WgpuArea, evs: Seq<Event>)
    requires
        s.wf(),
    ensures
        run(s, evs).wf(),
    decreases evs.len(),
{
    if evs.len() > 0 {
        lemma_run_wf(s, evs.drop_last());
        lemma_step_wf(run(s, evs.drop_last()), evs.last());
    }
}

/// Every event keeps the bridge well formed.
pub proof fn lemma_step_wf(s: WgpuArea, e: Event)
    requires
        s.wf(),
    ensures
        s.step(e).0.wf(),
{
}

/// Tearing down twice in a row is the same as tearing down once, and the
/// second teardown asks for nothing. Tearing down a bridge that never held
/// anything changes nothing and asks for nothing. A teardown leaves nothing
/// held, and asks for a release whenever something was.
pub proof fn lemma_teardown_idempotent(s: WgpuArea)
    requires
        s.wf(),
    ensures
        s.step(Event::Unrealize).0.step(Event::Unrealize) == (s.step(Event::Unrealize).0, Request::Nothing),
        s.step(Event::Unrealize).0 == WgpuArea::initial(),
        s.phase !is Uninitialized ==> s.step(Event::Unrealize).1 == Request::Release,
        WgpuArea::initial().step(Event::Unrealize) == (WgpuArea::initial(), Request::Nothing),
{
}

/// Between two teardowns at most one adapter is ever asked for, whatever
/// resize, paint, adapter and submission events arrive; from a fresh bridge
/// that is at most one in all.
pub proof fn lemma_single_adapter_open(s: WgpuArea, evs: Seq<Event>)
    requires
        s.wf(),
        forall|i: int| 0 <= i < evs.len() ==> evs[i] != Event::Unrealize,
    ensures
        s.adapter_opens + adapters_requested(s, evs) == run(s, evs).adapter_opens,
        s.adapter_opens + adapters_requested(s, evs) <= 1,
        s == WgpuArea::initial() ==> adapters_requested(s, evs) <= 1,
    decreases evs.len(),
{
    if evs.len() > 0 {
        let pre = evs.drop_last();
        lemma_single_adapter_open(s, pre);
        lemma_run_wf(s, pre);
        lemma_step_wf(run(s, pre), evs.last());
        lemma_run_wf(s, evs);
    }
}

/// While an adapter is awaited, the frame it will draw is the latest one
/// painted.
proof fn lemma_pending_paint_is_latest(s: WgpuArea, evs: Seq<Event>)
    requires
        s.wf(),
        s.pending_paint() is None,
    ensures
        run(s, evs).pending_paint() is Some ==> run(s, evs).pending_paint() == latest_paint(evs),
    decreases evs.len(),
{
    if evs.len() > 0 {
        lemma_pending_paint_is_latest(s, evs.drop_last());
    }
}

/// Every render pass asked for covers exactly the dimensions of the latest
/// paint request at that point, with one array layer.
pub proof fn lemma_extent_follows_paint(s: WgpuArea, evs: Seq<Event>, k: int)
    requires
        s.wf(),
        s.pending_paint() is None,
        0 <= k < evs.len(),
        planned_pass(request_at(s, evs, k)) is Some,
    ensures
        latest_paint(evs.take(k + 1)) is Some,
        planned_pass(request_at(s, evs, k))->0.extent == extent_of(latest_paint(evs.take(k + 1))->0),
{
    let pre = evs.take(k);
    lemma_pending_paint_is_latest(s, pre);
    assert(evs.take(k + 1).drop_last() =~= pre);
}

/// Every render pass asked for draws through a non-owning view of the host
/// framebuffer that the bridge adopted: no request ever has that framebuffer
/// freed, teardown included.
pub proof fn lemma_foreign_framebuffer_kept(s: WgpuArea, evs: Seq<Event>, k: int)
    requires
        s.wf(),
        0 <= k < evs.len(),
        planned_pass(request_at(s, evs, k)) is Some,
    ensures
        run(s, evs.take(k + 1)).phase is Ready,
        planned_pass(request_at(s, evs, k))->0.color_attachment.view == foreign_view_spec(
            run(s, evs.take(k + 1)).phase->framebuffer,
        ),
        !planned_pass(request_at(s, evs, k))->0.color_attachment.view.source.frees_storage_spec(),
{
    lemma_run_prefix(s, evs, k);
}

/// Events that neither deliver an adapter outcome nor tear the surface down.
pub open spec fn routine(e: Event) -> bool {
    e is Resize || e is Paint || e is Submitted
}

/// A ready bridge stays exactly as it is through any number of resize, paint
/// and submission events: the same adapter and framebuffer are kept, and no
/// adapter is asked for again.
pub proof fn lemma_ready_is_kept(s: WgpuArea, evs: Seq<Event>)
    requires
        s.wf(),
        s.phase is Ready,
        forall|i: int| 0 <= i < evs.len() ==> routine(#[trigger] evs[i]),
    ensures
        run(s, evs) == s,
        adapters_requested(s, evs) == 0,
        forall|k: int| 0 <= k < evs.len() ==> request_at(s, evs, k) != Request::OpenAdapter,
    decreases evs.len(),
{
    if evs.len() > 0 {
        lemma_ready_is_kept(s, evs.drop_last());
        assert forall|k: int| 0 <= k < evs.len() implies request_at(s, evs, k)
            != Request::OpenAdapter by {
            lemma_ready_is_kept(s, evs.take(k));
        }
    }
}

/// Initialization happens once: a first resize asks for the adapter, and once
/// it is adopted, any number of further resizes and paints reuse it. In all,
/// exactly one adapter is asked for.
pub proof fn lemma_lazy_single_init(framebuffer: u32, evs: Seq<Event>)
    requires
        framebuffer != 0,
        forall|i: int| 0 <= i < evs.len() ==> routine(#[trigger] evs[i]),
    ensures
        ({
            let first = WgpuArea::initial().step(Event::Resize);
            let adopted = first.0.step(Event::Opened(InitOutcome::Opened { draw_framebuffer: framebuffer }));
            &&& first.1 == Request::OpenAdapter
            &&& adopted.0.phase == Phase::Ready { framebuffer }
            &&& adopted.0.adapter_opens == 1
            &&& run(adopted.0, evs) == adopted.0
            &&& adapters_requested(adopted.0, evs) == 0
        }),
{
    let adopted = WgpuArea::initial().step(Event::Resize).0.step(
        Event::Opened(InitOutcome::Opened { draw_framebuffer: framebuffer }),
    );
    lemma_ready_is_kept(adopted.0, evs);
}

/// After a fatal initialization error the bridge stays stopped through any
/// number of resize, paint and submission events: it holds no adapter, asks
/// for none, and draws nothing, until the surface is torn down.
pub proof fn lemma_failure_is_kept(s: WgpuArea, evs: Seq<Event>)
    requires
        s.wf(),
        s.failure is Some,
        forall|i: int| 0 <= i < evs.len() ==> routine(#[trigger] evs[i]),
    ensures
        run(s, evs) == s,
        run(s, evs).phase is Uninitialized,
        adapters_requested(s, evs) == 0,
        forall|k: int| 0 <= k < evs.len() ==> request_at(s, evs, k) == Request::Nothing,
    decreases evs.len(),
{
    if evs.len() > 0 {
        lemma_failure_is_kept(s, evs.drop_last());
        assert forall|k: int| 0 <= k < evs.len() implies request_at(s, evs, k)
            == Request::Nothing by {
            lemma_failure_is_kept(s, evs.take(k));
        }
    }
}

/// A resolver that leaves the entry points unresolved is fatal: the bridge
/// holds no adapter, reports the error, and asks for none again until the
/// surface is torn down.
pub proof fn lemma_fatal_init(s: WgpuArea, d: Dimensions)
    requires
        s.wf(),
        s.phase is Opening,
    ensures
        s.step(Event::Opened(InitOutcome::Unresolved)) == (
            WgpuArea { phase: Phase::Uninitialized, failure: Some(InitError::ResolverUnusable), ..s },
            Request::Fail(InitError::ResolverUnusable),
        ),
        s.step(Event::Opened(InitOutcome::Unresolved)).0.step(Event::Paint(d)).1 == Request::Nothing,
        s.step(Event::Opened(InitOutcome::Unresolved)).0.step(Event::Resize).1 == Request::Nothing,
{
}

/// A failed submission is transient: the bridge stays as it was, skips that
/// frame, and draws the next paint request as usual.
pub proof fn lemma_transient_submit_failure(s: WgpuArea, d: Dimensions)
    requires
        s.wf(),
        s.phase is Ready,
        d.drawable(),
    ensures
        s.step(Event::Submitted(false)) == (s, Request::SkipFrame),
        s.step(Event::Submitted(false)).0.step(Event::Paint(d)).1 == Request::Render(
            plan_spec(s.phase->framebuffer, d)->0,
        ),
{
}

} // verus!
