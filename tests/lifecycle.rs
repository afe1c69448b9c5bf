use wgpu_area::area::{
    bound_framebuffer, entry_points_usable, Event, InitError, InitOutcome, Phase, Request, WgpuArea,
};
use wgpu_area::frame::{
    get_dimensions, plan_render_pass, ClearColor, Dimensions, Extent3d, LoadOp, PixelFormat,
    RenderPassPlan, StoreOp, TargetSource, TargetUsage, ViewDimension,
};

fn dims(width: u32, height: u32) -> Dimensions {
    Dimensions { width, height }
}

fn ready_area(framebuffer: u32) -> WgpuArea {
    let mut area = WgpuArea::new();
    assert_eq!(area.resize(), Request::OpenAdapter);
    let r = area.renderer_opened(InitOutcome::Opened { draw_framebuffer: framebuffer });
    assert_eq!(r, Request::Adopt { framebuffer, render: None });
    area
}

fn pass_of(r: Request) -> RenderPassPlan {
    match r {
        Request::Render(p) => p,
        other => panic!("expected a render pass, got {:?}", other),
    }
}

#[test]
fn realize_resize_paint_draws_one_pass() {
    let mut area = WgpuArea::default();
    let d = get_dimensions(800, 600, 1);
    assert_eq!(d, dims(800, 600));
    let p = pass_of({
        let _ = area.resize();
        let _ = area.renderer_opened(InitOutcome::Opened { draw_framebuffer: 3 });
        area.render(d)
    });
    assert_eq!(p.extent, Extent3d { width: 800, height: 600, depth_or_array_layers: 1 });
    assert_eq!(p.sample_count, 1);
    let a = p.color_attachment;
    assert_eq!(a.load, LoadOp::Clear(ClearColor { r: 0, g: 0, b: 255, a: 255 }));
    assert_eq!(a.store, StoreOp::Store);
    assert_eq!(a.view.source, TargetSource::Foreign { framebuffer: 3 });
    assert_eq!(a.view.format, PixelFormat::Rgba8UnormSrgb);
    assert_eq!(a.view.dimension, ViewDimension::D2);
    assert_eq!(a.view.usage, TargetUsage::ColorTarget);
    assert!(!p.depth_stencil);
    assert!(!p.multiview);
    assert!(!p.occlusion_query);
}

#[test]
fn teardown_twice_and_on_fresh_bridge() {
    let mut fresh = WgpuArea::new();
    assert_eq!(fresh.unrealize(), Request::Nothing);
    assert_eq!(fresh, WgpuArea::new());

    let mut area = ready_area(5);
    assert_eq!(area.unrealize(), Request::Release);
    assert_eq!(area, WgpuArea::new());
    assert_eq!(area.unrealize(), Request::Nothing);
    assert_eq!(area, WgpuArea::new());
}

#[test]
fn teardown_while_opening_releases() {
    let mut area = WgpuArea::new();
    assert_eq!(area.render(dims(10, 10)), Request::OpenAdapter);
    assert_eq!(area.unrealize(), Request::Release);
    assert_eq!(area.adapter_opens, 0);
}

#[test]
fn many_resizes_then_paint_open_one_adapter() {
    let mut area = WgpuArea::new();
    let mut opens = 0;
    for _ in 0..5 {
        if area.handle(Event::Resize) == Request::OpenAdapter {
            opens += 1;
        }
    }
    let r = area.handle(Event::Opened(InitOutcome::Opened { draw_framebuffer: 1 }));
    assert!(matches!(r, Request::Adopt { .. }));
    for _ in 0..3 {
        if area.handle(Event::Resize) == Request::OpenAdapter {
            opens += 1;
        }
    }
    let r = area.handle(Event::Paint(dims(64, 32)));
    assert!(matches!(r, Request::Render(_)));
    assert_eq!(opens, 1);
    assert_eq!(area.adapter_opens, 1);
}

#[test]
fn paint_before_adapter_draws_latest_dimensions() {
    let mut area = WgpuArea::new();
    assert_eq!(area.render(dims(100, 100)), Request::OpenAdapter);
    assert_eq!(area.render(dims(200, 150)), Request::Nothing);
    assert_eq!(area.resize(), Request::Nothing);
    let r = area.renderer_opened(InitOutcome::Opened { draw_framebuffer: 9 });
    match r {
        Request::Adopt { framebuffer, render: Some(p) } => {
            assert_eq!(framebuffer, 9);
            assert_eq!(p.extent, Extent3d { width: 200, height: 150, depth_or_array_layers: 1 });
        }
        other => panic!("unexpected {:?}", other),
    }
    assert_eq!(area.adapter_opens, 1);
}

#[test]
fn extent_follows_each_paint() {
    let mut area = ready_area(2);
    for (w, h) in [(100u32, 100u32), (200, 150), (50, 50)] {
        let _ = area.resize();
        let p = pass_of(area.render(dims(w, h)));
        assert_eq!(p.extent, Extent3d { width: w, height: h, depth_or_array_layers: 1 });
        assert_eq!(area.submitted(true), Request::Present);
    }
}

#[test]
fn zero_sized_frame_is_skipped() {
    let mut area = ready_area(2);
    assert_eq!(area.render(dims(0, 600)), Request::Nothing);
    assert_eq!(area.render(dims(800, 0)), Request::Nothing);
    assert_eq!(plan_render_pass(2, dims(0, 0)), None);
    assert!(area.is_ready());
}

#[test]
fn foreign_framebuffer_never_freed() {
    let mut area = ready_area(42);
    for i in 1..4u32 {
        let p = pass_of(area.render(dims(i * 10, i * 20)));
        assert_eq!(p.color_attachment.view.source, TargetSource::Foreign { framebuffer: 42 });
        assert!(!p.color_attachment.view.source.frees_storage());
    }
    assert_eq!(area.unrealize(), Request::Release);
    assert!(TargetSource::Owned.frees_storage());
}

#[test]
fn unresolved_entry_points_are_fatal() {
    let nulls: Vec<usize> = vec![0, 0, 0];
    assert!(!entry_points_usable(&nulls));
    let mut area = WgpuArea::new();
    assert_eq!(area.render(dims(10, 10)), Request::OpenAdapter);
    let r = area.renderer_opened(InitOutcome::Unresolved);
    assert_eq!(r, Request::Fail(InitError::ResolverUnusable));
    assert_eq!(area.phase, Phase::Uninitialized);
    assert!(!area.is_ready());
    assert_eq!(area.render(dims(10, 10)), Request::Nothing);
    assert_eq!(area.resize(), Request::Nothing);
    assert_eq!(area.unrealize(), Request::Nothing);
    assert_eq!(area.resize(), Request::OpenAdapter);
}

#[test]
fn rejected_adapter_is_fatal() {
    let mut area = WgpuArea::new();
    let _ = area.resize();
    assert_eq!(area.renderer_opened(InitOutcome::Rejected), Request::Fail(InitError::AdapterRejected));
    assert_eq!(area.failure, Some(InitError::AdapterRejected));
}

#[test]
fn missing_framebuffer_is_fatal() {
    let mut area = WgpuArea::new();
    let _ = area.resize();
    let r = area.renderer_opened(InitOutcome::Opened { draw_framebuffer: 0 });
    assert_eq!(r, Request::Fail(InitError::NoFramebuffer));
    assert_eq!(area.phase, Phase::Uninitialized);
}

#[test]
fn failed_submission_is_transient() {
    let mut area = ready_area(4);
    let _ = pass_of(area.render(dims(30, 30)));
    assert_eq!(area.submitted(false), Request::SkipFrame);
    assert!(area.is_ready());
    let p = pass_of(area.render(dims(30, 30)));
    assert_eq!(p.extent.width, 30);
    assert_eq!(area.submitted(true), Request::Present);
}

#[test]
fn stray_events_ask_for_nothing() {
    let mut area = WgpuArea::new();
    assert_eq!(area.submitted(true), Request::Nothing);
    assert_eq!(area.renderer_opened(InitOutcome::Opened { draw_framebuffer: 1 }), Request::Nothing);
    assert_eq!(area, WgpuArea::new());
}

#[test]
fn pixel_dimensions_scale_and_clamp() {
    assert_eq!(get_dimensions(400, 300, 2), dims(800, 600));
    assert_eq!(get_dimensions(-5, 7, 3), dims(0, 21));
    assert_eq!(get_dimensions(i32::MAX, 1, i32::MAX), dims(u32::MAX, i32::MAX as u32));
    assert_eq!(get_dimensions(i32::MIN, i32::MIN, 1), dims(0, 0));
}

#[test]
fn framebuffer_binding_values() {
    assert_eq!(bound_framebuffer(7), 7);
    assert_eq!(bound_framebuffer(0), 0);
    assert_eq!(bound_framebuffer(-1), u32::MAX);
    assert_eq!(bound_framebuffer(i32::MIN), 0x8000_0000);
}

#[test]
fn negative_binding_is_adopted() {
    let mut area = WgpuArea::new();
    assert_eq!(area.resize(), Request::OpenAdapter);
    let fb = bound_framebuffer(-2);
    let r = area.renderer_opened(InitOutcome::Opened { draw_framebuffer: fb });
    assert_eq!(r, Request::Adopt { framebuffer: u32::MAX - 1, render: None });
    assert_eq!(area.phase, Phase::Ready { framebuffer: u32::MAX - 1 });
}

#[test]
fn entry_point_probe() {
    assert!(entry_points_usable(&vec![1, 2, 3]));
    assert!(!entry_points_usable(&vec![1, 0, 3]));
    assert!(!entry_points_usable(&Vec::new()));
}
