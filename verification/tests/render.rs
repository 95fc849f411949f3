//! The renderer and its worker.
use buffr::render::{
    adapter_request, pick_composite_alpha, pick_present_mode, pick_surface_format, AcquireStep,
    Acquired, AdapterRequest, CompositeAlphaMode, Delivery, FrameStats, OsrTexture, OsrUpload,
    PresentMode, Renderer, ResizeStep, Submitted, SurfaceFormat, Teardown, WorkerState,
    MAX_RECONFIGURES,
};

#[test]
fn osr_path_prefers_opaque_when_available() {
    let advertised = vec![
        CompositeAlphaMode::PreMultiplied,
        CompositeAlphaMode::PostMultiplied,
        CompositeAlphaMode::Opaque,
        CompositeAlphaMode::Auto,
    ];
    assert_eq!(pick_composite_alpha(&advertised, false), CompositeAlphaMode::Opaque);
}

#[test]
fn native_path_prefers_premultiplied_for_subsurface_transparency() {
    let advertised = vec![
        CompositeAlphaMode::Opaque,
        CompositeAlphaMode::PreMultiplied,
        CompositeAlphaMode::PostMultiplied,
        CompositeAlphaMode::Auto,
    ];
    assert_eq!(pick_composite_alpha(&advertised, true), CompositeAlphaMode::PreMultiplied);
}

#[test]
fn osr_path_falls_through_priority_when_opaque_missing() {
    let advertised = vec![CompositeAlphaMode::PreMultiplied, CompositeAlphaMode::Auto];
    assert_eq!(pick_composite_alpha(&advertised, false), CompositeAlphaMode::Auto);
}

#[test]
fn native_path_falls_through_to_opaque_when_blended_missing() {
    let advertised = vec![CompositeAlphaMode::Opaque];
    assert_eq!(pick_composite_alpha(&advertised, true), CompositeAlphaMode::Opaque);
}

#[test]
fn empty_advertised_falls_back_to_opaque() {
    assert_eq!(pick_composite_alpha(&vec![], false), CompositeAlphaMode::Opaque);
    assert_eq!(pick_composite_alpha(&vec![], true), CompositeAlphaMode::Opaque);
}

#[test]
fn a_mode_that_is_never_wanted_is_never_picked() {
    let advertised = vec![CompositeAlphaMode::Inherit];
    assert_eq!(pick_composite_alpha(&advertised, true), CompositeAlphaMode::Opaque);
}

#[test]
fn present_modes_have_an_order() {
    assert_eq!(
        pick_present_mode(&vec![PresentMode::Fifo, PresentMode::Immediate, PresentMode::Mailbox]),
        PresentMode::Mailbox
    );
    assert_eq!(
        pick_present_mode(&vec![PresentMode::Fifo, PresentMode::Immediate]),
        PresentMode::Immediate
    );
    assert_eq!(pick_present_mode(&vec![PresentMode::AutoVsync]), PresentMode::Fifo);
}

#[test]
fn the_first_bgra_format_is_picked() {
    let formats = vec![
        SurfaceFormat::Other(1),
        SurfaceFormat::Bgra8Unorm,
        SurfaceFormat::Bgra8Unorm,
    ];
    assert_eq!(pick_surface_format(&formats), 1);
    assert_eq!(pick_surface_format(&vec![SurfaceFormat::Other(9)]), 0);
}

#[test]
fn adapters_are_asked_for_in_turn() {
    assert_eq!(
        adapter_request(0),
        Some(AdapterRequest { high_performance: true, force_fallback_adapter: false })
    );
    assert_eq!(
        adapter_request(1),
        Some(AdapterRequest { high_performance: false, force_fallback_adapter: false })
    );
    assert_eq!(
        adapter_request(2),
        Some(AdapterRequest { high_performance: false, force_fallback_adapter: true })
    );
    assert_eq!(adapter_request(3), None);
}

#[test]
fn an_idle_renderer_is_configured_at_once() {
    let mut r = Renderer::new(0, 600);
    assert_eq!((r.width, r.height), (1, 600));
    assert_eq!(r.resize(800, 600), ResizeStep::Configure);
    assert_eq!(r.resize(800, 600), ResizeStep::Unchanged);
}

#[test]
fn a_busy_renderer_puts_the_resize_off() {
    let mut r = Renderer::new(800, 600);
    assert_eq!(r.delivered(Delivery::Accepted, None), Submitted::Yes);
    assert_eq!(r.resize(900, 700), ResizeStep::Deferred);
    let gate = r.begin_frame();
    assert!(!gate.proceed);
    let done = vec![FrameStats { present_us: 5, submit_done_us: 4 }];
    assert!(r.poll_present_stats(&done).is_some());
    let gate = r.begin_frame();
    assert!(gate.configure && gate.proceed);
    assert_eq!((r.width, r.height), (900, 700));
}

#[test]
fn an_empty_poll_brings_nothing() {
    let mut r = Renderer::new(800, 600);
    assert!(r.poll_present_stats(&vec![]).is_none());
}

#[test]
fn the_surface_is_reconfigured_only_so_often() {
    let r = Renderer::new(800, 600);
    assert_eq!(r.judge_acquired(Acquired::Texture { width: 800, height: 600 }, 0), AcquireStep::Use);
    assert_eq!(
        r.judge_acquired(Acquired::Texture { width: 801, height: 600 }, 0),
        AcquireStep::Reconfigure
    );
    assert_eq!(r.judge_acquired(Acquired::Stale, 0), AcquireStep::Reconfigure);
    assert_eq!(r.judge_acquired(Acquired::Stale, MAX_RECONFIGURES), AcquireStep::Skip);
    assert_eq!(r.judge_acquired(Acquired::Unavailable, 0), AcquireStep::Skip);
}

#[test]
fn pixels_are_sent_unless_the_worker_has_them() {
    let mut r = Renderer::new(800, 600);
    let pixels = [1u8, 2, 3, 4];
    let upload = |skip| OsrUpload {
        pixels: &pixels,
        width: 1,
        height: 1,
        generation: 7,
        dst_rect: (0, 0, 1, 1),
        skip_pixels: skip,
    };
    assert_eq!(r.own_upload(&upload(false)).pixels, Some(pixels.to_vec()));
    // Nothing was ever sent, so there is nothing to skip.
    assert_eq!(r.own_upload(&upload(true)).pixels, Some(pixels.to_vec()));
    r.delivered(Delivery::Accepted, Some((1, 1, 7, true)));
    assert_eq!(r.own_upload(&upload(true)).pixels, None);
    assert_eq!(r.own_upload(&upload(false)).pixels, Some(pixels.to_vec()));
}

#[test]
fn a_refused_frame_is_not_submitted() {
    let mut r = Renderer::new(800, 600);
    assert_eq!(r.delivered(Delivery::Full, Some((1, 1, 7, true))), Submitted::No);
    assert_eq!(r.delivered(Delivery::Disconnected, None), Submitted::No);
    assert_eq!(r.frames_in_flight, 0);
    assert_eq!(r.sent, None);
}

#[test]
fn a_presenting_worker_is_let_go() {
    let mut r = Renderer::new(800, 600);
    assert_eq!(r.teardown(0), Teardown::Join);
    r.delivered(Delivery::Accepted, None);
    assert_eq!(r.teardown(0), Teardown::Detach);
    assert_eq!(r.teardown(1), Teardown::Join);
}

#[test]
fn the_worker_uploads_a_generation_once() {
    let mut w = WorkerState { chrome_lw: 100, chrome_lh: 100, width: 200, height: 200, osr: None };
    let first = w.receive(200, 200, 100, 100, Some((50, 50, 1)));
    assert!(!first.reallocate_chrome);
    let osr = first.osr.unwrap();
    assert!(osr.allocate && osr.upload);
    let again = w.receive(200, 200, 100, 100, Some((50, 50, 1))).osr.unwrap();
    assert!(!again.allocate && !again.upload);
    let next = w.receive(200, 200, 100, 100, Some((50, 50, 2))).osr.unwrap();
    assert!(!next.allocate && next.upload);
    let bigger = w.receive(200, 200, 120, 100, Some((60, 50, 2)));
    assert!(bigger.reallocate_chrome);
    assert!(bigger.osr.unwrap().allocate && bigger.osr.unwrap().upload);
    assert!(w.receive(200, 200, 120, 100, Some((0, 50, 3))).osr.is_none());
    assert!(w.receive(200, 200, 120, 100, None).osr.is_none());
    assert_eq!(w.osr, Some(OsrTexture { width: 60, height: 50, last_generation: 2 }));
}
