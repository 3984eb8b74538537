use textquest_dll::hooks::overlay::{
    current_resolution, hud_snapshot, initialize, initialize_for_backend, last_frame_delta_ns, on_device_reset,
    on_resize, render_present, resume, set_state, shutdown, state, suspend, take_resolution_changed, tick,
    Direct3DBackend, FrameRing, OverlayFrameContext, OverlayRuntime, OverlayState, Theme, FRAME_WINDOW,
    OVERLAY_RENDER_BUDGET_NS,
};

#[test]
fn initial_state_is_uninitialized() {
    let rt = OverlayRuntime::new();
    assert_eq!(state(&rt), OverlayState::Uninitialized);
}

#[test]
fn state_encode_decode_round_trip() {
    let mut rt = OverlayRuntime::new();
    for s in [OverlayState::Uninitialized, OverlayState::Initializing, OverlayState::Active, OverlayState::Suspended] {
        set_state(&mut rt, s);
        assert_eq!(state(&rt), s);
        assert_eq!(OverlayState::decode(s.encode()), s);
    }
}

#[test]
fn initialize_transitions_to_active() {
    let mut rt = OverlayRuntime::new();
    initialize(&mut rt, 1920, 1080);
    assert_eq!(state(&rt), OverlayState::Active);
    assert_eq!(current_resolution(&rt), (1920, 1080));
}

#[test]
fn initialize_seeds_default_hud_window() {
    let mut rt = OverlayRuntime::new();
    assert_eq!(hud_snapshot(&rt).window_count, 0);
    initialize(&mut rt, 1280, 720);
    let snapshot = hud_snapshot(&rt);
    assert_eq!(snapshot.window_count, 1);
    assert_eq!(snapshot.theme, Theme::Dark);
    assert!(snapshot.has_default_hud_window);
}

#[test]
fn active_tick_renders_hud_frame() {
    let mut rt = OverlayRuntime::new();
    initialize(&mut rt, 1280, 720);
    tick(&mut rt, 1_000);
    assert_eq!(hud_snapshot(&rt).rendered_frames, 1);
}

#[test]
fn suspended_tick_does_not_render_hud_frame() {
    let mut rt = OverlayRuntime::new();
    initialize(&mut rt, 1280, 720);
    suspend(&mut rt);
    tick(&mut rt, 1_000);
    assert_eq!(hud_snapshot(&rt).rendered_frames, 0);
}

#[test]
fn shutdown_resets_to_uninitialized() {
    let mut rt = OverlayRuntime::new();
    initialize(&mut rt, 1920, 1080);
    shutdown(&mut rt);
    assert_eq!(state(&rt), OverlayState::Uninitialized);
}

#[test]
fn suspend_resume_cycle() {
    let mut rt = OverlayRuntime::new();
    set_state(&mut rt, OverlayState::Active);
    suspend(&mut rt);
    assert_eq!(state(&rt), OverlayState::Suspended);
    resume(&mut rt);
    assert_eq!(state(&rt), OverlayState::Active);
}

#[test]
fn suspend_noop_when_not_active() {
    let mut rt = OverlayRuntime::new();
    set_state(&mut rt, OverlayState::Uninitialized);
    suspend(&mut rt);
    assert_eq!(state(&rt), OverlayState::Uninitialized);
}

#[test]
fn resume_noop_when_not_suspended() {
    let mut rt = OverlayRuntime::new();
    set_state(&mut rt, OverlayState::Active);
    resume(&mut rt);
    assert_eq!(state(&rt), OverlayState::Active);
}

#[test]
fn on_resize_sets_resolution_changed_flag() {
    let mut rt = OverlayRuntime::new();
    rt.last_width = 1920;
    rt.last_height = 1080;
    on_resize(&mut rt, 2560, 1440);
    assert!(take_resolution_changed(&mut rt));
    assert_eq!(current_resolution(&rt), (2560, 1440));
}

#[test]
fn on_resize_noop_when_same_dimensions() {
    let mut rt = OverlayRuntime::new();
    rt.last_width = 1920;
    rt.last_height = 1080;
    on_resize(&mut rt, 1920, 1080);
    assert!(!take_resolution_changed(&mut rt));
}

#[test]
fn take_resolution_changed_clears_flag() {
    let mut rt = OverlayRuntime::new();
    rt.resolution_changed = true;
    assert!(take_resolution_changed(&mut rt));
    assert!(!take_resolution_changed(&mut rt));
}

#[test]
fn frame_ring_wraps_on_overflow() {
    let mut ring = FrameRing::new();
    for i in 0..(FRAME_WINDOW + 10) {
        ring.push((i as u64 + 1) * 1_000_000);
    }
    assert_eq!(ring.count, FRAME_WINDOW);
}

#[test]
fn perf_snapshot_peak_reflects_worst_frame() {
    let mut ring = FrameRing::new();
    for d in [8_000_000u64, 16_000_000, 33_000_000, 12_000_000] {
        ring.push(d);
    }
    assert_eq!(ring.peak_ns(), 33_000_000);
    assert_eq!(ring.average_ns(), 17_250_000);
}

#[test]
fn fps_zero_when_no_frames_recorded() {
    let ring = FrameRing::new();
    assert_eq!(ring.len(), 0);
    assert_eq!(ring.peak_ns(), 0);
    assert_eq!(ring.average_ns(), 0);
}

#[test]
fn tick_updates_frame_delta_on_second_call() {
    let mut rt = OverlayRuntime::new();
    tick(&mut rt, 5_000);
    assert_eq!(last_frame_delta_ns(&rt), 0);
    tick(&mut rt, 105_000);
    assert!(last_frame_delta_ns(&rt) > 0, "frame delta should be positive after two ticks");
    assert_eq!(last_frame_delta_ns(&rt), 100_000);
}

#[test]
fn perf_snapshot_resolution_matches_stored() {
    let mut rt = OverlayRuntime::new();
    rt.last_width = 3840;
    rt.last_height = 2160;
    assert_eq!(current_resolution(&rt), (3840, 2160));
}

#[test]
fn initialize_for_backend_tracks_targets() {
    let mut rt = OverlayRuntime::new();
    initialize_for_backend(&mut rt, Direct3DBackend::Dx12, 2560, 1440, 3, true);
    assert_eq!(state(&rt), OverlayState::Active);
    assert_eq!(rt.backend, Some(Direct3DBackend::Dx12));
    assert_eq!(rt.last_render_target_count, 3);
}

#[test]
fn render_present_records_cpu_budget() {
    let mut rt = OverlayRuntime::new();
    let result = render_present(&mut rt, OverlayFrameContext::dx11(1920, 1080).with_render_targets(2), 1_000, 500);
    assert_eq!(result.render_target_count, 2);
    assert_eq!(rt.last_render_target_count, 2);
    assert!(rt.last_render_ns <= OVERLAY_RENDER_BUDGET_NS);
    assert_eq!(rt.over_budget_frames, 0);
}

#[test]
fn device_reset_reinitializes_overlay_targets() {
    let mut rt = OverlayRuntime::new();
    initialize_for_backend(&mut rt, Direct3DBackend::Dx11, 1280, 720, 1, false);
    on_device_reset(&mut rt, Direct3DBackend::Dx12, 3840, 2160, 4, true);
    assert_eq!(current_resolution(&rt), (3840, 2160));
    assert_eq!(rt.backend, Some(Direct3DBackend::Dx12));
    assert_eq!(rt.last_render_target_count, 4);
}

#[test]
fn state_constants_are_distinct() {
    assert_ne!(OverlayState::Uninitialized.encode(), OverlayState::Initializing.encode());
    assert_ne!(OverlayState::Active.encode(), OverlayState::Suspended.encode());
    assert_ne!(OverlayState::Uninitialized.encode(), OverlayState::Active.encode());
}

#[test]
fn zero_render_targets_count_as_one() {
    let mut rt = OverlayRuntime::new();
    initialize_for_backend(&mut rt, Direct3DBackend::Dx11, 800, 600, 0, false);
    assert_eq!(rt.last_render_target_count, 1);
}
