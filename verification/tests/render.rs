use textquest_dll::hooks::dx11_null::Dx11State;
use textquest_dll::hooks::render::{
    install, is_capture_active, mode, remove, request_capture, set_mode, should_render, take_capture_active,
    RenderMode, RenderState, STROBE_INTERVAL,
};

#[test]
fn strobe_interval_is_nonzero() {
    assert!(STROBE_INTERVAL > 0);
}

#[test]
fn should_render_strobes_when_background() {
    let mut state = RenderState::new();
    state.render_tick = 0;
    state.render_mode = 1;
    let mut rendered = 0u64;
    let total = STROBE_INTERVAL * 3;
    for _ in 0..total {
        let tick = state.render_tick;
        state.render_tick = tick.wrapping_add(1);
        if tick % STROBE_INTERVAL == 0 {
            rendered += 1;
        }
    }
    assert_eq!(rendered, 3);
}

#[test]
fn null_render_requires_dx11_present_hook() {
    let mut state = RenderState::new();
    let mut dx = Dx11State::new();
    state.render_mode = 2;
    assert_eq!(mode(&state), RenderMode::NullRender);
    assert!(!should_render(&mut state, dx.present_hooked, true));
    dx.present_hooked = true;
    assert!(should_render(&mut state, dx.present_hooked, true));
}

#[test]
fn mode_round_trip() {
    let mut state = RenderState::new();
    state.render_mode = 0;
    assert_eq!(mode(&state), RenderMode::Normal);
    state.render_mode = 1;
    assert_eq!(mode(&state), RenderMode::Strobe);
    state.render_mode = 2;
    assert_eq!(mode(&state), RenderMode::NullRender);
}

#[test]
fn render_stub_install_remove_are_safe() {
    assert!(install(0x12345).is_ok());
    remove();
}

#[test]
fn capture_flag_forces_render_in_null_mode() {
    let mut state = RenderState::new();
    state.render_mode = 2;
    state.capture_requested = false;
    state.capture_active = false;
    assert!(!should_render(&mut state, false, true));
    request_capture(&mut state);
    assert!(should_render(&mut state, false, true));
    assert!(is_capture_active(&state));
    assert!(!should_render(&mut state, false, true));
}

#[test]
fn take_capture_active_clears_flag() {
    let mut state = RenderState::new();
    state.capture_active = true;
    assert!(take_capture_active(&mut state));
    assert!(!take_capture_active(&mut state));
}

#[test]
fn capture_does_not_interfere_with_normal_mode() {
    let mut state = RenderState::new();
    state.render_mode = 0;
    request_capture(&mut state);
    assert!(should_render(&mut state, false, true));
    assert!(is_capture_active(&state));
}

#[test]
fn strobe_renders_one_frame_per_interval_through_should_render() {
    let mut state = RenderState::new();
    let mut dx = Dx11State::new();
    set_mode(&mut state, &mut dx, RenderMode::Strobe);
    let mut rendered = 0;
    for _ in 0..(STROBE_INTERVAL * 2) {
        if should_render(&mut state, false, false) {
            rendered += 1;
        }
    }
    assert_eq!(rendered, 2);
    assert_eq!(state.render_tick, STROBE_INTERVAL * 2);
}

#[test]
fn normal_mode_foreground_always_renders_and_background_strobes() {
    let mut state = RenderState::new();
    assert!(should_render(&mut state, false, true));
    assert_eq!(state.render_tick, 0);
    assert!(should_render(&mut state, false, false));
    assert!(!should_render(&mut state, false, false));
    assert_eq!(state.render_tick, 2);
}

#[test]
fn unknown_mode_code_reads_as_normal() {
    let mut state = RenderState::new();
    state.render_mode = 9;
    assert_eq!(mode(&state), RenderMode::Normal);
}
