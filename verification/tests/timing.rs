use std::time::Duration;
use textquest_dll::hooks::timing::{
    adjust_qpc, adjust_tick_count, install, overhead_as_qpc_ticks, overhead_ms, record_game_loop_hook_overhead,
    record_qpc_frequency, remove, set_enabled, TimingState,
};

#[test]
fn adjusts_tick_count_without_panic() {
    let mut state = TimingState::new();
    set_enabled(&mut state, true);
    let result = adjust_tick_count(&state, 150);
    assert!(result <= 150);
}

#[test]
fn adjusts_qpc_without_panic() {
    let mut state = TimingState::new();
    set_enabled(&mut state, true);
    state.game_loop_overhead_ns = 100;
    let adjusted = adjust_qpc(&state, 1_000);
    assert_eq!(adjusted, 999);
}

#[test]
fn does_not_adjust_when_disabled() {
    let state = TimingState::new();
    let tick = adjust_tick_count(&state, 1234);
    let qpc = adjust_qpc(&state, 1234);
    assert_eq!(tick, 1234);
    assert_eq!(qpc, 1234);
}

#[test]
fn adjust_qpc_saturates_at_zero() {
    let mut state = TimingState::new();
    set_enabled(&mut state, true);
    state.game_loop_overhead_ns = 10_000_000_000;
    let adjusted = adjust_qpc(&state, 5_000);
    assert_eq!(adjusted, 0);
}

#[test]
fn adjust_qpc_zero_or_negative_returns_zero() {
    let mut state = TimingState::new();
    set_enabled(&mut state, true);
    state.game_loop_overhead_ns = 1_000_000;
    assert_eq!(adjust_qpc(&state, 0), 0);
    assert_eq!(adjust_qpc(&state, -1), 0);
    assert_eq!(adjust_qpc(&state, -100), 0);
}

#[test]
fn record_game_loop_hook_overhead_affects_adjustment() {
    let mut state = TimingState::new();
    set_enabled(&mut state, true);
    record_game_loop_hook_overhead(&mut state, Duration::from_millis(10));
    let raw: u32 = 1000;
    let adjusted = adjust_tick_count(&state, raw);
    assert_eq!(adjusted, 990);
}

#[test]
fn record_game_loop_hook_overhead_zero_duration() {
    let mut state = TimingState::new();
    set_enabled(&mut state, true);
    record_game_loop_hook_overhead(&mut state, Duration::ZERO);
    assert_eq!(adjust_tick_count(&state, 500), 500);
}

#[test]
fn adjust_tick_count_saturates_at_zero() {
    let mut state = TimingState::new();
    set_enabled(&mut state, true);
    state.game_loop_overhead_ns = u64::MAX;
    let adjusted = adjust_tick_count(&state, 100);
    assert_eq!(adjusted, 0);
}

#[test]
fn overhead_as_qpc_ticks_uses_frequency() {
    let mut state = TimingState::new();
    set_enabled(&mut state, true);
    state.qpc_frequency_hz = 1;
    state.game_loop_overhead_ns = 1_000_000_000;
    let adjusted = adjust_qpc(&state, 10);
    assert_eq!(adjusted, 9);
}

#[test]
fn overhead_conversions_are_exact() {
    let mut state = TimingState::new();
    state.game_loop_overhead_ns = 2_500_000;
    assert_eq!(overhead_ms(&state), 2);
    assert_eq!(overhead_as_qpc_ticks(&state), 25_000);
}

#[test]
fn overhead_duration_is_clamped_to_u64() {
    let mut state = TimingState::new();
    record_game_loop_hook_overhead(&mut state, Duration::from_secs(u64::MAX));
    assert_eq!(state.game_loop_overhead_ns, u64::MAX);
}

#[test]
fn qpc_frequency_only_taken_when_positive() {
    let mut state = TimingState::new();
    record_qpc_frequency(&mut state, 0);
    assert_eq!(state.qpc_frequency_hz, 10_000_000);
    record_qpc_frequency(&mut state, -5);
    assert_eq!(state.qpc_frequency_hz, 10_000_000);
    record_qpc_frequency(&mut state, 3_000_000);
    assert_eq!(state.qpc_frequency_hz, 3_000_000);
}

#[test]
fn timing_install_remove_stubs() {
    assert!(install().is_ok());
    remove();
}

#[test]
fn adjust_tick_count_subtracts_the_whole_overhead() {
    let mut state = TimingState::new();
    set_enabled(&mut state, true);
    record_game_loop_hook_overhead(&mut state, std::time::Duration::from_millis(4_294_967_301));
    assert_eq!(adjust_tick_count(&state, 100), 0);
}
