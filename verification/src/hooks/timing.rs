//! Timing normalization: the overhead the game-loop hook adds is taken off
//! what the tick-count and performance-counter APIs report, when enabled.
use vstd::prelude::*;
use std::time::Duration;

verus! {

/// Nanoseconds per millisecond.
pub const NS_PER_MS: u64 = 1_000_000;

/// Nanoseconds per second.
pub const NS_PER_SEC: u128 = 1_000_000_000;

/// Performance-counter frequency assumed until the real one is known (10 MHz).
pub const DEFAULT_QPC_FREQUENCY_HZ: u64 = 10_000_000;

/// Whether correction is on, the last overhead sample and the counter
/// frequency.
#[derive(Debug, Clone, Copy, PartialEq, Eq, Structural)]
pub struct TimingState {
    pub enabled: bool,
    pub game_loop_overhead_ns: u64,
    pub qpc_frequency_hz: u64,
}

impl TimingState {
    /// Correction off, no overhead, the default frequency.
    pub fn new() -> (r: Self)
        ensures
            !r.enabled,
            r.game_loop_overhead_ns == 0,
            r.qpc_frequency_hz == DEFAULT_QPC_FREQUENCY_HZ,
    {
        TimingState { enabled: false, game_loop_overhead_ns: 0, qpc_frequency_hz: DEFAULT_QPC_FREQUENCY_HZ }
    }
}

/// A nanosecond count clamped to `u64`.
pub open spec fn clamp_nanos(nanos: u128) -> u64 {
    if nanos > u64::MAX as u128 {
        u64::MAX
    } else {
        nanos as u64
    }
}

/// The overhead in whole milliseconds.
pub open spec fn overhead_ms_spec(s: TimingState) -> u64 {
    s.game_loop_overhead_ns / NS_PER_MS
}

/// The overhead in counter ticks: `ns * freq / 1e9`, truncated to 64 bits.
pub open spec fn overhead_ticks_spec(s: TimingState) -> u64 {
    ((s.game_loop_overhead_ns as int * s.qpc_frequency_hz as int) / (NS_PER_SEC as int)) as u64
}

/// What the tick-count API reports after correction.
pub open spec fn adjust_tick_count_spec(s: TimingState, raw: u32) -> u32 {
    if !s.enabled {
        raw
    } else {
        let o = overhead_ms_spec(s);
        if raw >= o {
            (raw - o) as u32
        } else {
            0
        }
    }
}

/// What the performance counter reports after correction.
pub open spec fn adjust_qpc_spec(s: TimingState, raw: i64) -> i64 {
    if !s.enabled {
        raw
    } else if raw <= 0 {
        0
    } else if raw >= overhead_ticks_spec(s) {
        (raw - overhead_ticks_spec(s)) as i64
    } else {
        0
    }
}

/// With correction off both APIs report their raw values; with it on,
/// neither correction ever moves a value up (a counter never jumps ahead).
pub proof fn lemma_correction_never_inflates(s: TimingState, raw_tick: u32, raw_qpc: i64)
    ensures
        !s.enabled ==> adjust_tick_count_spec(s, raw_tick) == raw_tick && adjust_qpc_spec(s, raw_qpc) == raw_qpc,
        adjust_tick_count_spec(s, raw_tick) <= raw_tick,
        s.enabled ==> 0 <= adjust_qpc_spec(s, raw_qpc) && adjust_qpc_spec(s, raw_qpc) <= if raw_qpc > 0 {
            raw_qpc
        } else {
            0
        },
{
}

/// The whole number of nanoseconds a duration spans, as `Duration::as_nanos`
/// gives it (a function of the duration alone).
pub uninterp spec fn duration_as_nanos(duration: Duration) -> u128;

/// `Duration::as_nanos`: its result is the duration's nanosecond count,
/// named [`duration_as_nanos`]; nothing more about it is claimed.
#[verifier::external_body]
fn duration_nanos(duration: Duration) -> (r: u128)
    ensures
        r == duration_as_nanos(duration),
{
    duration.as_nanos()
}

/// A duration's nanoseconds, clamped to `u64`.
pub fn clamp_duration_nanos_u64(duration: Duration) -> (r: u64)
    ensures
        r == clamp_nanos(duration_as_nanos(duration)),
{
    clamp_nanos_u64(duration_nanos(duration))
}

/// A nanosecond count clamped to `u64`.
pub fn clamp_nanos_u64(nanos: u128) -> (r: u64)
    ensures
        r == clamp_nanos(nanos),
{
    if nanos > u64::MAX as u128 {
        u64::MAX
    } else {
        nanos as u64
    }
}

/// Store the latest overhead sample, given in nanoseconds (the last sample
/// replaces the one before).
pub fn record_overhead_nanos(state: &mut TimingState, nanos: u128)
    ensures
        *final(state) == (TimingState { game_loop_overhead_ns: clamp_nanos(nanos), ..*old(state) }),
{
    state.game_loop_overhead_ns = clamp_nanos_u64(nanos);
}

/// Store the latest overhead sample of the game-loop hook.
pub fn record_game_loop_hook_overhead(state: &mut TimingState, duration: Duration)
    ensures
        *final(state) == (TimingState {
            game_loop_overhead_ns: clamp_nanos(duration_as_nanos(duration)),
            ..*old(state)
        }),
{
    record_overhead_nanos(state, duration_nanos(duration));
}

/// Switch correction on or off.
pub fn set_enabled(state: &mut TimingState, enabled: bool)
    ensures
        *final(state) == (TimingState { enabled, ..*old(state) }),
{
    state.enabled = enabled;
}

/// Use the counter frequency the system reports, when it reports a
/// positive one.
pub fn record_qpc_frequency(state: &mut TimingState, frequency: i64)
    ensures
        frequency > 0 ==> *final(state) == (TimingState { qpc_frequency_hz: frequency as u64, ..*old(state) }),
        frequency <= 0 ==> *final(state) == *old(state),
{
    if frequency > 0 {
        state.qpc_frequency_hz = frequency as u64;
    }
}

/// The overhead in whole milliseconds.
pub fn overhead_ms(state: &TimingState) -> (r: u64)
    ensures
        r == overhead_ms_spec(*state),
{
    state.game_loop_overhead_ns / NS_PER_MS
}

/// The overhead in counter ticks.
pub fn overhead_as_qpc_ticks(state: &TimingState) -> (r: u64)
    ensures
        r == overhead_ticks_spec(*state),
{
    let ns = state.game_loop_overhead_ns as u128;
    let freq = state.qpc_frequency_hz as u128;
    assert(ns * freq <= u64::MAX as u128 * u64::MAX as u128) by (nonlinear_arith)
        requires
            ns <= u64::MAX,
            freq <= u64::MAX,
    ;
    (ns * freq / NS_PER_SEC) as u64
}

/// Correct a tick count: the whole overhead in milliseconds is subtracted,
/// saturating at zero; unchanged while correction is off.
pub fn adjust_tick_count(state: &TimingState, raw: u32) -> (r: u32)
    ensures
        r == adjust_tick_count_spec(*state, raw),
        r <= raw,
{
    if !state.enabled {
        return raw;
    }
    let overhead = overhead_ms(state);
    if (raw as u64) < overhead {
        0
    } else {
        (raw as u64 - overhead) as u32
    }
}

/// Correct a performance-counter value: non-positive values become zero, and
/// the overhead in ticks is subtracted, saturating at zero; unchanged while
/// correction is off.
pub fn adjust_qpc(state: &TimingState, raw: i64) -> (r: i64)
    ensures
        r == adjust_qpc_spec(*state, raw),
        state.enabled ==> 0 <= r && r <= if raw > 0 { raw } else { 0 },
{
    if !state.enabled {
        return raw;
    }
    if raw <= 0 {
        return 0;
    }
    let ticks = overhead_as_qpc_ticks(state);
    let raw_u128 = raw as u128;
    let left = raw_u128.saturating_sub(ticks as u128);
    left as i64
}

/// Hook the tick-count and performance-counter APIs. Without the system
/// functions to hook this succeeds and does nothing.
pub fn install() -> (r: Result<(), String>)
    ensures
        r is Ok,
{
    Ok(())
}

/// Unhook the timing APIs; nothing to undo without them.
pub fn remove() {
}

} // verus!
