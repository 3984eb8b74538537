//! Render mode: whether a frame of the world is drawn (always, one frame in
//! every strobe interval, or only once the null-device hooks are live), and
//! the one-shot capture override.
use vstd::prelude::*;
use crate::hooks::dx11_null::{self, Dx11State};

verus! {

/// Ticks between rendered frames while strobing (about five seconds at
/// 30 frames per second).
pub const STROBE_INTERVAL: u64 = 150;

/// How the world is drawn.
#[derive(Debug, Clone, Copy, PartialEq, Eq, Structural)]
pub enum RenderMode {
    Normal,
    Strobe,
    NullRender,
}

/// The stored code of a mode: 0, 1, 2.
pub open spec fn mode_code(mode: RenderMode) -> u8 {
    match mode {
        RenderMode::Normal => 0,
        RenderMode::Strobe => 1,
        RenderMode::NullRender => 2,
    }
}

/// The mode a stored code stands for; unknown codes read as normal.
pub open spec fn decode_mode(code: u8) -> RenderMode {
    if code == 1 {
        RenderMode::Strobe
    } else if code == 2 {
        RenderMode::NullRender
    } else {
        RenderMode::Normal
    }
}

/// The strobe tick counter, the stored mode code and the capture flags.
#[derive(Debug, Clone, Copy, PartialEq, Eq, Structural)]
pub struct RenderState {
    pub render_tick: u64,
    pub render_mode: u8,
    pub capture_requested: bool,
    pub capture_active: bool,
}

impl RenderState {
    /// Normal mode, tick zero, no capture.
    pub fn new() -> (r: Self)
        ensures
            r == (RenderState { render_tick: 0, render_mode: 0, capture_requested: false, capture_active: false }),
    {
        RenderState { render_tick: 0, render_mode: 0, capture_requested: false, capture_active: false }
    }
}

/// Store a new mode (after trying the deferred device-hook install).
pub fn set_mode(state: &mut RenderState, dx: &mut Dx11State, mode: RenderMode)
    ensures
        *final(state) == (RenderState { render_mode: mode_code(mode), ..*old(state) }),
        decode_mode(final(state).render_mode) == mode,
        *final(dx) == *old(dx),
{
    dx11_null::ensure_installed(dx);
    let encoded: u8 = match mode {
        RenderMode::Normal => 0,
        RenderMode::Strobe => 1,
        RenderMode::NullRender => 2,
    };
    state.render_mode = encoded;
}

/// The current mode.
pub fn mode(state: &RenderState) -> (r: RenderMode)
    ensures
        r == decode_mode(state.render_mode),
{
    if state.render_mode == 1 {
        RenderMode::Strobe
    } else if state.render_mode == 2 {
        RenderMode::NullRender
    } else {
        RenderMode::Normal
    }
}

/// Ask for the next frame to be drawn and captured.
pub fn request_capture(state: &mut RenderState)
    ensures
        *final(state) == (RenderState { capture_requested: true, ..*old(state) }),
{
    state.capture_requested = true;
}

/// Whether a capture frame is in progress; the flag is cleared.
pub fn take_capture_active(state: &mut RenderState) -> (r: bool)
    ensures
        r == old(state).capture_active,
        *final(state) == (RenderState { capture_active: false, ..*old(state) }),
{
    let r = state.capture_active;
    state.capture_active = false;
    r
}

/// Whether a capture frame is in progress.
pub fn is_capture_active(state: &RenderState) -> (r: bool)
    ensures
        r == state.capture_active,
{
    state.capture_active
}

/// Whether the strobe lets this tick's frame through.
pub open spec fn strobe_hit(tick: u64) -> bool {
    tick % STROBE_INTERVAL == 0
}

/// A strobing client draws exactly one frame in every run of
/// `STROBE_INTERVAL` consecutive ticks.
pub proof fn lemma_one_strobe_frame_per_interval(start: u64)
    requires
        start + STROBE_INTERVAL <= u64::MAX,
    ensures
        exists|j: int| 0 <= j < STROBE_INTERVAL && #[trigger] strobe_hit((start + j) as u64),
        forall|j1: int, j2: int|
            0 <= j1 < STROBE_INTERVAL && 0 <= j2 < STROBE_INTERVAL && #[trigger] strobe_hit((start + j1) as u64)
                && #[trigger] strobe_hit((start + j2) as u64) ==> j1 == j2,
{
    let r = start % 150;
    let j: int = if r == 0 { 0 } else { 150 - r };
    assert(((start + j) as u64) % 150 == 0);
    assert(strobe_hit((start + j) as u64));
    assert forall|j1: int, j2: int|
        0 <= j1 < STROBE_INTERVAL && 0 <= j2 < STROBE_INTERVAL && #[trigger] strobe_hit((start + j1) as u64)
            && #[trigger] strobe_hit((start + j2) as u64) implies j1 == j2 by {
        let a = (start + j1) as u64;
        let b = (start + j2) as u64;
        assert(a % 150 == 0 && b % 150 == 0);
        if j1 < j2 {
            assert((b - a) % 150 == 0) by (nonlinear_arith)
                requires
                    a % 150 == 0,
                    b % 150 == 0,
                    a < b,
            ;
            assert(0 < b - a < 150);
        } else if j2 < j1 {
            assert((a - b) % 150 == 0) by (nonlinear_arith)
                requires
                    a % 150 == 0,
                    b % 150 == 0,
                    b < a,
            ;
            assert(0 < a - b < 150);
        }
    }
}

/// The decision for one frame, and the state it leaves.
pub open spec fn should_render_spec(
    s: RenderState,
    present_hook_installed: bool,
    is_foreground: bool,
    r: bool,
    t: RenderState,
) -> bool {
    if s.capture_requested {
        r && t == (RenderState { capture_requested: false, capture_active: true, ..s })
    } else {
        match decode_mode(s.render_mode) {
            RenderMode::NullRender => r == present_hook_installed && t == s,
            RenderMode::Normal if is_foreground => r && t == s,
            _ => r == strobe_hit(s.render_tick) && t == (RenderState {
                render_tick: s.render_tick.wrapping_add(1),
                ..s
            }),
        }
    }
}

/// Decide whether to draw this frame. A requested capture forces one frame
/// (and marks it as the capture frame); null rendering draws only once the
/// present hook is live; strobing, and normal mode in the background, draw
/// one frame in every interval and advance the tick; normal mode in the
/// foreground always draws.
pub fn should_render(state: &mut RenderState, present_hook_installed: bool, is_foreground: bool) -> (r: bool)
    ensures
        should_render_spec(*old(state), present_hook_installed, is_foreground, r, *final(state)),
{
    if state.capture_requested {
        state.capture_requested = false;
        state.capture_active = true;
        return true;
    }
    match mode(state) {
        RenderMode::NullRender => present_hook_installed,
        RenderMode::Strobe => {
            let tick = state.render_tick;
            state.render_tick = tick.wrapping_add(1);
            tick % STROBE_INTERVAL == 0
        },
        RenderMode::Normal => {
            if is_foreground {
                return true;
            }
            let tick = state.render_tick;
            state.render_tick = tick.wrapping_add(1);
            tick % STROBE_INTERVAL == 0
        },
    }
}

/// Hook the world renderer. Without the game's function to patch this
/// succeeds and does nothing.
pub fn install(render_addr: usize) -> (r: Result<(), String>)
    ensures
        r is Ok,
{
    Ok(())
}

/// Unhook the world renderer; nothing to undo without the game's function.
pub fn remove() {
}

} // verus!
