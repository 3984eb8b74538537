//! Direct3D overlay state: lifecycle (uninitialized, initializing, active,
//! suspended), backbuffer size and render targets, frame timing over a
//! rolling window of 64 frames, and the HUD runtime with its default
//! window.
use vstd::prelude::*;
use crate::text::{chars_eq, chars_of, lit};

verus! {

/// Frames kept for averaging and peak frame time.
pub const FRAME_WINDOW: usize = 64;

/// CPU budget for overlay work per Present, in nanoseconds.
pub const OVERLAY_RENDER_BUDGET_NS: u64 = 1_000_000;

/// Identifier of the HUD window created on initialization.
pub const DEFAULT_HUD_WINDOW_ID: &'static str = "textquest_hud";

/// Overlay lifecycle state.
#[derive(Debug, Clone, Copy, PartialEq, Eq, Structural)]
pub enum OverlayState {
    Uninitialized,
    Initializing,
    Active,
    Suspended,
}

/// Stored code of a state.
pub open spec fn state_code(s: OverlayState) -> u32 {
    match s {
        OverlayState::Uninitialized => 0,
        OverlayState::Initializing => 1,
        OverlayState::Active => 2,
        OverlayState::Suspended => 3,
    }
}

/// State of a stored code (unknown codes read as uninitialized).
pub open spec fn state_of_code(v: u32) -> OverlayState {
    if v == 1 {
        OverlayState::Initializing
    } else if v == 2 {
        OverlayState::Active
    } else if v == 3 {
        OverlayState::Suspended
    } else {
        OverlayState::Uninitialized
    }
}

impl OverlayState {
    /// The stored code: 0 to 3 in declaration order.
    pub fn encode(self) -> (r: u32)
        ensures
            r == state_code(self),
    {
        match self {
            OverlayState::Uninitialized => 0,
            OverlayState::Initializing => 1,
            OverlayState::Active => 2,
            OverlayState::Suspended => 3,
        }
    }

    /// The state of a stored code.
    pub fn decode(v: u32) -> (r: Self)
        ensures
            r == state_of_code(v),
    {
        if v == 1 {
            OverlayState::Initializing
        } else if v == 2 {
            OverlayState::Active
        } else if v == 3 {
            OverlayState::Suspended
        } else {
            OverlayState::Uninitialized
        }
    }
}

/// Decoding an encoded state gives the state back.
pub proof fn lemma_state_code_round_trip(s: OverlayState)
    ensures
        state_of_code(state_code(s)) == s,
{
}

/// Direct3D runtime behind the Present callback.
#[derive(Debug, Clone, Copy, PartialEq, Eq, Structural)]
pub enum Direct3DBackend {
    Dx11,
    Dx12,
}

/// Stored code of a backend.
pub open spec fn backend_code(b: Direct3DBackend) -> u32 {
    match b {
        Direct3DBackend::Dx11 => 11,
        Direct3DBackend::Dx12 => 12,
    }
}

impl Direct3DBackend {
    /// 11 or 12.
    pub fn encode(self) -> (r: u32)
        ensures
            r == backend_code(self),
    {
        match self {
            Direct3DBackend::Dx11 => 11,
            Direct3DBackend::Dx12 => 12,
        }
    }

    /// The backend of a stored code, `None` for an unknown one.
    pub fn decode(v: u32) -> (r: Option<Self>)
        ensures
            v == 11 ==> r == Some(Direct3DBackend::Dx11),
            v == 12 ==> r == Some(Direct3DBackend::Dx12),
            v != 11 && v != 12 ==> r is None,
    {
        if v == 11 {
            Some(Direct3DBackend::Dx11)
        } else if v == 12 {
            Some(Direct3DBackend::Dx12)
        } else {
            None
        }
    }
}

/// One Present call as the overlay sees it.
#[derive(Debug, Clone, Copy, PartialEq, Eq, Structural)]
pub struct OverlayFrameContext {
    pub backend: Direct3DBackend,
    pub width: u32,
    pub height: u32,
    pub render_target_count: u32,
    pub fullscreen: bool,
}

impl OverlayFrameContext {
    /// A DX11 frame of the given size with one render target, windowed.
    pub fn dx11(width: u32, height: u32) -> (r: Self)
        ensures
            r == (OverlayFrameContext {
                backend: Direct3DBackend::Dx11,
                width,
                height,
                render_target_count: 1,
                fullscreen: false,
            }),
    {
        OverlayFrameContext {
            backend: Direct3DBackend::Dx11,
            width,
            height,
            render_target_count: 1,
            fullscreen: false,
        }
    }

    /// The same frame with another render-target count.
    pub fn with_render_targets(self, count: u32) -> (r: Self)
        ensures
            r == (OverlayFrameContext { render_target_count: count, ..self }),
    {
        OverlayFrameContext { render_target_count: count, ..self }
    }
}

/// What one overlay frame did.
#[derive(Debug, Clone, Copy, PartialEq, Eq, Structural)]
pub struct OverlayFrameResult {
    pub backend: Direct3DBackend,
    pub render_time_ns: u64,
    pub render_target_count: u32,
    pub over_budget: bool,
}

/// At least one render target.
pub open spec fn at_least_one(n: u32) -> u32 {
    if n < 1 {
        1
    } else {
        n
    }
}

fn max1(n: u32) -> (r: u32)
    ensures
        r == at_least_one(n),
{
    if n < 1 {
        1
    } else {
        n
    }
}

// ─── Frame timing ring ───────────────────────────────────────────────────────

/// The last 64 frame times.
pub struct FrameRing {
    pub buf: [u64; FRAME_WINDOW],
    pub head: usize,
    pub count: usize,
}

/// Sum of a sequence of frame times.
pub open spec fn seq_sum(s: Seq<u64>) -> nat
    decreases s.len(),
{
    if s.len() == 0 {
        0
    } else {
        seq_sum(s.drop_last()) + s.last() as nat
    }
}

/// Largest of a sequence of frame times (0 when empty).
pub open spec fn seq_max(s: Seq<u64>) -> u64
    decreases s.len(),
{
    if s.len() == 0 {
        0
    } else {
        let m = seq_max(s.drop_last());
        if s.last() > m {
            s.last()
        } else {
            m
        }
    }
}

impl FrameRing {
    /// Indices in range; until the window fills, the head follows the count.
    pub open spec fn wf(&self) -> bool {
        &&& self.head < FRAME_WINDOW
        &&& self.count <= FRAME_WINDOW
        &&& self.count < FRAME_WINDOW ==> self.head == self.count
    }

    /// The recorded frame times in buffer order.
    pub open spec fn recorded(&self) -> Seq<u64> {
        self.buf@.subrange(0, self.count as int)
    }

    /// An empty ring.
    pub fn new() -> (r: Self)
        ensures
            r.wf(),
            r.count == 0,
            r.head == 0,
            r.buf@ == Seq::new(FRAME_WINDOW as nat, |i: int| 0u64),
    {
        FrameRing { buf: [0u64; FRAME_WINDOW], head: 0, count: 0 }
    }

    /// Record a frame time, overwriting the oldest once 64 are held.
    pub fn push(&mut self, delta_ns: u64)
        requires
            old(self).wf(),
        ensures
            final(self).wf(),
            final(self).buf@ == old(self).buf@.update(old(self).head as int, delta_ns),
            final(self).head == (old(self).head + 1) % (FRAME_WINDOW as int),
            final(self).count == (if old(self).count < FRAME_WINDOW {
                old(self).count + 1
            } else {
                FRAME_WINDOW as int
            }),
    {
        let h = self.head;
        self.buf[h] = delta_ns;
        self.head = (h + 1) % FRAME_WINDOW;
        if self.count < FRAME_WINDOW {
            self.count = self.count + 1;
        }
    }

    /// Number of recorded frames.
    pub fn len(&self) -> (r: usize)
        ensures
            r == self.count,
    {
        self.count
    }

    /// Mean of the recorded frame times (0 when none).
    pub fn average_ns(&self) -> (r: u64)
        requires
            self.wf(),
            seq_sum(self.recorded()) <= u64::MAX,
        ensures
            self.count == 0 ==> r == 0,
            self.count > 0 ==> r == seq_sum(self.recorded()) / (self.count as nat),
    {
        if self.count == 0 {
            return 0;
        }
        let mut sum: u64 = 0;
        let mut i: usize = 0;
        while i < self.count
            invariant
                self.wf(),
                0 <= i <= self.count,
                sum == seq_sum(self.buf@.subrange(0, i as int)),
                seq_sum(self.recorded()) <= u64::MAX,
            decreases self.count - i,
        {
            proof {
                lemma_sum_prefix_le(self.recorded(), i + 1);
                assert(self.recorded().subrange(0, i + 1) =~= self.buf@.subrange(0, i + 1));
                let p = self.buf@.subrange(0, i + 1);
                assert(p.drop_last() =~= self.buf@.subrange(0, i as int));
            }
            sum = sum + self.buf[i];
            i = i + 1;
        }
        sum / (self.count as u64)
    }

    /// Largest recorded frame time (0 when none).
    pub fn peak_ns(&self) -> (r: u64)
        requires
            self.wf(),
        ensures
            r == seq_max(self.recorded()),
    {
        let mut m: u64 = 0;
        let mut i: usize = 0;
        while i < self.count
            invariant
                self.wf(),
                0 <= i <= self.count,
                m == seq_max(self.buf@.subrange(0, i as int)),
            decreases self.count - i,
        {
            proof {
                let p = self.buf@.subrange(0, i + 1);
                assert(p.drop_last() =~= self.buf@.subrange(0, i as int));
            }
            if self.buf[i] > m {
                m = self.buf[i];
            }
            i = i + 1;
        }
        m
    }
}

/// A prefix of a sequence sums to no more than the whole.
proof fn lemma_sum_prefix_le(s: Seq<u64>, k: int)
    requires
        0 <= k <= s.len(),
    ensures
        seq_sum(s.subrange(0, k)) <= seq_sum(s),
    decreases s.len() - k,
{
    if k < s.len() {
        lemma_sum_prefix_le(s, k + 1);
        let p = s.subrange(0, k + 1);
        assert(p.drop_last() =~= s.subrange(0, k));
    } else {
        assert(s.subrange(0, k) =~= s);
    }
}

// ─── HUD runtime ─────────────────────────────────────────────────────────────

/// Colour theme of the HUD windows.
#[derive(Debug, Clone, Copy, PartialEq, Eq, Structural)]
pub enum Theme {
    Dark,
}

/// A HUD window: its identifier, title and whether the user may close it.
pub struct HudWindow {
    pub id: String,
    pub title: String,
    pub closeable: bool,
}

/// The HUD windows, their theme and the frames rendered.
pub struct HudRuntime {
    pub windows: Vec<HudWindow>,
    pub theme: Theme,
    pub rendered_frames: u64,
}

/// Summary of the HUD runtime.
#[derive(Debug, Clone, Copy, PartialEq, Eq, Structural)]
pub struct HudRuntimeSnapshot {
    pub window_count: usize,
    pub theme: Theme,
    pub rendered_frames: u64,
    pub has_default_hud_window: bool,
}

/// Some window has the default HUD identifier.
pub open spec fn has_default_window(ws: Seq<HudWindow>) -> bool {
    exists|i: int| 0 <= i < ws.len() && ws[i].id@ == DEFAULT_HUD_WINDOW_ID@
}

/// The HUD window created on initialization: `textquest_hud`, titled
/// "TextQuest HUD", not closeable.
pub fn default_hud_window() -> (r: HudWindow)
    ensures
        r.id@ == DEFAULT_HUD_WINDOW_ID@,
        r.title@ == "TextQuest HUD"@,
        !r.closeable,
{
    HudWindow { id: lit(DEFAULT_HUD_WINDOW_ID), title: lit("TextQuest HUD"), closeable: false }
}

impl HudRuntime {
    /// No windows, dark theme, nothing rendered.
    pub fn new() -> (r: Self)
        ensures
            r.windows@.len() == 0,
            r.theme == Theme::Dark,
            r.rendered_frames == 0,
    {
        HudRuntime { windows: Vec::new(), theme: Theme::Dark, rendered_frames: 0 }
    }

    /// Whether the default HUD window exists.
    pub fn has_default(&self) -> (r: bool)
        ensures
            r == has_default_window(self.windows@),
    {
        let id = chars_of(DEFAULT_HUD_WINDOW_ID);
        let mut i: usize = 0;
        while i < self.windows.len()
            invariant
                0 <= i <= self.windows@.len(),
                id@ == DEFAULT_HUD_WINDOW_ID@,
                forall|j: int| 0 <= j < i ==> self.windows@[j].id@ != DEFAULT_HUD_WINDOW_ID@,
            decreases self.windows@.len() - i,
        {
            let w = chars_of(self.windows[i].id.as_str());
            if chars_eq(w.as_slice(), id.as_slice()) {
                return true;
            }
            i = i + 1;
        }
        false
    }

    /// Add the default HUD window unless it exists.
    pub fn ensure_default_window(&mut self)
        ensures
            has_default_window(final(self).windows@),
            has_default_window(old(self).windows@) ==> final(self).windows@ == old(self).windows@,
            !has_default_window(old(self).windows@) ==> final(self).windows@.len()
                == old(self).windows@.len() + 1,
            final(self).theme == old(self).theme,
            final(self).rendered_frames == old(self).rendered_frames,
    {
        if !self.has_default() {
            let w = default_hud_window();
            self.windows.push(w);
            proof {
                let n = self.windows@.len() - 1;
                assert(self.windows@[n as int].id@ == DEFAULT_HUD_WINDOW_ID@);
            }
        }
    }

    /// Render one HUD frame: ensure the default window and count the frame
    /// (saturating).
    pub fn render_frame(&mut self)
        ensures
            has_default_window(final(self).windows@),
            final(self).rendered_frames == (if old(self).rendered_frames == u64::MAX {
                u64::MAX
            } else {
                (old(self).rendered_frames + 1) as u64
            }),
            final(self).theme == old(self).theme,
    {
        self.ensure_default_window();
        self.rendered_frames = if self.rendered_frames == u64::MAX {
            u64::MAX
        } else {
            self.rendered_frames + 1
        };
    }

    /// Summary of the runtime.
    pub fn snapshot(&self) -> (r: HudRuntimeSnapshot)
        ensures
            r == (HudRuntimeSnapshot {
                window_count: self.windows@.len() as usize,
                theme: self.theme,
                rendered_frames: self.rendered_frames,
                has_default_hud_window: has_default_window(self.windows@),
            }),
    {
        HudRuntimeSnapshot {
            window_count: self.windows.len(),
            theme: self.theme,
            rendered_frames: self.rendered_frames,
            has_default_hud_window: self.has_default(),
        }
    }
}

// ─── Overlay runtime ─────────────────────────────────────────────────────────

/// Everything the overlay tracks between Present calls.
pub struct OverlayRuntime {
    pub state: OverlayState,
    pub backend: Option<Direct3DBackend>,
    pub last_width: u32,
    pub last_height: u32,
    pub last_render_target_count: u32,
    pub resolution_changed: bool,
    pub last_tick_ns: u64,
    pub last_frame_delta_ns: u64,
    pub last_render_ns: u64,
    pub over_budget_frames: u64,
    pub frames: FrameRing,
    pub hud: HudRuntime,
}

impl OverlayRuntime {
    /// The frame ring is well formed.
    pub open spec fn wf(&self) -> bool {
        self.frames.wf()
    }

    /// Uninitialized, nothing recorded.
    pub fn new() -> (r: Self)
        ensures
            r.wf(),
            r.state == OverlayState::Uninitialized,
            r.backend is None,
            r.last_width == 0 && r.last_height == 0,
            r.last_render_target_count == 0,
            !r.resolution_changed,
            r.last_tick_ns == 0 && r.last_frame_delta_ns == 0,
            r.last_render_ns == 0 && r.over_budget_frames == 0,
            r.frames.count == 0 && r.frames.head == 0,
            r.frames.buf@ == Seq::new(FRAME_WINDOW as nat, |i: int| 0u64),
            r.hud.windows@.len() == 0 && r.hud.rendered_frames == 0 && r.hud.theme == Theme::Dark,
    {
        OverlayRuntime {
            state: OverlayState::Uninitialized,
            backend: None,
            last_width: 0,
            last_height: 0,
            last_render_target_count: 0,
            resolution_changed: false,
            last_tick_ns: 0,
            last_frame_delta_ns: 0,
            last_render_ns: 0,
            over_budget_frames: 0,
            frames: FrameRing::new(),
            hud: HudRuntime::new(),
        }
    }
}

/// The current lifecycle state.
pub fn state(rt: &OverlayRuntime) -> (r: OverlayState)
    ensures
        r == rt.state,
{
    rt.state
}

/// Set the lifecycle state.
pub fn set_state(rt: &mut OverlayRuntime, s: OverlayState)
    ensures
        *final(rt) == (OverlayRuntime { state: s, ..*old(rt) }),
{
    rt.state = s;
}

/// The active backend, once initialized.
pub fn active_backend(rt: &OverlayRuntime) -> (r: Option<Direct3DBackend>)
    ensures
        r == rt.backend,
{
    rt.backend
}

/// Summary of the HUD runtime.
pub fn hud_snapshot(rt: &OverlayRuntime) -> (r: HudRuntimeSnapshot)
    ensures
        r == (HudRuntimeSnapshot {
            window_count: rt.hud.windows@.len() as usize,
            theme: rt.hud.theme,
            rendered_frames: rt.hud.rendered_frames,
            has_default_hud_window: has_default_window(rt.hud.windows@),
        }),
{
    rt.hud.snapshot()
}

/// Prepare the platform render context. Without a renderer linked in there
/// is nothing to prepare.
pub fn init_render_context(
    backend: Direct3DBackend,
    width: u32,
    height: u32,
    render_target_count: u32,
    fullscreen: bool,
) {
}

/// Draw one frame with the platform renderer. Without a renderer linked in
/// there is nothing to draw.
pub fn render_frame(backend: Direct3DBackend) {
}

/// Recreate the platform render targets after a resize. Without a renderer
/// linked in there is nothing to recreate.
pub fn handle_resize(width: u32, height: u32) {
}

/// Release the platform render context. Without a renderer linked in there
/// is nothing to release.
pub fn destroy_render_context() {
}

/// Initialize for a backend: record the backend, size and render targets
/// (at least one), create the default HUD window, and become active.
pub fn initialize_for_backend(
    rt: &mut OverlayRuntime,
    backend: Direct3DBackend,
    width: u32,
    height: u32,
    render_target_count: u32,
    fullscreen: bool,
)
    requires
        old(rt).wf(),
    ensures
        final(rt).wf(),
        final(rt).state == OverlayState::Active,
        final(rt).backend == Some(backend),
        final(rt).last_width == width,
        final(rt).last_height == height,
        final(rt).last_render_target_count == at_least_one(render_target_count),
        has_default_window(final(rt).hud.windows@),
        has_default_window(old(rt).hud.windows@) ==> final(rt).hud.windows@ == old(rt).hud.windows@,
        !has_default_window(old(rt).hud.windows@) ==> final(rt).hud.windows@.len()
            == old(rt).hud.windows@.len() + 1,
        final(rt).hud.rendered_frames == old(rt).hud.rendered_frames,
        final(rt).hud.theme == old(rt).hud.theme,
        final(rt).resolution_changed == old(rt).resolution_changed,
        final(rt).last_frame_delta_ns == old(rt).last_frame_delta_ns,
        final(rt).last_tick_ns == old(rt).last_tick_ns,
        final(rt).frames == old(rt).frames,
        final(rt).over_budget_frames == old(rt).over_budget_frames,
        final(rt).last_render_ns == old(rt).last_render_ns,
{
    rt.state = OverlayState::Initializing;
    rt.backend = Some(backend);
    rt.last_width = width;
    rt.last_height = height;
    let targets = max1(render_target_count);
    rt.last_render_target_count = targets;
    rt.hud.ensure_default_window();
    init_render_context(backend, width, height, targets, fullscreen);
    rt.state = OverlayState::Active;
}

/// Initialize for DX11 with one render target, windowed.
pub fn initialize(rt: &mut OverlayRuntime, width: u32, height: u32)
    requires
        old(rt).wf(),
    ensures
        final(rt).wf(),
        final(rt).state == OverlayState::Active,
        final(rt).backend == Some(Direct3DBackend::Dx11),
        final(rt).last_width == width,
        final(rt).last_height == height,
        final(rt).last_render_target_count == 1,
        has_default_window(final(rt).hud.windows@),
        !has_default_window(old(rt).hud.windows@) ==> final(rt).hud.windows@.len()
            == old(rt).hud.windows@.len() + 1,
        has_default_window(old(rt).hud.windows@) ==> final(rt).hud.windows@ == old(rt).hud.windows@,
        final(rt).hud.rendered_frames == old(rt).hud.rendered_frames,
        final(rt).hud.theme == old(rt).hud.theme,
{
    initialize_for_backend(rt, Direct3DBackend::Dx11, width, height, 1, false);
}

/// Record a Present at wall-clock time `now_ns`: the delta from the
/// previous one (when there was one and time advanced) becomes the last
/// frame delta and enters the frame ring.
pub fn tick_frame_time(rt: &mut OverlayRuntime, now_ns: u64)
    requires
        old(rt).wf(),
    ensures
        final(rt).wf(),
        final(rt).last_tick_ns == now_ns,
        old(rt).last_tick_ns > 0 && now_ns > old(rt).last_tick_ns ==> final(rt).last_frame_delta_ns
            == now_ns - old(rt).last_tick_ns && final(rt).frames.count == (if old(rt).frames.count
            < FRAME_WINDOW {
            old(rt).frames.count + 1
        } else {
            FRAME_WINDOW as int
        }) && final(rt).frames.buf@ == old(rt).frames.buf@.update(
            old(rt).frames.head as int,
            (now_ns - old(rt).last_tick_ns) as u64,
        ),
        !(old(rt).last_tick_ns > 0 && now_ns > old(rt).last_tick_ns) ==> final(rt).last_frame_delta_ns
            == old(rt).last_frame_delta_ns && final(rt).frames == old(rt).frames,
        final(rt).state == old(rt).state,
        final(rt).hud == old(rt).hud,
        final(rt).backend == old(rt).backend,
        final(rt).last_width == old(rt).last_width,
        final(rt).last_height == old(rt).last_height,
        final(rt).last_render_target_count == old(rt).last_render_target_count,
        final(rt).resolution_changed == old(rt).resolution_changed,
        final(rt).last_render_ns == old(rt).last_render_ns,
        final(rt).over_budget_frames == old(rt).over_budget_frames,
{
    let prev = rt.last_tick_ns;
    rt.last_tick_ns = now_ns;
    if prev > 0 && now_ns > prev {
        let delta = now_ns - prev;
        rt.last_frame_delta_ns = delta;
        rt.frames.push(delta);
    }
}

/// One legacy tick at time `now_ns`: frame timing, then one HUD frame when
/// active.
pub fn tick(rt: &mut OverlayRuntime, now_ns: u64)
    requires
        old(rt).wf(),
    ensures
        final(rt).wf(),
        final(rt).state == old(rt).state,
        old(rt).state == OverlayState::Active ==> final(rt).hud.rendered_frames == (if old(
            rt,
        ).hud.rendered_frames == u64::MAX {
            u64::MAX
        } else {
            (old(rt).hud.rendered_frames + 1) as u64
        }) && has_default_window(final(rt).hud.windows@),
        old(rt).state != OverlayState::Active ==> final(rt).hud == old(rt).hud,
        final(rt).last_tick_ns == now_ns,
        final(rt).last_width == old(rt).last_width,
        final(rt).last_height == old(rt).last_height,
{
    tick_frame_time(rt, now_ns);
    if rt.state == OverlayState::Active {
        rt.hud.render_frame();
        match rt.backend {
            Some(b) => render_frame(b),
            None => {},
        }
    }
}

/// The backbuffer size last seen.
pub fn current_resolution(rt: &OverlayRuntime) -> (r: (u32, u32))
    ensures
        r == (rt.last_width, rt.last_height),
{
    (rt.last_width, rt.last_height)
}

/// The last frame delta in nanoseconds.
pub fn last_frame_delta_ns(rt: &OverlayRuntime) -> (r: u64)
    ensures
        r == rt.last_frame_delta_ns,
{
    rt.last_frame_delta_ns
}

/// Record a backbuffer size; a different size raises the
/// resolution-changed flag.
pub fn on_resize(rt: &mut OverlayRuntime, width: u32, height: u32)
    ensures
        final(rt).last_width == width,
        final(rt).last_height == height,
        final(rt).resolution_changed == (old(rt).resolution_changed || old(rt).last_width != width
            || old(rt).last_height != height),
        final(rt).state == old(rt).state,
        final(rt).frames == old(rt).frames,
        final(rt).hud == old(rt).hud,
        final(rt).backend == old(rt).backend,
        final(rt).last_render_target_count == old(rt).last_render_target_count,
        final(rt).last_frame_delta_ns == old(rt).last_frame_delta_ns,
        final(rt).last_tick_ns == old(rt).last_tick_ns,
        final(rt).last_render_ns == old(rt).last_render_ns,
        final(rt).over_budget_frames == old(rt).over_budget_frames,
{
    let prev_w = rt.last_width;
    let prev_h = rt.last_height;
    rt.last_width = width;
    rt.last_height = height;
    if prev_w != width || prev_h != height {
        rt.resolution_changed = true;
        if rt.state == OverlayState::Active {
            handle_resize(width, height);
        }
    }
}

/// Read and clear the resolution-changed flag.
pub fn take_resolution_changed(rt: &mut OverlayRuntime) -> (r: bool)
    ensures
        r == old(rt).resolution_changed,
        *final(rt) == (OverlayRuntime { resolution_changed: false, ..*old(rt) }),
{
    let r = rt.resolution_changed;
    rt.resolution_changed = false;
    r
}

/// Shut down: uninitialized, no backend, no render targets.
pub fn shutdown(rt: &mut OverlayRuntime)
    ensures
        *final(rt) == (OverlayRuntime {
            state: OverlayState::Uninitialized,
            backend: None,
            last_render_target_count: 0,
            ..*old(rt)
        }),
{
    destroy_render_context();
    rt.state = OverlayState::Uninitialized;
    rt.backend = None;
    rt.last_render_target_count = 0;
}

/// The runtime after a suspend: an active overlay is suspended; otherwise
/// nothing changes.
pub open spec fn suspend_spec(rt: OverlayRuntime) -> OverlayRuntime {
    if rt.state == OverlayState::Active {
        OverlayRuntime { state: OverlayState::Suspended, ..rt }
    } else {
        rt
    }
}

/// The runtime after a resume: a suspended overlay is active again;
/// otherwise nothing changes.
pub open spec fn resume_spec(rt: OverlayRuntime) -> OverlayRuntime {
    if rt.state == OverlayState::Suspended {
        OverlayRuntime { state: OverlayState::Active, ..rt }
    } else {
        rt
    }
}

/// Suspending an active overlay and resuming it gives back the same
/// runtime; resuming one that is not suspended, or suspending one that is
/// not active, changes nothing.
pub proof fn lemma_suspend_resume_round_trip(rt: OverlayRuntime)
    ensures
        rt.state == OverlayState::Active ==> resume_spec(suspend_spec(rt)) == rt,
        rt.state != OverlayState::Suspended ==> resume_spec(rt) == rt,
        rt.state != OverlayState::Active ==> suspend_spec(rt) == rt,
{
}

/// Suspend when active; otherwise nothing changes.
pub fn suspend(rt: &mut OverlayRuntime)
    ensures
        *final(rt) == suspend_spec(*old(rt)),
{
    if rt.state == OverlayState::Active {
        rt.state = OverlayState::Suspended;
    }
}

/// Resume when suspended; otherwise nothing changes.
pub fn resume(rt: &mut OverlayRuntime)
    ensures
        *final(rt) == resume_spec(*old(rt)),
{
    if rt.state == OverlayState::Suspended {
        rt.state = OverlayState::Active;
    }
}

/// The device or swap chain was recreated: shut down and initialize again.
pub fn on_device_reset(
    rt: &mut OverlayRuntime,
    backend: Direct3DBackend,
    width: u32,
    height: u32,
    render_target_count: u32,
    fullscreen: bool,
)
    requires
        old(rt).wf(),
    ensures
        final(rt).wf(),
        final(rt).state == OverlayState::Active,
        final(rt).backend == Some(backend),
        final(rt).last_width == width,
        final(rt).last_height == height,
        final(rt).last_render_target_count == at_least_one(render_target_count),
{
    shutdown(rt);
    initialize_for_backend(rt, backend, width, height, render_target_count, fullscreen);
}

/// One Present: frame timing at `now_ns`; initialize on the first one,
/// otherwise record the backend and targets and handle a size change; the
/// frame is rendered when active, taking `render_time_ns` of CPU time.
pub fn render_present(
    rt: &mut OverlayRuntime,
    frame: OverlayFrameContext,
    now_ns: u64,
    render_time_ns: u64,
) -> (r: OverlayFrameResult)
    requires
        old(rt).wf(),
    ensures
        final(rt).wf(),
        final(rt).backend == Some(frame.backend),
        final(rt).last_render_target_count == at_least_one(frame.render_target_count),
        final(rt).last_width == frame.width,
        final(rt).last_height == frame.height,
        old(rt).state == OverlayState::Uninitialized ==> final(rt).state == OverlayState::Active,
        old(rt).state != OverlayState::Uninitialized ==> final(rt).state == old(rt).state,
        r.backend == frame.backend,
        r.render_target_count == at_least_one(frame.render_target_count),
        !r.over_budget,
        r.render_time_ns == (if final(rt).state == OverlayState::Active {
            render_time_ns
        } else {
            0
        }),
        final(rt).last_render_ns == r.render_time_ns,
        final(rt).over_budget_frames == old(rt).over_budget_frames,
{
    tick_frame_time(rt, now_ns);
    if rt.state == OverlayState::Uninitialized {
        initialize_for_backend(
            rt,
            frame.backend,
            frame.width,
            frame.height,
            frame.render_target_count,
            frame.fullscreen,
        );
    } else {
        rt.backend = Some(frame.backend);
        rt.last_render_target_count = max1(frame.render_target_count);
        if rt.last_width != frame.width || rt.last_height != frame.height {
            on_resize(rt, frame.width, frame.height);
        }
    }
    let targets = max1(frame.render_target_count);
    let result = if rt.state == OverlayState::Active {
        OverlayFrameResult {
            backend: frame.backend,
            render_time_ns,
            render_target_count: targets,
            over_budget: false,
        }
    } else {
        OverlayFrameResult {
            backend: frame.backend,
            render_time_ns: 0,
            render_target_count: targets,
            over_budget: false,
        }
    };
    rt.last_render_ns = result.render_time_ns;
    if result.over_budget {
        rt.over_budget_frames = if rt.over_budget_frames == u64::MAX {
            0
        } else {
            rt.over_budget_frames + 1
        };
    }
    result
}

} // verus!
